use devspace::docker::client::{
    ClientError, ContainerSummary, DockerClient, ImageSummary, Session,
};
use devspace::docker::error::{Error, Operation};
use devspace::docker::image::{has_tag, new_image, resolve_image, tag_of, verify_build, Image};
use devspace::project::{normalize_config, Config, ImageSource, Project};
use std::cell::RefCell;
use std::collections::VecDeque;

/// Gives out its image lists one query after another, counts the calls, and
/// refuses everything that is not an image query or a build.
struct ImageClient {
    images: RefCell<VecDeque<Result<Vec<ImageSummary>, ClientError>>>,
    build: Result<(), ClientError>,
    queries: RefCell<usize>,
    builds: RefCell<Vec<String>>,
}

fn image_client(images: Vec<Result<Vec<ImageSummary>, ClientError>>) -> Session<ImageClient> {
    Session::new(ImageClient {
        images: RefCell::new(images.into_iter().collect()),
        build: Ok(()),
        queries: RefCell::new(0),
        builds: RefCell::new(Vec::new()),
    })
}

fn unexpected<T>() -> Result<T, ClientError> {
    Err(ClientError::Api("unexpected call".to_string()))
}

impl DockerClient for ImageClient {
    fn list_containers(&self, _: &str) -> Result<Vec<ContainerSummary>, ClientError> {
        unexpected()
    }

    fn list_images(&self, _: &str) -> Result<Vec<ImageSummary>, ClientError> {
        *self.queries.borrow_mut() += 1;
        self.images.borrow_mut().pop_front().unwrap_or_else(unexpected)
    }

    fn build_image(&self, project_name: &str, dockerfile: &str) -> Result<(), ClientError> {
        self.builds.borrow_mut().push(format!("{} {}", project_name, dockerfile));
        self.build.clone()
    }

    fn start_container(&self, _: &str) -> Result<(), ClientError> {
        unexpected()
    }

    fn stop_container(&self, _: &str) -> Result<(), ClientError> {
        unexpected()
    }

    fn run(&self, _: &str, _: &str, _: bool, _: Vec<&str>) -> Result<(), ClientError> {
        unexpected()
    }

    fn exec(&self, _: &str, _: &[&str]) -> Result<(), ClientError> {
        unexpected()
    }
}

fn project(name: &str, image: Option<&str>, dockerfile: Option<&str>, directory: &str) -> Project {
    let config = normalize_config(Config {
        name: Some(name.to_string()),
        image: image.map(String::from),
        dockerfile: dockerfile.map(String::from),
        ..Default::default()
    })
    .unwrap();
    Project::new(&format!("/tmp/devspace_test/{}", directory), config).unwrap()
}

fn tags(tags: &[&str]) -> ImageSummary {
    ImageSummary { repo_tags: tags.iter().map(|t| t.to_string()).collect() }
}

#[test]
fn test_foreign_image() {
    let project = project("aaa", Some("testimage:latest"), None, "aaa");
    let mut client = image_client(vec![]);

    let image = new_image(&project.name, &project.config.image_source, &mut client).unwrap();
    assert!(image.existing());
    assert_eq!(image.name(), "testimage:latest");
    assert_eq!(*client.into_inner().queries.borrow(), 0);
}

#[test]
fn test_dockerfile_image_not_existing() {
    let project = project("aaa", None, Some("Dockerfile.test"), "aaa");
    let mut client = image_client(vec![Ok(vec![])]);

    let image = new_image(&project.name, &project.config.image_source, &mut client).unwrap();
    assert!(!image.existing());
    assert_eq!(image.name(), "aaa:latest");
}

#[test]
fn test_dockerfile_image_existing() {
    let project = project("bbb", None, Some("Dockerfile.test2"), "yyyy");
    let mut client = image_client(vec![Ok(vec![ImageSummary {
        repo_tags: vec!["bbb:latest".to_string()],
        ..Default::default()
    }])]);

    let image = new_image(&project.name, &project.config.image_source, &mut client).unwrap();
    assert!(image.existing());
    assert_eq!(image.name(), "bbb:latest");
}

#[test]
fn resolving_twice_gives_the_same_answer_twice() {
    let listed = vec![tags(&["other:1"]), tags(&["bbb:latest", "bbb:1"])];
    let mut client = image_client(vec![Ok(listed.clone()), Ok(listed)]);
    let source = ImageSource::Dockerfile("Dockerfile".to_string());
    let first = new_image("bbb", &source, &mut client).unwrap();
    let second = new_image("bbb", &source, &mut client).unwrap();
    assert_eq!(first.existing(), second.existing());
    assert_eq!(first.name(), second.name());
    let client = client.into_inner();
    assert_eq!(*client.queries.borrow(), 2);
    assert!(client.builds.borrow().is_empty());
}

#[test]
fn order_of_the_listing_does_not_matter() {
    let one = vec![tags(&["a:1"]), tags(&["bbb:latest"]), tags(&["c:1", "c:2"])];
    let other = vec![tags(&["c:1", "c:2"]), tags(&["a:1"]), tags(&["bbb:latest"])];
    assert_eq!(has_tag(&one, "bbb:latest"), has_tag(&other, "bbb:latest"));
    assert_eq!(has_tag(&one, "zzz:latest"), has_tag(&other, "zzz:latest"));
    assert!(has_tag(&one, "bbb:latest") && !has_tag(&one, "zzz:latest"));
}

#[test]
fn only_the_exact_tag_counts() {
    let near = vec![
        tags(&["bbb", "bbb:latest2", "abbb:latest", "bbb:lates", "BBB:latest", " bbb:latest"]),
        tags(&[]),
    ];
    assert!(!has_tag(&near, "bbb:latest"));
    assert!(!has_tag(&vec![], "bbb:latest"));
    assert!(has_tag(&vec![tags(&["x:1"]), tags(&["y:1", "bbb:latest"])], "bbb:latest"));
    assert_eq!(tag_of("bbb"), "bbb:latest");
    assert_eq!(tag_of(""), ":latest");
}

#[test]
fn foreign_image_is_never_built() {
    let mut client = image_client(vec![]);
    let source = ImageSource::Image("alpine:latest".to_string());
    let mut image = new_image("demo", &source, &mut client).unwrap();
    assert_eq!(image.build(&mut client), Ok(()));
    assert!(image.existing());
    assert_eq!(image.name(), "alpine:latest");
    let client = client.into_inner();
    assert_eq!(*client.queries.borrow(), 0);
    assert!(client.builds.borrow().is_empty());
}

#[test]
fn build_is_confirmed_by_a_second_query() {
    let mut client = image_client(vec![Ok(vec![]), Ok(vec![tags(&["demo:latest"])])]);
    let source = ImageSource::Dockerfile(".devcontainer/Dockerfile".to_string());
    let mut image = new_image("demo", &source, &mut client).unwrap();
    assert!(!image.existing());
    assert_eq!(image.build(&mut client), Ok(()));
    assert!(image.existing());
    assert_eq!(image.name(), "demo:latest");
    let client = client.into_inner();
    assert_eq!(*client.queries.borrow(), 2);
    assert_eq!(*client.builds.borrow(), vec!["demo .devcontainer/Dockerfile".to_string()]);
}

#[test]
fn build_that_leaves_no_image_has_failed() {
    let mut client = image_client(vec![Ok(vec![]), Ok(vec![tags(&["demo:old"])])]);
    let source = ImageSource::Dockerfile("Dockerfile".to_string());
    let mut image = new_image("demo", &source, &mut client).unwrap();
    assert_eq!(
        image.build(&mut client),
        Err(Error::ImageBuildVerificationFailed { tag: "demo:latest".to_string() })
    );
    assert!(!image.existing());
}

#[test]
fn failed_build_is_not_verified() {
    let mut client = image_client(vec![Ok(vec![])]);
    let source = ImageSource::Dockerfile("Dockerfile".to_string());
    let mut image = new_image("demo", &source, &mut client).unwrap();
    let mut inner = client.into_inner();
    inner.build = Err(ClientError::Api("no space left".to_string()));
    let mut client = Session::new(inner);
    assert_eq!(
        image.build(&mut client),
        Err(Error::BuildFailed {
            name: "demo".to_string(),
            cause: ClientError::Api("no space left".to_string()),
        })
    );
    assert!(!image.existing());
    assert_eq!(*client.into_inner().queries.borrow(), 1);
}

#[test]
fn failed_image_query_fails_the_resolution() {
    let cause = ClientError::Api("daemon unreachable".to_string());
    let mut client = image_client(vec![Err(cause.clone())]);
    let source = ImageSource::Dockerfile("Dockerfile".to_string());
    let failure = new_image("demo", &source, &mut client).err().unwrap();
    assert_eq!(
        failure,
        Error::RuntimeQueryFailed {
            operation: Operation::ListImages,
            name: "demo".to_string(),
            cause: cause.clone(),
        }
    );
    assert_eq!(
        resolve_image("demo", "Dockerfile", Err(cause.clone())).err(),
        Some(failure.clone())
    );
    assert_eq!(verify_build("demo", Err(cause)), Err(failure));
}

#[test]
fn verification_reads_the_list_after_the_build() {
    assert_eq!(verify_build("demo", Ok(vec![tags(&["demo:latest"])])), Ok(()));
    assert_eq!(
        verify_build("demo", Ok(vec![])),
        Err(Error::ImageBuildVerificationFailed { tag: "demo:latest".to_string() })
    );
    let image = resolve_image("demo", "Dockerfile", Ok(vec![tags(&["demo:latest"])])).ok().unwrap();
    assert!(image.existing());
    assert_eq!(image.name(), "demo:latest");
    let image = resolve_image("demo", "Dockerfile", Ok(vec![])).ok().unwrap();
    assert!(!image.existing());
}
