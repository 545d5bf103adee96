use devspace::cli::command::{ensure_and_attach, progress_notice, shell};
use devspace::cli::{run, Cli, Commands};
use devspace::docker::client::{
    ClientError, ContainerSummary, DockerClient, ImageSummary, Session,
};
use devspace::docker::container::Container;
use devspace::docker::error::{Error, ErrorKind, Operation};
use devspace::docker::lifecycle::ContainerStatus;
use devspace::docker::process::{ExecutionError, ExitStatus};
use devspace::project::{Config, ImageSource, Project};
use std::cell::RefCell;
use std::collections::VecDeque;
use std::rc::Rc;

/// A runtime played from a script: the containers it lists, the image lists
/// it gives out one query after another (the last one again once the script
/// has run out), and the operation it fails, if any. Every call is written
/// down.
struct Scripted {
    containers: Vec<ContainerSummary>,
    images: RefCell<VecDeque<Vec<ImageSummary>>>,
    failing: Option<&'static str>,
    calls: Rc<RefCell<Vec<String>>>,
}

fn scripted(
    containers: Vec<ContainerSummary>,
    images: Vec<Vec<ImageSummary>>,
    failing: Option<&'static str>,
) -> (Session<Scripted>, Rc<RefCell<Vec<String>>>) {
    let calls = Rc::new(RefCell::new(Vec::new()));
    let client = Scripted {
        containers,
        images: RefCell::new(images.into_iter().collect()),
        failing,
        calls: calls.clone(),
    };
    (Session::new(client), calls)
}

fn exit_one() -> ClientError {
    ClientError::Execution(ExecutionError::NonZeroExit(ExitStatus {
        code: Some(1),
        description: "exit status: 1".to_string(),
    }))
}

impl Scripted {
    fn note(&self, operation: &'static str, call: String) -> Result<(), ClientError> {
        self.calls.borrow_mut().push(call);
        if self.failing == Some(operation) {
            Err(exit_one())
        } else {
            Ok(())
        }
    }
}

impl DockerClient for Scripted {
    fn list_containers(&self, project_name: &str) -> Result<Vec<ContainerSummary>, ClientError> {
        self.note("list_containers", format!("list_containers {}", project_name))
            .map_err(|_| ClientError::Api("daemon unreachable".to_string()))?;
        Ok(self.containers.clone())
    }

    fn list_images(&self, project_name: &str) -> Result<Vec<ImageSummary>, ClientError> {
        self.note("list_images", format!("list_images {}", project_name))
            .map_err(|_| ClientError::Api("daemon unreachable".to_string()))?;
        let mut images = self.images.borrow_mut();
        if images.len() > 1 {
            Ok(images.pop_front().unwrap())
        } else {
            Ok(images.front().cloned().unwrap_or_default())
        }
    }

    fn build_image(&self, project_name: &str, dockerfile: &str) -> Result<(), ClientError> {
        self.note("build_image", format!("build_image {} {}", project_name, dockerfile))
    }

    fn start_container(&self, name: &str) -> Result<(), ClientError> {
        self.note("start_container", format!("start_container {}", name))
    }

    fn stop_container(&self, name: &str) -> Result<(), ClientError> {
        self.note("stop_container", format!("stop_container {}", name))
    }

    fn run(
        &self,
        name: &str,
        image_name: &str,
        deattach: bool,
        args: Vec<&str>,
    ) -> Result<(), ClientError> {
        self.note("run", format!("run {} {} {} {:?}", name, image_name, deattach, args))
    }

    fn exec(&self, contain_name: &str, cmd: &[&str]) -> Result<(), ClientError> {
        self.note("exec", format!("exec {} {:?}", contain_name, cmd))
    }
}

fn demo(source: ImageSource, post_create: Option<Vec<&str>>) -> Project {
    Project {
        root: "/work/demo".to_string(),
        config_dir: "/work/demo/.devcontainer".to_string(),
        config_file: "/work/demo/.devcontainer/devcontainer.json".to_string(),
        name: "demo".to_string(),
        config: Config {
            name: Some("demo".to_string()),
            image: None,
            dockerfile: None,
            image_source: source,
            post_create_command: post_create.map(|c| c.into_iter().map(String::from).collect()),
        },
    }
}

fn dockerfile() -> ImageSource {
    ImageSource::Dockerfile(".devcontainer/Dockerfile".to_string())
}

fn container(state: &str) -> ContainerSummary {
    ContainerSummary { names: Some(vec!["/demo".to_string()]), state: Some(state.to_string()) }
}

fn tagged(tag: &str) -> ImageSummary {
    ImageSummary { repo_tags: vec![tag.to_string()] }
}

fn calls(log: &Rc<RefCell<Vec<String>>>) -> Vec<String> {
    log.borrow().clone()
}

#[test]
fn absent_container_is_built_created_and_attached() {
    let (mut client, log) = scripted(vec![], vec![vec![], vec![tagged("demo:latest")]], None);
    let project = demo(dockerfile(), None);
    assert_eq!(shell(&project, &mut client, false), Ok(()));
    assert_eq!(
        calls(&log),
        vec![
            "list_containers demo",
            "list_images demo",
            "build_image demo .devcontainer/Dockerfile",
            "list_images demo",
            "run demo demo:latest true [\"sleep\", \"infinity\"]",
            "exec demo [\"/bin/zsh\"]",
        ]
    );
}

#[test]
fn running_container_is_attached_at_once() {
    let (mut client, log) = scripted(vec![container("running")], vec![], None);
    let project = demo(dockerfile(), None);
    assert_eq!(shell(&project, &mut client, false), Ok(()));
    assert_eq!(calls(&log), vec!["list_containers demo", "exec demo [\"/bin/zsh\"]"]);
}

#[test]
fn stopped_container_is_started_then_attached() {
    let (mut client, log) = scripted(vec![container("exited")], vec![], None);
    let project = demo(dockerfile(), None);
    assert_eq!(shell(&project, &mut client, false), Ok(()));
    assert_eq!(
        calls(&log),
        vec!["list_containers demo", "start_container demo", "exec demo [\"/bin/zsh\"]"]
    );
    assert!(!calls(&log).iter().any(|c| c.starts_with("run") || c.starts_with("build_image")));
}

#[test]
fn prebuilt_image_is_used_without_a_query() {
    let (mut client, log) = scripted(vec![], vec![], None);
    let project = demo(ImageSource::Image("alpine:latest".to_string()), None);
    assert_eq!(shell(&project, &mut client, false), Ok(()));
    assert_eq!(
        calls(&log),
        vec![
            "list_containers demo",
            "run demo alpine:latest true [\"sleep\", \"infinity\"]",
            "exec demo [\"/bin/zsh\"]",
        ]
    );
    assert!(!calls(&log).iter().any(|c| c.starts_with("list_images")));
}

#[test]
fn existing_image_is_not_built_again() {
    let (mut client, log) = scripted(vec![], vec![vec![tagged("demo:latest")]], None);
    let project = demo(dockerfile(), None);
    assert_eq!(shell(&project, &mut client, false), Ok(()));
    assert_eq!(
        calls(&log),
        vec![
            "list_containers demo",
            "list_images demo",
            "run demo demo:latest true [\"sleep\", \"infinity\"]",
            "exec demo [\"/bin/zsh\"]",
        ]
    );
}

#[test]
fn post_create_command_runs_once_before_the_shell() {
    let (mut client, log) = scripted(vec![], vec![], None);
    let source = ImageSource::Image("alpine:latest".to_string());
    let project = demo(source, Some(vec!["echo", "hello"]));
    assert_eq!(shell(&project, &mut client, true), Ok(()));
    assert_eq!(
        calls(&log),
        vec![
            "list_containers demo",
            "run demo alpine:latest true [\"sleep\", \"infinity\"]",
            "exec demo [\"echo\", \"hello\"]",
            "exec demo [\"/bin/zsh\"]",
            "stop_container demo",
        ]
    );
}

#[test]
fn longest_reconciliation_makes_eight_calls() {
    let (mut client, log) = scripted(vec![], vec![vec![], vec![tagged("demo:latest")]], None);
    let project = demo(dockerfile(), Some(vec!["make", "deps"]));
    assert_eq!(shell(&project, &mut client, true), Ok(()));
    assert_eq!(
        calls(&log),
        vec![
            "list_containers demo",
            "list_images demo",
            "build_image demo .devcontainer/Dockerfile",
            "list_images demo",
            "run demo demo:latest true [\"sleep\", \"infinity\"]",
            "exec demo [\"make\", \"deps\"]",
            "exec demo [\"/bin/zsh\"]",
            "stop_container demo",
        ]
    );
    let builds = calls(&log).iter().filter(|c| c.starts_with("build_image")).count();
    let creations = calls(&log).iter().filter(|c| c.starts_with("run ")).count();
    assert_eq!((builds, creations), (1, 1));
}

#[test]
fn stop_after_stops_the_container_when_the_shell_has_ended() {
    let (mut client, log) = scripted(vec![container("running")], vec![], None);
    let project = demo(dockerfile(), None);
    assert_eq!(shell(&project, &mut client, true), Ok(()));
    assert_eq!(
        calls(&log),
        vec!["list_containers demo", "exec demo [\"/bin/zsh\"]", "stop_container demo"]
    );
}

#[test]
fn ambiguous_containers_stop_everything() {
    let (mut client, log) = scripted(vec![container("running"), container("exited")], vec![], None);
    let project = demo(dockerfile(), None);
    assert_eq!(
        shell(&project, &mut client, true),
        Err(Error::AmbiguousContainer { name: "demo".to_string() })
    );
    assert_eq!(calls(&log), vec!["list_containers demo"]);
}

#[test]
fn build_without_the_tag_fails_verification() {
    let (mut client, log) = scripted(vec![], vec![vec![], vec![tagged("other:latest")]], None);
    let project = demo(dockerfile(), None);
    let failure = shell(&project, &mut client, false).unwrap_err();
    assert_eq!(failure, Error::ImageBuildVerificationFailed { tag: "demo:latest".to_string() });
    assert_eq!(failure.kind(), ErrorKind::BuildFailed);
    assert_eq!(failure.message(), "Image not found after build");
    assert_eq!(
        calls(&log),
        vec![
            "list_containers demo",
            "list_images demo",
            "build_image demo .devcontainer/Dockerfile",
            "list_images demo",
        ]
    );
}

#[test]
fn failed_build_ends_the_sequence() {
    let (mut client, log) = scripted(vec![], vec![vec![]], Some("build_image"));
    let project = demo(dockerfile(), None);
    let failure = shell(&project, &mut client, false).unwrap_err();
    assert_eq!(
        failure,
        Error::BuildFailed {
            name: "demo".to_string(),
            cause: exit_one(),
        }
    );
    assert_eq!(failure.kind(), ErrorKind::BuildFailed);
    assert_eq!(failure.message(), "can not build image");
    assert_eq!(calls(&log).len(), 3);
}

#[test]
fn failed_query_is_passed_on_with_its_cause() {
    let (mut client, log) = scripted(vec![], vec![], Some("list_containers"));
    let project = demo(dockerfile(), None);
    let failure = shell(&project, &mut client, false).unwrap_err();
    assert_eq!(
        failure,
        Error::RuntimeQueryFailed {
            operation: Operation::ListContainers,
            name: "demo".to_string(),
            cause: ClientError::Api("daemon unreachable".to_string()),
        }
    );
    assert_eq!(failure.kind(), ErrorKind::RuntimeQueryFailed);
    assert_eq!(failure.message(), "can not list containers");
    assert_eq!(calls(&log), vec!["list_containers demo"]);

    let (mut client, log) = scripted(vec![], vec![], Some("list_images"));
    let failure = shell(&project, &mut client, false).unwrap_err();
    assert_eq!(
        failure,
        Error::RuntimeQueryFailed {
            operation: Operation::ListImages,
            name: "demo".to_string(),
            cause: ClientError::Api("daemon unreachable".to_string()),
        }
    );
    assert_eq!(failure.message(), "can not list images");
    assert_eq!(calls(&log), vec!["list_containers demo", "list_images demo"]);
}

#[test]
fn failed_commands_are_execution_failures() {
    let cause = exit_one();
    let project = demo(ImageSource::Image("alpine:latest".to_string()), None);

    let (mut client, log) = scripted(vec![], vec![], Some("run"));
    let failure = shell(&project, &mut client, true).unwrap_err();
    assert_eq!(
        failure,
        Error::ExecutionFailed {
            operation: Operation::Run,
            name: "demo".to_string(),
            cause: cause.clone(),
        }
    );
    assert_eq!(failure.kind(), ErrorKind::ExecutionFailed);
    assert_eq!(failure.message(), "can not run container");
    assert_eq!(calls(&log).len(), 2);

    let (mut client, log) = scripted(vec![container("created")], vec![], Some("start_container"));
    let failure = shell(&project, &mut client, true).unwrap_err();
    assert_eq!(
        failure,
        Error::ExecutionFailed {
            operation: Operation::StartContainer,
            name: "demo".to_string(),
            cause: cause.clone(),
        }
    );
    assert_eq!(failure.message(), "can not start container");
    assert_eq!(calls(&log), vec!["list_containers demo", "start_container demo"]);

    let (mut client, log) = scripted(vec![container("running")], vec![], Some("exec"));
    let failure = shell(&project, &mut client, true).unwrap_err();
    assert_eq!(
        failure,
        Error::ExecutionFailed {
            operation: Operation::Exec,
            name: "demo".to_string(),
            cause: cause.clone(),
        }
    );
    assert_eq!(failure.message(), "can not exec in container");
    assert_eq!(calls(&log), vec!["list_containers demo", "exec demo [\"/bin/zsh\"]"]);

    let (mut client, log) = scripted(vec![container("running")], vec![], Some("stop_container"));
    let failure = shell(&project, &mut client, true).unwrap_err();
    assert_eq!(
        failure,
        Error::ExecutionFailed {
            operation: Operation::StopContainer,
            name: "demo".to_string(),
            cause,
        }
    );
    assert_eq!(failure.message(), "can not stop container");
    assert_eq!(calls(&log).len(), 3);
}

#[test]
fn failed_post_create_command_ends_the_setup() {
    let (mut client, log) = scripted(vec![], vec![], Some("exec"));
    let source = ImageSource::Image("alpine:latest".to_string());
    let project = demo(source, Some(vec!["make", "deps"]));
    let failure = shell(&project, &mut client, false).unwrap_err();
    assert_eq!(failure.kind(), ErrorKind::ExecutionFailed);
    assert_eq!(
        calls(&log),
        vec![
            "list_containers demo",
            "run demo alpine:latest true [\"sleep\", \"infinity\"]",
            "exec demo [\"make\", \"deps\"]",
        ]
    );
}

#[test]
fn any_command_can_be_attached() {
    let (mut client, log) = scripted(vec![container("running")], vec![], None);
    let project = demo(dockerfile(), None);
    assert_eq!(ensure_and_attach(&project, &["ls", "-l"], false, &mut client), Ok(()));
    assert_eq!(calls(&log), vec!["list_containers demo", "exec demo [\"ls\", \"-l\"]"]);
}

#[test]
fn operations_move_the_container_through_its_states() {
    let (mut client, log) = scripted(vec![], vec![], None);
    let project = demo(ImageSource::Image("alpine:latest".to_string()), None);
    let mut container = Container::new(&project.name, &project.config, &mut client).unwrap();
    assert_eq!(container.status(), ContainerStatus::Absent);
    assert!(container.summary().is_none());
    assert_eq!(container.setup(&mut client), Ok(()));
    assert_eq!(container.status(), ContainerStatus::Running);
    assert_eq!(container.exec(&mut client, &["true"]), Ok(()));
    assert_eq!(container.stop(&mut client), Ok(()));
    assert_eq!(container.status(), ContainerStatus::Stopped);
    assert_eq!(container.start(&mut client), Ok(()));
    assert_eq!(container.status(), ContainerStatus::Running);
    // What the runtime reported at the resolution stands as it was.
    assert!(container.summary().is_none());
    assert!(!container.existing() && !container.running());
    assert_eq!(
        calls(&log),
        vec![
            "list_containers demo",
            "run demo alpine:latest true [\"sleep\", \"infinity\"]",
            "exec demo [\"true\"]",
            "stop_container demo",
            "start_container demo",
        ]
    );
    let client = client.into_inner();
    assert_eq!(client.failing, None);
}

#[test]
fn failed_operations_leave_the_state_as_it_was() {
    let (mut client, _) = scripted(vec![container("exited")], vec![], Some("start_container"));
    let project = demo(dockerfile(), None);
    let mut container = Container::new(&project.name, &project.config, &mut client).unwrap();
    assert_eq!(container.status(), ContainerStatus::Stopped);
    assert_eq!(
        container.summary().as_ref().and_then(|s| s.state.clone()),
        Some("exited".to_string())
    );
    assert!(container.start(&mut client).is_err());
    assert_eq!(container.status(), ContainerStatus::Stopped);
    assert!(container.existing() && !container.running());

    let (mut client, _) = scripted(vec![], vec![], Some("run"));
    let project = demo(ImageSource::Image("alpine:latest".to_string()), None);
    let mut container = Container::new(&project.name, &project.config, &mut client).unwrap();
    assert!(container.setup(&mut client).is_err());
    assert_eq!(container.status(), ContainerStatus::Absent);
}

#[test]
fn the_report_is_not_rewritten_by_a_start() {
    let (mut client, _) = scripted(vec![container("exited")], vec![], None);
    let project = demo(dockerfile(), None);
    let mut container = Container::new(&project.name, &project.config, &mut client).unwrap();
    assert!(container.existing() && !container.running());
    assert_eq!(container.start(&mut client), Ok(()));
    assert_eq!(container.status(), ContainerStatus::Running);
    assert!(container.existing() && !container.running());
    assert_eq!(
        container.summary().as_ref().and_then(|s| s.state.clone()),
        Some("exited".to_string())
    );

    let (mut client, _) = scripted(vec![self::container("running")], vec![], None);
    let mut running = Container::new(&project.name, &project.config, &mut client).unwrap();
    assert!(running.existing() && running.running());
    assert_eq!(running.stop(&mut client), Ok(()));
    assert_eq!(running.status(), ContainerStatus::Stopped);
    assert!(running.existing() && running.running());
}

#[test]
fn a_created_container_runs_though_its_post_create_command_fails() {
    let (mut client, log) = scripted(vec![], vec![], Some("exec"));
    let source = ImageSource::Image("alpine:latest".to_string());
    let project = demo(source, Some(vec!["make", "deps"]));
    let mut container = Container::new(&project.name, &project.config, &mut client).unwrap();
    let failure = container.setup(&mut client).unwrap_err();
    assert_eq!(
        failure,
        Error::ExecutionFailed {
            operation: Operation::Exec,
            name: "demo".to_string(),
            cause: exit_one(),
        }
    );
    assert_eq!(container.status(), ContainerStatus::Running);
    assert!(!container.existing() && !container.running());
    assert_eq!(calls(&log).len(), 3);
}

#[test]
fn only_the_word_running_means_running() {
    for state in ["Running", "running ", "exited", "paused", "created", ""] {
        let (mut client, _) = scripted(vec![container(state)], vec![], None);
        let project = demo(dockerfile(), None);
        let container = Container::new(&project.name, &project.config, &mut client).unwrap();
        assert_eq!(container.status(), ContainerStatus::Stopped);
        assert!(container.existing() && !container.running());
    }
    let (mut client, _) = scripted(
        vec![ContainerSummary { names: None, state: None }],
        vec![],
        None,
    );
    let project = demo(dockerfile(), None);
    let container = Container::new(&project.name, &project.config, &mut client).unwrap();
    assert_eq!(container.status(), ContainerStatus::Stopped);
}

#[test]
fn run_carries_out_the_shell_command() {
    let project = demo(dockerfile(), None);
    let cli = Cli {
        cmds: Commands::Shell { root: "/work/demo".to_string(), stop: true },
        root: "/work/demo".to_string(),
    };
    assert_eq!(cli.cmds.root(), "/work/demo");
    let (mut client, log) = scripted(vec![container("exited")], vec![], None);
    assert_eq!(run(&cli, &project, &mut client), Ok(()));
    assert_eq!(
        calls(&log),
        vec![
            "list_containers demo",
            "start_container demo",
            "exec demo [\"/bin/zsh\"]",
            "stop_container demo",
        ]
    );
}

#[test]
fn notices_tell_what_is_about_to_happen() {
    assert_eq!(
        progress_notice(ContainerStatus::Absent),
        Some("container does not exist, creating...")
    );
    assert_eq!(
        progress_notice(ContainerStatus::Stopped),
        Some("container is not running, starting...")
    );
    assert_eq!(progress_notice(ContainerStatus::Running), None);
}
