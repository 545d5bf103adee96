//! Resolving a project's image, and building it where it is missing.
use crate::docker::client::{
    appended, extends, images_view, listed_images, one_more, only_queries, ClientError,
    ClientErrorView, DockerClient, Exchange, ImageSummary, ImageSummaryView, Session,
};
use crate::docker::error::{unit_view, Error, ErrorView, Operation};
use crate::project::{ImageSource, ImageSourceView};
use crate::text::contains_text;
use vstd::prelude::*;

verus! {

/// What is known of an image: the name to create containers from, and
/// whether the runtime holds it.
pub struct ImageState {
    pub name: Seq<char>,
    pub existing: bool,
}

/// The tag under which a project's built image is filed.
pub open spec fn image_tag(project_name: Seq<char>) -> Seq<char> {
    project_name + ":latest"@
}

/// Whether one of `images` carries exactly `tag` among its names.
pub open spec fn tagged(images: Seq<ImageSummaryView>, tag: Seq<char>) -> bool {
    exists|i: int| #![trigger images[i]] 0 <= i < images.len() && images[i].repo_tags.contains(tag)
}

/// The tag under which a project's built image is filed.
pub fn tag_of(project_name: &str) -> (tag: String)
    ensures
        tag@ == image_tag(project_name@),
{
    String::from_str(project_name).concat(":latest")
}

/// Whether one of `images` carries exactly `tag` among its names. A tag that
/// only begins or ends like `tag` does not count.
pub fn has_tag(images: &Vec<ImageSummary>, tag: &str) -> (found: bool)
    ensures
        found == tagged(images_view(images@), tag@),
{
    let mut i: usize = 0;
    while i < images.len()
        invariant
            i <= images.len(),
            forall|j: int|
                0 <= j < i ==> !(#[trigger] images_view(images@)[j]).repo_tags.contains(tag@),
        decreases images.len() - i,
    {
        if contains_text(&images[i].repo_tags, tag) {
            assert(images_view(images@)[i as int].repo_tags.contains(tag@));
            return true;
        }
        i = i + 1;
    }
    false
}

/// What an image query says of a project's built image: present when some
/// image carries the project's tag, missing otherwise; a failed query is
/// passed on with its cause.
pub open spec fn image_resolution(
    project_name: Seq<char>,
    images: Result<Seq<ImageSummaryView>, ClientErrorView>,
) -> Result<ImageState, ErrorView> {
    match images {
        Ok(list) => Ok(
            ImageState {
                name: image_tag(project_name),
                existing: tagged(list, image_tag(project_name)),
            },
        ),
        Err(cause) => Err(
            ErrorView::RuntimeQueryFailed {
                operation: Operation::ListImages,
                name: project_name,
                cause,
            },
        ),
    }
}

/// What the query after a successful build says of it: the build is
/// confirmed when some image carries the project's tag, and has failed
/// verification otherwise.
pub open spec fn build_verification(
    project_name: Seq<char>,
    images: Result<Seq<ImageSummaryView>, ClientErrorView>,
) -> Result<(), ErrorView> {
    match images {
        Ok(list) => if tagged(list, image_tag(project_name)) {
            Ok(())
        } else {
            Err(ErrorView::ImageBuildVerificationFailed { tag: image_tag(project_name) })
        },
        Err(cause) => Err(
            ErrorView::RuntimeQueryFailed {
                operation: Operation::ListImages,
                name: project_name,
                cause,
            },
        ),
    }
}

/// Decides, from the image list that came back after a build that reported
/// success, whether the build produced the project's image.
pub fn verify_build(project_name: &str, images: Result<Vec<ImageSummary>, ClientError>) -> (res:
    Result<(), Error>)
    ensures
        unit_view(res) == build_verification(project_name@, listed_images(images)),
{
    match images {
        Ok(list) => {
            let tag = tag_of(project_name);
            if has_tag(&list, tag.as_str()) {
                Ok(())
            } else {
                Err(Error::ImageBuildVerificationFailed { tag })
            }
        },
        Err(cause) => Err(Error::query_failed(Operation::ListImages, project_name, cause)),
    }
}

/// Whether an image exists after a build that ended in `res`: a confirmed
/// build leaves the image there, a build that failed verification has shown
/// it missing, and a build or a query that failed has shown nothing.
pub open spec fn existing_after(before: bool, res: Result<(), Error>) -> bool {
    match res {
        Ok(_) => true,
        Err(Error::ImageBuildVerificationFailed { .. }) => false,
        Err(_) => before,
    }
}

/// An image that containers can be created from.
pub trait Image {
    /// What is known of the image.
    spec fn state(&self) -> ImageState;

    /// The name to create containers from.
    fn name(&self) -> (n: &str)
        ensures
            n@ == self.state().name,
    ;

    /// Whether the runtime holds the image.
    fn existing(&self) -> (b: bool)
        ensures
            b == self.state().existing,
    ;

    /// Builds the image where it can be built. The image keeps its name and
    /// the session's log only grows. After a success the image exists; after
    /// a build that could not be verified it does not; after any other
    /// failure it is taken to be as before.
    fn build<C: DockerClient>(&mut self, client: &mut Session<C>) -> (res: Result<(), Error>)
        ensures
            final(self).state().name == old(self).state().name,
            extends(final(client).log(), old(client).log()),
            final(self).state().existing == existing_after(old(self).state().existing, res),
    ;
}

/// A pre-built image that the user names. It is taken to exist: fetching it
/// is the runtime's business when a container is created from it.
pub struct ForeignImage {
    name: String,
}

impl Image for ForeignImage {
    closed spec fn state(&self) -> ImageState {
        ImageState { name: self.name@, existing: true }
    }

    fn name(&self) -> (n: &str) {
        self.name.as_str()
    }

    fn existing(&self) -> (b: bool) {
        true
    }

    /// Nothing to build: no call is made.
    fn build<C: DockerClient>(&mut self, client: &mut Session<C>) -> (res: Result<(), Error>)
        ensures
            res is Ok,
            final(client).log() == old(client).log(),
            final(self).state() == old(self).state(),
    {
        Ok(())
    }
}

/// An image built from a project's recipe and filed under the project's tag.
pub struct DockerfileImage {
    project_name: String,
    dockerfile: String,
    tag: String,
    existing: bool,
}

impl DockerfileImage {
    #[verifier::type_invariant]
    spec fn tag_is_of_project(&self) -> bool {
        self.tag@ == image_tag(self.project_name@)
    }

    /// The project the image belongs to.
    pub closed spec fn project_name(&self) -> Seq<char> {
        self.project_name@
    }

    /// The path of the recipe the image is built from.
    pub closed spec fn dockerfile(&self) -> Seq<char> {
        self.dockerfile@
    }
}

/// What a build's exchanges say of it. `None` where `t` is not the
/// conversation of a build at all. A build asks for the image to be built; if
/// that fails, nothing more is asked and the build has failed. Otherwise the
/// project's images are queried once more, and the build counts only if the
/// project's tag is among them.
pub open spec fn build_conversation(
    project_name: Seq<char>,
    dockerfile: Seq<char>,
    t: Seq<Exchange>,
) -> Option<Result<(), ErrorView>> {
    if t.len() == 0 || t.len() > 2 {
        None
    } else {
        match t[0] {
            Exchange::BuildImage { project_name: p, dockerfile: d, outcome } => if p
                != project_name || d != dockerfile {
                None
            } else {
                match outcome {
                    Err(cause) => if t.len() == 1 {
                        Some(Err(ErrorView::BuildFailed { name: project_name, cause }))
                    } else {
                        None
                    },
                    Ok(_) => if t.len() == 2 {
                        match t[1] {
                            Exchange::ListImages { project_name: q, images } => if q
                                == project_name {
                                Some(build_verification(project_name, images))
                            } else {
                                None
                            },
                            _ => None,
                        }
                    } else {
                        None
                    },
                }
            },
            _ => None,
        }
    }
}

impl Image for DockerfileImage {
    closed spec fn state(&self) -> ImageState {
        ImageState { name: image_tag(self.project_name@), existing: self.existing }
    }

    fn name(&self) -> (n: &str) {
        proof {
            use_type_invariant(self);
        }
        self.tag.as_str()
    }

    fn existing(&self) -> (b: bool) {
        self.existing
    }

    /// Has the image built, then asks the runtime for the project's images
    /// again: a build that reports success without leaving an image under
    /// the project's tag has failed.
    fn build<C: DockerClient>(&mut self, client: &mut Session<C>) -> (res: Result<(), Error>)
        ensures
            final(self).project_name() == old(self).project_name(),
            final(self).dockerfile() == old(self).dockerfile(),
            build_conversation(
                old(self).project_name(),
                old(self).dockerfile(),
                appended(old(client).log(), final(client).log()),
            ) == Some(unit_view(res)),
    {
        let ghost before = client.log();
        proof {
            use_type_invariant(&*self);
        }
        match client.build_image(self.project_name.as_str(), self.dockerfile.as_str()) {
            Ok(()) => {},
            Err(cause) => {
                assert(appended(before, client.log()) =~= seq![client.log().last()]);
                return Err(
                    Error::BuildFailed { name: self.project_name.clone(), cause },
                );
            },
        }
        let images = client.list_images(self.project_name.as_str());
        assert(appended(before, client.log()) =~= seq![
            client.log()[before.len() as int],
            client.log().last(),
        ]);
        let res = verify_build(self.project_name.as_str(), images);
        match &res {
            Ok(()) => {
                self.existing = true;
            },
            Err(Error::ImageBuildVerificationFailed { .. }) => {
                self.existing = false;
            },
            Err(_) => {},
        }
        res
    }
}

/// The image resolved for a project.
pub enum ResolvedImage {
    Foreign(ForeignImage),
    Dockerfile(DockerfileImage),
}

impl Image for ResolvedImage {
    open spec fn state(&self) -> ImageState {
        match *self {
            ResolvedImage::Foreign(image) => image.state(),
            ResolvedImage::Dockerfile(image) => image.state(),
        }
    }

    fn name(&self) -> (n: &str) {
        match self {
            ResolvedImage::Foreign(image) => image.name(),
            ResolvedImage::Dockerfile(image) => image.name(),
        }
    }

    fn existing(&self) -> (b: bool) {
        match self {
            ResolvedImage::Foreign(image) => image.existing(),
            ResolvedImage::Dockerfile(image) => image.existing(),
        }
    }

    /// A pre-built image is left as it is, without a call; a project's own
    /// image is built and verified.
    fn build<C: DockerClient>(&mut self, client: &mut Session<C>) -> (res: Result<(), Error>)
        ensures
            match *old(self) {
                ResolvedImage::Foreign(_) => {
                    &&& res is Ok
                    &&& final(client).log() == old(client).log()
                    &&& final(self).state() == old(self).state()
                },
                ResolvedImage::Dockerfile(before) => {
                    &&& *final(self) matches ResolvedImage::Dockerfile(after)
                    &&& after.project_name() == before.project_name()
                    &&& after.dockerfile() == before.dockerfile()
                    &&& build_conversation(
                        before.project_name(),
                        before.dockerfile(),
                        appended(old(client).log(), final(client).log()),
                    ) == Some(unit_view(res))
                },
            },
    {
        match self {
            ResolvedImage::Foreign(image) => image.build(client),
            ResolvedImage::Dockerfile(image) => image.build(client),
        }
    }
}

/// The view of a resolved image or of the failure to resolve it.
pub open spec fn resolved_view(r: Result<DockerfileImage, Error>) -> Result<ImageState, ErrorView> {
    match r {
        Ok(image) => Ok(image.state()),
        Err(e) => Err(e@),
    }
}

/// Decides, from the image list that came back, whether a project's own
/// image is present. The image is present exactly when one of the listed
/// images carries the tag `{project_name}:latest`.
pub fn resolve_image(
    project_name: &str,
    dockerfile: &str,
    images: Result<Vec<ImageSummary>, ClientError>,
) -> (res: Result<DockerfileImage, Error>)
    ensures
        resolved_view(res) == image_resolution(project_name@, listed_images(images)),
        res matches Ok(image) ==> image.project_name() == project_name@ && image.dockerfile()
            == dockerfile@,
{
    match images {
        Ok(list) => {
            let tag = tag_of(project_name);
            let existing = has_tag(&list, tag.as_str());
            Ok(
                DockerfileImage {
                    project_name: String::from_str(project_name),
                    dockerfile: String::from_str(dockerfile),
                    tag,
                    existing,
                },
            )
        },
        Err(cause) => Err(Error::query_failed(Operation::ListImages, project_name, cause)),
    }
}

/// What resolving an image source comes to, given the answer to the image
/// query where one is made: a pre-built image is taken to exist under its
/// reference, whatever the runtime lists; a project's own image exists
/// exactly when one of the listed images carries the project's tag.
pub open spec fn source_resolution(
    project_name: Seq<char>,
    source: ImageSourceView,
    images: Result<Seq<ImageSummaryView>, ClientErrorView>,
) -> Result<ImageState, ErrorView> {
    match source {
        ImageSourceView::Image(reference) => Ok(ImageState { name: reference, existing: true }),
        ImageSourceView::Dockerfile(_) => image_resolution(project_name, images),
    }
}

/// The view of a resolved image or of the failure to resolve it.
pub open spec fn image_view(r: Result<ResolvedImage, Error>) -> Result<ImageState, ErrorView> {
    match r {
        Ok(image) => Ok(image.state()),
        Err(e) => Err(e@),
    }
}

/// Resolves a project's image. A pre-built image is taken to exist and no
/// call is made. For a build recipe the project's images are queried once,
/// and the image exists exactly when one of them carries the project's tag.
/// Either way the runtime is only read, so that resolving again finds what
/// was found before.
pub fn new_image<C: DockerClient>(
    project_name: &str,
    source: &ImageSource,
    client: &mut Session<C>,
) -> (res: Result<ResolvedImage, Error>)
    ensures
        extends(final(client).log(), old(client).log()),
        only_queries(appended(old(client).log(), final(client).log())),
        match source@ {
            ImageSourceView::Image(_) => {
                &&& final(client).log() == old(client).log()
                &&& image_view(res) == source_resolution(project_name@, source@, Ok(Seq::empty()))
                &&& res matches Ok(image)
                &&& image is Foreign
            },
            ImageSourceView::Dockerfile(path) => {
                &&& one_more(final(client).log(), old(client).log())
                &&& final(client).log().last() matches Exchange::ListImages {
                    project_name: asked,
                    images,
                }
                &&& asked == project_name@
                &&& image_view(res) == source_resolution(project_name@, source@, images)
                &&& res matches Ok(image) ==> {
                    &&& image matches ResolvedImage::Dockerfile(built)
                    &&& built.project_name() == project_name@
                    &&& built.dockerfile() == path
                }
            },
        },
{
    match source {
        ImageSource::Image(reference) => Ok(
            ResolvedImage::Foreign(ForeignImage { name: reference.clone() }),
        ),
        ImageSource::Dockerfile(dockerfile) => {
            let images = client.list_images(project_name);
            match resolve_image(project_name, dockerfile.as_str(), images) {
                Ok(image) => Ok(ResolvedImage::Dockerfile(image)),
                Err(e) => Err(e),
            }
        },
    }
}

} // verus!
