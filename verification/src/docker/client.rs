//! The capability through which the container runtime is reached, and the
//! record of what was asked of it.
use crate::docker::process::{ExecutionError, ExecutionErrorView};
use crate::text::{opt_text, opt_texts, texts};
use vstd::prelude::*;

verus! {

/// Label key under which every image and container of a project is filed; the
/// label's value is the project's name.
pub const PROJECT_KEY: &'static str = "ds_project";

/// What the runtime reports of one container, as far as the reconciler reads it.
#[derive(Debug, Clone, Default, PartialEq, Eq)]
pub struct ContainerSummary {
    /// The names the container has been given.
    pub names: Option<Vec<String>>,
    /// The container's state in the runtime's words, such as `running` or `exited`.
    pub state: Option<String>,
}

/// [`ContainerSummary`] as plain sequences.
pub struct ContainerSummaryView {
    pub names: Option<Seq<Seq<char>>>,
    pub state: Option<Seq<char>>,
}

impl View for ContainerSummary {
    type V = ContainerSummaryView;

    open spec fn view(&self) -> ContainerSummaryView {
        ContainerSummaryView { names: opt_texts(self.names), state: opt_text(self.state) }
    }
}

/// What the runtime reports of one image, as far as the reconciler reads it.
#[derive(Debug, Clone, Default, PartialEq, Eq)]
pub struct ImageSummary {
    /// The names and tags in the local image cache that refer to the image.
    pub repo_tags: Vec<String>,
}

/// [`ImageSummary`] as plain sequences.
pub struct ImageSummaryView {
    pub repo_tags: Seq<Seq<char>>,
}

impl View for ImageSummary {
    type V = ImageSummaryView;

    open spec fn view(&self) -> ImageSummaryView {
        ImageSummaryView { repo_tags: texts(self.repo_tags@) }
    }
}

/// Why a call to the runtime failed, as the client reports it.
#[derive(Debug, Clone, PartialEq, Eq)]
pub enum ClientError {
    /// A structured request to the runtime's API failed; the cause in words.
    Api(String),
    /// A command-line invocation failed.
    Execution(ExecutionError),
}

/// [`ClientError`] with its text as sequences of characters.
pub enum ClientErrorView {
    Api(Seq<char>),
    Execution(ExecutionErrorView),
}

impl View for ClientError {
    type V = ClientErrorView;

    open spec fn view(&self) -> ClientErrorView {
        match *self {
            ClientError::Api(cause) => ClientErrorView::Api(cause@),
            ClientError::Execution(e) => ClientErrorView::Execution(e@),
        }
    }
}

/// The runtime's operations. The reconciler is written against this trait
/// alone; a production client talks to a container daemon, a test client
/// answers from a script.
///
/// Nothing is promised of any answer: the reconciler's contracts hold
/// whatever a client returns.
pub trait DockerClient {
    /// All containers, stopped ones included, that carry the project's label.
    fn list_containers(&self, project_name: &str) -> Result<Vec<ContainerSummary>, ClientError>;

    /// All images that carry the project's label.
    fn list_images(&self, project_name: &str) -> Result<Vec<ImageSummary>, ClientError>;

    /// Builds the project's image from `dockerfile`, tagged and labelled for
    /// the project.
    fn build_image(&self, project_name: &str, dockerfile: &str) -> Result<(), ClientError>;

    /// Starts an existing container.
    fn start_container(&self, name: &str) -> Result<(), ClientError>;

    /// Stops a running container.
    fn stop_container(&self, name: &str) -> Result<(), ClientError>;

    /// Creates and starts a container `name` from `image_name`, with `args`
    /// as its initial command. No label is passed along: a container carries
    /// the labels of the image it is created from.
    fn run(&self, name: &str, image_name: &str, deattach: bool, args: Vec<&str>) -> Result<
        (),
        ClientError,
    >;

    /// Runs `cmd` in a running container, attached to the terminal.
    fn exec(&self, contain_name: &str, cmd: &[&str]) -> Result<(), ClientError>;
}

/// The views of a list of container summaries.
pub open spec fn containers_view(v: Seq<ContainerSummary>) -> Seq<ContainerSummaryView> {
    v.map_values(|c: ContainerSummary| c@)
}

/// The views of a list of image summaries.
pub open spec fn images_view(v: Seq<ImageSummary>) -> Seq<ImageSummaryView> {
    v.map_values(|i: ImageSummary| i@)
}

/// The view of an answer to a container query.
pub open spec fn listed_containers(r: Result<Vec<ContainerSummary>, ClientError>) -> Result<
    Seq<ContainerSummaryView>,
    ClientErrorView,
> {
    match r {
        Ok(v) => Ok(containers_view(v@)),
        Err(e) => Err(e@),
    }
}

/// The view of an answer to an image query.
pub open spec fn listed_images(r: Result<Vec<ImageSummary>, ClientError>) -> Result<
    Seq<ImageSummaryView>,
    ClientErrorView,
> {
    match r {
        Ok(v) => Ok(images_view(v@)),
        Err(e) => Err(e@),
    }
}

/// The view of the outcome of a call that returns nothing on success.
pub open spec fn completed(r: Result<(), ClientError>) -> Result<(), ClientErrorView> {
    match r {
        Ok(_) => Ok(()),
        Err(e) => Err(e@),
    }
}

/// One call to the runtime: what was asked, with which arguments, and what
/// came back.
pub enum Exchange {
    ListContainers {
        project_name: Seq<char>,
        containers: Result<Seq<ContainerSummaryView>, ClientErrorView>,
    },
    ListImages { project_name: Seq<char>, images: Result<Seq<ImageSummaryView>, ClientErrorView> },
    BuildImage {
        project_name: Seq<char>,
        dockerfile: Seq<char>,
        outcome: Result<(), ClientErrorView>,
    },
    StartContainer { name: Seq<char>, outcome: Result<(), ClientErrorView> },
    StopContainer { name: Seq<char>, outcome: Result<(), ClientErrorView> },
    Run {
        name: Seq<char>,
        image_name: Seq<char>,
        deattach: bool,
        args: Seq<Seq<char>>,
        outcome: Result<(), ClientErrorView>,
    },
    Exec { contain_name: Seq<char>, cmd: Seq<Seq<char>>, outcome: Result<(), ClientErrorView> },
}

impl Exchange {
    /// Whether the call only reads the runtime's state.
    pub open spec fn is_query(self) -> bool {
        self is ListContainers || self is ListImages
    }
}

/// Whether every exchange of `made` only reads the runtime's state.
pub open spec fn only_queries(made: Seq<Exchange>) -> bool {
    forall|i: int| 0 <= i < made.len() ==> (#[trigger] made[i]).is_query()
}

/// What `later` holds beyond the first `earlier.len()` exchanges.
pub open spec fn appended(earlier: Seq<Exchange>, later: Seq<Exchange>) -> Seq<Exchange> {
    later.skip(earlier.len() as int)
}

/// Whether `later` is `earlier` with exchanges added at the end.
pub open spec fn extends(later: Seq<Exchange>, earlier: Seq<Exchange>) -> bool {
    &&& earlier.len() <= later.len()
    &&& forall|i: int| 0 <= i < earlier.len() ==> later[i] == earlier[i]
}

/// Whether `later` is `earlier` with exactly one exchange added at the end.
pub open spec fn one_more(later: Seq<Exchange>, earlier: Seq<Exchange>) -> bool {
    later.len() == earlier.len() + 1 && later == earlier.push(later.last())
}

/// Extending a log twice appends what the first step appended, followed by
/// what the second appended.
pub proof fn lemma_appended_twice(last: Seq<Exchange>, middle: Seq<Exchange>, first: Seq<Exchange>)
    requires
        extends(middle, first),
        extends(last, middle),
    ensures
        extends(last, first),
        appended(first, last) == appended(first, middle) + appended(middle, last),
{
    assert(appended(first, last) =~= appended(first, middle) + appended(middle, last));
}

/// A log with one more exchange extends the log before, by that exchange.
pub proof fn lemma_one_more_extends(later: Seq<Exchange>, earlier: Seq<Exchange>)
    requires
        one_more(later, earlier),
    ensures
        extends(later, earlier),
        appended(earlier, later) == seq![later.last()],
{
    assert(appended(earlier, later) =~= seq![later.last()]);
}

/// A client together with the log of every exchange made through it. The
/// client can be reached in no other way while the session holds it, so the
/// log is complete. The log is ghost: it costs nothing when the program runs.
pub struct Session<C: DockerClient> {
    client: C,
    log: Ghost<Seq<Exchange>>,
}

impl<C: DockerClient> Session<C> {
    /// The exchanges made so far, oldest first.
    pub closed spec fn log(&self) -> Seq<Exchange> {
        self.log@
    }

    /// The client that the session holds.
    pub closed spec fn inner(&self) -> C {
        self.client
    }

    /// Opens a session on `client`, with an empty log.
    pub fn new(client: C) -> (session: Self)
        ensures
            session.inner() == client,
            session.log() == Seq::<Exchange>::empty(),
    {
        Session { client, log: Ghost(Seq::empty()) }
    }

    /// Ends the session and hands the client back.
    pub fn into_inner(self) -> (client: C)
        ensures
            client == self.inner(),
    {
        self.client
    }

    /// Asks for the project's containers and records the exchange.
    pub fn list_containers(&mut self, project_name: &str) -> (r: Result<
        Vec<ContainerSummary>,
        ClientError,
    >)
        ensures
            final(self).inner() == old(self).inner(),
            final(self).log() == old(self).log().push(
                Exchange::ListContainers {
                    project_name: project_name@,
                    containers: listed_containers(r),
                },
            ),
    {
        let r = self.client.list_containers(project_name);
        proof {
            self.log@ = self.log@.push(
                Exchange::ListContainers {
                    project_name: project_name@,
                    containers: listed_containers(r),
                },
            );
        }
        r
    }

    /// Asks for the project's images and records the exchange.
    pub fn list_images(&mut self, project_name: &str) -> (r: Result<Vec<ImageSummary>, ClientError>)
        ensures
            final(self).inner() == old(self).inner(),
            final(self).log() == old(self).log().push(
                Exchange::ListImages { project_name: project_name@, images: listed_images(r) },
            ),
    {
        let r = self.client.list_images(project_name);
        proof {
            self.log@ = self.log@.push(
                Exchange::ListImages { project_name: project_name@, images: listed_images(r) },
            );
        }
        r
    }

    /// Has the project's image built and records the exchange.
    pub fn build_image(&mut self, project_name: &str, dockerfile: &str) -> (r: Result<
        (),
        ClientError,
    >)
        ensures
            final(self).inner() == old(self).inner(),
            final(self).log() == old(self).log().push(
                Exchange::BuildImage {
                    project_name: project_name@,
                    dockerfile: dockerfile@,
                    outcome: completed(r),
                },
            ),
    {
        let r = self.client.build_image(project_name, dockerfile);
        proof {
            self.log@ = self.log@.push(
                Exchange::BuildImage {
                    project_name: project_name@,
                    dockerfile: dockerfile@,
                    outcome: completed(r),
                },
            );
        }
        r
    }

    /// Has a container started and records the exchange.
    pub fn start_container(&mut self, name: &str) -> (r: Result<(), ClientError>)
        ensures
            final(self).inner() == old(self).inner(),
            final(self).log() == old(self).log().push(
                Exchange::StartContainer { name: name@, outcome: completed(r) },
            ),
    {
        let r = self.client.start_container(name);
        proof {
            self.log@ = self.log@.push(
                Exchange::StartContainer { name: name@, outcome: completed(r) },
            );
        }
        r
    }

    /// Has a container stopped and records the exchange.
    pub fn stop_container(&mut self, name: &str) -> (r: Result<(), ClientError>)
        ensures
            final(self).inner() == old(self).inner(),
            final(self).log() == old(self).log().push(
                Exchange::StopContainer { name: name@, outcome: completed(r) },
            ),
    {
        let r = self.client.stop_container(name);
        proof {
            self.log@ = self.log@.push(
                Exchange::StopContainer { name: name@, outcome: completed(r) },
            );
        }
        r
    }

    /// Has a container created and started, and records the exchange.
    pub fn run(&mut self, name: &str, image_name: &str, deattach: bool, args: Vec<&str>) -> (r:
        Result<(), ClientError>)
        ensures
            final(self).inner() == old(self).inner(),
            final(self).log() == old(self).log().push(
                Exchange::Run {
                    name: name@,
                    image_name: image_name@,
                    deattach,
                    args: args.deep_view(),
                    outcome: completed(r),
                },
            ),
    {
        let ghost sent = args.deep_view();
        let r = self.client.run(name, image_name, deattach, args);
        proof {
            self.log@ = self.log@.push(
                Exchange::Run {
                    name: name@,
                    image_name: image_name@,
                    deattach,
                    args: sent,
                    outcome: completed(r),
                },
            );
        }
        r
    }

    /// Has a command run in a container and records the exchange.
    pub fn exec(&mut self, contain_name: &str, cmd: &[&str]) -> (r: Result<(), ClientError>)
        ensures
            final(self).inner() == old(self).inner(),
            final(self).log() == old(self).log().push(
                Exchange::Exec {
                    contain_name: contain_name@,
                    cmd: cmd.deep_view(),
                    outcome: completed(r),
                },
            ),
    {
        let r = self.client.exec(contain_name, cmd);
        proof {
            self.log@ = self.log@.push(
                Exchange::Exec {
                    contain_name: contain_name@,
                    cmd: cmd.deep_view(),
                    outcome: completed(r),
                },
            );
        }
        r
    }
}

} // verus!
