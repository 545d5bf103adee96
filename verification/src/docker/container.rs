//! A project's container: finding it, and bringing it up.
use crate::docker::client::{
    appended, containers_view, extends, lemma_appended_twice, lemma_one_more_extends,
    listed_containers, one_more, only_queries, ClientError, ClientErrorView, ContainerSummary,
    ContainerSummaryView, DockerClient, Exchange, Session,
};
use crate::docker::error::{unit_view, Error, ErrorView, Operation};
use crate::docker::image::{new_image, Image};
use crate::docker::lifecycle::{
    execution, idle_command, lemma_setup_follow_concat, lemma_setup_follow_one_more,
    lemma_setup_follow_push, setup_entry, setup_follow, status_of, ContainerStatus, SetupPhase,
    SetupPlan,
};
use crate::project::{Config, ConfigView, ImageSourceView};
use crate::text::{borrowed, same_text};
use vstd::prelude::*;

verus! {

/// A project's container: what the runtime reported of it when it was
/// resolved, and the lifecycle state it is in since. The report is never
/// rewritten; [`Container::existing`] and [`Container::running`] read the
/// report, [`Container::status`] the state that the operations have brought
/// about.
#[derive(Debug)]
pub struct Container<'a> {
    name: &'a str,
    config: &'a Config,
    summary: Option<ContainerSummary>,
    status: ContainerStatus,
}

/// [`Container`] as plain values.
pub struct ContainerView {
    pub name: Seq<char>,
    pub config: ConfigView,
    pub summary: Option<ContainerSummaryView>,
    pub status: ContainerStatus,
}

impl ContainerView {
    /// What a setup of this container works from.
    pub open spec fn plan(self) -> SetupPlan {
        SetupPlan {
            name: self.name,
            source: self.config.image_source,
            post_create: self.config.post_create_command,
        }
    }

    /// The same container in another lifecycle state.
    pub open spec fn in_status(self, status: ContainerStatus) -> ContainerView {
        ContainerView { status, ..self }
    }
}

impl<'a> View for Container<'a> {
    type V = ContainerView;

    closed spec fn view(&self) -> ContainerView {
        ContainerView {
            name: self.name@,
            config: self.config@,
            summary: match self.summary {
                Some(s) => Some(s@),
                None => None,
            },
            status: self.status,
        }
    }
}

/// What the answer to the container query makes of a project's container. No
/// match: the container is absent. One match: it is running if the runtime
/// says `running`, and stopped otherwise. More than one: a failure, as no one
/// of them can be told to be the project's. A failed query is passed on with
/// its cause.
pub open spec fn resolution(
    name: Seq<char>,
    config: ConfigView,
    containers: Result<Seq<ContainerSummaryView>, ClientErrorView>,
) -> Result<ContainerView, ErrorView> {
    match containers {
        Err(cause) => Err(
            ErrorView::RuntimeQueryFailed { operation: Operation::ListContainers, name, cause },
        ),
        Ok(list) => if list.len() == 0 {
            Ok(ContainerView { name, config, summary: None, status: ContainerStatus::Absent })
        } else if list.len() == 1 {
            Ok(ContainerView { name, config, summary: Some(list[0]), status: status_of(list[0]) })
        } else {
            Err(ErrorView::AmbiguousContainer { name })
        },
    }
}

/// The view of a resolved container or of the failure to resolve it.
pub open spec fn resolution_view(r: Result<Container<'_>, Error>) -> Result<
    ContainerView,
    ErrorView,
> {
    match r {
        Ok(c) => Ok(c@),
        Err(e) => Err(e@),
    }
}

/// The phase a setup ends in: ready after a success, failed with the error
/// otherwise.
pub open spec fn setup_exit(r: Result<(), Error>) -> SetupPhase {
    match r {
        Ok(_) => SetupPhase::Ready,
        Err(e) => SetupPhase::Failed(e@),
    }
}

/// The state a container is in after a setup that ended in `res`: running
/// once the container has been created, which is after a success and after
/// a failure of the post-create command; absent after any earlier failure.
pub open spec fn status_after_setup(res: Result<(), Error>) -> ContainerStatus {
    match res {
        Ok(_) => ContainerStatus::Running,
        Err(Error::ExecutionFailed { operation: Operation::Exec, .. }) => ContainerStatus::Running,
        Err(_) => ContainerStatus::Absent,
    }
}

/// The state a container summary stands for.
pub fn classify(summary: &ContainerSummary) -> (status: ContainerStatus)
    ensures
        status == status_of(summary@),
{
    match &summary.state {
        Some(state) => if same_text(state.as_str(), "running") {
            ContainerStatus::Running
        } else {
            ContainerStatus::Stopped
        },
        None => ContainerStatus::Stopped,
    }
}

impl<'a> Container<'a> {
    /// Resolves the project's container with one query for the containers
    /// that carry the project's label. Nothing else is asked of the runtime,
    /// whatever the answer.
    pub fn new<C: DockerClient>(name: &'a str, config: &'a Config, client: &mut Session<C>) -> (res:
        Result<Container<'a>, Error>)
        ensures
            one_more(final(client).log(), old(client).log()),
            only_queries(appended(old(client).log(), final(client).log())),
            final(client).log().last() matches Exchange::ListContainers {
                project_name,
                containers,
            } && project_name == name@ && resolution_view(res) == resolution(
                name@,
                config@,
                containers,
            ),
    {
        let ghost before = client.log();
        let listed = client.list_containers(name);
        proof {
            lemma_one_more_extends(client.log(), before);
        }
        Container::from_listing(name, config, listed)
    }

    /// Decides, from the answer to the container query, what state the
    /// project's container is in.
    pub fn from_listing(
        name: &'a str,
        config: &'a Config,
        listed: Result<Vec<ContainerSummary>, ClientError>,
    ) -> (res: Result<Container<'a>, Error>)
        ensures
            resolution_view(res) == resolution(name@, config@, listed_containers(listed)),
    {
        match listed {
            Err(cause) => Err(Error::query_failed(Operation::ListContainers, name, cause)),
            Ok(mut containers) => {
                if containers.len() == 0 {
                    Ok(Container { name, config, summary: None, status: ContainerStatus::Absent })
                } else if containers.len() == 1 {
                    let ghost listed_view = containers_view(containers@);
                    let summary = containers.remove(0);
                    assert(summary@ == listed_view[0]);
                    let status = classify(&summary);
                    Ok(Container { name, config, summary: Some(summary), status })
                } else {
                    Err(Error::AmbiguousContainer { name: String::from_str(name) })
                }
            },
        }
    }

    /// The project's name, which is the container's.
    pub fn name(&self) -> (name: &'a str)
        ensures
            name@ == self@.name,
    {
        self.name
    }

    /// The container's lifecycle state.
    pub fn status(&self) -> (status: ContainerStatus)
        ensures
            status == self@.status,
    {
        self.status
    }

    /// What the runtime reported of the container when it was resolved.
    pub fn summary(&self) -> (summary: &Option<ContainerSummary>)
        ensures
            match *summary {
                Some(s) => self@.summary == Some(s@),
                None => self@.summary is None,
            },
    {
        &self.summary
    }

    /// Whether the runtime listed the container when it was resolved.
    pub fn existing(&self) -> (existing: bool)
        ensures
            existing == (self@.summary is Some),
    {
        self.summary.is_some()
    }

    /// Whether the runtime listed the container as running when it was
    /// resolved: its state was the word `running`, letter for letter.
    pub fn running(&self) -> (running: bool)
        ensures
            running == (self@.summary matches Some(s) && s.state == Some("running"@)),
    {
        match &self.summary {
            Some(summary) => match &summary.state {
                Some(state) => same_text(state.as_str(), "running"),
                None => false,
            },
            None => false,
        }
    }

    /// Creates the container. The image is resolved, and built if it is
    /// missing; the container is created from it, detached and idle; the
    /// post-create command, if one is declared, is run in it once. The first
    /// failure ends the setup: nothing is undone and nothing more is asked.
    ///
    /// The exchanges made are those of [`setup_follow`] from the plan's entry
    /// phase to `Ready` or to the failure returned. Once the container has
    /// been created it is running, whether or not the post-create command
    /// succeeds; after an earlier failure it is absent as before.
    pub fn setup<C: DockerClient>(&mut self, client: &mut Session<C>) -> (res: Result<(), Error>)
        requires
            old(self)@.status is Absent,
        ensures
            extends(final(client).log(), old(client).log()),
            setup_follow(
                old(self)@.plan(),
                setup_entry(old(self)@.plan()),
                appended(old(client).log(), final(client).log()),
            ) == setup_exit(res),
            final(self)@ == old(self)@.in_status(status_after_setup(res)),
    {
        let ghost plan = self@.plan();
        let ghost log0 = client.log();
        let mut image = match new_image(self.name, &self.config.image_source, client) {
            Ok(image) => image,
            Err(e) => {
                proof {
                    lemma_setup_follow_one_more(plan, setup_entry(plan), log0, log0, client.log());
                }
                return Err(e);
            },
        };
        let ghost log1 = client.log();
        let ghost phase1 = if image.state().existing {
            SetupPhase::Create { image: image.state().name }
        } else {
            SetupPhase::Build
        };
        proof {
            match plan.source {
                ImageSourceView::Image(_) => {
                    assert(appended(log0, log1) =~= Seq::<Exchange>::empty());
                },
                ImageSourceView::Dockerfile(_) => {
                    lemma_setup_follow_one_more(plan, setup_entry(plan), log0, log0, log1);
                },
            }
            assert(extends(log1, log0));
            assert(setup_follow(plan, setup_entry(plan), appended(log0, log1)) == phase1);
        }
        if !image.existing() {
            let built = image.build(client);
            proof {
                let made = appended(log1, client.log());
                lemma_appended_twice(client.log(), log1, log0);
                lemma_setup_follow_concat(plan, setup_entry(plan), appended(log0, log1), made);
                if made.len() == 1 {
                    assert(made =~= Seq::<Exchange>::empty().push(made[0]));
                    lemma_setup_follow_push(plan, phase1, Seq::empty(), made[0]);
                } else {
                    assert(made =~= Seq::<Exchange>::empty().push(made[0]).push(made[1]));
                    lemma_setup_follow_push(plan, phase1, Seq::empty(), made[0]);
                    lemma_setup_follow_push(
                        plan,
                        phase1,
                        Seq::<Exchange>::empty().push(made[0]),
                        made[1],
                    );
                }
            }
            match built {
                Ok(()) => {},
                Err(e) => {
                    return Err(e);
                },
            }
        }
        let ghost log2 = client.log();
        let ghost phase2 = SetupPhase::Create { image: image.state().name };
        assert(extends(log2, log0));
        assert(setup_follow(plan, setup_entry(plan), appended(log0, log2)) == phase2);
        let mut idle: Vec<&str> = Vec::new();
        idle.push("sleep");
        idle.push("infinity");
        assert(idle.deep_view() =~= idle_command());
        let created = client.run(self.name, image.name(), true, idle);
        let ghost log3 = client.log();
        proof {
            lemma_setup_follow_one_more(plan, setup_entry(plan), log0, log2, log3);
        }
        match created {
            Ok(()) => {},
            Err(cause) => {
                return Err(Error::execution_failed(Operation::Run, self.name, cause));
            },
        }
        self.status = ContainerStatus::Running;
        if let Some(command) = &self.config.post_create_command {
            let tokens = borrowed(command);
            let provisioned = client.exec(self.name, tokens.as_slice());
            proof {
                lemma_setup_follow_one_more(plan, setup_entry(plan), log0, log3, client.log());
            }
            match provisioned {
                Ok(()) => {},
                Err(cause) => {
                    return Err(Error::execution_failed(Operation::Exec, self.name, cause));
                },
            }
        }
        Ok(())
    }

    /// Attaches `cmd` to the running container, with a terminal, and returns
    /// when the command has ended.
    pub fn exec<C: DockerClient>(&self, client: &mut Session<C>, cmd: &[&str]) -> (res: Result<
        (),
        Error,
    >)
        requires
            self@.status is Running,
        ensures
            one_more(final(client).log(), old(client).log()),
            final(client).log().last() matches Exchange::Exec { contain_name, cmd: sent, outcome }
                && contain_name == self@.name && sent == cmd.deep_view() && unit_view(res)
                == execution(Operation::Exec, self@.name, outcome),
    {
        match client.exec(self.name, cmd) {
            Ok(()) => Ok(()),
            Err(cause) => Err(Error::execution_failed(Operation::Exec, self.name, cause)),
        }
    }

    /// Starts the stopped container. After a success the container is
    /// running; after a failure it is taken to be as before.
    pub fn start<C: DockerClient>(&mut self, client: &mut Session<C>) -> (res: Result<(), Error>)
        requires
            old(self)@.status is Stopped,
        ensures
            one_more(final(client).log(), old(client).log()),
            final(client).log().last() matches Exchange::StartContainer { name, outcome } && name
                == old(self)@.name && unit_view(res) == execution(
                Operation::StartContainer,
                name,
                outcome,
            ),
            final(self)@ == old(self)@.in_status(
                if res is Ok {
                    ContainerStatus::Running
                } else {
                    ContainerStatus::Stopped
                },
            ),
    {
        match client.start_container(self.name) {
            Ok(()) => {
                self.status = ContainerStatus::Running;
                Ok(())
            },
            Err(cause) => Err(Error::execution_failed(Operation::StartContainer, self.name, cause)),
        }
    }

    /// Stops the running container. After a success the container is
    /// stopped; after a failure it is taken to be as before.
    pub fn stop<C: DockerClient>(&mut self, client: &mut Session<C>) -> (res: Result<(), Error>)
        requires
            old(self)@.status is Running,
        ensures
            one_more(final(client).log(), old(client).log()),
            final(client).log().last() matches Exchange::StopContainer { name, outcome } && name
                == old(self)@.name && unit_view(res) == execution(
                Operation::StopContainer,
                name,
                outcome,
            ),
            final(self)@ == old(self)@.in_status(
                if res is Ok {
                    ContainerStatus::Stopped
                } else {
                    ContainerStatus::Running
                },
            ),
    {
        match client.stop_container(self.name) {
            Ok(()) => {
                self.status = ContainerStatus::Stopped;
                Ok(())
            },
            Err(cause) => Err(Error::execution_failed(Operation::StopContainer, self.name, cause)),
        }
    }
}

} // verus!
