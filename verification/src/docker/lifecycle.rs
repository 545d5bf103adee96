//! The reconciler as a state machine over the exchanges with the runtime.
//!
//! A reconciliation never stores what it has learnt of the runtime: each
//! decision is taken from the answer to the call just made. The machine here
//! says, for every phase, which call comes next and where each possible
//! answer leads. The operations of [`crate::docker::container`] and the
//! driver of [`crate::cli::command`] are proved to speak to the runtime
//! exactly as the machine says.
use crate::docker::client::{
    appended, extends, lemma_appended_twice, lemma_one_more_extends, one_more, ClientErrorView,
    ContainerSummaryView, Exchange,
};
use crate::docker::error::{ErrorView, Operation};
use crate::docker::image::{build_verification, image_resolution, image_tag};
use crate::project::ImageSourceView;
use vstd::prelude::*;

verus! {

/// The lifecycle states of a project's container.
#[derive(Debug, Clone, Copy, PartialEq, Eq)]
pub enum ContainerStatus {
    /// No container carries the project's label.
    Absent,
    /// The project's container exists and is not running.
    Stopped,
    /// The project's container is running.
    Running,
}

/// The state a container summary stands for: running when the runtime says
/// `running`, stopped for every other state and for none.
pub open spec fn status_of(summary: ContainerSummaryView) -> ContainerStatus {
    if summary.state == Some("running"@) {
        ContainerStatus::Running
    } else {
        ContainerStatus::Stopped
    }
}

/// What a setup works from: the project's name, where its image comes from,
/// and the command to run once in the new container.
pub struct SetupPlan {
    pub name: Seq<char>,
    pub source: ImageSourceView,
    pub post_create: Option<Seq<Seq<char>>>,
}

/// What a reconciliation works from: the setup, should one be needed; the
/// command to attach; and whether to stop the container afterwards.
pub struct Plan {
    pub setup: SetupPlan,
    pub command: Seq<Seq<char>>,
    pub stop_after: bool,
}

/// The command that keeps a freshly created container alive and idle.
pub open spec fn idle_command() -> Seq<Seq<char>> {
    seq!["sleep"@, "infinity"@]
}

/// Where a setup stands.
pub enum SetupPhase {
    /// About to ask for the project's images.
    ResolveImage,
    /// The image is missing: about to have it built.
    Build,
    /// The build reported success: about to ask for the project's images again.
    Verify,
    /// The image is at hand: about to create the container from it.
    Create { image: Seq<char> },
    /// The container is created: about to run the post-create command in it.
    PostCreate,
    /// The container is created, running and provisioned.
    Ready,
    /// A step failed; nothing more is asked of the runtime.
    Failed(ErrorView),
    /// The exchanges are not those of a setup.
    Stray,
}

/// A failed command against the container, with the client's cause unchanged.
pub open spec fn execution(
    operation: Operation,
    name: Seq<char>,
    outcome: Result<(), ClientErrorView>,
) -> Result<(), ErrorView> {
    match outcome {
        Ok(_) => Ok(()),
        Err(cause) => Err(ErrorView::ExecutionFailed { operation, name, cause }),
    }
}

/// The first phase of a setup: a pre-built image is taken as given, a build
/// recipe has its image resolved first.
pub open spec fn setup_entry(plan: SetupPlan) -> SetupPhase {
    match plan.source {
        ImageSourceView::Image(reference) => SetupPhase::Create { image: reference },
        ImageSourceView::Dockerfile(_) => SetupPhase::ResolveImage,
    }
}

/// The phase after `phase` once `made` has taken place. An exchange other
/// than the one the phase calls for, or any exchange after the setup has
/// ended, leads to `Stray`.
pub open spec fn setup_advance(plan: SetupPlan, phase: SetupPhase, made: Exchange) -> SetupPhase {
    match phase {
        SetupPhase::ResolveImage => match made {
            Exchange::ListImages { project_name, images } => if project_name == plan.name
                && plan.source is Dockerfile {
                match image_resolution(plan.name, images) {
                    Ok(state) => if state.existing {
                        SetupPhase::Create { image: state.name }
                    } else {
                        SetupPhase::Build
                    },
                    Err(e) => SetupPhase::Failed(e),
                }
            } else {
                SetupPhase::Stray
            },
            _ => SetupPhase::Stray,
        },
        SetupPhase::Build => match made {
            Exchange::BuildImage { project_name, dockerfile, outcome } => if project_name
                == plan.name && plan.source == ImageSourceView::Dockerfile(dockerfile) {
                match outcome {
                    Ok(_) => SetupPhase::Verify,
                    Err(cause) => SetupPhase::Failed(
                        ErrorView::BuildFailed { name: plan.name, cause },
                    ),
                }
            } else {
                SetupPhase::Stray
            },
            _ => SetupPhase::Stray,
        },
        SetupPhase::Verify => match made {
            Exchange::ListImages { project_name, images } => if project_name == plan.name
                && plan.source is Dockerfile {
                match build_verification(plan.name, images) {
                    Ok(_) => SetupPhase::Create { image: image_tag(plan.name) },
                    Err(e) => SetupPhase::Failed(e),
                }
            } else {
                SetupPhase::Stray
            },
            _ => SetupPhase::Stray,
        },
        SetupPhase::Create { image } => match made {
            Exchange::Run { name, image_name, deattach, args, outcome } => if name == plan.name
                && image_name == image && deattach && args == idle_command() {
                match execution(Operation::Run, plan.name, outcome) {
                    Ok(_) => if plan.post_create is Some {
                        SetupPhase::PostCreate
                    } else {
                        SetupPhase::Ready
                    },
                    Err(e) => SetupPhase::Failed(e),
                }
            } else {
                SetupPhase::Stray
            },
            _ => SetupPhase::Stray,
        },
        SetupPhase::PostCreate => match made {
            Exchange::Exec { contain_name, cmd, outcome } => if contain_name == plan.name
                && plan.post_create == Some(cmd) {
                match execution(Operation::Exec, plan.name, outcome) {
                    Ok(_) => SetupPhase::Ready,
                    Err(e) => SetupPhase::Failed(e),
                }
            } else {
                SetupPhase::Stray
            },
            _ => SetupPhase::Stray,
        },
        SetupPhase::Ready => SetupPhase::Stray,
        SetupPhase::Failed(_) => SetupPhase::Stray,
        SetupPhase::Stray => SetupPhase::Stray,
    }
}

/// The phase reached from `start` once the exchanges of `made` have taken
/// place, oldest first.
pub open spec fn setup_follow(plan: SetupPlan, start: SetupPhase, made: Seq<Exchange>) -> SetupPhase
    decreases made.len(),
{
    if made.len() == 0 {
        start
    } else {
        setup_advance(plan, setup_follow(plan, start, made.drop_last()), made.last())
    }
}

/// Where a reconciliation stands.
pub enum Phase {
    /// About to ask for the project's containers.
    Resolve,
    /// No container exists: setting one up.
    Setup(SetupPhase),
    /// The container is stopped: about to start it.
    Start,
    /// The container is running: about to attach the command.
    Attach,
    /// The command has ended: about to stop the container.
    Teardown,
    /// All that was asked for has been done.
    Done,
    /// A step failed; nothing more is asked of the runtime.
    Failed(ErrorView),
    /// The exchanges are not those of a reconciliation.
    Stray,
}

/// The phase of the reconciliation that a phase of its setup amounts to: a
/// finished setup leaves the container running, ready to attach to; a failed
/// one fails the reconciliation.
pub open spec fn lift(phase: SetupPhase) -> Phase {
    match phase {
        SetupPhase::Ready => Phase::Attach,
        SetupPhase::Failed(e) => Phase::Failed(e),
        SetupPhase::Stray => Phase::Stray,
        _ => Phase::Setup(phase),
    }
}

/// Where the answer to the container query leads: no container, to setup; one
/// container, to attaching if it runs and to starting it if not; more than
/// one, to failure, as no one of them can be told to be the project's.
pub open spec fn resolved(
    plan: Plan,
    containers: Result<Seq<ContainerSummaryView>, ClientErrorView>,
) -> Phase {
    match containers {
        Err(cause) => Phase::Failed(
            ErrorView::RuntimeQueryFailed {
                operation: Operation::ListContainers,
                name: plan.setup.name,
                cause,
            },
        ),
        Ok(list) => if list.len() == 0 {
            lift(setup_entry(plan.setup))
        } else if list.len() == 1 {
            if status_of(list[0]) is Running {
                Phase::Attach
            } else {
                Phase::Start
            }
        } else {
            Phase::Failed(ErrorView::AmbiguousContainer { name: plan.setup.name })
        },
    }
}

/// The phase after `phase` once `made` has taken place. An exchange other
/// than the one the phase calls for, or any exchange after the
/// reconciliation has ended, leads to `Stray`.
pub open spec fn advance(plan: Plan, phase: Phase, made: Exchange) -> Phase {
    match phase {
        Phase::Resolve => match made {
            Exchange::ListContainers { project_name, containers } => if project_name
                == plan.setup.name {
                resolved(plan, containers)
            } else {
                Phase::Stray
            },
            _ => Phase::Stray,
        },
        Phase::Setup(inner) => lift(setup_advance(plan.setup, inner, made)),
        Phase::Start => match made {
            Exchange::StartContainer { name, outcome } => if name == plan.setup.name {
                match execution(Operation::StartContainer, name, outcome) {
                    Ok(_) => Phase::Attach,
                    Err(e) => Phase::Failed(e),
                }
            } else {
                Phase::Stray
            },
            _ => Phase::Stray,
        },
        Phase::Attach => match made {
            Exchange::Exec { contain_name, cmd, outcome } => if contain_name == plan.setup.name
                && cmd == plan.command {
                match execution(Operation::Exec, contain_name, outcome) {
                    Ok(_) => if plan.stop_after {
                        Phase::Teardown
                    } else {
                        Phase::Done
                    },
                    Err(e) => Phase::Failed(e),
                }
            } else {
                Phase::Stray
            },
            _ => Phase::Stray,
        },
        Phase::Teardown => match made {
            Exchange::StopContainer { name, outcome } => if name == plan.setup.name {
                match execution(Operation::StopContainer, name, outcome) {
                    Ok(_) => Phase::Done,
                    Err(e) => Phase::Failed(e),
                }
            } else {
                Phase::Stray
            },
            _ => Phase::Stray,
        },
        Phase::Done => Phase::Stray,
        Phase::Failed(_) => Phase::Stray,
        Phase::Stray => Phase::Stray,
    }
}

/// The phase reached from `start` once the exchanges of `made` have taken
/// place, oldest first.
pub open spec fn follow(plan: Plan, start: Phase, made: Seq<Exchange>) -> Phase
    decreases made.len(),
{
    if made.len() == 0 {
        start
    } else {
        advance(plan, follow(plan, start, made.drop_last()), made.last())
    }
}

/// Following one more exchange is advancing by it.
pub proof fn lemma_setup_follow_push(
    plan: SetupPlan,
    start: SetupPhase,
    made: Seq<Exchange>,
    next: Exchange,
)
    ensures
        setup_follow(plan, start, made.push(next)) == setup_advance(
            plan,
            setup_follow(plan, start, made),
            next,
        ),
{
    assert(made.push(next).drop_last() =~= made);
}

/// Following two runs of exchanges one after the other is following the
/// second from where the first led.
pub proof fn lemma_setup_follow_concat(
    plan: SetupPlan,
    start: SetupPhase,
    first: Seq<Exchange>,
    second: Seq<Exchange>,
)
    ensures
        setup_follow(plan, start, first + second) == setup_follow(
            plan,
            setup_follow(plan, start, first),
            second,
        ),
    decreases second.len(),
{
    if second.len() == 0 {
        assert(first + second =~= first);
    } else {
        lemma_setup_follow_concat(plan, start, first, second.drop_last());
        assert((first + second).drop_last() =~= first + second.drop_last());
    }
}

/// Following one more exchange is advancing by it.
pub proof fn lemma_follow_push(plan: Plan, start: Phase, made: Seq<Exchange>, next: Exchange)
    ensures
        follow(plan, start, made.push(next)) == advance(plan, follow(plan, start, made), next),
{
    assert(made.push(next).drop_last() =~= made);
}

/// Following two runs of exchanges one after the other is following the
/// second from where the first led.
pub proof fn lemma_follow_concat(
    plan: Plan,
    start: Phase,
    first: Seq<Exchange>,
    second: Seq<Exchange>,
)
    ensures
        follow(plan, start, first + second) == follow(plan, follow(plan, start, first), second),
    decreases second.len(),
{
    if second.len() == 0 {
        assert(first + second =~= first);
    } else {
        lemma_follow_concat(plan, start, first, second.drop_last());
        assert((first + second).drop_last() =~= first + second.drop_last());
    }
}

/// One more exchange in the log advances a setup by it: where `before`
/// extends `first` and `after` is `before` with one exchange more, what
/// `after` appended to `first` leads where that exchange leads from where
/// `before` stood.
pub proof fn lemma_setup_follow_one_more(
    plan: SetupPlan,
    start: SetupPhase,
    first: Seq<Exchange>,
    before: Seq<Exchange>,
    after: Seq<Exchange>,
)
    requires
        extends(before, first),
        one_more(after, before),
    ensures
        extends(after, first),
        setup_follow(plan, start, appended(first, after)) == setup_advance(
            plan,
            setup_follow(plan, start, appended(first, before)),
            after.last(),
        ),
{
    lemma_one_more_extends(after, before);
    lemma_appended_twice(after, before, first);
    assert(appended(first, after) =~= appended(first, before).push(after.last()));
    lemma_setup_follow_push(plan, start, appended(first, before), after.last());
}

/// One more exchange in the log advances a reconciliation by it: where
/// `before` extends `first` and `after` is `before` with one exchange more,
/// what `after` appended to `first` leads where that exchange leads from
/// where `before` stood.
pub proof fn lemma_follow_one_more(
    plan: Plan,
    start: Phase,
    first: Seq<Exchange>,
    before: Seq<Exchange>,
    after: Seq<Exchange>,
)
    requires
        extends(before, first),
        one_more(after, before),
    ensures
        extends(after, first),
        follow(plan, start, appended(first, after)) == advance(
            plan,
            follow(plan, start, appended(first, before)),
            after.last(),
        ),
{
    lemma_one_more_extends(after, before);
    lemma_appended_twice(after, before, first);
    assert(appended(first, after) =~= appended(first, before).push(after.last()));
    lemma_follow_push(plan, start, appended(first, before), after.last());
}

/// Whether a setup phase calls for another exchange.
pub open spec fn setup_pending(phase: SetupPhase) -> bool {
    !(phase is Ready || phase is Failed || phase is Stray)
}

/// Whether a phase calls for another exchange.
pub open spec fn pending(phase: Phase) -> bool {
    !(phase is Done || phase is Failed || phase is Stray)
}

/// While its setup goes on, a reconciliation stands where its setup stands.
pub proof fn lemma_follow_setup(plan: Plan, start: SetupPhase, made: Seq<Exchange>)
    requires
        setup_pending(start),
        !(setup_follow(plan.setup, start, made) is Stray),
    ensures
        follow(plan, Phase::Setup(start), made) == lift(setup_follow(plan.setup, start, made)),
    decreases made.len(),
{
    if made.len() > 0 {
        let before = setup_follow(plan.setup, start, made.drop_last());
        assert(setup_pending(before));
        lemma_follow_setup(plan, start, made.drop_last());
    }
}

} // verus!
