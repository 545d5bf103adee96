//! What holds of every reconciliation, proved from the definitions.
use crate::docker::client::{ContainerSummaryView, Exchange, ImageSummaryView};
use crate::docker::container::resolution;
use crate::docker::error::ErrorView;
use crate::docker::image::{
    build_conversation, image_resolution, image_tag, source_resolution, tagged,
};
use crate::docker::lifecycle::{
    advance, follow, lemma_follow_concat, lemma_follow_push, lemma_setup_follow_push, pending,
    setup_follow, Phase, Plan, SetupPhase, SetupPlan,
};
use crate::project::{ConfigView, ImageSourceView};
use vstd::prelude::*;

verus! {

/// A label query that finds nothing resolves to nothing: the container is
/// absent and without a summary, and the image does not exist.
pub proof fn law_nothing_listed_is_absent(
    name: Seq<char>,
    config: ConfigView,
    containers: Seq<ContainerSummaryView>,
    images: Seq<ImageSummaryView>,
)
    requires
        containers.len() == 0,
        images.len() == 0,
    ensures
        resolution(name, config, Ok(containers)) matches Ok(container) && container.status
            is Absent && container.summary is None,
        image_resolution(name, Ok(images)) matches Ok(image) && !image.existing,
{
}

/// A label query that finds exactly one container resolves to that
/// container: running if its state is the word `running`, stopped for every
/// other state and for none; absent in no case.
pub proof fn law_one_listed_is_running_or_stopped(
    name: Seq<char>,
    config: ConfigView,
    containers: Seq<ContainerSummaryView>,
)
    requires
        containers.len() == 1,
    ensures
        resolution(name, config, Ok(containers)) matches Ok(container) && container.summary
            == Some(containers[0]) && !(container.status is Absent) && (container.status is Running
            <==> containers[0].state == Some("running"@)),
{
}

/// On a container as resolved, the lifecycle state says what the runtime's
/// report says: the container is absent exactly when nothing was listed, and
/// running exactly when the listed state is the word `running`.
pub proof fn law_resolved_state_is_the_reported_state(
    name: Seq<char>,
    config: ConfigView,
    containers: Seq<ContainerSummaryView>,
)
    ensures
        resolution(name, config, Ok(containers)) matches Ok(container) ==> {
            &&& container.status is Absent <==> container.summary is None
            &&& container.status is Running <==> (container.summary matches Some(s) && s.state
                == Some("running"@))
        },
{
}

/// Once a reconciliation has left the machine's path, no exchange brings it
/// back.
pub proof fn law_stray_stays(plan: Plan, made: Seq<Exchange>)
    ensures
        follow(plan, Phase::Stray, made) is Stray,
    decreases made.len(),
{
    if made.len() > 0 {
        law_stray_stays(plan, made.drop_last());
    }
}

/// A reconciliation that is done or has failed asks nothing more of the
/// runtime: the first failure ends the sequence.
pub proof fn law_nothing_follows_the_end(plan: Plan, end: Phase, made: Seq<Exchange>)
    requires
        !pending(end),
        made.len() > 0,
    ensures
        follow(plan, end, made) is Stray,
{
    let first = seq![made[0]];
    let rest = made.skip(1);
    assert(made =~= first + rest);
    lemma_follow_concat(plan, end, first, rest);
    lemma_follow_push(plan, end, Seq::empty(), made[0]);
    assert(first =~= Seq::<Exchange>::empty().push(made[0]));
    law_stray_stays(plan, rest);
}

/// A label query that finds two containers or more fails the reconciliation
/// with `AmbiguousContainer`, and the query is all that is asked of the
/// runtime: no container or image is built, created, started, stopped or
/// attached to.
pub proof fn law_ambiguous_listing_is_fatal(
    plan: Plan,
    config: ConfigView,
    containers: Seq<ContainerSummaryView>,
    made: Seq<Exchange>,
)
    requires
        containers.len() >= 2,
        made.len() > 0,
        made[0] == (Exchange::ListContainers {
            project_name: plan.setup.name,
            containers: Ok(containers),
        }),
        !(follow(plan, Phase::Resolve, made) is Stray),
    ensures
        resolution(plan.setup.name, config, Ok(containers)) matches Err(e) && e
            == (ErrorView::AmbiguousContainer { name: plan.setup.name }),
        made.len() == 1,
        made[0].is_query(),
        follow(plan, Phase::Resolve, made) == Phase::Failed(
            ErrorView::AmbiguousContainer { name: plan.setup.name },
        ),
{
    let first = seq![made[0]];
    let rest = made.skip(1);
    let failed = Phase::Failed(ErrorView::AmbiguousContainer { name: plan.setup.name });
    assert(made =~= first + rest);
    assert(first =~= Seq::<Exchange>::empty().push(made[0]));
    lemma_follow_push(plan, Phase::Resolve, Seq::empty(), made[0]);
    assert(follow(plan, Phase::Resolve, first) == failed);
    lemma_follow_concat(plan, Phase::Resolve, first, rest);
    if rest.len() > 0 {
        law_nothing_follows_the_end(plan, failed, rest);
    }
}

/// Resolving an image is a matter of the image source and of what the
/// runtime lists alone: two queries that list the same images, in whatever
/// order, resolve alike. A resolution changes nothing in the runtime, as it
/// only queries; so resolving twice with no build in between gives the same
/// answer twice.
pub proof fn law_image_resolution_repeats(
    name: Seq<char>,
    source: ImageSourceView,
    first: Seq<ImageSummaryView>,
    second: Seq<ImageSummaryView>,
)
    requires
        first.to_set() == second.to_set(),
    ensures
        source_resolution(name, source, Ok(first)) == source_resolution(name, source, Ok(second)),
{
    let tag = image_tag(name);
    if tagged(first, tag) {
        let i = choose|i: int|
            0 <= i < first.len() && (#[trigger] first[i]).repo_tags.contains(tag);
        assert(first.to_set().contains(first[i]));
        assert(second.contains(first[i]));
        let j = choose|j: int| 0 <= j < second.len() && second[j] == first[i];
        assert(second[j].repo_tags.contains(tag));
    }
    if tagged(second, tag) {
        let i = choose|i: int|
            0 <= i < second.len() && (#[trigger] second[i]).repo_tags.contains(tag);
        assert(second.to_set().contains(second[i]));
        assert(first.contains(second[i]));
        let j = choose|j: int| 0 <= j < first.len() && first[j] == second[i];
        assert(first[j].repo_tags.contains(tag));
    }
}

/// A build that reports success counts for nothing until the runtime lists
/// an image under the project's tag: where the query after the build finds
/// none, the build has failed verification, and the setup it belongs to fails
/// with it.
pub proof fn law_unverified_build_fails(
    plan: SetupPlan,
    dockerfile: Seq<char>,
    images: Seq<ImageSummaryView>,
)
    requires
        plan.source == ImageSourceView::Dockerfile(dockerfile),
        !tagged(images, image_tag(plan.name)),
    ensures
        build_conversation(
            plan.name,
            dockerfile,
            seq![
                Exchange::BuildImage { project_name: plan.name, dockerfile, outcome: Ok(()) },
                Exchange::ListImages { project_name: plan.name, images: Ok(images) },
            ],
        ) matches Some(Err(e)) && e == (ErrorView::ImageBuildVerificationFailed {
            tag: image_tag(plan.name),
        }),
        setup_follow(
            plan,
            SetupPhase::Build,
            seq![
                Exchange::BuildImage { project_name: plan.name, dockerfile, outcome: Ok(()) },
                Exchange::ListImages { project_name: plan.name, images: Ok(images) },
            ],
        ) == SetupPhase::Failed(
            ErrorView::ImageBuildVerificationFailed { tag: image_tag(plan.name) },
        ),
{
    let built = Exchange::BuildImage { project_name: plan.name, dockerfile, outcome: Ok(()) };
    let listed = Exchange::ListImages { project_name: plan.name, images: Ok(images) };
    assert(seq![built, listed] =~= Seq::<Exchange>::empty().push(built).push(listed));
    lemma_setup_follow_push(plan, SetupPhase::Build, Seq::empty(), built);
    lemma_setup_follow_push(plan, SetupPhase::Build, Seq::<Exchange>::empty().push(built), listed);
}

/// How many of `made` ask for an image to be built.
pub open spec fn builds(made: Seq<Exchange>) -> nat
    decreases made.len(),
{
    if made.len() == 0 {
        0
    } else if made.last() is BuildImage {
        builds(made.drop_last()) + 1
    } else {
        builds(made.drop_last())
    }
}

/// How many of `made` ask for a container to be created.
pub open spec fn creations(made: Seq<Exchange>) -> nat
    decreases made.len(),
{
    if made.len() == 0 {
        0
    } else if made.last() is Run {
        creations(made.drop_last()) + 1
    } else {
        creations(made.drop_last())
    }
}

/// How far a reconciliation has come: every exchange on the machine's path
/// leads to a phase that is further along.
pub open spec fn progress(phase: Phase) -> nat {
    match phase {
        Phase::Resolve => 0,
        Phase::Setup(SetupPhase::ResolveImage) => 1,
        Phase::Setup(SetupPhase::Build) => 2,
        Phase::Setup(SetupPhase::Verify) => 3,
        Phase::Setup(SetupPhase::Create { .. }) => 4,
        Phase::Setup(_) => 5,
        Phase::Start => 5,
        Phase::Attach => 6,
        Phase::Teardown => 7,
        Phase::Done => 8,
        Phase::Failed(_) => 8,
        Phase::Stray => 9,
    }
}

/// An exchange on the machine's path leads further along.
pub proof fn law_every_exchange_is_progress(plan: Plan, phase: Phase, made: Exchange)
    requires
        !(advance(plan, phase, made) is Stray),
    ensures
        progress(phase) < progress(advance(plan, phase, made)),
{
}

/// A reconciliation makes eight calls at the most, whatever the runtime
/// answers.
pub proof fn law_reconciliation_is_bounded(plan: Plan, made: Seq<Exchange>)
    requires
        !(follow(plan, Phase::Resolve, made) is Stray),
    ensures
        made.len() <= progress(follow(plan, Phase::Resolve, made)) <= 8,
    decreases made.len(),
{
    if made.len() > 0 {
        let before = follow(plan, Phase::Resolve, made.drop_last());
        law_every_exchange_is_progress(plan, before, made.last());
        law_reconciliation_is_bounded(plan, made.drop_last());
    }
}

/// A reconciliation has the image built once at the most and the container
/// created once at the most; no build comes before the image is known to be
/// missing, and no creation before an image is at hand.
pub proof fn law_one_build_and_one_creation(plan: Plan, made: Seq<Exchange>)
    requires
        !(follow(plan, Phase::Resolve, made) is Stray),
    ensures
        builds(made) <= 1,
        creations(made) <= 1,
        progress(follow(plan, Phase::Resolve, made)) <= 2 ==> builds(made) == 0,
        progress(follow(plan, Phase::Resolve, made)) <= 4 ==> creations(made) == 0,
    decreases made.len(),
{
    if made.len() > 0 {
        let before = follow(plan, Phase::Resolve, made.drop_last());
        law_every_exchange_is_progress(plan, before, made.last());
        law_one_build_and_one_creation(plan, made.drop_last());
    }
}

/// Where no container carries the project's label, nothing is attached to
/// before a container has been created: a reconciliation that has come to
/// attaching, or further, has created the container, exactly once.
pub proof fn law_absent_container_is_created_before_attaching(
    plan: Plan,
    made: Seq<Exchange>,
)
    requires
        made.len() > 0,
        made[0] == (Exchange::ListContainers {
            project_name: plan.setup.name,
            containers: Ok(Seq::empty()),
        }),
        !(follow(plan, Phase::Resolve, made) is Stray),
    ensures
        !(follow(plan, Phase::Resolve, made) is Resolve),
        !(follow(plan, Phase::Resolve, made) is Start),
        follow(plan, Phase::Resolve, made) is Setup ==> (creations(made) == 0 <==> progress(
            follow(plan, Phase::Resolve, made),
        ) <= 4),
        creations(made) <= 1,
        (follow(plan, Phase::Resolve, made) is Attach || follow(plan, Phase::Resolve, made)
            is Teardown || follow(plan, Phase::Resolve, made) is Done) ==> creations(made) == 1,
    decreases made.len(),
{
    let before = follow(plan, Phase::Resolve, made.drop_last());
    law_one_build_and_one_creation(plan, made);
    if made.len() == 1 {
        assert(made.drop_last() =~= Seq::<Exchange>::empty());
        assert(creations(made.drop_last()) == 0);
    } else {
        assert(made.drop_last()[0] == made[0]);
        law_absent_container_is_created_before_attaching(plan, made.drop_last());
    }
}

} // verus!
