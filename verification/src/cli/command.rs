//! The commands: what each one has the reconciler do.
use crate::docker::client::{
    appended, extends, lemma_appended_twice, DockerClient, Exchange, Session,
};
use crate::docker::container::Container;
use crate::docker::error::Error;
use crate::docker::lifecycle::{
    follow, lemma_follow_concat, lemma_follow_one_more, lemma_follow_setup, lift, setup_entry,
    ContainerStatus, Phase, Plan, SetupPlan,
};
use crate::project::{Project, ProjectView};
use vstd::prelude::*;

verus! {

/// What a reconciliation of `project` works from.
pub open spec fn plan_of(project: ProjectView, command: Seq<Seq<char>>, stop_after: bool) -> Plan {
    Plan {
        setup: SetupPlan {
            name: project.name,
            source: project.config.image_source,
            post_create: project.config.post_create_command,
        },
        command,
        stop_after,
    }
}

/// The phase a reconciliation ends in: done after a success, failed with the
/// error otherwise.
pub open spec fn finish(r: Result<(), Error>) -> Phase {
    match r {
        Ok(_) => Phase::Done,
        Err(e) => Phase::Failed(e@),
    }
}

/// The interactive command that `shell` attaches.
pub open spec fn shell_command() -> Seq<Seq<char>> {
    seq!["/bin/zsh"@]
}

/// What to tell the user before a container in `status` is brought up; nothing
/// where it is running already.
pub fn progress_notice(status: ContainerStatus) -> (notice: Option<&'static str>)
    ensures
        match status {
            ContainerStatus::Absent => notice matches Some(n) && n@
                == "container does not exist, creating..."@,
            ContainerStatus::Stopped => notice matches Some(n) && n@
                == "container is not running, starting..."@,
            ContainerStatus::Running => notice is None,
        },
{
    match status {
        ContainerStatus::Absent => Some("container does not exist, creating..."),
        ContainerStatus::Stopped => Some("container is not running, starting..."),
        ContainerStatus::Running => None,
    }
}

/// The phase a reconciliation is in once the container is known to be in
/// `status`: an absent container is set up, a stopped one started, a running
/// one attached to.
pub open spec fn entered(plan: Plan, status: ContainerStatus) -> Phase {
    match status {
        ContainerStatus::Absent => lift(setup_entry(plan.setup)),
        ContainerStatus::Stopped => Phase::Start,
        ContainerStatus::Running => Phase::Attach,
    }
}

/// Brings a resolved container up and attaches `command` to it: by the
/// container's lifecycle state, sets the container up if it is absent,
/// starts it if it is stopped, leaves it alone if it is running; attaches
/// the command; and, where `stop_after` is set, stops the container once the
/// command has ended. The first failure ends the sequence and is returned as
/// it is; nothing is undone.
///
/// The exchanges made are exactly those of [`follow`] from the phase the
/// container's state calls for to `Done` or to the failure returned.
pub fn reconcile<C: DockerClient>(
    container: &mut Container,
    command: &[&str],
    stop_after: bool,
    client: &mut Session<C>,
) -> (res: Result<(), Error>)
    ensures
        extends(final(client).log(), old(client).log()),
        follow(
            (Plan { setup: old(container)@.plan(), command: command.deep_view(), stop_after }),
            entered(
                (Plan { setup: old(container)@.plan(), command: command.deep_view(), stop_after }),
                old(container)@.status,
            ),
            appended(old(client).log(), final(client).log()),
        ) == finish(res),
        final(container)@.plan() == old(container)@.plan(),
{
    let ghost plan = Plan { setup: container@.plan(), command: command.deep_view(), stop_after };
    let ghost entry = entered(plan, container@.status);
    let ghost log1 = client.log();
    assert(appended(log1, log1) =~= Seq::<Exchange>::empty());
    match container.status() {
        ContainerStatus::Absent => {
            let set_up = container.setup(client);
            proof {
                lemma_follow_setup(plan, setup_entry(plan.setup), appended(log1, client.log()));
            }
            match set_up {
                Ok(()) => {},
                Err(e) => {
                    return Err(e);
                },
            }
        },
        ContainerStatus::Stopped => {
            let started = container.start(client);
            proof {
                lemma_follow_one_more(plan, entry, log1, log1, client.log());
            }
            match started {
                Ok(()) => {},
                Err(e) => {
                    return Err(e);
                },
            }
        },
        ContainerStatus::Running => {},
    }
    let ghost log2 = client.log();
    assert(follow(plan, entry, appended(log1, log2)) == Phase::Attach);
    let attached = container.exec(client, command);
    let ghost log3 = client.log();
    proof {
        lemma_follow_one_more(plan, entry, log1, log2, log3);
    }
    match attached {
        Ok(()) => {},
        Err(e) => {
            return Err(e);
        },
    }
    if stop_after {
        let stopped = container.stop(client);
        proof {
            lemma_follow_one_more(plan, entry, log1, log3, client.log());
        }
        match stopped {
            Ok(()) => {},
            Err(e) => {
                return Err(e);
            },
        }
    }
    Ok(())
}

/// Brings the project's container up and attaches `command` to it: resolves
/// the container with one label query, then goes on as [`reconcile`] does.
/// A failed or ambiguous resolution ends the sequence at once.
///
/// The exchanges made are exactly those of [`follow`] from `Resolve` to `Done`
/// or to the failure returned.
pub fn ensure_and_attach<C: DockerClient>(
    project: &Project,
    command: &[&str],
    stop_after: bool,
    client: &mut Session<C>,
) -> (res: Result<(), Error>)
    ensures
        extends(final(client).log(), old(client).log()),
        follow(
            plan_of(project@, command.deep_view(), stop_after),
            Phase::Resolve,
            appended(old(client).log(), final(client).log()),
        ) == finish(res),
{
    let ghost plan = plan_of(project@, command.deep_view(), stop_after);
    let ghost log0 = client.log();
    let resolved = Container::new(project.name.as_str(), &project.config, client);
    let ghost log1 = client.log();
    proof {
        lemma_follow_one_more(plan, Phase::Resolve, log0, log0, log1);
    }
    let mut container = match resolved {
        Ok(container) => container,
        Err(e) => {
            return Err(e);
        },
    };
    assert(container@.plan() == plan.setup);
    assert(follow(plan, Phase::Resolve, appended(log0, log1)) == entered(plan, container@.status));
    let res = reconcile(&mut container, command, stop_after, client);
    proof {
        lemma_appended_twice(client.log(), log1, log0);
        lemma_follow_concat(
            plan,
            Phase::Resolve,
            appended(log0, log1),
            appended(log1, client.log()),
        );
    }
    res
}

/// Opens an interactive shell in the project's container, bringing the
/// container up first, and stops the container afterwards where `stop` is
/// set.
pub fn shell<C: DockerClient>(project: &Project, client: &mut Session<C>, stop: bool) -> (res:
    Result<(), Error>)
    ensures
        extends(final(client).log(), old(client).log()),
        follow(
            plan_of(project@, shell_command(), stop),
            Phase::Resolve,
            appended(old(client).log(), final(client).log()),
        ) == finish(res),
{
    let command: [&str; 1] = ["/bin/zsh"];
    assert(command.deep_view() =~= shell_command());
    ensure_and_attach(project, &command, stop, client)
}

} // verus!
