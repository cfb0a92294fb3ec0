//! Whole runs of the pipeline.
//!
//! A run is the sequence of events that the driver reports, starting from an
//! idle pipeline. This module says where a run leads and proves what holds of
//! every run: when it succeeds, with which error it fails, that it ends, and
//! that the workspace is removed once, whatever happens.

use vstd::prelude::*;
use crate::error::{ErrorModel, Stage};
use crate::layout::{join, library_file, LayoutModel};
use crate::pipeline::{
    accepts,
    advance,
    failure,
    pending,
    removal_attempted,
    run,
    ActionModel,
    Cause,
    EventModel,
    PlanModel,
    StateModel,
};
use crate::request::RequestModel;

verus! {

/// The action that the pipeline asks for after `events`.
pub open spec fn asked(plan: PlanModel, events: Seq<EventModel>) -> ActionModel {
    pending(plan, run(plan, events))
}

/// How often the pipeline has asked for the removal of the workspace, from
/// the start up to the action that it asks for after `events`.
pub open spec fn removals(plan: PlanModel, events: Seq<EventModel>) -> nat
    decreases events.len(),
{
    let here: nat = if asked(plan, events) is RemoveWorkspace {
        1
    } else {
        0
    };
    if events.len() == 0 {
        here
    } else {
        removals(plan, events.drop_last()) + here
    }
}

/// Whether an action reads or changes anything inside the workspace.
pub open spec fn uses_workspace(action: ActionModel) -> bool {
    match action {
        ActionModel::CreateWorkspace { .. } => true,
        ActionModel::WriteSources { .. } => true,
        ActionModel::RunBuild { .. } => true,
        ActionModel::MoveArtifact { .. } => true,
        ActionModel::RemoveWorkspace { .. } => true,
        _ => false,
    }
}

/// The stage that the event at position `k` of a run reports on, as long as
/// no stage has failed.
pub open spec fn stage_at(k: int) -> Stage {
    if k <= 0 {
        Stage::CreateWorkspace
    } else if k == 1 {
        Stage::WriteSources
    } else if k == 2 {
        Stage::Build
    } else if k == 3 {
        Stage::EnsureOutputDir
    } else if k == 4 {
        Stage::Extract
    } else if k == 5 {
        Stage::Cleanup
    } else {
        Stage::Resolve
    }
}

/// The first `k` events each report that their stage has done its work.
pub open spec fn succeeds_through(events: Seq<EventModel>, k: int) -> bool {
    &&& k <= events.len()
    &&& forall|j: int| 0 <= j < k ==> accepts(stage_at(j), #[trigger] events[j])
}

/// The state of a build whose first `k` stages have done their work.
pub open spec fn state_after(events: Seq<EventModel>, k: int) -> StateModel {
    if k <= 0 {
        StateModel::Idle
    } else if k == 1 {
        StateModel::WorkspaceCreated
    } else if k == 2 {
        StateModel::SourceWritten
    } else if k == 3 {
        StateModel::Built
    } else if k == 4 {
        StateModel::OutputDirReady
    } else if k == 5 {
        StateModel::Extracted
    } else if k == 6 {
        StateModel::Cleaned
    } else {
        StateModel::Done { path: events[6]->Resolved_path }
    }
}

/// One more event takes the run one step further.
proof fn lemma_run_step(plan: PlanModel, events: Seq<EventModel>, i: int)
    requires
        0 <= i < events.len(),
    ensures
        run(plan, events.take(i + 1)) == advance(plan, run(plan, events.take(i)), events[i]),
{
    assert(events.take(i + 1).drop_last() =~= events.take(i));
}

/// As long as every stage does its work, the run walks through the stages in
/// order.
proof fn lemma_success_prefix(plan: PlanModel, events: Seq<EventModel>, k: int)
    requires
        0 <= k <= 7,
        succeeds_through(events, k),
    ensures
        run(plan, events.take(k)) == state_after(events, k),
    decreases k,
{
    if k > 0 {
        lemma_success_prefix(plan, events, k - 1);
        lemma_run_step(plan, events, k - 1);
        assert(accepts(stage_at(k - 1), events[k - 1]));
    }
}

/// A build that has succeeded or failed stays so, with the same path or
/// error, and has nothing left to do after one more event.
proof fn lemma_outcome_stays(plan: PlanModel, events: Seq<EventModel>, i: int)
    requires
        0 <= i <= events.len(),
        run(plan, events.take(i)).stage() is None,
    ensures
        run(plan, events.take(i)) matches StateModel::Done { path } ==> run(plan, events)
            == (StateModel::Done { path }),
        run(plan, events.take(i)) matches StateModel::Failed { error, torn_down } ==> run(
            plan,
            events,
        ) == (StateModel::Failed { error, torn_down: torn_down || events.len() > i }),
    decreases events.len() - i,
{
    if i < events.len() {
        lemma_run_step(plan, events, i);
        lemma_outcome_stays(plan, events, i + 1);
    } else {
        assert(events.take(i) =~= events);
    }
}

/// What the state of a run tells about the run.
proof fn lemma_shape(plan: PlanModel, events: Seq<EventModel>)
    ensures
        match run(plan, events) {
            StateModel::Idle => events.len() == 0,
            StateModel::WorkspaceCreated => events.len() == 1 && succeeds_through(events, 1),
            StateModel::SourceWritten => events.len() == 2 && succeeds_through(events, 2),
            StateModel::Built => events.len() == 3 && succeeds_through(events, 3),
            StateModel::OutputDirReady => events.len() == 4 && succeeds_through(events, 4),
            StateModel::Extracted => events.len() == 5 && succeeds_through(events, 5),
            StateModel::Cleaned => events.len() == 6 && succeeds_through(events, 6),
            StateModel::Done { path } => events.len() >= 7 && succeeds_through(events, 7)
                && events[6] == (EventModel::Resolved { path }),
            StateModel::Failed { torn_down, .. } => events.len() >= 1 && (!torn_down
                ==> events.len() <= 5),
        },
        removals(plan, events) == (match run(plan, events) {
            StateModel::Idle => 0nat,
            StateModel::WorkspaceCreated => 0nat,
            StateModel::SourceWritten => 0nat,
            StateModel::Built => 0nat,
            StateModel::OutputDirReady => 0nat,
            _ => 1nat,
        }),
    decreases events.len(),
{
    if events.len() > 0 {
        let before = events.drop_last();
        let n = before.len() as int;
        lemma_shape(plan, before);
        assert(run(plan, events) == advance(plan, run(plan, before), events.last()));
        assert forall|k: int| 0 <= k <= n && succeeds_through(before, k) && accepts(
            stage_at(k),
            events.last(),
        ) && k == n implies succeeds_through(events, k + 1) by {
            assert forall|j: int| 0 <= j < k + 1 implies accepts(
                stage_at(j),
                #[trigger] events[j],
            ) by {
                if j < k {
                    assert(before[j] == events[j]);
                }
            }
        }
        assert forall|k: int| 0 <= k <= n && succeeds_through(before, k) implies succeeds_through(
            events,
            k,
        ) by {
            assert forall|j: int| 0 <= j < k implies accepts(stage_at(j), #[trigger] events[j]) by {
                assert(before[j] == events[j]);
            }
        }
        match run(plan, before) {
            StateModel::Idle => {
                assert(succeeds_through(before, 0));
            },
            StateModel::Done { path } => {
                assert(before[6] == events[6]);
            },
            _ => {},
        }
    }
}

/// Every run comes to an end: after seven events at the latest nothing is
/// left to do but to hand out the result.
pub proof fn law_run_finishes(plan: PlanModel, events: Seq<EventModel>)
    requires
        events.len() >= 7,
    ensures
        run(plan, events).finished(),
{
    lemma_shape(plan, events);
    lemma_shape(plan, events.drop_last());
}

/// As long as every stage does its work, a run walks through the stages in
/// order, one per event, and stays where it is once the seventh has resolved
/// the final path.
pub proof fn law_run_follows_the_stages(plan: PlanModel, events: Seq<EventModel>)
    requires
        succeeds_through(events, if events.len() < 7 { events.len() as int } else { 7 }),
    ensures
        run(plan, events) == state_after(events, events.len() as int),
{
    let k = if events.len() < 7 { events.len() as int } else { 7 };
    lemma_success_prefix(plan, events, k);
    if k == 7 {
        lemma_outcome_stays(plan, events, k);
    } else {
        assert(events.take(k) =~= events);
    }
}

/// A run succeeds with `path` exactly when each of the seven stages has done
/// its work, in order, and the last of them resolved the final path to
/// `path`.
pub proof fn law_success_exactly_when_every_stage_succeeds(
    plan: PlanModel,
    events: Seq<EventModel>,
    path: Seq<char>,
)
    ensures
        run(plan, events) == (StateModel::Done { path }) <==> succeeds_through(events, 7)
            && events[6] == (EventModel::Resolved { path }),
{
    lemma_shape(plan, events);
    if succeeds_through(events, 7) && events[6] == (EventModel::Resolved { path }) {
        lemma_success_prefix(plan, events, 7);
        lemma_outcome_stays(plan, events, 7);
    }
}

/// A run fails at the first stage that does not do its work, with the error
/// of that stage, and no later stage is started: the removal of the
/// workspace is asked for unless it has been attempted already, and then the
/// error is handed out, whatever the removal reports.
pub proof fn law_failure_is_that_of_first_failing_stage(
    plan: PlanModel,
    events: Seq<EventModel>,
    k: int,
)
    requires
        0 <= k < 7,
        k < events.len(),
        succeeds_through(events, k),
        !accepts(stage_at(k), events[k]),
    ensures
        ({
            let error = failure(plan, stage_at(k), events[k]);
            let teardown = ActionModel::RemoveWorkspace { root: plan.workspace.root_path };
            let finish = ActionModel::Finish { result: Err(error) };
            &&& run(plan, events) == (StateModel::Failed {
                error,
                torn_down: removal_attempted(stage_at(k)) || events.len() > k + 1,
            })
            &&& asked(plan, events.take(k + 1)) == if removal_attempted(stage_at(k)) {
                finish
            } else {
                teardown
            }
            &&& events.len() > k + 1 ==> asked(plan, events) == finish
        }),
{
    lemma_success_prefix(plan, events, k);
    lemma_run_step(plan, events, k);
    lemma_outcome_stays(plan, events, k + 1);
}

/// Finding the shared output directory in place is as good as creating it:
/// after either report the directory counts as ready and the library is
/// moved next.
pub proof fn law_found_output_dir_is_ready(plan: PlanModel, event: EventModel)
    requires
        event is Completed || (event matches EventModel::Failed { cause, .. } && cause
            == Cause::AlreadyExists),
    ensures
        advance(plan, StateModel::Built, event) == StateModel::OutputDirReady,
        pending(plan, advance(plan, StateModel::Built, event)) == (ActionModel::MoveArtifact {
            from: plan.artifact.transient_path,
            to: plan.artifact.final_path,
        }),
{
}

/// The workspace is removed once on every path: no run asks for its removal
/// twice, and a run that has come to its end, in success or in failure, has
/// asked for it.
pub proof fn law_workspace_removed_once(plan: PlanModel, events: Seq<EventModel>)
    ensures
        removals(plan, events) <= 1,
        run(plan, events).finished() ==> removals(plan, events) == 1,
{
    lemma_shape(plan, events);
}

/// Nothing but the workspace is ever removed: wherever a run asks for a
/// removal, it is that of the root of its own workspace.
pub proof fn law_nothing_but_the_workspace_is_removed(plan: PlanModel, events: Seq<EventModel>)
    ensures
        asked(plan, events) matches ActionModel::RemoveWorkspace { root } ==> root
            == plan.workspace.root_path,
{
}

/// Once the removal of the workspace has been asked for, no later action
/// reads or changes anything inside it: all that can follow is the resolving
/// of the final path and the handing out of the result.
pub proof fn law_workspace_unused_after_removal(plan: PlanModel, events: Seq<EventModel>, i: int)
    requires
        0 <= i < events.len(),
        asked(plan, events.take(i)) is RemoveWorkspace,
    ensures
        !uses_workspace(asked(plan, events)),
        run(plan, events).stage() is None || run(plan, events) == StateModel::Cleaned,
    decreases events.len(),
{
    if events.len() == i + 1 {
        lemma_run_step(plan, events, i);
    } else {
        let before = events.drop_last();
        assert(before.take(i) =~= events.take(i));
        law_workspace_unused_after_removal(plan, before, i);
    }
}

/// A build whose toolchain did not exit with code zero fails as a build
/// failure that carries the exit code. The next action is the removal of the
/// workspace of the request, and after one more event, whatever it reports,
/// the build failure is handed out.
pub proof fn law_failed_build_is_cleaned_up_and_reported(
    layout: LayoutModel,
    request: RequestModel,
    events: Seq<EventModel>,
    code: Option<i32>,
)
    requires
        events.len() >= 3,
        succeeds_through(events, 2),
        events[2] == (EventModel::Exited { code }),
        code != Some(0i32),
    ensures
        ({
            let plan = PlanModel::of(layout, request);
            let error = ErrorModel::BuildFailure { exit_code: code };
            &&& run(plan, events) == (StateModel::Failed { error, torn_down: events.len() > 3 })
            &&& asked(plan, events.take(3)) == (ActionModel::RemoveWorkspace {
                root: layout.workspace_root(request),
            })
            &&& events.len() > 3 ==> asked(plan, events) == (ActionModel::Finish {
                result: Err(error),
            })
        }),
{
    law_failure_is_that_of_first_failing_stage(PlanModel::of(layout, request), events, 2);
}

/// A build that has succeeded has gone through the removal of the workspace
/// of its request, which was reported as done or as not needed, and hands out
/// the path to which the final path of the library, `<output
/// root>/<name>.<extension>`, was resolved.
pub proof fn law_success_follows_cleanup(
    layout: LayoutModel,
    request: RequestModel,
    events: Seq<EventModel>,
    path: Seq<char>,
)
    requires
        run(PlanModel::of(layout, request), events) == (StateModel::Done { path }),
    ensures
        ({
            let plan = PlanModel::of(layout, request);
            &&& events.len() >= 7
            &&& asked(plan, events.take(5)) == (ActionModel::RemoveWorkspace {
                root: layout.workspace_root(request),
            })
            &&& accepts(Stage::Cleanup, events[5])
            &&& asked(plan, events.take(6)) == (ActionModel::Resolve {
                path: join(layout.output_root, library_file(request.name, layout.extension)),
            })
            &&& events[6] == (EventModel::Resolved { path })
            &&& asked(plan, events) == (ActionModel::Finish { result: Ok(path) })
        }),
{
    let plan = PlanModel::of(layout, request);
    law_success_exactly_when_every_stage_succeeds(plan, events, path);
    assert(succeeds_through(events, 5));
    assert(succeeds_through(events, 6));
    lemma_success_prefix(plan, events, 5);
    lemma_success_prefix(plan, events, 6);
}

} // verus!
