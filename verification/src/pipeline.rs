//! The pipeline of one build, as a state machine.
//!
//! The orchestrator never touches the outside world. In every state it names
//! one [`Action`]; the driver carries the action out and reports what
//! happened as an [`Event`]; the orchestrator moves to the next state and
//! names the next action. A build runs through
//!
//! `Idle → WorkspaceCreated → SourceWritten → Built → OutputDirReady →
//! Extracted → Cleaned → Done`
//!
//! and drops to `Failed` from wherever a stage fails. A failure before the
//! workspace has been removed is followed by one attempt to remove it, whose
//! own outcome changes nothing: the error that is finally handed out is the
//! one that stopped the build.

use vstd::prelude::*;
use vstd::string::*;
use crate::error::{BuildError, ErrorModel, Stage};
use crate::layout::{Artifact, ArtifactModel, Layout, LayoutModel, Workspace, WorkspaceModel};
use crate::manifest::{generate_toml, manifest_text};
use crate::request::{BuildRequest, RequestModel};
use crate::toolchain::{BuildOutcome, Invocation, InvocationModel};

verus! {

/// Why the driver could not carry out an action.
#[derive(Clone, Copy, Debug, PartialEq, Eq, Structural)]
pub enum Cause {
    /// What the action works on does not exist.
    NotFound,
    /// What the action was to create exists already.
    AlreadyExists,
    /// The subprocess could not be launched.
    Spawn,
    /// Anything else.
    Other,
}

/// A report of the driver, as plain values.
pub enum EventModel {
    Completed,
    Failed { cause: Cause, detail: Seq<char> },
    Exited { code: Option<i32> },
    Resolved { path: Seq<char> },
}

/// What the driver reports after it has carried out an action.
#[derive(Debug, PartialEq, Eq)]
pub enum Event {
    /// The action was carried out.
    Completed,
    /// The action could not be carried out; `detail` says why, in words.
    Failed { cause: Cause, detail: String },
    /// The toolchain ran and ended, with this exit code if it had one.
    Exited { code: Option<i32> },
    /// The path was resolved to this absolute path.
    Resolved { path: String },
}

impl View for Event {
    type V = EventModel;

    open spec fn view(&self) -> EventModel {
        match *self {
            Event::Completed => EventModel::Completed,
            Event::Failed { cause, detail } => EventModel::Failed { cause, detail: detail@ },
            Event::Exited { code } => EventModel::Exited { code },
            Event::Resolved { path } => EventModel::Resolved { path: path@ },
        }
    }
}

/// Everything that is fixed once a request has been accepted, as plain
/// values.
pub struct PlanModel {
    pub workspace: WorkspaceModel,
    pub artifact: ArtifactModel,
    pub manifest: Seq<char>,
    pub source_code: Seq<char>,
    pub output_root: Seq<char>,
}

impl PlanModel {
    /// The plan for building `request` under `layout`.
    pub open spec fn of(layout: LayoutModel, request: RequestModel) -> PlanModel {
        PlanModel {
            workspace: layout.workspace(request),
            artifact: layout.artifact(request),
            manifest: manifest_text(request.name),
            source_code: request.source_code,
            output_root: layout.output_root,
        }
    }
}

/// Everything that is fixed once a request has been accepted: the paths, the
/// manifest and the source text.
#[derive(Debug, PartialEq, Eq)]
pub struct Plan {
    pub workspace: Workspace,
    pub artifact: Artifact,
    pub manifest: String,
    pub source_code: String,
    pub output_root: String,
}

impl View for Plan {
    type V = PlanModel;

    open spec fn view(&self) -> PlanModel {
        PlanModel {
            workspace: self.workspace@,
            artifact: self.artifact@,
            manifest: self.manifest@,
            source_code: self.source_code@,
            output_root: self.output_root@,
        }
    }
}

impl Plan {
    /// The plan for building `request` under `layout`.
    pub fn new(layout: &Layout, request: &BuildRequest) -> (plan: Plan)
        ensures
            plan@ == PlanModel::of(layout@, request@),
    {
        let workspace = layout.workspace(request);
        let artifact = layout.artifact(&workspace, request);
        Plan {
            workspace,
            artifact,
            manifest: generate_toml(request.name()),
            source_code: String::from_str(request.source_code()),
            output_root: layout.output_root.clone(),
        }
    }
}

/// An action, as plain values.
pub enum ActionModel {
    CreateWorkspace { root: Seq<char>, source_tree: Seq<char> },
    WriteSources {
        manifest_path: Seq<char>,
        manifest: Seq<char>,
        source_path: Seq<char>,
        source_code: Seq<char>,
    },
    RunBuild { invocation: InvocationModel },
    EnsureOutputDir { path: Seq<char> },
    MoveArtifact { from: Seq<char>, to: Seq<char> },
    RemoveWorkspace { root: Seq<char> },
    Resolve { path: Seq<char> },
    Finish { result: Result<Seq<char>, ErrorModel> },
}

/// What the driver is to do next.
#[derive(Debug, PartialEq, Eq)]
pub enum Action {
    /// Create the directory `root` with all its parents, and `source_tree`
    /// below it.
    CreateWorkspace { root: String, source_tree: String },
    /// Write `manifest` to `manifest_path` and `source_code` to `source_path`.
    WriteSources { manifest_path: String, manifest: String, source_path: String, source_code: String },
    /// Run the toolchain as `invocation` says and wait for it to end.
    RunBuild { invocation: Invocation },
    /// Create the directory `path` unless it exists.
    EnsureOutputDir { path: String },
    /// Move the file `from` to `to`, replacing what is there.
    MoveArtifact { from: String, to: String },
    /// Remove the directory `root` and everything below it.
    RemoveWorkspace { root: String },
    /// Resolve `path` to an absolute path.
    Resolve { path: String },
    /// Nothing is left to do: hand `result` to whoever asked for the build.
    Finish { result: Result<String, BuildError> },
}

impl View for Action {
    type V = ActionModel;

    open spec fn view(&self) -> ActionModel {
        match *self {
            Action::CreateWorkspace { root, source_tree } => ActionModel::CreateWorkspace {
                root: root@,
                source_tree: source_tree@,
            },
            Action::WriteSources {
                manifest_path,
                manifest,
                source_path,
                source_code,
            } => ActionModel::WriteSources {
                manifest_path: manifest_path@,
                manifest: manifest@,
                source_path: source_path@,
                source_code: source_code@,
            },
            Action::RunBuild { invocation } => ActionModel::RunBuild { invocation: invocation@ },
            Action::EnsureOutputDir { path } => ActionModel::EnsureOutputDir { path: path@ },
            Action::MoveArtifact { from, to } => ActionModel::MoveArtifact { from: from@, to: to@ },
            Action::RemoveWorkspace { root } => ActionModel::RemoveWorkspace { root: root@ },
            Action::Resolve { path } => ActionModel::Resolve { path: path@ },
            Action::Finish { result } => ActionModel::Finish {
                result: match result {
                    Ok(path) => Ok(path@),
                    Err(error) => Err(error@),
                },
            },
        }
    }
}

/// A state of the pipeline, as plain values.
pub enum StateModel {
    Idle,
    WorkspaceCreated,
    SourceWritten,
    Built,
    OutputDirReady,
    Extracted,
    Cleaned,
    Done { path: Seq<char> },
    Failed { error: ErrorModel, torn_down: bool },
}

/// How far a build has come.
#[derive(Debug, PartialEq, Eq)]
pub enum State {
    /// Nothing has been done yet.
    Idle,
    /// The workspace directories exist.
    WorkspaceCreated,
    /// The manifest and the source text are in the workspace.
    SourceWritten,
    /// The toolchain has exited with code zero.
    Built,
    /// The shared output directory exists.
    OutputDirReady,
    /// The library is at its final path.
    Extracted,
    /// The workspace is gone.
    Cleaned,
    /// The build has succeeded; `path` is the absolute path of the library.
    Done { path: String },
    /// The build has failed with `error`. `torn_down` says whether the
    /// removal of the workspace has been attempted.
    Failed { error: BuildError, torn_down: bool },
}

impl View for State {
    type V = StateModel;

    open spec fn view(&self) -> StateModel {
        match *self {
            State::Idle => StateModel::Idle,
            State::WorkspaceCreated => StateModel::WorkspaceCreated,
            State::SourceWritten => StateModel::SourceWritten,
            State::Built => StateModel::Built,
            State::OutputDirReady => StateModel::OutputDirReady,
            State::Extracted => StateModel::Extracted,
            State::Cleaned => StateModel::Cleaned,
            State::Done { path } => StateModel::Done { path: path@ },
            State::Failed { error, torn_down } => StateModel::Failed { error: error@, torn_down },
        }
    }
}

impl StateModel {
    /// The stage whose outcome the next event reports, if a stage is under
    /// way.
    pub open spec fn stage(self) -> Option<Stage> {
        match self {
            StateModel::Idle => Some(Stage::CreateWorkspace),
            StateModel::WorkspaceCreated => Some(Stage::WriteSources),
            StateModel::SourceWritten => Some(Stage::Build),
            StateModel::Built => Some(Stage::EnsureOutputDir),
            StateModel::OutputDirReady => Some(Stage::Extract),
            StateModel::Extracted => Some(Stage::Cleanup),
            StateModel::Cleaned => Some(Stage::Resolve),
            StateModel::Done { .. } => None,
            StateModel::Failed { .. } => None,
        }
    }

    /// Nothing is left to do but to hand out the result.
    pub open spec fn finished(self) -> bool {
        match self {
            StateModel::Done { .. } => true,
            StateModel::Failed { torn_down, .. } => torn_down,
            _ => false,
        }
    }
}

/// Whether `event` reports that `stage` has done its work.
///
/// The build has succeeded only if the toolchain exited with code zero. The
/// output directory is ready also when it was found to exist, and the
/// workspace is gone also when it was found to be absent. A report that does
/// not answer the stage counts as a failure of the stage.
pub open spec fn accepts(stage: Stage, event: EventModel) -> bool {
    match stage {
        Stage::Build => event matches EventModel::Exited { code } && BuildOutcome::of(
            code,
        ).succeeded,
        Stage::EnsureOutputDir => event is Completed || (event matches EventModel::Failed {
            cause,
            ..
        } && cause == Cause::AlreadyExists),
        Stage::Cleanup => event is Completed || (event matches EventModel::Failed { cause, .. }
            && cause == Cause::NotFound),
        Stage::Resolve => event is Resolved,
        _ => event is Completed,
    }
}

/// The words that came with a failure report; empty for any other report.
pub open spec fn detail_of(event: EventModel) -> Seq<char> {
    match event {
        EventModel::Failed { detail, .. } => detail,
        _ => Seq::empty(),
    }
}

/// The error with which `stage` fails on `event`, an event that the stage
/// does not accept.
pub open spec fn failure(plan: PlanModel, stage: Stage, event: EventModel) -> ErrorModel {
    match stage {
        Stage::Build => match event {
            EventModel::Exited { code } => ErrorModel::BuildFailure { exit_code: code },
            EventModel::Failed { cause: Cause::Spawn, detail } => ErrorModel::ProcessSpawn {
                detail,
            },
            _ => ErrorModel::Io { stage, detail: detail_of(event) },
        },
        Stage::Extract => match event {
            EventModel::Failed { cause: Cause::NotFound, .. } => ErrorModel::ArtifactNotFound {
                path: plan.artifact.transient_path,
            },
            _ => ErrorModel::Io { stage, detail: detail_of(event) },
        },
        Stage::Cleanup => ErrorModel::Cleanup { detail: detail_of(event) },
        _ => ErrorModel::Io { stage, detail: detail_of(event) },
    }
}

/// The state that follows `stage` once it has done its work.
pub open spec fn after(stage: Stage, event: EventModel) -> StateModel {
    match stage {
        Stage::CreateWorkspace => StateModel::WorkspaceCreated,
        Stage::WriteSources => StateModel::SourceWritten,
        Stage::Build => StateModel::Built,
        Stage::EnsureOutputDir => StateModel::OutputDirReady,
        Stage::Extract => StateModel::Extracted,
        Stage::Cleanup => StateModel::Cleaned,
        Stage::Resolve => StateModel::Done {
            path: match event {
                EventModel::Resolved { path } => path,
                _ => Seq::empty(),
            },
        },
    }
}

/// Whether the removal of the workspace has been attempted once `stage` is
/// under way or over.
pub open spec fn removal_attempted(stage: Stage) -> bool {
    stage == Stage::Cleanup || stage == Stage::Resolve
}

/// The state in which `event` leaves a build that was in `state`.
///
/// A stage that has done its work is followed by the next one. A stage that
/// fails ends the build with its error, and the workspace is still to be
/// torn down unless its removal has been attempted already. In a failed
/// build any report marks the teardown as attempted and leaves the error as
/// it is. A succeeded build stays as it is.
pub open spec fn advance(plan: PlanModel, state: StateModel, event: EventModel) -> StateModel {
    match state {
        StateModel::Done { .. } => state,
        StateModel::Failed { error, .. } => StateModel::Failed { error, torn_down: true },
        _ => {
            let stage = state.stage()->0;
            if accepts(stage, event) {
                after(stage, event)
            } else {
                StateModel::Failed {
                    error: failure(plan, stage, event),
                    torn_down: removal_attempted(stage),
                }
            }
        },
    }
}

/// The action that a build in `state` asks for.
pub open spec fn pending(plan: PlanModel, state: StateModel) -> ActionModel {
    match state {
        StateModel::Idle => ActionModel::CreateWorkspace {
            root: plan.workspace.root_path,
            source_tree: plan.workspace.source_tree_path,
        },
        StateModel::WorkspaceCreated => ActionModel::WriteSources {
            manifest_path: plan.workspace.manifest_path,
            manifest: plan.manifest,
            source_path: plan.workspace.source_path,
            source_code: plan.source_code,
        },
        StateModel::SourceWritten => ActionModel::RunBuild {
            invocation: InvocationModel::optimized_build(plan.workspace.root_path),
        },
        StateModel::Built => ActionModel::EnsureOutputDir { path: plan.output_root },
        StateModel::OutputDirReady => ActionModel::MoveArtifact {
            from: plan.artifact.transient_path,
            to: plan.artifact.final_path,
        },
        StateModel::Extracted => ActionModel::RemoveWorkspace { root: plan.workspace.root_path },
        StateModel::Cleaned => ActionModel::Resolve { path: plan.artifact.final_path },
        StateModel::Done { path } => ActionModel::Finish { result: Ok(path) },
        StateModel::Failed { error, torn_down } => if torn_down {
            ActionModel::Finish { result: Err(error) }
        } else {
            ActionModel::RemoveWorkspace { root: plan.workspace.root_path }
        },
    }
}

/// The state of a build after the driver has reported `events`, in order.
pub open spec fn run(plan: PlanModel, events: Seq<EventModel>) -> StateModel
    decreases events.len(),
{
    if events.len() == 0 {
        StateModel::Idle
    } else {
        advance(plan, run(plan, events.drop_last()), events.last())
    }
}

/// An orchestrator, as plain values.
pub struct OrchestratorModel {
    /// What the build is to do.
    pub plan: PlanModel,
    /// How far it has come.
    pub state: StateModel,
    /// Every report that the driver has handed in, in order.
    pub history: Seq<EventModel>,
}

impl OrchestratorModel {
    /// The state is the one to which the reports so far lead.
    pub open spec fn wf(self) -> bool {
        self.state == run(self.plan, self.history)
    }
}

/// The state of a pipeline together with the reports that led to it.
struct Progress {
    state: State,
    history: Ghost<Seq<EventModel>>,
}

/// The pipeline of one build request. It can only be moved on by reports, so
/// its state is always the one to which the reports so far lead.
pub struct Orchestrator {
    plan: Plan,
    progress: Progress,
}

impl View for Orchestrator {
    type V = OrchestratorModel;

    closed spec fn view(&self) -> OrchestratorModel {
        OrchestratorModel {
            plan: self.plan@,
            state: self.progress.state@,
            history: self.progress.history@,
        }
    }
}

fn stage_accepts(stage: Stage, event: &Event) -> (ok: bool)
    ensures
        ok == accepts(stage, event@),
{
    match stage {
        Stage::Build => match event {
            Event::Exited { code } => BuildOutcome::from_exit_code(*code).succeeded,
            _ => false,
        },
        Stage::EnsureOutputDir => match event {
            Event::Completed => true,
            Event::Failed { cause: Cause::AlreadyExists, .. } => true,
            _ => false,
        },
        Stage::Cleanup => match event {
            Event::Completed => true,
            Event::Failed { cause: Cause::NotFound, .. } => true,
            _ => false,
        },
        Stage::Resolve => match event {
            Event::Resolved { .. } => true,
            _ => false,
        },
        _ => match event {
            Event::Completed => true,
            _ => false,
        },
    }
}

fn detail_text(event: Event) -> (detail: String)
    ensures
        detail@ == detail_of(event@),
{
    match event {
        Event::Failed { detail, .. } => detail,
        _ => String::new(),
    }
}

fn stage_failure(plan: &Plan, stage: Stage, event: Event) -> (error: BuildError)
    ensures
        error@ == failure(plan@, stage, event@),
{
    match stage {
        Stage::Build => match event {
            Event::Exited { code } => BuildError::BuildFailure { exit_code: code },
            Event::Failed { cause: Cause::Spawn, detail } => BuildError::ProcessSpawn { detail },
            _ => BuildError::Io { stage, detail: detail_text(event) },
        },
        Stage::Extract => match event {
            Event::Failed { cause: Cause::NotFound, .. } => BuildError::ArtifactNotFound {
                path: plan.artifact.transient_path.clone(),
            },
            _ => BuildError::Io { stage, detail: detail_text(event) },
        },
        Stage::Cleanup => BuildError::Cleanup { detail: detail_text(event) },
        _ => BuildError::Io { stage, detail: detail_text(event) },
    }
}

fn stage_done(stage: Stage, event: Event) -> (state: State)
    ensures
        state@ == after(stage, event@),
{
    match stage {
        Stage::CreateWorkspace => State::WorkspaceCreated,
        Stage::WriteSources => State::SourceWritten,
        Stage::Build => State::Built,
        Stage::EnsureOutputDir => State::OutputDirReady,
        Stage::Extract => State::Extracted,
        Stage::Cleanup => State::Cleaned,
        Stage::Resolve => State::Done {
            path: match event {
                Event::Resolved { path } => path,
                _ => String::new(),
            },
        },
    }
}

impl State {
    /// The stage whose outcome the next event reports, if a stage is under
    /// way.
    pub fn stage(&self) -> (stage: Option<Stage>)
        ensures
            stage == self@.stage(),
    {
        match self {
            State::Idle => Some(Stage::CreateWorkspace),
            State::WorkspaceCreated => Some(Stage::WriteSources),
            State::SourceWritten => Some(Stage::Build),
            State::Built => Some(Stage::EnsureOutputDir),
            State::OutputDirReady => Some(Stage::Extract),
            State::Extracted => Some(Stage::Cleanup),
            State::Cleaned => Some(Stage::Resolve),
            State::Done { .. } => None,
            State::Failed { .. } => None,
        }
    }

    /// Whether nothing is left to do but to hand out the result.
    pub fn is_finished(&self) -> (finished: bool)
        ensures
            finished == self@.finished(),
    {
        match self {
            State::Done { .. } => true,
            State::Failed { torn_down, .. } => *torn_down,
            _ => false,
        }
    }
}

impl Orchestrator {
    #[verifier::type_invariant]
    spec fn follows_its_history(self) -> bool {
        self@.wf()
    }

    /// The pipeline for building `request` under `layout`, with nothing done
    /// yet.
    pub fn new(layout: &Layout, request: &BuildRequest) -> (orchestrator: Orchestrator)
        ensures
            orchestrator@ == (OrchestratorModel {
                plan: PlanModel::of(layout@, request@),
                state: StateModel::Idle,
                history: Seq::empty(),
            }),
    {
        Orchestrator {
            plan: Plan::new(layout, request),
            progress: Progress { state: State::Idle, history: Ghost(Seq::empty()) },
        }
    }

    /// The plan that the pipeline follows.
    pub fn plan(&self) -> (plan: &Plan)
        ensures
            plan@ == self@.plan,
    {
        &self.plan
    }

    /// The state that the pipeline is in: the one to which the reports so
    /// far lead.
    pub fn state(&self) -> (state: &State)
        ensures
            state@ == self@.state,
            self@.wf(),
    {
        proof {
            use_type_invariant(self);
        }
        &self.progress.state
    }

    /// The action that the pipeline asks for in its present state.
    pub fn pending(&self) -> (action: Action)
        ensures
            action@ == pending(self@.plan, self@.state),
    {
        let plan = &self.plan;
        match &self.progress.state {
            State::Idle => Action::CreateWorkspace {
                root: plan.workspace.root_path.clone(),
                source_tree: plan.workspace.source_tree_path.clone(),
            },
            State::WorkspaceCreated => Action::WriteSources {
                manifest_path: plan.workspace.manifest_path.clone(),
                manifest: plan.manifest.clone(),
                source_path: plan.workspace.source_path.clone(),
                source_code: plan.source_code.clone(),
            },
            State::SourceWritten => Action::RunBuild {
                invocation: Invocation::optimized_build(plan.workspace.root_path.as_str()),
            },
            State::Built => Action::EnsureOutputDir { path: plan.output_root.clone() },
            State::OutputDirReady => Action::MoveArtifact {
                from: plan.artifact.transient_path.clone(),
                to: plan.artifact.final_path.clone(),
            },
            State::Extracted => Action::RemoveWorkspace { root: plan.workspace.root_path.clone() },
            State::Cleaned => Action::Resolve { path: plan.artifact.final_path.clone() },
            State::Done { path } => Action::Finish { result: Ok(path.clone()) },
            State::Failed { error, torn_down } => if *torn_down {
                Action::Finish { result: Err(error.clone()) }
            } else {
                Action::RemoveWorkspace { root: plan.workspace.root_path.clone() }
            },
        }
    }

    /// Takes the driver's report on the pending action, moves to the state
    /// that follows, and returns the action that is pending there.
    pub fn step(&mut self, event: Event) -> (action: Action)
        ensures
            final(self)@.plan == old(self)@.plan,
            final(self)@.history == old(self)@.history.push(event@),
            final(self)@.state == advance(old(self)@.plan, old(self)@.state, event@),
            final(self)@.wf(),
            action@ == pending(final(self)@.plan, final(self)@.state),
    {
        proof {
            use_type_invariant(&*self);
        }
        let ghost history = self.progress.history@.push(event@);
        let next = match &self.progress.state {
            State::Done { path } => State::Done { path: path.clone() },
            State::Failed { error, .. } => State::Failed { error: error.clone(), torn_down: true },
            state => {
                let stage = state.stage().unwrap();
                if stage_accepts(stage, &event) {
                    stage_done(stage, event)
                } else {
                    State::Failed {
                        error: stage_failure(&self.plan, stage, event),
                        torn_down: match stage {
                            Stage::Cleanup => true,
                            Stage::Resolve => true,
                            _ => false,
                        },
                    }
                }
            },
        };
        proof {
            assert(history.drop_last() =~= self.progress.history@);
        }
        self.progress = Progress { state: next, history: Ghost(history) };
        self.pending()
    }
}

} // verus!
