use quark_generate::error::{BuildError, Stage};
use quark_generate::layout::Layout;
use quark_generate::manifest::generate_toml;
use quark_generate::pipeline::{Action, Cause, Event, Orchestrator, State};
use quark_generate::request::BuildRequest;
use quark_generate::toolchain::Invocation;

fn orchestrator(name: &str, code: &str) -> Orchestrator {
    Orchestrator::new(&Layout::standard(), &BuildRequest::new(name, code).unwrap())
}

fn failed(cause: Cause, detail: &str) -> Event {
    Event::Failed { cause, detail: detail.to_string() }
}

fn resolved(path: &str) -> Event {
    Event::Resolved { path: path.to_string() }
}

/// The action pending at the start, then the action returned for each event.
fn drive(orchestrator: &mut Orchestrator, events: Vec<Event>) -> Vec<Action> {
    let mut actions = vec![orchestrator.pending()];
    for event in events {
        actions.push(orchestrator.step(event));
    }
    actions
}

fn remove(root: &str) -> Action {
    Action::RemoveWorkspace { root: root.to_string() }
}

fn finish_err(error: BuildError) -> Action {
    Action::Finish { result: Err(error) }
}

#[test]
fn test_new() {
    let code = "fn main() { println!(\"hello\") }";
    let mut orchestrator = orchestrator("ahh", code);
    assert_eq!(orchestrator.state(), &State::Idle);
    let actions = drive(
        &mut orchestrator,
        vec![
            Event::Completed,
            Event::Completed,
            Event::Exited { code: Some(0) },
            Event::Completed,
            Event::Completed,
            Event::Completed,
            resolved("/work/out/ahh.dll"),
        ],
    );
    let expected = vec![
        Action::CreateWorkspace {
            root: "./generate/ahh".to_string(),
            source_tree: "./generate/ahh/src".to_string(),
        },
        Action::WriteSources {
            manifest_path: "./generate/ahh/Cargo.toml".to_string(),
            manifest: generate_toml("ahh"),
            source_path: "./generate/ahh/src/lib.rs".to_string(),
            source_code: code.to_string(),
        },
        Action::RunBuild { invocation: Invocation::optimized_build("./generate/ahh") },
        Action::EnsureOutputDir { path: "./out".to_string() },
        Action::MoveArtifact {
            from: "./generate/ahh/target/release/ahh.dll".to_string(),
            to: "./out/ahh.dll".to_string(),
        },
        remove("./generate/ahh"),
        Action::Resolve { path: "./out/ahh.dll".to_string() },
        Action::Finish { result: Ok("/work/out/ahh.dll".to_string()) },
    ];
    assert_eq!(actions, expected);
    assert_eq!(orchestrator.state(), &State::Done { path: "/work/out/ahh.dll".to_string() });
    assert!(orchestrator.state().is_finished());
}

#[test]
fn states_follow_the_stages_in_order() {
    let mut orchestrator = orchestrator("ahh", "x");
    let mut seen = vec![];
    let events = vec![
        Event::Completed,
        Event::Completed,
        Event::Exited { code: Some(0) },
        Event::Completed,
        Event::Completed,
        Event::Completed,
    ];
    for event in events {
        assert!(!orchestrator.state().is_finished());
        seen.push(orchestrator.state().stage());
        orchestrator.step(event);
    }
    seen.push(orchestrator.state().stage());
    assert_eq!(
        seen,
        vec![
            Some(Stage::CreateWorkspace),
            Some(Stage::WriteSources),
            Some(Stage::Build),
            Some(Stage::EnsureOutputDir),
            Some(Stage::Extract),
            Some(Stage::Cleanup),
            Some(Stage::Resolve),
        ]
    );
    assert_eq!(orchestrator.state(), &State::Cleaned);
    orchestrator.step(resolved("/p"));
    assert_eq!(orchestrator.state().stage(), None);
}

#[test]
fn plan_holds_what_the_actions_use() {
    let orchestrator = orchestrator("ahh", "source text");
    let plan = orchestrator.plan();
    assert_eq!(plan.workspace.root_path, "./generate/ahh");
    assert_eq!(plan.artifact.final_path, "./out/ahh.dll");
    assert_eq!(plan.manifest, generate_toml("ahh"));
    assert_eq!(plan.source_code, "source text");
    assert_eq!(plan.output_root, "./out");
}

#[test]
fn tagged_attempt_works_in_its_own_workspace() {
    let request = BuildRequest::new("ahh", "x").unwrap().with_build_id("31_4").unwrap();
    let mut orchestrator = Orchestrator::new(&Layout::standard(), &request);
    let actions = drive(
        &mut orchestrator,
        vec![
            Event::Completed,
            Event::Completed,
            Event::Exited { code: Some(0) },
            Event::Completed,
            Event::Completed,
        ],
    );
    assert_eq!(
        actions[0],
        Action::CreateWorkspace {
            root: "./generate/ahh.31_4".to_string(),
            source_tree: "./generate/ahh.31_4/src".to_string(),
        }
    );
    assert_eq!(
        actions[2],
        Action::RunBuild { invocation: Invocation::optimized_build("./generate/ahh.31_4") }
    );
    assert_eq!(
        actions[4],
        Action::MoveArtifact {
            from: "./generate/ahh.31_4/target/release/ahh.dll".to_string(),
            to: "./out/ahh.dll".to_string(),
        }
    );
    assert_eq!(actions[5], remove("./generate/ahh.31_4"));
}

#[test]
fn failed_compilation_is_a_build_failure_after_cleanup() {
    let mut orchestrator = orchestrator("ahh", "not rust");
    let actions = drive(
        &mut orchestrator,
        vec![Event::Completed, Event::Completed, Event::Exited { code: Some(101) }],
    );
    assert_eq!(actions[3], remove("./generate/ahh"));
    assert_eq!(
        orchestrator.state(),
        &State::Failed { error: BuildError::BuildFailure { exit_code: Some(101) }, torn_down: false }
    );
    assert!(!orchestrator.state().is_finished());
    let last = orchestrator.step(Event::Completed);
    assert_eq!(last, finish_err(BuildError::BuildFailure { exit_code: Some(101) }));
    assert!(orchestrator.state().is_finished());
}

#[test]
fn toolchain_ending_without_exit_code_is_a_build_failure() {
    let mut orchestrator = orchestrator("ahh", "x");
    let actions = drive(
        &mut orchestrator,
        vec![Event::Completed, Event::Completed, Event::Exited { code: None }, Event::Completed],
    );
    assert_eq!(actions[3], remove("./generate/ahh"));
    assert_eq!(actions[4], finish_err(BuildError::BuildFailure { exit_code: None }));
}

#[test]
fn toolchain_that_cannot_be_started_is_a_spawn_error() {
    let mut orchestrator = orchestrator("ahh", "x");
    let actions = drive(
        &mut orchestrator,
        vec![
            Event::Completed,
            Event::Completed,
            failed(Cause::Spawn, "cargo: not found"),
            Event::Completed,
        ],
    );
    assert_eq!(actions[3], remove("./generate/ahh"));
    assert_eq!(
        actions[4],
        finish_err(BuildError::ProcessSpawn { detail: "cargo: not found".to_string() })
    );
}

#[test]
fn other_failure_while_building_is_an_io_error() {
    let mut orchestrator = orchestrator("ahh", "x");
    let actions = drive(
        &mut orchestrator,
        vec![
            Event::Completed,
            Event::Completed,
            failed(Cause::Other, "wait failed"),
            Event::Completed,
        ],
    );
    assert_eq!(
        actions[4],
        finish_err(BuildError::Io { stage: Stage::Build, detail: "wait failed".to_string() })
    );
}

#[test]
fn workspace_creation_failure_is_an_io_error_after_cleanup() {
    let mut orchestrator = orchestrator("ahh", "x");
    let actions =
        drive(&mut orchestrator, vec![failed(Cause::Other, "permission denied"), Event::Completed]);
    assert_eq!(actions[1], remove("./generate/ahh"));
    assert_eq!(
        actions[2],
        finish_err(BuildError::Io {
            stage: Stage::CreateWorkspace,
            detail: "permission denied".to_string(),
        })
    );
}

#[test]
fn existing_workspace_is_not_tolerated_on_creation() {
    // Only the shared output directory may exist already.
    let mut orchestrator = orchestrator("ahh", "x");
    let actions =
        drive(&mut orchestrator, vec![failed(Cause::AlreadyExists, "exists"), Event::Completed]);
    assert_eq!(actions[1], remove("./generate/ahh"));
    assert_eq!(
        actions[2],
        finish_err(BuildError::Io { stage: Stage::CreateWorkspace, detail: "exists".to_string() })
    );
}

#[test]
fn write_failure_is_an_io_error_after_cleanup() {
    let mut orchestrator = orchestrator("ahh", "x");
    let actions = drive(
        &mut orchestrator,
        vec![Event::Completed, failed(Cause::Other, "disk full"), Event::Completed],
    );
    assert_eq!(actions[2], remove("./generate/ahh"));
    assert_eq!(
        actions[3],
        finish_err(BuildError::Io { stage: Stage::WriteSources, detail: "disk full".to_string() })
    );
}

#[test]
fn existing_output_directory_counts_as_ready() {
    let mut orchestrator = orchestrator("ahh", "x");
    let actions = drive(
        &mut orchestrator,
        vec![
            Event::Completed,
            Event::Completed,
            Event::Exited { code: Some(0) },
            failed(Cause::AlreadyExists, "File exists"),
        ],
    );
    assert_eq!(
        actions[4],
        Action::MoveArtifact {
            from: "./generate/ahh/target/release/ahh.dll".to_string(),
            to: "./out/ahh.dll".to_string(),
        }
    );
    assert_eq!(orchestrator.state(), &State::OutputDirReady);
}

#[test]
fn output_directory_is_ready_however_often_it_is_ensured() {
    // Builds that find the directory in place go on like the one that
    // created it.
    for round in 0..5 {
        let mut orchestrator = orchestrator("ahh", "x");
        let report =
            if round == 0 { Event::Completed } else { failed(Cause::AlreadyExists, "File exists") };
        let actions = drive(
            &mut orchestrator,
            vec![Event::Completed, Event::Completed, Event::Exited { code: Some(0) }, report],
        );
        assert_eq!(actions[3], Action::EnsureOutputDir { path: "./out".to_string() });
        assert_eq!(orchestrator.state(), &State::OutputDirReady);
    }
}

#[test]
fn output_directory_failure_is_an_io_error_after_cleanup() {
    let mut orchestrator = orchestrator("ahh", "x");
    let actions = drive(
        &mut orchestrator,
        vec![
            Event::Completed,
            Event::Completed,
            Event::Exited { code: Some(0) },
            failed(Cause::Other, "read-only file system"),
            Event::Completed,
        ],
    );
    assert_eq!(actions[4], remove("./generate/ahh"));
    assert_eq!(
        actions[5],
        finish_err(BuildError::Io {
            stage: Stage::EnsureOutputDir,
            detail: "read-only file system".to_string(),
        })
    );
}

#[test]
fn missing_library_is_artifact_not_found_after_cleanup() {
    let mut orchestrator = orchestrator("ahh", "x");
    let actions = drive(
        &mut orchestrator,
        vec![
            Event::Completed,
            Event::Completed,
            Event::Exited { code: Some(0) },
            Event::Completed,
            failed(Cause::NotFound, "No such file or directory"),
            Event::Completed,
        ],
    );
    assert_eq!(actions[5], remove("./generate/ahh"));
    assert_eq!(
        actions[6],
        finish_err(BuildError::ArtifactNotFound {
            path: "./generate/ahh/target/release/ahh.dll".to_string(),
        })
    );
}

#[test]
fn other_failure_while_extracting_is_an_io_error() {
    let mut orchestrator = orchestrator("ahh", "x");
    let actions = drive(
        &mut orchestrator,
        vec![
            Event::Completed,
            Event::Completed,
            Event::Exited { code: Some(0) },
            Event::Completed,
            failed(Cause::Other, "cross-device link"),
            Event::Completed,
        ],
    );
    assert_eq!(actions[5], remove("./generate/ahh"));
    assert_eq!(
        actions[6],
        finish_err(BuildError::Io { stage: Stage::Extract, detail: "cross-device link".to_string() })
    );
}

#[test]
fn cleanup_failure_after_extraction_is_a_cleanup_error() {
    let mut orchestrator = orchestrator("ahh", "x");
    let actions = drive(
        &mut orchestrator,
        vec![
            Event::Completed,
            Event::Completed,
            Event::Exited { code: Some(0) },
            Event::Completed,
            Event::Completed,
            failed(Cause::Other, "directory not empty"),
        ],
    );
    // The removal has been attempted: it is not asked for a second time.
    assert_eq!(
        actions[6],
        finish_err(BuildError::Cleanup { detail: "directory not empty".to_string() })
    );
    assert!(orchestrator.state().is_finished());
}

#[test]
fn absent_workspace_counts_as_removed() {
    let mut orchestrator = orchestrator("ahh", "x");
    let actions = drive(
        &mut orchestrator,
        vec![
            Event::Completed,
            Event::Completed,
            Event::Exited { code: Some(0) },
            Event::Completed,
            Event::Completed,
            failed(Cause::NotFound, "No such file or directory"),
        ],
    );
    assert_eq!(actions[6], Action::Resolve { path: "./out/ahh.dll".to_string() });
    assert_eq!(orchestrator.state(), &State::Cleaned);
}

#[test]
fn resolve_failure_is_an_io_error_without_second_cleanup() {
    let mut orchestrator = orchestrator("ahh", "x");
    let actions = drive(
        &mut orchestrator,
        vec![
            Event::Completed,
            Event::Completed,
            Event::Exited { code: Some(0) },
            Event::Completed,
            Event::Completed,
            Event::Completed,
            failed(Cause::NotFound, "gone"),
        ],
    );
    assert_eq!(
        actions[7],
        finish_err(BuildError::Io { stage: Stage::Resolve, detail: "gone".to_string() })
    );
    assert_eq!(actions.iter().filter(|a| matches!(a, Action::RemoveWorkspace { .. })).count(), 1);
}

#[test]
fn teardown_failure_does_not_replace_the_error() {
    let mut orchestrator = orchestrator("ahh", "x");
    let actions = drive(
        &mut orchestrator,
        vec![
            Event::Completed,
            Event::Completed,
            Event::Exited { code: Some(1) },
            failed(Cause::Other, "could not remove"),
        ],
    );
    assert_eq!(actions[4], finish_err(BuildError::BuildFailure { exit_code: Some(1) }));
}

#[test]
fn report_that_does_not_answer_the_stage_counts_as_failure() {
    let mut orchestrator = orchestrator("ahh", "x");
    let actions =
        drive(&mut orchestrator, vec![Event::Exited { code: Some(0) }, Event::Completed]);
    assert_eq!(actions[1], remove("./generate/ahh"));
    assert_eq!(
        actions[2],
        finish_err(BuildError::Io { stage: Stage::CreateWorkspace, detail: String::new() })
    );

    let mut orchestrator = self::orchestrator("ahh", "x");
    let actions = drive(
        &mut orchestrator,
        vec![Event::Completed, Event::Completed, Event::Completed, Event::Completed],
    );
    assert_eq!(actions[4], finish_err(BuildError::Io { stage: Stage::Build, detail: String::new() }));
}

#[test]
fn finished_pipeline_stays_as_it_is() {
    let mut orchestrator = orchestrator("ahh", "x");
    drive(
        &mut orchestrator,
        vec![
            Event::Completed,
            Event::Completed,
            Event::Exited { code: Some(0) },
            Event::Completed,
            Event::Completed,
            Event::Completed,
            resolved("/abs/out/ahh.dll"),
        ],
    );
    for event in [Event::Completed, failed(Cause::Other, "late"), resolved("/elsewhere")] {
        let action = orchestrator.step(event);
        assert_eq!(action, Action::Finish { result: Ok("/abs/out/ahh.dll".to_string()) });
    }

    let mut orchestrator = self::orchestrator("ahh", "x");
    drive(&mut orchestrator, vec![failed(Cause::Other, "first"), Event::Completed]);
    for event in [Event::Completed, failed(Cause::Other, "late"), resolved("/elsewhere")] {
        let action = orchestrator.step(event);
        assert_eq!(
            action,
            finish_err(BuildError::Io { stage: Stage::CreateWorkspace, detail: "first".to_string() })
        );
    }
}

#[test]
fn every_run_removes_the_workspace_exactly_once() {
    // Let stage `k` fail, for each of the seven stages, and once let none fail.
    let successes = || {
        vec![
            Event::Completed,
            Event::Completed,
            Event::Exited { code: Some(0) },
            Event::Completed,
            Event::Completed,
            Event::Completed,
            resolved("/abs/out/ahh.dll"),
        ]
    };
    for failing in 0..8 {
        let mut events = successes();
        if failing < 7 {
            events[failing] = failed(Cause::Other, "broken");
        }
        events.push(Event::Completed);
        let mut orchestrator = orchestrator("ahh", "x");
        let actions = drive(&mut orchestrator, events);
        assert!(orchestrator.state().is_finished());
        let removals: Vec<usize> = actions
            .iter()
            .enumerate()
            .filter(|(_, a)| matches!(a, Action::RemoveWorkspace { .. }))
            .map(|(i, _)| i)
            .collect();
        assert_eq!(removals.len(), 1);
        for action in &actions[removals[0] + 1..] {
            assert!(matches!(action, Action::Resolve { .. } | Action::Finish { .. }));
        }
        assert_eq!(failing == 7, matches!(orchestrator.state(), State::Done { .. }));
    }
}

#[test]
fn distinct_names_are_built_apart() {
    let mut one = orchestrator("alpha", "one");
    let mut two = orchestrator("beta", "two");
    let events = || {
        vec![
            Event::Completed,
            Event::Completed,
            Event::Exited { code: Some(0) },
            Event::Completed,
            Event::Completed,
        ]
    };
    let actions_one = drive(&mut one, events());
    let actions_two = drive(&mut two, events());
    assert_eq!(
        actions_one[1],
        Action::WriteSources {
            manifest_path: "./generate/alpha/Cargo.toml".to_string(),
            manifest: generate_toml("alpha"),
            source_path: "./generate/alpha/src/lib.rs".to_string(),
            source_code: "one".to_string(),
        }
    );
    assert_eq!(
        actions_two[1],
        Action::WriteSources {
            manifest_path: "./generate/beta/Cargo.toml".to_string(),
            manifest: generate_toml("beta"),
            source_path: "./generate/beta/src/lib.rs".to_string(),
            source_code: "two".to_string(),
        }
    );
    assert_eq!(
        actions_one[4],
        Action::MoveArtifact {
            from: "./generate/alpha/target/release/alpha.dll".to_string(),
            to: "./out/alpha.dll".to_string(),
        }
    );
    assert_eq!(
        actions_two[4],
        Action::MoveArtifact {
            from: "./generate/beta/target/release/beta.dll".to_string(),
            to: "./out/beta.dll".to_string(),
        }
    );
}

#[test]
fn same_name_ends_up_at_the_same_final_path() {
    let first = BuildRequest::new("ahh", "one").unwrap().with_build_id("1").unwrap();
    let second = BuildRequest::new("ahh", "two").unwrap().with_build_id("2").unwrap();
    let layout = Layout::standard();
    let one = Orchestrator::new(&layout, &first);
    let two = Orchestrator::new(&layout, &second);
    assert_eq!(one.plan().artifact.final_path, two.plan().artifact.final_path);
    assert_ne!(one.plan().workspace.root_path, two.plan().workspace.root_path);
    assert_ne!(one.plan().artifact.transient_path, two.plan().artifact.transient_path);
}
