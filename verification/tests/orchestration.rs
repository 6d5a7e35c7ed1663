use raw_glue::libraw::Error;
use raw_glue::pipeline::Action;
use raw_glue::pipeline::ConfigError;
use raw_glue::pipeline::Event;
use raw_glue::pipeline::GroupError;
use raw_glue::pipeline::GroupRun;
use raw_glue::pipeline::Stage;
use raw_glue::pipeline::effective_group_size;

fn strings(v: &[&str]) -> Vec<String> {
    v.iter().map(|s| s.to_string()).collect()
}

/// Drive a fresh run up to the first tool stage: workspace "ws", all
/// decodes succeeding.
fn start_decoded(inputs: &[&str], delete_sources: bool, output: &str) -> GroupRun {
    let mut g = GroupRun::new(strings(inputs), delete_sources, output.to_string()).unwrap();
    assert!(matches!(g.next_action(), Action::CreateWorkspace));
    g.apply(Event::WorkspaceReady { path: "ws".to_string() });
    let (n_in, n_art) = match g.next_action() {
        Action::DecodeAll { inputs, artifacts } => (inputs, artifacts),
        _ => panic!("expected the decode fan-out"),
    };
    assert_eq!(n_in.len(), n_art.len());
    let results: Vec<Result<(), Error>> = n_in.iter().map(|_| Ok(())).collect();
    g.apply(Event::DecodeFinished { results });
    g
}

/// Run all seven tool stages to success, returning the observed program
/// names in order.
fn run_tools(g: &mut GroupRun) -> Vec<String> {
    let mut programs: Vec<String> = Vec::new();
    for _ in 0..7 {
        match g.next_action() {
            Action::RunTool { command, .. } => {
                programs.push(command.program.clone());
                g.apply(Event::ToolExited { code: 0 });
            }
            _ => panic!("expected a tool stage"),
        }
    }
    programs
}

#[test]
fn empty_input_list_is_refused() {
    let r = GroupRun::new(Vec::new(), false, "out.tiff".to_string());
    assert!(matches!(r, Err(ConfigError::NoInputs)));
}

#[test]
fn group_size_defaults_to_all_inputs() {
    assert_eq!(effective_group_size(None, 5), Ok(5));
    assert_eq!(effective_group_size(Some(2), 5), Ok(2));
    assert_eq!(effective_group_size(Some(0), 5), Err(ConfigError::InvalidGroupSize));
    assert_eq!(effective_group_size(None, 0), Err(ConfigError::NoInputs));
}

#[test]
fn single_group_of_three_produces_one_output_and_no_deletions() {
    let mut g = start_decoded(&["a.raw", "b.raw", "c.raw"], false, "out.tiff");
    let programs = run_tools(&mut g);
    assert_eq!(
        programs,
        strings(&[
            "pto_gen",
            "cpfind",
            "cpclean",
            "linefind",
            "autooptimiser",
            "pano_modify",
            "hugin_executor"
        ])
    );
    let mut relocations = 0;
    match g.next_action() {
        Action::Relocate { from, to } => {
            relocations += 1;
            assert_eq!(from, "ws/result.tif");
            assert_eq!(to, "out.tiff");
        }
        _ => panic!("expected the relocation"),
    }
    g.apply(Event::RelocateFinished { ok: true });
    // delete-sources was not requested: the sources are left alone.
    match g.next_action() {
        Action::RemoveWorkspace { path } => assert_eq!(path, "ws"),
        _ => panic!("expected the workspace removal"),
    }
    g.apply(Event::RemoveFinished { ok: true });
    assert!(matches!(g.next_action(), Action::Finish { failed: false }));
    assert!(g.workspace.is_none());
    assert!(g.failure.is_none());
    assert_eq!(relocations, 1);
}

#[test]
fn decode_artifacts_are_named_by_index() {
    let mut g = GroupRun::new(strings(&["x.raw", "y.raw"]), false, "out.tiff".to_string())
        .unwrap();
    g.apply(Event::WorkspaceReady { path: "ws".to_string() });
    match g.next_action() {
        Action::DecodeAll { inputs, artifacts } => {
            assert_eq!(inputs, strings(&["x.raw", "y.raw"]));
            assert_eq!(artifacts, strings(&["ws/0.tiff", "ws/1.tiff"]));
        }
        _ => panic!("expected the decode fan-out"),
    }
}

#[test]
fn project_creation_lists_every_artifact() {
    let mut g = start_decoded(&["a.raw", "b.raw", "c.raw"], false, "out.tiff");
    match g.next_action() {
        Action::RunTool { stage, command } => {
            assert_eq!(stage, Stage::CreateProject);
            assert_eq!(command.program, "pto_gen");
            assert_eq!(command.working_dir, "ws");
            assert_eq!(
                command.args,
                strings(&[
                    "--projection=0",
                    "--fov=1",
                    "-o",
                    "ws/project.pto",
                    "ws/0.tiff",
                    "ws/1.tiff",
                    "ws/2.tiff"
                ])
            );
        }
        _ => panic!("expected the project creation stage"),
    }
    g.apply(Event::ToolExited { code: 0 });
    match g.next_action() {
        Action::RunTool { stage, command } => {
            assert_eq!(stage, Stage::FindControlPoints);
            assert_eq!(
                command.args,
                strings(&["--multirow", "--celeste", "-o", "ws/project.pto", "ws/project.pto"])
            );
        }
        _ => panic!("expected the control-point stage"),
    }
}

#[test]
fn four_inputs_grouped_by_two_run_two_independent_pipelines() {
    let inputs = strings(&["a", "b", "c", "d"]);
    let k = effective_group_size(Some(2), inputs.len()).unwrap();
    let groups = raw_glue::batch::partition(&inputs, k);
    assert_eq!(groups.len(), 2);
    for (gi, group) in groups.iter().enumerate() {
        assert_eq!(group.len(), 2);
        let mut g = GroupRun::new(group.clone(), false, format!("out{}.tiff", gi)).unwrap();
        g.apply(Event::WorkspaceReady { path: format!("ws{}", gi) });
        match g.next_action() {
            Action::DecodeAll { inputs, .. } => assert_eq!(inputs.len(), 2),
            _ => panic!("expected the decode fan-out"),
        }
        g.apply(Event::DecodeFinished { results: vec![Ok(()), Ok(())] });
        let programs = run_tools(&mut g);
        assert_eq!(programs.len(), 7);
        g.apply(Event::RelocateFinished { ok: true });
        g.apply(Event::RemoveFinished { ok: true });
        assert!(matches!(g.next_action(), Action::Finish { failed: false }));
    }
}

#[test]
fn failed_decode_aborts_group_but_removes_workspace() {
    let mut g = GroupRun::new(strings(&["a", "b", "c"]), false, "out.tiff".to_string())
        .unwrap();
    g.apply(Event::WorkspaceReady { path: "ws".to_string() });
    assert!(matches!(g.next_action(), Action::DecodeAll { .. }));
    let results: Vec<Result<(), Error>> =
        vec![Ok(()), Err(Error::FailedToOpen("b".to_string())), Ok(())];
    g.apply(Event::DecodeFinished { results });
    // No project-state stage runs: the next action is already cleanup.
    match g.next_action() {
        Action::RemoveWorkspace { path } => assert_eq!(path, "ws"),
        _ => panic!("expected the workspace removal, not a tool stage"),
    }
    match &g.failure {
        Some(GroupError::Decode { index, error }) => {
            assert_eq!(*index, 1);
            assert!(matches!(error, Error::FailedToOpen(p) if p == "b"));
        }
        _ => panic!("expected the decode failure to be recorded"),
    }
    g.apply(Event::RemoveFinished { ok: true });
    assert!(matches!(g.next_action(), Action::Finish { failed: true }));
    assert!(g.workspace.is_none());
}

#[test]
fn failed_relocation_is_a_distinct_error_and_yields_no_output() {
    let mut g = start_decoded(&["a", "b"], false, "out.tiff");
    run_tools(&mut g);
    let mut relocations = 0;
    match g.next_action() {
        Action::Relocate { .. } => relocations += 1,
        _ => panic!("expected the relocation"),
    }
    g.apply(Event::RelocateFinished { ok: false });
    assert!(matches!(g.failure, Some(GroupError::Relocate)));
    // No further relocation is attempted: the run goes straight to cleanup.
    match g.next_action() {
        Action::RemoveWorkspace { .. } => {}
        _ => panic!("expected the workspace removal"),
    }
    g.apply(Event::RemoveFinished { ok: true });
    assert!(matches!(g.next_action(), Action::Finish { failed: true }));
    assert_eq!(relocations, 1);
}

#[test]
fn workspace_creation_failure_is_fatal_for_the_group() {
    let mut g = GroupRun::new(strings(&["a"]), false, "out.tiff".to_string()).unwrap();
    g.apply(Event::WorkspaceFailed);
    assert!(matches!(g.failure, Some(GroupError::WorkspaceCreate)));
    assert!(matches!(g.next_action(), Action::Finish { failed: true }));
    assert!(g.workspace.is_none());
}

#[test]
fn tool_failure_aborts_but_still_cleans_up() {
    let mut g = start_decoded(&["a", "b"], false, "out.tiff");
    match g.next_action() {
        Action::RunTool { .. } => {}
        _ => panic!("expected a tool stage"),
    }
    g.apply(Event::ToolExited { code: 1 });
    assert!(matches!(
        g.failure,
        Some(GroupError::ToolStatus { stage: Stage::CreateProject, code: 1 })
    ));
    assert!(matches!(g.next_action(), Action::RemoveWorkspace { .. }));
    g.apply(Event::RemoveFinished { ok: true });
    assert!(matches!(g.next_action(), Action::Finish { failed: true }));
}

#[test]
fn missing_tool_binary_is_distinct_from_nonzero_exit() {
    let mut g = start_decoded(&["a"], false, "out.tiff");
    g.apply(Event::ToolSpawnFailed);
    assert!(matches!(
        g.failure,
        Some(GroupError::ToolSpawn { stage: Stage::CreateProject })
    ));
    assert!(matches!(g.next_action(), Action::RemoveWorkspace { .. }));
}

#[test]
fn sources_are_deleted_in_order_after_success() {
    let mut g = start_decoded(&["a.raw", "b.raw"], true, "out.tiff");
    run_tools(&mut g);
    g.apply(Event::RelocateFinished { ok: true });
    match g.next_action() {
        Action::DeleteSource { index, path } => {
            assert_eq!(index, 0);
            assert_eq!(path, "a.raw");
        }
        _ => panic!("expected the first source deletion"),
    }
    g.apply(Event::DeleteFinished { ok: true });
    match g.next_action() {
        Action::DeleteSource { index, path } => {
            assert_eq!(index, 1);
            assert_eq!(path, "b.raw");
        }
        _ => panic!("expected the second source deletion"),
    }
    g.apply(Event::DeleteFinished { ok: true });
    assert!(matches!(g.next_action(), Action::RemoveWorkspace { .. }));
    g.apply(Event::RemoveFinished { ok: true });
    assert!(matches!(g.next_action(), Action::Finish { failed: false }));
}

#[test]
fn failed_source_deletion_is_reported_but_output_stands() {
    let mut g = start_decoded(&["a", "b"], true, "out.tiff");
    run_tools(&mut g);
    g.apply(Event::RelocateFinished { ok: true });
    g.apply(Event::DeleteFinished { ok: false });
    // The failure is recorded, yet the remaining source is still tried
    // and the relocated output is never touched again.
    assert!(matches!(g.failure, Some(GroupError::SourceDelete { index: 0 })));
    assert!(matches!(g.next_action(), Action::DeleteSource { index: 1, .. }));
    g.apply(Event::DeleteFinished { ok: true });
    g.apply(Event::RemoveFinished { ok: true });
    assert!(matches!(g.next_action(), Action::Finish { failed: true }));
}

#[test]
fn failed_workspace_removal_is_reported() {
    let mut g = start_decoded(&["a"], false, "out.tiff");
    run_tools(&mut g);
    g.apply(Event::RelocateFinished { ok: true });
    assert!(matches!(g.next_action(), Action::RemoveWorkspace { .. }));
    g.apply(Event::RemoveFinished { ok: false });
    assert!(matches!(g.failure, Some(GroupError::WorkspaceRemove)));
    assert!(matches!(g.next_action(), Action::Finish { failed: true }));
    assert!(g.workspace.is_none());
}

#[test]
fn identical_runs_traverse_identical_action_sequences() {
    let render = |a: &Action| -> String {
        match a {
            Action::CreateWorkspace => "create".to_string(),
            Action::DecodeAll { inputs, artifacts } => {
                format!("decode {:?} {:?}", inputs, artifacts)
            }
            Action::RunTool { command, .. } => {
                format!("run {} {:?} in {}", command.program, command.args, command.working_dir)
            }
            Action::Relocate { from, to } => format!("relocate {} {}", from, to),
            Action::DeleteSource { index, path } => format!("delete {} {}", index, path),
            Action::RemoveWorkspace { path } => format!("remove {}", path),
            Action::Finish { failed } => format!("finish {}", failed),
        }
    };
    let events = || -> Vec<Event> {
        let mut es = vec![
            Event::WorkspaceReady { path: "ws".to_string() },
            Event::DecodeFinished { results: vec![Ok(()), Ok(())] },
        ];
        for _ in 0..7 {
            es.push(Event::ToolExited { code: 0 });
        }
        es.push(Event::RelocateFinished { ok: true });
        es.push(Event::RemoveFinished { ok: true });
        es
    };
    let trace = |es: Vec<Event>| -> Vec<String> {
        let mut g = GroupRun::new(strings(&["a", "b"]), false, "out.tiff".to_string()).unwrap();
        let mut seen = vec![render(&g.next_action())];
        for e in es {
            g.apply(e);
            seen.push(render(&g.next_action()));
        }
        seen
    };
    assert_eq!(trace(events()), trace(events()));
}
