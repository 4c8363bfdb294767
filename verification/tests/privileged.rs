use jarscan::candidate::{match_first, plan_launches, should_launch, Candidate};
use jarscan::errors::{CapabilityKind, ChildAction, Error, PermissionError, Stage, TransitionError};
use jarscan::guard::{check_perms, evaluate_guard};
use jarscan::launcher::{
    build_scan_request, proc_ns_mnt_path, relative_exec_path, split_path, u32_to_decimal,
    Launcher, StepFailure,
};
use jarscan::supervisor::{classify_exit, ChildEvent, Outcome};

fn candidate(pid: u32, uid: u32, argv: &[&str]) -> Candidate {
    Candidate { pid, owner_uid: uid, argv: argv.iter().map(|s| s.to_string()).collect() }
}

#[test]
fn match_first_empty_vector_never_matches() {
    let none: Vec<String> = Vec::new();
    assert!(!match_first(&none, "java"));
}

#[test]
fn match_first_looks_at_first_argument_only() {
    let argv = vec!["/usr/bin/java".to_string(), "-jar".to_string()];
    assert!(match_first(&argv, "java"));
    let argv2 = vec!["python3".to_string(), "java".to_string()];
    assert!(!match_first(&argv2, "java"));
}

#[test]
fn non_java_candidates_never_forwarded() {
    let procs = vec![
        candidate(1, 0, &["/usr/bin/java", "-cp", "a.jar"]),
        candidate(2, 1000, &["python3", "java"]),
        candidate(3, 1000, &[]),
        candidate(4, 7, &["javaw"]),
    ];
    let plan = plan_launches(true, procs);
    let pids: Vec<u32> = plan.iter().map(|c| c.pid).collect();
    assert_eq!(pids, vec![1, 4]);
    for c in &plan {
        assert!(should_launch(c));
    }
}

#[test]
fn guard_failure_spawns_no_children() {
    let procs = vec![candidate(1, 0, &["/usr/bin/java"]), candidate(2, 0, &["java"])];
    let plan = plan_launches(false, procs);
    assert_eq!(plan.len(), 0);
}

#[test]
fn guard_passes_only_with_both_capabilities() {
    assert!(evaluate_guard(Ok(true), Ok(true)).is_ok());
    assert!(matches!(
        evaluate_guard(Ok(false), Ok(true)),
        Err(PermissionError::Missing(CapabilityKind::SetIdentity))
    ));
    assert!(matches!(
        evaluate_guard(Ok(true), Ok(false)),
        Err(PermissionError::Missing(CapabilityKind::SysAdmin))
    ));
    assert!(matches!(
        evaluate_guard(Ok(false), Ok(false)),
        Err(PermissionError::Missing(CapabilityKind::SetIdentity))
    ));
}

#[test]
fn guard_reports_probe_failures_first() {
    let r = evaluate_guard(Err("cannot read".to_string()), Ok(true));
    match r {
        Err(PermissionError::ProbeFailed(CapabilityKind::SetIdentity, m)) => {
            assert_eq!(m, "cannot read");
        },
        other => panic!("wrong guard result: {:?}", other),
    }
    let r2 = evaluate_guard(Ok(true), Err("oops".to_string()));
    assert!(matches!(r2, Err(PermissionError::ProbeFailed(CapabilityKind::SysAdmin, _))));
}

#[test]
fn check_perms_returns_permission_class_on_failure() {
    let r = check_perms();
    assert!(matches!(r, Ok(()) | Err(Error::Permission(_))));
}

#[test]
fn launcher_walks_the_exact_order() {
    let mut m = Launcher::new();
    assert_eq!(m.stage(), Stage::Start);
    assert!(m.authorize(ChildAction::CaptureHandle).is_ok());
    assert_eq!(m.stage(), Stage::HandleCaptured);
    assert!(m.authorize(ChildAction::JoinNamespace).is_ok());
    assert_eq!(m.stage(), Stage::NamespaceJoined);
    assert!(m.authorize(ChildAction::DropIdentity).is_ok());
    assert_eq!(m.stage(), Stage::IdentityDropped);
    assert!(m.authorize(ChildAction::ReExec).is_ok());
    assert_eq!(m.stage(), Stage::ReExeced);
}

#[test]
fn launcher_rejects_any_step_out_of_order() {
    let mut m = Launcher::new();
    let r = m.authorize(ChildAction::DropIdentity);
    match r {
        Err(Error::Transition(TransitionError::OrderViolation(a, s))) => {
            assert_eq!(a, ChildAction::DropIdentity);
            assert_eq!(s, Stage::Start);
        },
        other => panic!("out-of-order action not refused: {:?}", other),
    }
    assert_eq!(m.stage(), Stage::Failed);

    let mut m2 = Launcher::new();
    assert!(m2.authorize(ChildAction::CaptureHandle).is_ok());
    assert!(m2.authorize(ChildAction::ReExec).is_err());
    assert_eq!(m2.stage(), Stage::Failed);
}

#[test]
fn launcher_never_replays_a_stage() {
    let mut m = Launcher::new();
    assert!(m.authorize(ChildAction::CaptureHandle).is_ok());
    assert!(m.authorize(ChildAction::CaptureHandle).is_err());
    assert_eq!(m.stage(), Stage::Failed);
    assert!(m.authorize(ChildAction::JoinNamespace).is_err());
}

#[test]
fn launcher_failure_maps_to_component_errors() {
    let mut m = Launcher::new();
    let e = m.record_failure(StepFailure::NamespaceJoin(13));
    assert!(matches!(e, Error::Transition(TransitionError::NamespaceJoin(13))));
    assert_eq!(m.stage(), Stage::Failed);
    let mut m2 = Launcher::new();
    assert!(matches!(m2.record_failure(StepFailure::ProgramLocation), Error::Resource(_)));
    let mut m3 = Launcher::new();
    assert!(matches!(m3.record_failure(StepFailure::ExecImage(2)), Error::ReExec(_)));
}

#[test]
fn exit_codes_are_nonzero_and_distinct_per_class() {
    let mut m = Launcher::new();
    let resource = m.record_failure(StepFailure::DirectoryHandle(2)).exit_code();
    let transition = m.record_failure(StepFailure::IdentityDrop(1)).exit_code();
    let reexec = m.record_failure(StepFailure::ChangeDirectory(2)).exit_code();
    assert!(resource != 0 && transition != 0 && reexec != 0);
    assert!(resource != transition && transition != reexec && resource != reexec);
}

#[test]
fn classify_child_exits() {
    assert_eq!(classify_exit(ChildEvent::Exited(0)), Outcome::Success);
    assert_eq!(classify_exit(ChildEvent::Exited(3)), Outcome::ChildFailed(3));
    assert_eq!(classify_exit(ChildEvent::Signaled(9)), Outcome::WaitError);
    assert_eq!(classify_exit(ChildEvent::WaitFailed(10)), Outcome::WaitError);
}

#[test]
fn decimal_rendering() {
    assert_eq!(u32_to_decimal(0), "0");
    assert_eq!(u32_to_decimal(7), "7");
    assert_eq!(u32_to_decimal(1234), "1234");
    assert_eq!(u32_to_decimal(u32::MAX), "4294967295");
}

#[test]
fn namespace_path_of_pid() {
    assert_eq!(proc_ns_mnt_path(1234), "/proc/1234/ns/mnt");
}

#[test]
fn split_path_at_last_separator() {
    assert_eq!(split_path("/usr/local/bin/tool"), ("/usr/local/bin/", "tool"));
    assert_eq!(split_path("tool"), ("", "tool"));
    assert_eq!(split_path("a/b"), ("a/", "b"));
}

#[test]
fn scan_request_shape() {
    let argv = vec!["java".to_string(), "-cp".to_string(), "a.jar".to_string()];
    let r = build_scan_request("./tool", &argv);
    assert_eq!(
        r,
        vec![
            "./tool".to_string(),
            "scan".to_string(),
            "java".to_string(),
            "-cp".to_string(),
            "a.jar".to_string(),
        ]
    );
}

#[test]
fn relative_exec_path_prefixes_dot_slash() {
    assert_eq!(relative_exec_path("tool"), "./tool");
}
