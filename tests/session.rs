use cloudlet::error::VmmError;
use cloudlet::frame::{collect, ExecutionFrame};
use cloudlet::job::{RunVmmRequest, VmmService};
use cloudlet::language::{Language, LogLevel};
use cloudlet::session::{
    Action, Phase, Session, CONNECT_BUDGET_MS, FIRST_DELAY_MS, MAX_DELAY_MS, MEMORY_MIB, VCPUS,
};

fn request(language: i32, code: &str) -> RunVmmRequest {
    RunVmmRequest {
        workload_name: "hello".to_string(),
        language,
        code: code.to_string(),
        env: "[build]\nrelease=true".to_string(),
        log_level: LogLevel::Info,
    }
}

fn frame(out: &str, err: &str, exit_code: i32) -> ExecutionFrame {
    ExecutionFrame {
        stdout: out.as_bytes().to_vec(),
        stderr: err.as_bytes().to_vec(),
        exit_code,
    }
}

fn streaming(language: i32, code: &str) -> Session {
    let (mut s, a) = Session::start(&VmmService::default(), request(language, code));
    assert!(matches!(a, Action::ResolveKernel));
    assert!(matches!(s.kernel_resolved(true), Action::ResolveInitramfs(_)));
    assert!(matches!(s.initramfs_resolved(true), Action::StartVm { .. }));
    assert!(matches!(s.vm_started(Ok(())), Action::Dial { .. }));
    match s.connect_result(true) {
        Action::Execute(call) => assert_eq!(call.code, code),
        other => panic!("unexpected {:?}", other),
    }
    s
}

#[test]
fn full_run_in_order() {
    let (mut s, a) = Session::start(&VmmService::default(), request(0, "fn main(){}"));
    assert!(matches!(a, Action::ResolveKernel));
    assert_eq!(s.phase(), Phase::ResolvingKernel);
    match s.kernel_resolved(true) {
        Action::ResolveInitramfs(l) => assert_eq!(l, Language::Rust),
        other => panic!("unexpected {:?}", other),
    }
    match s.initramfs_resolved(true) {
        Action::StartVm { vcpus, mem_mib } => {
            assert_eq!(vcpus, 1);
            assert_eq!(mem_mib, 4000);
            assert_eq!((vcpus, mem_mib), (VCPUS, MEMORY_MIB));
        }
        other => panic!("unexpected {:?}", other),
    }
    match s.vm_started(Ok(())) {
        Action::Dial { delay_ms } => assert_eq!(delay_ms, FIRST_DELAY_MS),
        other => panic!("unexpected {:?}", other),
    }
    match s.connect_result(true) {
        Action::Execute(call) => {
            assert_eq!(call.language, "rust");
            assert_eq!(call.workload_name, "hello");
        }
        other => panic!("unexpected {:?}", other),
    }
    assert_eq!(s.phase(), Phase::Streaming);
    match s.frame(frame("hi\n", "", 0)) {
        Action::Forward(f) => assert_eq!(f.stdout, b"hi\n".to_vec()),
        other => panic!("unexpected {:?}", other),
    }
    assert!(matches!(s.stream_ended(), Action::Close { teardown: true }));
    assert_eq!(s.phase(), Phase::Closed);
    assert_eq!(s.error(), None);
}

#[test]
fn frames_forwarded_unchanged_and_in_order() {
    let mut s = streaming(1, "print(1)");
    let sent = vec![frame("a", "", 0), frame("", "b", 0), frame("c", "d", 3)];
    let mut got = Vec::new();
    for f in sent {
        match s.frame(f) {
            Action::Forward(g) => got.push(g),
            other => panic!("unexpected {:?}", other),
        }
    }
    assert_eq!(got.len(), 3);
    assert_eq!(got[0].stdout, b"a".to_vec());
    assert_eq!(got[1].stderr, b"b".to_vec());
    assert_eq!(got[2].stdout, b"c".to_vec());
    assert_eq!(got[2].exit_code, 3);
}

#[test]
fn joined_frames_give_whole_output() {
    let frames = vec![frame("hel", "", 0), frame("lo\n", "warn", 0), frame("", "ing", 7)];
    let t = collect(&frames);
    assert_eq!(t.stdout, b"hello\n".to_vec());
    assert_eq!(t.stderr, b"warning".to_vec());
    assert_eq!(t.exit_code, Some(7));
}

#[test]
fn no_frames_give_no_exit_code() {
    let t = collect(&Vec::new());
    assert!(t.stdout.is_empty());
    assert!(t.stderr.is_empty());
    assert_eq!(t.exit_code, None);
}

#[test]
fn python_division_by_zero_ends_with_error_frame() {
    let mut s = streaming(1, "print(1/0)");
    let mut got = Vec::new();
    for f in vec![frame("", "Traceback\nZeroDivisionError: division by zero\n", 1)] {
        if let Action::Forward(g) = s.frame(f) {
            got.push(g);
        }
    }
    let t = collect(&got);
    assert_ne!(t.exit_code, Some(0));
    assert!(String::from_utf8(t.stderr).unwrap().contains("ZeroDivisionError"));
}

#[test]
fn node_exit_code_is_last_frame() {
    let mut s = streaming(2, "process.exit(7)");
    let mut got = Vec::new();
    if let Action::Forward(g) = s.frame(frame("", "", 7)) {
        got.push(g);
    }
    assert_eq!(collect(&got).exit_code, Some(7));
}

#[test]
fn empty_code_rejected_before_any_work() {
    let (s, a) = Session::start(&VmmService::default(), request(0, ""));
    assert!(matches!(a, Action::Fail { error: VmmError::Validation, teardown: false }));
    assert_eq!(s.phase(), Phase::Closed);
    assert_eq!(s.error(), Some(VmmError::Validation));
}

#[test]
fn unknown_tag_rejected_before_any_vm() {
    for tag in [3, 5] {
        let (mut s, a) = Session::start(&VmmService::default(), request(tag, "x"));
        assert!(matches!(a, Action::Fail { error: VmmError::Validation, teardown: false }));
        assert!(matches!(s.kernel_resolved(true), Action::Nothing));
        assert!(matches!(s.vm_started(Ok(())), Action::Nothing));
    }
}

#[test]
fn artifact_failure_stops_before_vm() {
    let (mut s, _) = Session::start(&VmmService::default(), request(0, "x"));
    assert!(matches!(
        s.kernel_resolved(false),
        Action::Fail { error: VmmError::ArtifactBuild, teardown: false }
    ));
    let (mut s, _) = Session::start(&VmmService::default(), request(0, "x"));
    s.kernel_resolved(true);
    assert!(matches!(
        s.initramfs_resolved(false),
        Action::Fail { error: VmmError::ArtifactBuild, teardown: false }
    ));
}

#[test]
fn vm_construction_failure_is_reported() {
    let (mut s, _) = Session::start(&VmmService::default(), request(0, "x"));
    s.kernel_resolved(true);
    s.initramfs_resolved(true);
    assert!(matches!(
        s.vm_started(Err(VmmError::VmmConfigure)),
        Action::Fail { error: VmmError::VmmConfigure, teardown: false }
    ));
    assert_eq!(s.error(), Some(VmmError::VmmConfigure));
}

#[test]
fn unreachable_agent_fails_after_budget() {
    let (mut s, _) = Session::start(&VmmService::default(), request(0, "x"));
    s.kernel_resolved(true);
    s.initramfs_resolved(true);
    let mut delay = match s.vm_started(Ok(())) {
        Action::Dial { delay_ms } => delay_ms,
        other => panic!("unexpected {:?}", other),
    };
    let mut waited = 0u64;
    let mut delays = vec![delay];
    loop {
        match s.connect_result(false) {
            Action::Dial { delay_ms } => {
                waited += delay;
                assert!(delay_ms <= MAX_DELAY_MS);
                delay = delay_ms;
                delays.push(delay);
            }
            Action::Fail { error, teardown } => {
                assert_eq!(error, VmmError::AgentConnect);
                assert!(teardown);
                break;
            }
            other => panic!("unexpected {:?}", other),
        }
    }
    assert_eq!(&delays[..7], &[100, 200, 400, 800, 1600, 3200, 5000]);
    assert!(waited + delay <= CONNECT_BUDGET_MS);
    assert_eq!(s.phase(), Phase::Closed);
    assert!(matches!(s.frame(frame("late", "", 0)), Action::Nothing));
}

#[test]
fn cancel_after_first_frame_tears_down() {
    let mut s = streaming(0, "fn main(){}");
    assert!(matches!(s.frame(frame("x", "", 0)), Action::Forward(_)));
    assert!(matches!(s.cancel(), Action::Stop { teardown: true }));
    assert_eq!(s.phase(), Phase::Closed);
    assert!(matches!(s.cancel(), Action::Nothing));
    assert!(matches!(s.vm_exited(true), Action::Nothing));
}

#[test]
fn cancel_before_vm_needs_no_teardown() {
    let (mut s, _) = Session::start(&VmmService::default(), request(0, "x"));
    assert!(matches!(s.cancel(), Action::Stop { teardown: false }));
}

#[test]
fn mid_stream_error_fails_with_rpc() {
    let mut s = streaming(0, "x");
    s.frame(frame("partial", "", 0));
    assert!(matches!(
        s.rpc_failed(),
        Action::Fail { error: VmmError::AgentRpc, teardown: true }
    ));
}

#[test]
fn vm_fault_fails_with_run_error() {
    let mut s = streaming(0, "x");
    assert!(matches!(
        s.vm_exited(false),
        Action::Fail { error: VmmError::VmmRun, teardown: false }
    ));
    assert_eq!(s.error(), Some(VmmError::VmmRun));
}

#[test]
fn clean_halt_while_streaming_lets_stream_finish() {
    let mut s = streaming(0, "x");
    assert!(matches!(s.vm_exited(true), Action::Nothing));
    assert!(matches!(s.frame(frame("tail", "", 0)), Action::Forward(_)));
    assert!(matches!(s.stream_ended(), Action::Close { teardown: false }));
}
