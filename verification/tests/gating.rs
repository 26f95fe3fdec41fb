use orphic::extract::try_extract;
use orphic::gate::{gate_plan, confirm_decision, finish_capture, GatePlan, CaptureMode, Confirmation};
use orphic::{RunFlags, RunError, ModelId};

fn flags(unsafe_mode: bool, interpret: bool) -> RunFlags {
    RunFlags { repl: false, interpret, debug: false, unsafe_mode, model: ModelId::Gpt4Turbo }
}

#[test]
fn unsafe_mode_never_confirms_and_always_runs() {
    let extracted = try_extract("{\"command\": \"echo hi\"}");
    match gate_plan(&extracted, "{\"command\": \"echo hi\"}", &flags(true, false)) {
        GatePlan::Run { command, mode } => {
            assert_eq!(command, "echo hi");
            assert_eq!(mode, CaptureMode::Inherit);
        }
        _ => panic!("with unsafe mode on the command runs, unprompted"),
    }
    match gate_plan(&extracted, "{\"command\": \"echo hi\"}", &flags(true, true)) {
        GatePlan::Run { mode, .. } => assert_eq!(mode, CaptureMode::Buffer),
        _ => panic!("with unsafe mode on the command runs, unprompted"),
    }
}

#[test]
fn safe_mode_asks_first() {
    let extracted = try_extract("{\"command\": \"rm x\"}");
    match gate_plan(&extracted, "{\"command\": \"rm x\"}", &flags(false, false)) {
        GatePlan::Confirm { command, mode } => {
            assert_eq!(command, "rm x");
            assert_eq!(mode, CaptureMode::Inherit);
        }
        _ => panic!("with unsafe mode off execution waits for consent"),
    }
}

#[test]
fn consenting_inputs_allow_execution() {
    assert_eq!(confirm_decision(""), Confirmation::Proceed);
    assert_eq!(confirm_decision("\n"), Confirmation::Proceed);
    assert_eq!(confirm_decision("y"), Confirmation::Proceed);
    assert_eq!(confirm_decision("Y"), Confirmation::Proceed);
    assert_eq!(confirm_decision("y\n"), Confirmation::Proceed);
    assert_eq!(confirm_decision("yes"), Confirmation::Proceed);
    assert_eq!(confirm_decision("YES"), Confirmation::Proceed);
    assert_eq!(confirm_decision("  Yes  "), Confirmation::Proceed);
}

#[test]
fn any_other_input_aborts() {
    assert_eq!(confirm_decision("n"), Confirmation::Abort);
    assert_eq!(confirm_decision("no"), Confirmation::Abort);
    assert_eq!(confirm_decision("q"), Confirmation::Abort);
    assert_eq!(confirm_decision("nope"), Confirmation::Abort);
    assert_eq!(confirm_decision("y e s"), Confirmation::Abort);
    assert_eq!(confirm_decision("yess"), Confirmation::Abort);
}

#[test]
fn command_example_buffered_capture() {
    let reply = "I'll do that.\n{\"command\": \"echo hi\"}\nDone.";
    let extracted = try_extract(reply);
    assert_eq!(
        extracted.as_ref().and_then(|o| o.command.as_deref()),
        Some("echo hi")
    );
    match gate_plan(&extracted, reply, &flags(true, true)) {
        GatePlan::Run { command, mode } => {
            assert_eq!(command, "echo hi");
            assert_eq!(mode, CaptureMode::Buffer);
            let captured = finish_capture(b"hi\n".to_vec()).expect("text expected");
            assert_eq!(captured, "hi\n\n");
        }
        _ => panic!("with unsafe mode on the command runs, unprompted"),
    }
}

#[test]
fn no_command_example_echoes_reply() {
    let reply = "no json here";
    let extracted = try_extract(reply);
    assert!(extracted.is_none());
    match gate_plan(&extracted, reply, &flags(true, true)) {
        GatePlan::Echo { text } => assert_eq!(text, "no json here\n"),
        _ => panic!("without a command nothing runs and the reply is echoed"),
    }
}

#[test]
fn undecodable_capture_is_a_decode_error() {
    assert_eq!(finish_capture(vec![0xff, 0xfe, 0x20]), Err(RunError::Decode));
}

#[test]
fn empty_capture_is_just_the_newline() {
    assert_eq!(finish_capture(Vec::new()).expect("text expected"), "\n");
}
