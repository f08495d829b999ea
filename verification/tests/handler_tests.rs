use collector::commands::{Command, Command_Type};
use collector::handler::{
    cleanup_sequence, handler_start, handler_step, CleanupAction, HandlerEvent, HandlerState,
};
use collector::kernel::{self, RpcError};
use collector::response::Response_Result;

const PID: u32 = 1234;

fn command(t: Command_Type, path: Option<&[u8]>) -> Command {
    let mut c = Command::new();
    c.set_command_type(t);
    if let Some(p) = path {
        c.set_path(p.to_vec());
    }
    c
}

fn dispatched(c: Command) -> HandlerState {
    handler_step(handler_start(), HandlerEvent::Decoded(Some(c)), PID)
}

#[test]
fn a_connection_starts_reading() {
    assert!(matches!(handler_start(), HandlerState::Reading));
}

#[test]
fn hide_with_status_zero_answers_ok() {
    // Command{type=HIDE, path="/tmp/x"} with kernel reply status 0.
    let s = dispatched(command(Command_Type::HIDE, Some(b"/tmp/x")));
    match &s {
        HandlerState::Dispatching { command, request } => {
            assert_eq!(command.get_command_type(), Command_Type::HIDE);
            assert_eq!(request.opcode, kernel::Command::Hide);
            assert_eq!(request.payload.as_deref(), Some(&b"/tmp/x"[..]));
            assert_eq!(request.correlation_id, PID);
        }
        other => panic!("expected Dispatching, got {:?}", state_name(other)),
    }
    let s = handler_step(s, HandlerEvent::KernelOutcome(Ok(0)), PID);
    match &s {
        HandlerState::Responding {
            result,
            keep_accepting,
        } => {
            assert_eq!(*result, Response_Result::OK);
            assert!(*keep_accepting);
        }
        other => panic!("expected Responding, got {:?}", state_name(other)),
    }
    let s = handler_step(s, HandlerEvent::ResponseSent, PID);
    match s {
        HandlerState::Done {
            responded,
            keep_accepting,
        } => {
            assert_eq!(responded, Some(Response_Result::OK));
            assert!(keep_accepting);
        }
        other => panic!("expected Done, got {:?}", state_name(&other)),
    }
}

#[test]
fn unresolved_family_answers_communication_error() {
    // The kernel module is not loaded: family resolution fails for UNHIDE.
    let s = dispatched(command(Command_Type::UNHIDE, Some(b"/tmp/x")));
    let s = handler_step(
        s,
        HandlerEvent::KernelOutcome(Err(RpcError::FamilyNotFound)),
        PID,
    );
    match &s {
        HandlerState::Responding {
            result,
            keep_accepting,
        } => {
            assert_eq!(*result, Response_Result::ERROR_MODULE_COMMUNICATION);
            assert!(*keep_accepting);
        }
        other => panic!("expected Responding, got {:?}", state_name(other)),
    }
    // The connection still closes cleanly with a response written.
    let s = handler_step(s, HandlerEvent::ResponseSent, PID);
    match s {
        HandlerState::Done {
            responded,
            keep_accepting,
        } => {
            assert_eq!(responded, Some(Response_Result::ERROR_MODULE_COMMUNICATION));
            assert!(keep_accepting);
        }
        other => panic!("expected Done, got {:?}", state_name(&other)),
    }
}

#[test]
fn successful_uninstall_cleans_up_responds_ok_and_stops_the_listener() {
    let s = dispatched(command(Command_Type::UNINSTALL, None));
    let s = handler_step(s, HandlerEvent::KernelOutcome(Ok(0)), PID);
    assert!(matches!(s, HandlerState::Cleaning));
    // The cleanup attempts the module unload and then the self-delete.
    assert_eq!(
        cleanup_sequence(),
        vec![CleanupAction::UnloadModule, CleanupAction::DeleteExecutable]
    );
    let s = handler_step(s, HandlerEvent::CleanupFinished, PID);
    match &s {
        HandlerState::Responding {
            result,
            keep_accepting,
        } => {
            assert_eq!(*result, Response_Result::OK);
            assert!(!*keep_accepting);
        }
        other => panic!("expected Responding, got {:?}", state_name(other)),
    }
    let s = handler_step(s, HandlerEvent::ResponseSent, PID);
    match s {
        HandlerState::Done {
            responded,
            keep_accepting,
        } => {
            assert_eq!(responded, Some(Response_Result::OK));
            assert!(!keep_accepting);
        }
        other => panic!("expected Done, got {:?}", state_name(&other)),
    }
}

#[test]
fn failed_uninstall_skips_cleanup_and_keeps_the_listener() {
    let s = dispatched(command(Command_Type::UNINSTALL, None));
    let s = handler_step(s, HandlerEvent::KernelOutcome(Ok(1)), PID);
    match s {
        HandlerState::Responding {
            result,
            keep_accepting,
        } => {
            assert_eq!(result, Response_Result::ERROR_MODULE_SYSTEM);
            assert!(keep_accepting);
        }
        other => panic!("expected Responding, got {:?}", state_name(&other)),
    }
}

#[test]
fn undecodable_bytes_answer_nothing_and_keep_the_listener() {
    let s = handler_step(handler_start(), HandlerEvent::Decoded(None), PID);
    match s {
        HandlerState::Done {
            responded,
            keep_accepting,
        } => {
            assert_eq!(responded, None);
            assert!(keep_accepting);
        }
        other => panic!("expected Done, got {:?}", state_name(&other)),
    }
}

#[test]
fn invalid_commands_answer_nothing_and_keep_the_listener() {
    let no_path = command(Command_Type::HIDE, None);
    let empty_path = command(Command_Type::UNHIDE, Some(b""));
    let nul_path = command(Command_Type::HIDE, Some(b"/tmp/\0x"));
    let uninstall_with_path = command(Command_Type::UNINSTALL, Some(b"/tmp/x"));
    let unset = Command::new();
    for c in [no_path, empty_path, nul_path, uninstall_with_path, unset] {
        assert!(!c.is_valid());
        let s = handler_step(handler_start(), HandlerEvent::Decoded(Some(c)), PID);
        match s {
            HandlerState::Done {
                responded,
                keep_accepting,
            } => {
                assert_eq!(responded, None);
                assert!(keep_accepting);
            }
            other => panic!("expected Done, got {:?}", state_name(&other)),
        }
    }
}

#[test]
fn valid_commands_are_accepted() {
    assert!(command(Command_Type::HIDE, Some(b"/tmp/x")).is_valid());
    assert!(command(Command_Type::UNHIDE, Some(b"/x")).is_valid());
    assert!(command(Command_Type::UNINSTALL, None).is_valid());
}

#[test]
fn the_same_hide_twice_runs_two_whole_sessions() {
    // No memoization: the second session plans and completes its own
    // kernel exchange, with the same request and the same answer.
    for _ in 0..2 {
        let s = dispatched(command(Command_Type::HIDE, Some(b"/tmp/x")));
        let request_payload = match &s {
            HandlerState::Dispatching { request, .. } => request.payload.clone(),
            other => panic!("expected Dispatching, got {:?}", state_name(other)),
        };
        assert_eq!(request_payload.as_deref(), Some(&b"/tmp/x"[..]));
        let s = handler_step(s, HandlerEvent::KernelOutcome(Ok(0)), PID);
        match s {
            HandlerState::Responding { result, .. } => {
                assert_eq!(result, Response_Result::OK)
            }
            other => panic!("expected Responding, got {:?}", state_name(&other)),
        }
    }
}

#[test]
fn an_event_a_state_is_not_waiting_for_changes_nothing() {
    let s = handler_step(handler_start(), HandlerEvent::ResponseSent, PID);
    assert!(matches!(s, HandlerState::Reading));
    let s = handler_step(HandlerState::Cleaning, HandlerEvent::Decoded(None), PID);
    assert!(matches!(s, HandlerState::Cleaning));
}

fn state_name(s: &HandlerState) -> &'static str {
    match s {
        HandlerState::Reading => "Reading",
        HandlerState::Dispatching { .. } => "Dispatching",
        HandlerState::Cleaning => "Cleaning",
        HandlerState::Responding { .. } => "Responding",
        HandlerState::Done { .. } => "Done",
    }
}
