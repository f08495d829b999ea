use collector::commands::{Command, Command_Type};
use collector::dispatch::{dispatch_complete, dispatch_request, to_response_result};
use collector::kernel::{self, exchange_step, ExchangeEvent, ExchangeState, RecvEvent, RpcError, APP_VERSION};
use collector::response::Response_Result;

fn hide_command(path: &[u8]) -> Command {
    let mut c = Command::new();
    c.set_command_type(Command_Type::HIDE);
    c.set_path(path.to_vec());
    c
}

#[test]
fn status_zero_maps_to_ok() {
    assert_eq!(to_response_result(0), Response_Result::OK);
}

#[test]
fn status_one_maps_to_module_system_error() {
    assert_eq!(to_response_result(1), Response_Result::ERROR_MODULE_SYSTEM);
}

#[test]
fn status_two_maps_to_no_path_error() {
    assert_eq!(to_response_result(2), Response_Result::ERROR_MODULE_NO_PATH);
}

#[test]
fn other_statuses_map_to_communication_error() {
    for status in [-128i8, -1, 3, 4, 100, 127] {
        assert_eq!(
            to_response_result(status),
            Response_Result::ERROR_MODULE_COMMUNICATION
        );
    }
}

#[test]
fn every_status_byte_maps_to_exactly_one_result() {
    for status in i8::MIN..=i8::MAX {
        let expected = match status {
            0 => Response_Result::OK,
            1 => Response_Result::ERROR_MODULE_SYSTEM,
            2 => Response_Result::ERROR_MODULE_NO_PATH,
            _ => Response_Result::ERROR_MODULE_COMMUNICATION,
        };
        assert_eq!(to_response_result(status), expected);
        assert_eq!(to_response_result(status), to_response_result(status));
    }
}

#[test]
fn hide_request_carries_opcode_and_path_bytes() {
    let c = hide_command(b"/tmp/x");
    let r = dispatch_request(&c, 4242);
    assert_eq!(r.opcode, kernel::Command::Hide);
    assert_eq!(r.version, APP_VERSION);
    assert_eq!(r.payload.as_deref(), Some(&b"/tmp/x"[..]));
    assert_eq!(r.correlation_id, 4242);
}

#[test]
fn unhide_request_carries_opcode_and_path_bytes() {
    let mut c = Command::new();
    c.set_command_type(Command_Type::UNHIDE);
    c.set_path(b"/var/log/secret".to_vec());
    let r = dispatch_request(&c, 7);
    assert_eq!(r.opcode, kernel::Command::Unhide);
    assert_eq!(r.payload.as_deref(), Some(&b"/var/log/secret"[..]));
}

#[test]
fn uninstall_request_carries_no_payload() {
    let mut c = Command::new();
    c.set_command_type(Command_Type::UNINSTALL);
    let r = dispatch_request(&c, 99);
    assert_eq!(r.opcode, kernel::Command::Uninstall);
    assert_eq!(r.version, APP_VERSION);
    assert!(r.payload.is_none());
    assert_eq!(r.correlation_id, 99);
}

#[test]
fn repeating_a_command_plans_two_identical_independent_requests() {
    let c = hide_command(b"/tmp/x");
    let first = dispatch_request(&c, 11);
    let second = dispatch_request(&c, 11);
    assert_eq!(first.opcode, second.opcode);
    assert_eq!(first.version, second.version);
    assert_eq!(first.payload, second.payload);
    assert_eq!(first.correlation_id, second.correlation_id);
    // The two requests own their payloads: changing one leaves the other.
    let mut first = first;
    if let Some(p) = first.payload.as_mut() {
        p.clear();
    }
    assert_eq!(second.payload.as_deref(), Some(&b"/tmp/x"[..]));
}

#[test]
fn every_rpc_error_collapses_to_communication_error() {
    for error in [
        RpcError::ConnectFailed,
        RpcError::FamilyNotFound,
        RpcError::SendFailed,
        RpcError::RecvFailed,
        RpcError::EmptyReply,
        RpcError::MalformedReply,
    ] {
        assert_eq!(
            dispatch_complete(Err(error)),
            Response_Result::ERROR_MODULE_COMMUNICATION
        );
    }
}

#[test]
fn successful_statuses_complete_through_the_mapping() {
    assert_eq!(dispatch_complete(Ok(0)), Response_Result::OK);
    assert_eq!(dispatch_complete(Ok(1)), Response_Result::ERROR_MODULE_SYSTEM);
    assert_eq!(dispatch_complete(Ok(2)), Response_Result::ERROR_MODULE_NO_PATH);
    assert_eq!(
        dispatch_complete(Ok(-5)),
        Response_Result::ERROR_MODULE_COMMUNICATION
    );
}

#[test]
fn interpret_recv_distinguishes_failures() {
    assert_eq!(
        kernel::interpret_recv(kernel::RecvEvent::Failed),
        Err(RpcError::RecvFailed)
    );
    assert_eq!(
        kernel::interpret_recv(kernel::RecvEvent::Empty),
        Err(RpcError::EmptyReply)
    );
    assert_eq!(
        kernel::interpret_recv(kernel::RecvEvent::NoStatusAttribute),
        Err(RpcError::MalformedReply)
    );
    assert_eq!(kernel::interpret_recv(kernel::RecvEvent::Status(0)), Ok(0));
    assert_eq!(
        kernel::interpret_recv(kernel::RecvEvent::Status(0xff)),
        Ok(-1)
    );
}

#[test]
fn kernel_request_new_keeps_its_arguments() {
    let r = kernel::KernelRequest::new(kernel::Command::Hide, Some(b"/a".to_vec()), 5);
    assert_eq!(r.opcode, kernel::Command::Hide);
    assert_eq!(r.version, APP_VERSION);
    assert_eq!(r.payload.as_deref(), Some(&b"/a"[..]));
    assert_eq!(r.correlation_id, 5);
    let q = kernel::KernelRequest::new(kernel::Command::Uninstall, None, 5);
    assert!(q.payload.is_none());
}

#[test]
fn a_successful_exchange_walks_every_step() {
    let s = ExchangeState::Connecting;
    let s = exchange_step(s, ExchangeEvent::Connected(true));
    assert_eq!(s, ExchangeState::Resolving);
    let s = exchange_step(s, ExchangeEvent::Resolved(true));
    assert_eq!(s, ExchangeState::Sending);
    let s = exchange_step(s, ExchangeEvent::Sent(true));
    assert_eq!(s, ExchangeState::Receiving);
    let s = exchange_step(s, ExchangeEvent::Received(RecvEvent::Status(0)));
    assert_eq!(s, ExchangeState::Finished(Ok(0)));
}

#[test]
fn exchange_failures_finish_with_their_own_tag() {
    assert_eq!(
        exchange_step(ExchangeState::Connecting, ExchangeEvent::Connected(false)),
        ExchangeState::Finished(Err(RpcError::ConnectFailed))
    );
    assert_eq!(
        exchange_step(ExchangeState::Resolving, ExchangeEvent::Resolved(false)),
        ExchangeState::Finished(Err(RpcError::FamilyNotFound))
    );
    assert_eq!(
        exchange_step(ExchangeState::Sending, ExchangeEvent::Sent(false)),
        ExchangeState::Finished(Err(RpcError::SendFailed))
    );
    assert_eq!(
        exchange_step(ExchangeState::Receiving, ExchangeEvent::Received(RecvEvent::Failed)),
        ExchangeState::Finished(Err(RpcError::RecvFailed))
    );
    assert_eq!(
        exchange_step(ExchangeState::Receiving, ExchangeEvent::Received(RecvEvent::Empty)),
        ExchangeState::Finished(Err(RpcError::EmptyReply))
    );
    assert_eq!(
        exchange_step(
            ExchangeState::Receiving,
            ExchangeEvent::Received(RecvEvent::NoStatusAttribute)
        ),
        ExchangeState::Finished(Err(RpcError::MalformedReply))
    );
}

#[test]
fn a_finished_exchange_stays_finished() {
    let done = ExchangeState::Finished(Ok(2));
    assert_eq!(
        exchange_step(done, ExchangeEvent::Connected(true)),
        done
    );
    // An event a state is not waiting for changes nothing either.
    assert_eq!(
        exchange_step(ExchangeState::Sending, ExchangeEvent::Connected(false)),
        ExchangeState::Sending
    );
}

#[test]
fn kernel_opcode_values() {
    assert_eq!(kernel::Command::Hide.value(), 0);
    assert_eq!(kernel::Command::Unhide.value(), 1);
    assert_eq!(kernel::Command::Uninstall.value(), 2);
}
