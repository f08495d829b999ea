//! The Command Dispatcher: from a decoded command to a kernel request, and
//! from the kernel's outcome to the client-visible result code.
//!
//! Dispatching keeps no state. Planning a request is a function of the
//! command and the correlation identifier alone, and completing one is a
//! function of the kernel outcome alone: nothing is remembered between
//! commands.

use crate::commands::{Command, Command_Type};
use crate::kernel::{self, CommandExecResult, KernelRequest, RequestModel, RpcError};
use crate::response::Response_Result;
use vstd::prelude::*;

verus! {

/// The kernel opcode that a command type asks for.
pub open spec fn spec_opcode_for(t: Command_Type) -> kernel::Command {
    match t {
        Command_Type::HIDE => kernel::Command::Hide,
        Command_Type::UNHIDE => kernel::Command::Unhide,
        Command_Type::UNINSTALL => kernel::Command::Uninstall,
    }
}

/// The payload a command sends along: the path's bytes for the two hiding
/// operations, nothing for uninstall.
pub open spec fn spec_payload_for(c: Command) -> Option<Seq<u8>> {
    match c.spec_command_type() {
        Some(Command_Type::HIDE) | Some(Command_Type::UNHIDE) => c.spec_path(),
        _ => None,
    }
}

/// The request a valid command plans, in full.
pub open spec fn spec_request_for(c: Command, correlation_id: u32) -> RequestModel {
    RequestModel {
        opcode: spec_opcode_for(c.spec_command_type()->0),
        version: kernel::APP_VERSION,
        payload: spec_payload_for(c),
        correlation_id: correlation_id,
    }
}

/// Plans the kernel request for a valid command: the matching opcode, a
/// payload attribute holding exactly the path's bytes for `HIDE` and
/// `UNHIDE`, no payload attribute for `UNINSTALL`, the fixed version tag,
/// and the caller's correlation identifier.
pub fn dispatch_request(command: &Command, correlation_id: u32) -> (r: KernelRequest)
    requires
        command.valid(),
    ensures
        r.model() == spec_request_for(*command, correlation_id),
{
    match command.get_command_type() {
        Command_Type::HIDE => KernelRequest::new(
            kernel::Command::Hide,
            Some(command.get_path()),
            correlation_id,
        ),
        Command_Type::UNHIDE => KernelRequest::new(
            kernel::Command::Unhide,
            Some(command.get_path()),
            correlation_id,
        ),
        Command_Type::UNINSTALL => KernelRequest::new(
            kernel::Command::Uninstall,
            None,
            correlation_id,
        ),
    }
}

/// The fixed, total mapping from a kernel status byte to a result code.
pub open spec fn spec_to_response_result(result: CommandExecResult) -> Response_Result {
    if result == 0 {
        Response_Result::OK
    } else if result == 1 {
        Response_Result::ERROR_MODULE_SYSTEM
    } else if result == 2 {
        Response_Result::ERROR_MODULE_NO_PATH
    } else {
        Response_Result::ERROR_MODULE_COMMUNICATION
    }
}

/// Maps a kernel status byte to the client-visible result code: `0` is
/// success, `1` a kernel-module internal error, `2` "no matching path", and
/// every other value an unrecognized status reported as a communication
/// error.
pub fn to_response_result(result: CommandExecResult) -> (r: Response_Result)
    ensures
        r == spec_to_response_result(result),
{
    if result == 0 {
        Response_Result::OK
    } else if result == 1 {
        Response_Result::ERROR_MODULE_SYSTEM
    } else if result == 2 {
        Response_Result::ERROR_MODULE_NO_PATH
    } else {
        Response_Result::ERROR_MODULE_COMMUNICATION
    }
}

/// What a finished kernel exchange means for the client.
pub open spec fn spec_dispatch_complete(
    outcome: Result<CommandExecResult, RpcError>,
) -> Response_Result {
    match outcome {
        Ok(status) => spec_to_response_result(status),
        Err(_) => Response_Result::ERROR_MODULE_COMMUNICATION,
    }
}

/// Completes a dispatch: a status byte goes through the fixed mapping, and
/// any kernel exchange failure, whatever its cause, becomes
/// `ERROR_MODULE_COMMUNICATION`. Total: every outcome yields a result code.
pub fn dispatch_complete(outcome: Result<CommandExecResult, RpcError>) -> (r: Response_Result)
    ensures
        r == spec_dispatch_complete(outcome),
{
    match outcome {
        Ok(status) => to_response_result(status),
        Err(_) => Response_Result::ERROR_MODULE_COMMUNICATION,
    }
}

/// The status mapping is total and deterministic: every signed status byte
/// maps to exactly one result code, `0`, `1` and `2` to their named codes
/// and every other value — negative ones included — to the communication
/// error.
pub proof fn lemma_status_mapping_total(status: i8)
    ensures
        status == 0 ==> spec_to_response_result(status) == Response_Result::OK,
        status == 1 ==> spec_to_response_result(status)
            == Response_Result::ERROR_MODULE_SYSTEM,
        status == 2 ==> spec_to_response_result(status)
            == Response_Result::ERROR_MODULE_NO_PATH,
        !(0 <= status <= 2) ==> spec_to_response_result(status)
            == Response_Result::ERROR_MODULE_COMMUNICATION,
        forall|other: i8|
            other == status ==> spec_to_response_result(other) == spec_to_response_result(status),
{
}

/// Every kernel exchange failure collapses into the single communication
/// error, whichever step of the exchange it arose at.
pub proof fn lemma_rpc_error_collapses(error: RpcError)
    ensures
        spec_dispatch_complete(Err(error)) == Response_Result::ERROR_MODULE_COMMUNICATION,
{
}

/// Dispatching is stateless: the request planned for a command is a
/// function of the command and the correlation identifier alone, so issuing
/// the same command twice plans two identical, independent requests —
/// nothing of the first is remembered by the second.
pub proof fn lemma_dispatch_stateless(first: Command, second: Command, correlation_id: u32)
    requires
        first == second,
    ensures
        spec_request_for(first, correlation_id) == spec_request_for(second, correlation_id),
{
}

} // verus!
