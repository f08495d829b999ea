//! The per-connection state machine, uninstall sequence included.
//!
//! A connection is handled in one pass: read and decode one command,
//! dispatch it to the kernel, write back one response — or none, when the
//! bytes did not spell a command. The caller performs the blocking work
//! (the read, the kernel exchange, the cleanup actions, the write) and
//! feeds each outcome back to `handler_step`, which alone decides what
//! comes next. A successful kernel-side uninstall inserts the destructive
//! cleanup sequence before the response and tells the listener to stop
//! accepting connections.

use crate::commands::{Command, Command_Type};
use crate::dispatch::{spec_dispatch_complete, spec_request_for, dispatch_complete,
    dispatch_request};
use crate::kernel::{CommandExecResult, KernelRequest, RpcError};
use crate::response::Response_Result;
use vstd::prelude::*;

verus! {

/// Where a connection stands.
pub enum HandlerState {
    /// Waiting for the stream to yield one decoded command.
    Reading,
    /// The command was accepted and its kernel request planned; the
    /// exchange is in flight.
    Dispatching { command: Command, request: KernelRequest },
    /// The kernel-side uninstall succeeded; the destructive cleanup
    /// sequence runs before the response is sent.
    Cleaning,
    /// The result code is ready to be encoded and written back.
    Responding { result: Response_Result, keep_accepting: bool },
    /// The connection is finished: what was responded, if anything, and
    /// whether the listener goes on accepting connections.
    Done { responded: Option<Response_Result>, keep_accepting: bool },
}

/// What the caller reports back to the state machine.
pub enum HandlerEvent {
    /// The read ended: one decoded command, or `None` when the bytes did
    /// not spell one.
    Decoded(Option<Command>),
    /// The kernel exchange ended with a status byte or an error.
    KernelOutcome(Result<CommandExecResult, RpcError>),
    /// Every cleanup action was attempted.
    CleanupFinished,
    /// The response was written and the stream half-closed.
    ResponseSent,
}

/// One step of the destructive uninstall cleanup.
#[derive(Clone, Copy, PartialEq, Eq, Structural, Debug)]
pub enum CleanupAction {
    /// Unload the kernel module from the running kernel.
    UnloadModule,
    /// Delete the agent's own executable from disk.
    DeleteExecutable,
}

/// A kernel-side uninstall succeeded: the command asked for uninstall and
/// the kernel answered with the success status. Only this triggers the
/// cleanup sequence; the cleanup's own failures no longer change the `OK`
/// already owed to the client.
pub open spec fn spec_uninstall_succeeded(
    command: Command,
    outcome: Result<CommandExecResult, RpcError>,
) -> bool {
    command.spec_command_type() == Some(Command_Type::UNINSTALL) && outcome == Ok::<
        CommandExecResult,
        RpcError,
    >(0i8)
}

/// Every connection starts waiting for its one command.
pub fn handler_start() -> (s: HandlerState)
    ensures
        s is Reading,
{
    HandlerState::Reading
}

/// Advances the connection by one reported event.
///
/// Reading: a command that decoded and meets the protocol invariant is
/// dispatched; undecodable bytes or an invalid command end the connection
/// with no response written, and the listener goes on accepting.
///
/// Dispatching: a successful kernel-side uninstall moves to the cleanup
/// sequence; every other outcome — mapped status byte or collapsed error —
/// is answered at once and the listener goes on accepting.
///
/// Cleaning: once every action was attempted, the promised `OK` is sent
/// and the listener stops accepting.
///
/// An event a state is not waiting for changes nothing.
pub fn handler_step(state: HandlerState, event: HandlerEvent, correlation_id: u32) -> (next:
    HandlerState)
    ensures
        ({
            match (state, event) {
                (HandlerState::Reading, HandlerEvent::Decoded(d)) => match d {
                    None => next == (HandlerState::Done {
                        responded: None,
                        keep_accepting: true,
                    }),
                    Some(c) => if c.valid() {
                        &&& next matches HandlerState::Dispatching { command, request }
                        &&& command == c
                        &&& request.model() == spec_request_for(c, correlation_id)
                    } else {
                        next == (HandlerState::Done { responded: None, keep_accepting: true })
                    },
                },
                (
                    HandlerState::Dispatching { command, .. },
                    HandlerEvent::KernelOutcome(outcome),
                ) => if spec_uninstall_succeeded(command, outcome) {
                    next is Cleaning
                } else {
                    next == (HandlerState::Responding {
                        result: spec_dispatch_complete(outcome),
                        keep_accepting: true,
                    })
                },
                (HandlerState::Cleaning, HandlerEvent::CleanupFinished) => next
                    == (HandlerState::Responding {
                    result: Response_Result::OK,
                    keep_accepting: false,
                }),
                (
                    HandlerState::Responding { result, keep_accepting },
                    HandlerEvent::ResponseSent,
                ) => next == (HandlerState::Done {
                    responded: Some(result),
                    keep_accepting: keep_accepting,
                }),
                _ => next == state,
            }
        }),
{
    match (state, event) {
        (HandlerState::Reading, HandlerEvent::Decoded(None)) => HandlerState::Done {
            responded: None,
            keep_accepting: true,
        },
        (HandlerState::Reading, HandlerEvent::Decoded(Some(command))) => {
            if command.is_valid() {
                let request = dispatch_request(&command, correlation_id);
                HandlerState::Dispatching { command, request }
            } else {
                HandlerState::Done { responded: None, keep_accepting: true }
            }
        },
        (HandlerState::Dispatching { command, request: _ }, HandlerEvent::KernelOutcome(
            outcome,
        )) => {
            let uninstall = command.has_command_type() && match command.get_command_type() {
                Command_Type::UNINSTALL => true,
                _ => false,
            };
            let success = match outcome {
                Ok(status) => status == 0,
                Err(_) => false,
            };
            if uninstall && success {
                HandlerState::Cleaning
            } else {
                HandlerState::Responding {
                    result: dispatch_complete(outcome),
                    keep_accepting: true,
                }
            }
        },
        (HandlerState::Cleaning, HandlerEvent::CleanupFinished) => HandlerState::Responding {
            result: Response_Result::OK,
            keep_accepting: false,
        },
        (HandlerState::Responding { result, keep_accepting }, HandlerEvent::ResponseSent) => {
            HandlerState::Done { responded: Some(result), keep_accepting }
        },
        (other, _) => other,
    }
}

/// The ordered, best-effort cleanup after a successful kernel-side
/// uninstall: unload the kernel module, then delete the agent's own
/// executable. The caller attempts every action in this order and goes on
/// past failures — a failed unload must not prevent the self-delete, and
/// neither failure changes the response.
pub fn cleanup_sequence() -> (v: Vec<CleanupAction>)
    ensures
        v@ == seq![CleanupAction::UnloadModule, CleanupAction::DeleteExecutable],
{
    let mut v: Vec<CleanupAction> = Vec::new();
    v.push(CleanupAction::UnloadModule);
    v.push(CleanupAction::DeleteExecutable);
    proof {
        assert(v@ =~= seq![CleanupAction::UnloadModule, CleanupAction::DeleteExecutable]);
    }
    v
}

} // verus!
