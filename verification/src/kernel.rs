//! The request sent to the kernel module over the generic-netlink control
//! channel, and the interpretation of what comes back.
//!
//! One exchange is one request and exactly one reply. The socket work —
//! opening the netlink socket, resolving the family, sending, receiving —
//! happens outside the library; the caller reports each step's outcome and
//! the functions here decide what it means. Every failure on the way to a
//! status byte becomes one `RpcError`, tagged with where it arose.

use vstd::prelude::*;

verus! {

/// The registered generic-netlink family name of the kernel module.
pub const FAMILY_NAME: &'static str = "collector";

/// The fixed protocol version tag carried in every request header.
pub const APP_VERSION: u8 = 1;

/// The netlink port of the kernel itself, which every request is bound to.
pub const KERNEL_PID: u32 = 0;

/// The status byte the kernel replies with.
pub type CommandExecResult = i8;

/// The operation requested of the kernel module.
#[derive(Clone, Copy, PartialEq, Eq, Structural, Debug)]
pub enum Command {
    Hide,
    Unhide,
    Uninstall,
}

impl Command {
    /// The numeric opcode a kernel command carries in the request header.
    pub open spec fn spec_value(self) -> u8 {
        match self {
            Command::Hide => 0,
            Command::Unhide => 1,
            Command::Uninstall => 2,
        }
    }

    pub fn value(&self) -> (v: u8)
        ensures
            v == self.spec_value(),
    {
        match self {
            Command::Hide => 0,
            Command::Unhide => 1,
            Command::Uninstall => 2,
        }
    }
}

/// Why a kernel exchange failed. The tag records where the failure arose;
/// to the client every one of them collapses into the same result code.
#[derive(Clone, Copy, PartialEq, Eq, Structural, Debug)]
pub enum RpcError {
    /// The netlink socket could not be opened.
    ConnectFailed,
    /// The family name is not registered: the kernel module is not loaded.
    FamilyNotFound,
    /// The request could not be sent.
    SendFailed,
    /// Waiting for the reply failed.
    RecvFailed,
    /// The reply was empty where exactly one message was owed.
    EmptyReply,
    /// The reply carried no readable status attribute.
    MalformedReply,
}

/// The ghost model of a request: what the contracts say about one.
pub struct RequestModel {
    pub opcode: Command,
    pub version: u8,
    pub payload: Option<Seq<u8>>,
    pub correlation_id: u32,
}

/// One control request: the opcode and version tag of its header, the
/// optional message attribute holding the raw payload bytes, and the
/// correlation identifier (the calling process's identifier, present for
/// protocol symmetry).
pub struct KernelRequest {
    pub opcode: Command,
    pub version: u8,
    pub payload: Option<Vec<u8>>,
    pub correlation_id: u32,
}

impl KernelRequest {
    /// The request as the contracts speak of it.
    pub open spec fn model(self) -> RequestModel {
        RequestModel {
            opcode: self.opcode,
            version: self.version,
            payload: match self.payload {
                Some(p) => Some(p@),
                None => None,
            },
            correlation_id: self.correlation_id,
        }
    }

    /// Builds a request with the fixed version tag. The payload attribute
    /// is present exactly when a payload is supplied, and holds its bytes
    /// unchanged.
    pub fn new(opcode: Command, payload: Option<Vec<u8>>, correlation_id: u32) -> (r:
        KernelRequest)
        ensures
            r.model().opcode == opcode,
            r.model().version == APP_VERSION,
            r.model().payload == match payload {
                Some(p) => Some(p@),
                None => None::<Seq<u8>>,
            },
            r.model().correlation_id == correlation_id,
    {
        KernelRequest { opcode, version: APP_VERSION, payload, correlation_id }
    }
}

/// What came back on the socket after the request was sent, as the caller
/// saw it: a receive failure, no message at all, a message without a
/// readable status attribute, or the status byte.
#[derive(Clone, Copy, PartialEq, Eq, Structural, Debug)]
pub enum RecvEvent {
    Failed,
    Empty,
    NoStatusAttribute,
    Status(u8),
}

/// What a receive outcome means for the exchange.
pub open spec fn spec_interpret_recv(event: RecvEvent) -> Result<CommandExecResult, RpcError> {
    match event {
        RecvEvent::Failed => Err(RpcError::RecvFailed),
        RecvEvent::Empty => Err(RpcError::EmptyReply),
        RecvEvent::NoStatusAttribute => Err(RpcError::MalformedReply),
        RecvEvent::Status(b) => Ok(b as i8),
    }
}

/// Turns the receive outcome into the exchange's result: an empty or
/// unreadable reply is an error, never "no content"; a status attribute is
/// the outcome status byte.
pub fn interpret_recv(event: RecvEvent) -> (r: Result<CommandExecResult, RpcError>)
    ensures
        r == spec_interpret_recv(event),
{
    match event {
        RecvEvent::Failed => Err(RpcError::RecvFailed),
        RecvEvent::Empty => Err(RpcError::EmptyReply),
        RecvEvent::NoStatusAttribute => Err(RpcError::MalformedReply),
        RecvEvent::Status(b) => Ok(b as i8),
    }
}

/// Where one kernel exchange stands. An exchange walks the states in order
/// — open the socket, resolve the family, send the request, wait for the
/// one reply — and finishes at the first failure or with the reply's
/// meaning. There is no retry: no event leads backwards.
#[derive(Clone, Copy, PartialEq, Eq, Debug)]
pub enum ExchangeState {
    Connecting,
    Resolving,
    Sending,
    Receiving,
    Finished(Result<CommandExecResult, RpcError>),
}

/// What the caller reports back about the step in flight.
#[derive(Clone, Copy, PartialEq, Eq, Structural, Debug)]
pub enum ExchangeEvent {
    /// Whether the netlink socket opened.
    Connected(bool),
    /// Whether the family name resolved — it does not when the kernel
    /// module is not loaded.
    Resolved(bool),
    /// Whether the request went out.
    Sent(bool),
    /// What came back on the socket.
    Received(RecvEvent),
}

/// How one reported event advances an exchange: success moves to the next
/// step, failure finishes with the error tagged for the step it arose at,
/// and an event the state is not waiting for changes nothing.
pub open spec fn spec_exchange_step(state: ExchangeState, event: ExchangeEvent) -> ExchangeState {
    match (state, event) {
        (ExchangeState::Connecting, ExchangeEvent::Connected(ok)) => if ok {
            ExchangeState::Resolving
        } else {
            ExchangeState::Finished(Err(RpcError::ConnectFailed))
        },
        (ExchangeState::Resolving, ExchangeEvent::Resolved(ok)) => if ok {
            ExchangeState::Sending
        } else {
            ExchangeState::Finished(Err(RpcError::FamilyNotFound))
        },
        (ExchangeState::Sending, ExchangeEvent::Sent(ok)) => if ok {
            ExchangeState::Receiving
        } else {
            ExchangeState::Finished(Err(RpcError::SendFailed))
        },
        (ExchangeState::Receiving, ExchangeEvent::Received(recv)) => ExchangeState::Finished(
            spec_interpret_recv(recv),
        ),
        _ => state,
    }
}

/// Advances one kernel exchange by one reported event.
pub fn exchange_step(state: ExchangeState, event: ExchangeEvent) -> (next: ExchangeState)
    ensures
        next == spec_exchange_step(state, event),
{
    match (state, event) {
        (ExchangeState::Connecting, ExchangeEvent::Connected(ok)) => {
            if ok {
                ExchangeState::Resolving
            } else {
                ExchangeState::Finished(Err(RpcError::ConnectFailed))
            }
        },
        (ExchangeState::Resolving, ExchangeEvent::Resolved(ok)) => {
            if ok {
                ExchangeState::Sending
            } else {
                ExchangeState::Finished(Err(RpcError::FamilyNotFound))
            }
        },
        (ExchangeState::Sending, ExchangeEvent::Sent(ok)) => {
            if ok {
                ExchangeState::Receiving
            } else {
                ExchangeState::Finished(Err(RpcError::SendFailed))
            }
        },
        (ExchangeState::Receiving, ExchangeEvent::Received(recv)) => {
            ExchangeState::Finished(interpret_recv(recv))
        },
        (other, _) => other,
    }
}

/// A failure reported at any step finishes the exchange at once with an
/// error — never a status byte — and a finished exchange stays finished:
/// the single error type covers every failure point, and there is no retry.
pub proof fn lemma_exchange_fails_at_every_step(state: ExchangeState, event: ExchangeEvent)
    ensures
        spec_exchange_step(ExchangeState::Connecting, ExchangeEvent::Connected(false))
            == ExchangeState::Finished(Err::<CommandExecResult, RpcError>(RpcError::ConnectFailed)),
        spec_exchange_step(ExchangeState::Resolving, ExchangeEvent::Resolved(false))
            == ExchangeState::Finished(Err::<CommandExecResult, RpcError>(RpcError::FamilyNotFound)),
        spec_exchange_step(ExchangeState::Sending, ExchangeEvent::Sent(false))
            == ExchangeState::Finished(Err::<CommandExecResult, RpcError>(RpcError::SendFailed)),
        state is Finished ==> spec_exchange_step(state, event) == state,
{
}

} // verus!
