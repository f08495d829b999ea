//! Control agent for a kernel-resident hiding module.
//!
//! The library is the command-relay bridge: it models the wire messages
//! (`commands::Command` in, `response::Response` out), the binary codec that
//! frames them, the request sent to the kernel over the generic-netlink
//! control channel (`kernel`), the mapping from kernel outcomes to
//! client-visible result codes (`dispatch`), and the per-connection state
//! machine including the self-uninstall sequence (`handler`).
//!
//! The sockets themselves (TCP and netlink) live outside the library: callers
//! read and write plain bytes and perform the kernel exchange, and hand every
//! outcome back to the functions here, which decide what happens next.

pub mod codec;
pub mod commands;
pub mod dispatch;
pub mod handler;
pub mod kernel;
pub mod response;
