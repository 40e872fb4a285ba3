//! Katoptron: forwarding desktop notifications from one machine to another.
//!
//! This crate holds the protocol and decision logic of the sender and the
//! receiver, each function proved against its contract; the sockets, threads,
//! D-Bus and windowing plumbing live in the program around it.

pub mod poll;
pub mod errors;
pub mod wire;
pub mod message;
pub mod status;
pub mod cli;
pub mod wake;

pub use crate::errors::{
    Cause, CodecError, ErrWithContext, FailExt, IoError, RecvError, RecvErrorKind, ResultExt,
    SendError, SendErrorKind, TxCause, TxError, TxErrorKind,
};
pub use crate::message::{Message, Notification};
pub use crate::poll::{Event, WatchMode};
pub use crate::wire::Connection;
