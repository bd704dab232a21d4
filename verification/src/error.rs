//! The error type every fallible operation of the connect device returns.
//!
//! An [`Error`] pairs a status kind (the gRPC status codes that the
//! Spotify backend speaks) with the cause that produced it.
use vstd::prelude::*;

use crate::observer::{observer_error_text, ObserverError};
use crate::spirc::{json_debug_text, spirc_error_text, SpircError};

verus! {

/// Status kind of an [`Error`], after the gRPC status codes.
#[derive(Clone, Copy, Debug, PartialEq, Eq, Structural)]
pub enum ErrorKind {
    Cancelled,
    Unknown,
    InvalidArgument,
    DeadlineExceeded,
    NotFound,
    AlreadyExists,
    PermissionDenied,
    ResourceExhausted,
    FailedPrecondition,
    Aborted,
    OutOfRange,
    Unimplemented,
    Internal,
    Unavailable,
    DataLoss,
    Unauthenticated,
    DoNotUse,
}

/// What produced an [`Error`].
#[derive(Debug, PartialEq)]
pub enum ErrorCause {
    /// A failure of a connect device task.
    Spirc(SpircError),
    /// A failure of the observer device.
    Observer(ObserverError),
    /// A failure described by a message alone.
    Message(String),
}

/// A failure with its status kind and its cause.
#[derive(Debug, PartialEq)]
pub struct Error {
    pub kind: ErrorKind,
    pub cause: ErrorCause,
}

/// The message that a closed channel reports when a value is sent on it.
pub open spec fn channel_closed_message() -> Seq<char> {
    "channel closed"@
}

impl Error {
    /// An error of the given kind with the given cause.
    pub fn new(kind: ErrorKind, cause: ErrorCause) -> (e: Error)
        ensures
            e == (Error { kind, cause }),
    {
        Error { kind, cause }
    }

    /// The text of the error's cause: the message it was made with, or the
    /// text of the device error behind it.
    pub fn message(&self) -> (r: String)
        ensures
            self.cause is Message ==> r@ == self.cause->Message_0@,
            self.cause is Observer ==> r@ == observer_error_text(self.cause->Observer_0),
            self.cause is Spirc && !(self.cause->Spirc_0 is UnknownEndpoint) ==> r@
                == spirc_error_text(self.cause->Spirc_0),
            self.cause is Spirc && self.cause->Spirc_0 is UnknownEndpoint ==> r@
                == spirc_error_text(self.cause->Spirc_0) + json_debug_text(
                self.cause->Spirc_0->UnknownEndpoint_0,
            ),
    {
        match &self.cause {
            ErrorCause::Message(m) => m.clone(),
            ErrorCause::Observer(e) => e.message(),
            ErrorCause::Spirc(e) => e.message(),
        }
    }

    /// An `InvalidArgument` error described by `message`.
    pub fn invalid_argument(message: &str) -> (e: Error)
        ensures
            e.kind == ErrorKind::InvalidArgument,
            e.cause matches ErrorCause::Message(m) && m@ == message@,
    {
        Error { kind: ErrorKind::InvalidArgument, cause: ErrorCause::Message(message.to_owned()) }
    }

    /// The error that sending on a channel whose receiver is gone gives:
    /// an `Internal` error that reads "channel closed".
    pub fn channel_closed() -> (e: Error)
        ensures
            e.kind == ErrorKind::Internal,
            e.cause matches ErrorCause::Message(m) && m@ == channel_closed_message(),
    {
        let m = "channel closed".to_owned();
        Error { kind: ErrorKind::Internal, cause: ErrorCause::Message(m) }
    }
}

} // verus!
