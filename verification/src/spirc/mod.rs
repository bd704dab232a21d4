//! The connect device: its errors and the commands its handle sends.
pub mod task;

use vstd::prelude::*;

use crate::error::{Error, ErrorCause, ErrorKind};
use crate::spirc::task::SpircCommand;
use crate::uri::{is_queueable, SpotifyUri};

verus! {

/// `serde_json::Value`, carried through opaquely by [`SpircError::UnknownEndpoint`].
#[verifier::external_type_specification]
#[verifier::external_body]
pub struct ExJsonValue(serde_json::Value);

/// Failures of a connect device task.
#[derive(Debug, PartialEq)]
pub enum SpircError {
    /// "response payload empty"
    NoData,
    /// "{0} had no uri"
    NoUri(&'static str),
    /// "message pushed for another URI"
    InvalidUri(String),
    /// "failed to put connect state for new device"
    FailedDealerSetup,
    /// "unknown endpoint: {0:#?}"
    UnknownEndpoint(serde_json::Value),
}

/// The status kind that a [`SpircError`] is reported with.
pub open spec fn spirc_error_kind(err: SpircError) -> ErrorKind {
    match err {
        SpircError::NoData | SpircError::NoUri(_) => ErrorKind::Unavailable,
        SpircError::InvalidUri(_) | SpircError::FailedDealerSetup => ErrorKind::Aborted,
        SpircError::UnknownEndpoint(_) => ErrorKind::Unimplemented,
    }
}

impl From<SpircError> for Error {
    /// The error that reports `err`, with the kind given by [`spirc_error_kind`].
    fn from(err: SpircError) -> (e: Error) {
        let kind = match &err {
            SpircError::NoData | SpircError::NoUri(_) => ErrorKind::Unavailable,
            SpircError::InvalidUri(_) | SpircError::FailedDealerSetup => ErrorKind::Aborted,
            SpircError::UnknownEndpoint(_) => ErrorKind::Unimplemented,
        };
        Error { kind, cause: ErrorCause::Spirc(err) }
    }
}

/// The text of a [`SpircError`]. For [`SpircError::UnknownEndpoint`] it is the
/// text's beginning, which the pretty-printed value ([`json_debug_text`])
/// follows.
pub open spec fn spirc_error_text(err: SpircError) -> Seq<char> {
    match err {
        SpircError::NoData => "response payload empty"@,
        SpircError::NoUri(what) => what@ + " had no uri"@,
        SpircError::InvalidUri(_) => "message pushed for another URI"@,
        SpircError::FailedDealerSetup => "failed to put connect state for new device"@,
        SpircError::UnknownEndpoint(_) => "unknown endpoint: "@,
    }
}

/// The pretty-printed `Debug` text of a JSON value, as serde_json writes it.
pub uninterp spec fn json_debug_text(value: serde_json::Value) -> Seq<char>;

/// Calls `format!("{:#?}", value)`, which runs serde_json's `Debug` impl for
/// `Value`. That text is a function of the value alone (objects are ordered
/// maps), so it is named [`json_debug_text`]; what the text is for a given
/// value is not stated.
#[verifier::external_body]
fn pretty_debug(value: &serde_json::Value) -> (r: String)
    ensures
        r@ == json_debug_text(*value),
{
    format!("{:#?}", value)
}

impl SpircError {
    /// The text of the error: "response payload empty", "{0} had no uri",
    /// "message pushed for another URI", "failed to put connect state for new
    /// device", or "unknown endpoint: " followed by the pretty-printed value.
    pub fn message(&self) -> (r: String)
        ensures
            !(*self is UnknownEndpoint) ==> r@ == spirc_error_text(*self),
            *self is UnknownEndpoint ==> r@ == spirc_error_text(*self) + json_debug_text(
                self->UnknownEndpoint_0,
            ),
    {
        match self {
            SpircError::NoData => "response payload empty".to_owned(),
            SpircError::NoUri(what) => {
                let mut text = (*what).to_owned();
                text.append(" had no uri");
                text
            },
            SpircError::InvalidUri(_) => "message pushed for another URI".to_owned(),
            SpircError::FailedDealerSetup => "failed to put connect state for new device".to_owned(),
            SpircError::UnknownEndpoint(value) => {
                let mut text = "unknown endpoint: ".to_owned();
                let shown = pretty_debug(value);
                text.append(shown.as_str());
                text
            },
        }
    }
}

impl vstd::std_specs::convert::FromSpecImpl<SpircError> for Error {
    open spec fn obeys_from_spec() -> bool {
        true
    }

    open spec fn from_spec(err: SpircError) -> Error {
        Error { kind: spirc_error_kind(err), cause: ErrorCause::Spirc(err) }
    }
}

/// The command that adds `uri` to the queue of the playing context.
///
/// Only tracks, episodes, albums and playlists can be queued; any other URI
/// is an `InvalidArgument` error that reads "uri", and no command results.
pub fn add_to_queue_command(uri: SpotifyUri) -> (r: Result<SpircCommand, Error>)
    ensures
        is_queueable(uri) ==> r == Ok::<SpircCommand, Error>(SpircCommand::AddToQueue(uri)),
        !is_queueable(uri) ==> r is Err,
        r matches Err(e) ==> (e.kind == ErrorKind::InvalidArgument && e.cause is Message
            && e.cause->Message_0@ == "uri"@),
{
    if !uri.is_queueable() {
        return Err(Error::invalid_argument("uri"));
    }
    Ok(SpircCommand::AddToQueue(uri))
}

} // verus!
