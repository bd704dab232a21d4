//! The stand-alone observer device.
//!
//! Its event loop is the one of the observer task
//! ([`crate::spirc::task::observer::run_next`]), and its start-up follows
//! [`crate::startup::SetupOrder::Observer`].
use vstd::prelude::*;

use crate::error::{Error, ErrorCause, ErrorKind};
use crate::message::{has_header, header_value, Message};
use crate::protocol::Cluster;
use crate::spirc::task::connection_id_header;
use crate::spirc::task::observer::{cluster_standing, standing_in, ClusterStanding};

verus! {

/// Failures of the observer device.
#[derive(Debug, PartialEq)]
pub enum ObserverError {
    /// "message pushed for another URI"
    InvalidUri(String),
    /// "failed to put connect state for new device"
    FailedDealerSetup,
}

/// The text of an [`ObserverError`].
pub open spec fn observer_error_text(err: ObserverError) -> Seq<char> {
    match err {
        ObserverError::InvalidUri(_) => "message pushed for another URI"@,
        ObserverError::FailedDealerSetup => "failed to put connect state for new device"@,
    }
}

impl ObserverError {
    /// The text of the error.
    pub fn message(&self) -> (r: String)
        ensures
            r@ == observer_error_text(*self),
    {
        match self {
            ObserverError::InvalidUri(_) => "message pushed for another URI".to_owned(),
            ObserverError::FailedDealerSetup => "failed to put connect state for new device".to_owned(),
        }
    }
}

impl From<ObserverError> for Error {
    /// Every observer failure is reported as `Aborted`.
    fn from(err: ObserverError) -> (e: Error) {
        Error { kind: ErrorKind::Aborted, cause: ErrorCause::Observer(err) }
    }
}

impl vstd::std_specs::convert::FromSpecImpl<ObserverError> for Error {
    open spec fn obeys_from_spec() -> bool {
        true
    }

    open spec fn from_spec(err: ObserverError) -> Error {
        Error { kind: ErrorKind::Aborted, cause: ErrorCause::Observer(err) }
    }
}


/// The connection id that a pusher message announces.
///
/// Gives the value of its "Spotify-Connection-Id" header, and an `Aborted`
/// [`ObserverError::InvalidUri`] with the message's URI when it has none.
pub fn extract_connection_id(msg: Message) -> (r: Result<String, Error>)
    ensures
        r is Err <==> !has_header(msg.headers@, connection_id_header()),
        r matches Ok(id) ==> header_value(msg.headers@, connection_id_header()) == Some(id@),
        r matches Err(e) ==> e == (Error {
            kind: ErrorKind::Aborted,
            cause: ErrorCause::Observer(ObserverError::InvalidUri(msg.uri)),
        }),
{
    match msg.header("Spotify-Connection-Id") {
        Some(connection_id) => Ok(connection_id),
        None => Err(Error::from(ObserverError::InvalidUri(msg.uri))),
    }
}

/// The outcome of a connection id update, once the device's state was put.
///
/// `put_state` is the cluster that the connect-state service answered with,
/// or `None` when putting the state failed or its answer did not parse: that
/// is an `Aborted` [`ObserverError::FailedDealerSetup`].
pub fn handle_connection_id_update(put_state: Option<Cluster>, own_session_id: &str) -> (r: Result<
    ClusterStanding,
    Error,
>)
    ensures
        put_state is None <==> r is Err,
        put_state matches Some(c) ==> r == Ok::<ClusterStanding, Error>(
            standing_in(c, own_session_id@),
        ),
        r matches Err(e) ==> e == (Error {
            kind: ErrorKind::Aborted,
            cause: ErrorCause::Observer(ObserverError::FailedDealerSetup),
        }),
{
    match put_state {
        Some(cluster) => Ok(cluster_standing(&cluster, own_session_id)),
        None => Err(Error::from(ObserverError::FailedDealerSetup)),
    }
}

} // verus!
