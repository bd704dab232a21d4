//! Commands and shared pieces of the connect device tasks.
pub mod observer;

use vstd::prelude::*;

use crate::error::{Error, ErrorCause, ErrorKind};
use crate::message::{has_header, header_value, Message};
use crate::model::{LoadRequest, TransferRequest};
use crate::spirc::SpircError;
use crate::uri::SpotifyUri;

verus! {

/// A command for a connect device's task.
#[derive(Debug, PartialEq)]
pub enum SpircCommand {
    Play,
    PlayPause,
    Pause,
    Prev,
    Next,
    VolumeUp,
    VolumeDown,
    Shutdown,
    Shuffle(bool),
    Repeat(bool),
    RepeatTrack(bool),
    Disconnect { pause: bool },
    SetPosition(u32),
    SetVolume(u16),
    Activate,
    Transfer(Option<TransferRequest>),
    Load(LoadRequest),
    AddToQueue(SpotifyUri),
}

/// What an observing device task starts from: its configuration, its
/// session and the credentials it connects with.
pub struct SpircArgs<Config, Session, Credentials> {
    pub config: Config,
    pub session: Session,
    pub credentials: Credentials,
}

/// What a playing device task starts from: an observing task's arguments,
/// and the player and mixer it drives.
pub struct SpircPlayerArgs<Config, Session, Credentials, Player, Mixer> {
    pub config: Config,
    pub session: Session,
    pub credentials: Credentials,
    pub player: Player,
    pub mixer: Mixer,
}

/// The header in which the dealer announces the connection id.
pub open spec fn connection_id_header() -> Seq<char> {
    "Spotify-Connection-Id"@
}

/// The connection id that a pusher message announces.
///
/// Gives the value of its "Spotify-Connection-Id" header, and an `Aborted`
/// [`SpircError::InvalidUri`] with the message's URI when it has none.
pub fn extract_connection_id(msg: Message) -> (r: Result<String, Error>)
    ensures
        r is Err <==> !has_header(msg.headers@, connection_id_header()),
        r matches Ok(id) ==> header_value(msg.headers@, connection_id_header()) == Some(id@),
        r matches Err(e) ==> e == (Error {
            kind: ErrorKind::Aborted,
            cause: ErrorCause::Spirc(SpircError::InvalidUri(msg.uri)),
        }),
{
    match msg.header("Spotify-Connection-Id") {
        Some(connection_id) => Ok(connection_id),
        None => Err(Error::from(SpircError::InvalidUri(msg.uri))),
    }
}

} // verus!
