//! Spotify URIs, as far as the connect device tells them apart.
use vstd::prelude::*;

verus! {

/// The 128-bit id of a Spotify item.
#[derive(Clone, Copy, Debug, PartialEq, Eq, Structural)]
pub struct SpotifyId {
    pub id: u128,
}

/// A Spotify URI: the kind of item it names, and the item.
#[allow(inconsistent_fields)]
#[derive(Debug, PartialEq)]
pub enum SpotifyUri {
    Album { id: SpotifyId },
    Artist { id: SpotifyId },
    Episode { id: SpotifyId },
    Playlist { user: Option<String>, id: SpotifyId },
    Show { id: SpotifyId },
    Track { id: SpotifyId },
    /// A local file; its duration in milliseconds.
    Local { artist: String, album_title: String, track_title: String, duration_ms: u64 },
    /// A URI of a kind the device does not know.
    Unknown { kind: String, id: String },
}

/// Whether `uri` names something that can be added to the queue: a track,
/// an episode, an album or a playlist.
pub open spec fn is_queueable(uri: SpotifyUri) -> bool {
    uri is Track || uri is Episode || uri is Album || uri is Playlist
}

/// Law: what can be queued depends only on the kind of URI. Every track,
/// episode, album and playlist can, whatever its id or user; no artist, show,
/// local file or unknown URI can.
pub proof fn lemma_queueable_by_kind(
    id: SpotifyId,
    user: Option<String>,
    artist: String,
    album_title: String,
    track_title: String,
    duration_ms: u64,
    kind: String,
    raw_id: String,
)
    ensures
        is_queueable(SpotifyUri::Track { id }),
        is_queueable(SpotifyUri::Episode { id }),
        is_queueable(SpotifyUri::Album { id }),
        is_queueable(SpotifyUri::Playlist { user, id }),
        !is_queueable(SpotifyUri::Artist { id }),
        !is_queueable(SpotifyUri::Show { id }),
        !is_queueable(SpotifyUri::Local { artist, album_title, track_title, duration_ms }),
        !is_queueable(SpotifyUri::Unknown { kind, id: raw_id }),
{
}

impl SpotifyUri {
    /// Whether this URI names something that can be added to the queue.
    pub fn is_queueable(&self) -> (r: bool)
        ensures
            r == is_queueable(*self),
    {
        match self {
            SpotifyUri::Track { .. } | SpotifyUri::Episode { .. } | SpotifyUri::Album { .. }
            | SpotifyUri::Playlist { .. } => true,
            _ => false,
        }
    }
}

} // verus!
