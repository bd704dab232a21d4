//! Requests that a connect device's handle passes on to its task.
use vstd::prelude::*;

verus! {

/// What to play: a context by its URI, or a list of track URIs.
#[derive(Debug, PartialEq)]
pub enum PlayContext {
    Uri(String),
    Tracks(Vec<String>),
}

/// Playback options of a context.
#[derive(Clone, Copy, Debug, PartialEq, Eq, Structural)]
pub struct Options {
    pub shuffle: bool,
    pub repeat: bool,
    pub repeat_track: bool,
}

/// How a context is played: with options, or by autoplay.
#[derive(Debug, PartialEq)]
pub enum LoadContextOptions {
    Options(Options),
    Autoplay,
}

/// The track to start at: by index, by URI or by UID.
#[derive(Debug, PartialEq)]
pub enum PlayingTrack {
    Index(u32),
    Uri(String),
    Uid(String),
}

/// How a load request starts playback.
#[derive(Debug, PartialEq)]
pub struct LoadRequestOptions {
    pub start_playing: bool,
    pub seek_to: u32,
    pub context_options: Option<LoadContextOptions>,
    pub playing_track: Option<PlayingTrack>,
}

/// A request to load a new context and replace the current one.
#[derive(Debug, PartialEq)]
pub struct LoadRequest {
    pub context: PlayContext,
    pub options: LoadRequestOptions,
}

/// Options of a playback transfer, as the web API takes them.
#[derive(Debug, PartialEq)]
pub struct TransferOptions {
    pub restore_paused: String,
    pub restore_position: String,
    pub restore_track: String,
    pub retain_session: String,
}

/// A request to take over playback.
#[derive(Debug, PartialEq)]
pub struct TransferRequest {
    pub transfer_options: TransferOptions,
}

} // verus!
