//! Spotify connect device logic: errors, dealer messages, the observer
//! task's event loop, its start-up sequence and the daemon's reconnect policy.
pub mod daemon;
pub mod error;
pub mod message;
pub mod model;
pub mod observer;
pub mod protocol;
pub mod spirc;
pub mod startup;
pub mod uri;
