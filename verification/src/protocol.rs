//! The parts of the connect-state protocol messages that the devices read.
use vstd::prelude::*;

verus! {

/// The playback state of a cluster: the session that plays.
#[derive(Debug, PartialEq)]
pub struct PlayerState {
    pub session_id: String,
}

/// The devices of an account as the connect-state service sees them.
#[derive(Debug, PartialEq)]
pub struct Cluster {
    /// The id of the active device; empty when no device is active.
    pub active_device_id: String,
    pub player_state: PlayerState,
    /// State handed over to a device that takes over; may be empty.
    pub transfer_data: Vec<u8>,
}

/// A change of the cluster pushed by the dealer.
#[derive(Debug, PartialEq)]
pub struct ClusterUpdate {
    pub cluster: Cluster,
    /// The number of the update reason as it came over the wire.
    pub update_reason: i32,
    pub ack_id: String,
    pub devices_that_changed: Vec<String>,
}

} // verus!
