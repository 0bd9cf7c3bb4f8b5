//! Lobby constraints: four to five authenticated players, the GM included.
use vstd::prelude::*;

verus! {

/// Minimum seats to leave the lobby and start the campaign.
pub const LOBBY_MIN_PLAYERS: u8 = 4;

/// Hard cap of seats in a room.
pub const LOBBY_MAX_PLAYERS: u8 = 5;

#[derive(Debug, Clone, Copy, PartialEq, Eq, Structural, Hash)]
pub enum RoomPhase {
    Lobby,
    Playing,
}

impl RoomPhase {
    /// A new room is in the lobby.
    pub fn default_phase() -> (p: RoomPhase)
        ensures
            p == RoomPhase::Lobby,
    {
        RoomPhase::Lobby
    }
}

} // verus!
