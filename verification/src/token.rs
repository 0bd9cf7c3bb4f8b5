//! A player's token on the campaign map and the stages of its travel turn.
use vstd::prelude::*;

use crate::hex::HexCoord;
use crate::ids::UserId;
use crate::location::LocationId;

verus! {

/// Where a token stands in its mission-targeting turn.
#[derive(Debug, Clone, Copy, PartialEq, Eq, Structural, Hash)]
pub enum TurnStage {
    /// Exploring the zone, between targeting steps.
    Idle,
    NeedLocation,
    NeedSector,
    NeedHex,
    NeedD6,
    NeedMove,
}

impl Default for TurnStage {
    fn default() -> (s: TurnStage)
        ensures
            s == TurnStage::Idle,
    {
        TurnStage::Idle
    }
}

#[derive(Debug, Clone, PartialEq, Eq)]
pub struct PlayerToken {
    pub user_id: UserId,
    pub display_name: String,
    pub ready: bool,
    pub location: Option<LocationId>,
    pub sector: Option<u8>,
    pub ccc_tens: Option<u8>,
    pub ccc_units: Option<u8>,
    pub hex: HexCoord,
    pub target_hex: Option<HexCoord>,
    pub move_points: u8,
    pub travel_stage: TurnStage,
    /// Hit points; a new stalker starts with a leather jacket's worth.
    pub hp: u16,
    pub rubles: u32,
    pub artifacts: u8,
}

/// Starting hit points.
pub open spec fn starting_hp() -> u16 {
    100
}

pub fn default_hp() -> (hp: u16)
    ensures
        hp == starting_hp(),
{
    100
}

impl PlayerToken {
    /// A token at the centre hex, not ready, with no travel in progress.
    pub fn new(user_id: UserId, display_name: &str) -> (t: PlayerToken)
        ensures
            t.user_id == user_id,
            t.display_name@ == display_name@,
            !t.ready,
            t.location is None,
            t.sector is None,
            t.ccc_tens is None,
            t.ccc_units is None,
            t.hex == (HexCoord { q: 0, r: 0 }),
            t.target_hex is None,
            t.move_points == 0,
            t.travel_stage == TurnStage::Idle,
            t.hp == starting_hp(),
            t.rubles == 0,
            t.artifacts == 0,
    {
        PlayerToken {
            user_id,
            display_name: String::from_str(display_name),
            ready: false,
            location: None,
            sector: None,
            ccc_tens: None,
            ccc_units: None,
            hex: HexCoord::zero(),
            target_hex: None,
            move_points: 0,
            travel_stage: TurnStage::Idle,
            hp: default_hp(),
            rubles: 0,
            artifacts: 0,
        }
    }
}

} // verus!
