//! A player's tablet: the token's travel state next to the mission it serves.
use vstd::prelude::*;

use crate::hex::HexCoord;
use crate::location::{LocationId, location_name};
use crate::mission::MissionDef;
use crate::text::{take_chars, truncated};
use crate::token::{PlayerToken, TurnStage};

verus! {

#[derive(Debug, Clone, PartialEq, Eq)]
pub struct PlayerTablet {
    pub callsign: String,
    pub display_name: String,
    pub mission_id: u8,
    pub mission_title: String,
    pub mission_objective: String,
    pub location: Option<LocationId>,
    pub location_name: Option<String>,
    pub sector: Option<u8>,
    pub ccc_tens: Option<u8>,
    pub ccc_units: Option<u8>,
    pub current_hex: HexCoord,
    pub target_hex: Option<HexCoord>,
    pub move_points: u8,
    pub travel_stage: TurnStage,
    pub notes: String,
}

impl PlayerTablet {
    /// The tablet of a token under a mission; the call sign is the display name and
    /// the notes keep their first 240 characters.
    pub fn from_token(token: &PlayerToken, mission: &MissionDef, notes: &str) -> (t: PlayerTablet)
        ensures
            t.callsign@ == token.display_name@,
            t.display_name@ == token.display_name@,
            t.mission_id == mission.id,
            t.mission_title@ == mission.title@,
            t.mission_objective@ == mission.objective@,
            t.location == token.location,
            token.location is None ==> t.location_name is None,
            token.location matches Some(l) ==> (t.location_name matches Some(n) && n@ == location_name(l)),
            t.sector == token.sector,
            t.ccc_tens == token.ccc_tens,
            t.ccc_units == token.ccc_units,
            t.current_hex == token.hex,
            t.target_hex == token.target_hex,
            t.move_points == token.move_points,
            t.travel_stage == token.travel_stage,
            t.notes@ == take_chars(notes@, 240),
    {
        let display_name = token.display_name.clone();
        let location_name = match token.location {
            Some(l) => Some(String::from_str(l.name_ru())),
            None => None,
        };
        PlayerTablet {
            callsign: display_name.clone(),
            display_name,
            mission_id: mission.id,
            mission_title: String::from_str(mission.title),
            mission_objective: String::from_str(mission.objective),
            location: token.location,
            location_name,
            sector: token.sector,
            ccc_tens: token.ccc_tens,
            ccc_units: token.ccc_units,
            current_hex: token.hex,
            target_hex: token.target_hex,
            move_points: token.move_points,
            travel_stage: token.travel_stage,
            notes: truncated(notes, 240),
        }
    }
}

} // verus!
