//! What a member can ask the rules engine to do.
use vstd::prelude::*;

use crate::hex::HexCoord;
use crate::npc::NpcKind;

verus! {

#[derive(Debug, Clone, PartialEq, Eq)]
pub enum Action {
    /// Set the ready flag while in the lobby.
    SetReady { ready: bool },
    /// The GM starts the match once the lobby has four or five ready players.
    StartGame,
    StartMission { mission_id: u8 },
    /// Phase I: D20 for event tokens on the field.
    RollExitZone,
    /// Phase II: D6 movement points towards event tokens.
    RollExploreD6,
    /// Phase II: draw the event card on one's own hex.
    DrawEvent,
    /// Phase II to III: go back to the base.
    ReturnToBase,
    /// Phase III: leave the base for the next round.
    FinishBase,
    /// Mission targeting: D20 location, CCC sector, D20 hex, D6 movement.
    RollD20Location,
    DrawCcc,
    RollD20Hex,
    RollD6Move,
    MoveToken { to: HexCoord },
    SpawnNpc { name: String, kind: NpcKind },
    Chat { text: String },
}

/// An action as the rules see it, with its text as characters.
pub enum ActionModel {
    SetReady { ready: bool },
    StartGame,
    StartMission { mission_id: u8 },
    RollExitZone,
    RollExploreD6,
    DrawEvent,
    ReturnToBase,
    FinishBase,
    RollD20Location,
    DrawCcc,
    RollD20Hex,
    RollD6Move,
    MoveToken { to: HexCoord },
    SpawnNpc { name: Seq<char>, kind: NpcKind },
    Chat { text: Seq<char> },
}

impl View for Action {
    type V = ActionModel;

    open spec fn view(&self) -> ActionModel {
        match self {
            Action::SetReady { ready } => ActionModel::SetReady { ready: *ready },
            Action::StartGame => ActionModel::StartGame,
            Action::StartMission { mission_id } => ActionModel::StartMission { mission_id: *mission_id },
            Action::RollExitZone => ActionModel::RollExitZone,
            Action::RollExploreD6 => ActionModel::RollExploreD6,
            Action::DrawEvent => ActionModel::DrawEvent,
            Action::ReturnToBase => ActionModel::ReturnToBase,
            Action::FinishBase => ActionModel::FinishBase,
            Action::RollD20Location => ActionModel::RollD20Location,
            Action::DrawCcc => ActionModel::DrawCcc,
            Action::RollD20Hex => ActionModel::RollD20Hex,
            Action::RollD6Move => ActionModel::RollD6Move,
            Action::MoveToken { to } => ActionModel::MoveToken { to: *to },
            Action::SpawnNpc { name, kind } => ActionModel::SpawnNpc { name: name@, kind: *kind },
            Action::Chat { text } => ActionModel::Chat { text: text@ },
        }
    }
}

} // verus!
