//! Round phases of the campaign while a room is playing.
use vstd::prelude::*;

verus! {

/// In-match round phase.
#[derive(Debug, Clone, Copy, PartialEq, Eq, Structural, Hash)]
pub enum RoundPhase {
    /// Phase I: roll a D20 for the number of event tokens.
    ExitZone,
    /// Phase II: move with a D6 and draw event cards.
    Explore,
    /// Phase III: back at the base, then the next round.
    ReturnBase,
}

pub open spec fn round_phase_wire_id(p: RoundPhase) -> Seq<char> {
    match p {
        RoundPhase::ExitZone => "exit_zone"@,
        RoundPhase::Explore => "explore"@,
        RoundPhase::ReturnBase => "return_base"@,
    }
}

pub open spec fn round_phase_label(p: RoundPhase) -> Seq<char> {
    match p {
        RoundPhase::ExitZone => "Выход в Зону"@,
        RoundPhase::Explore => "Розыгрыш событий"@,
        RoundPhase::ReturnBase => "База"@,
    }
}

impl RoundPhase {
    /// A playing room starts its round at `ExitZone`.
    pub fn default_phase() -> (p: RoundPhase)
        ensures
            p == RoundPhase::ExitZone,
    {
        RoundPhase::ExitZone
    }

    pub fn wire_id(self) -> (s: &'static str)
        ensures
            s@ == round_phase_wire_id(self),
    {
        match self {
            RoundPhase::ExitZone => "exit_zone",
            RoundPhase::Explore => "explore",
            RoundPhase::ReturnBase => "return_base",
        }
    }

    pub fn label_ru(self) -> (s: &'static str)
        ensures
            s@ == round_phase_label(self),
    {
        match self {
            RoundPhase::ExitZone => "Выход в Зону",
            RoundPhase::Explore => "Розыгрыш событий",
            RoundPhase::ReturnBase => "База",
        }
    }
}

} // verus!
