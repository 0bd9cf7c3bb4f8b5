//! Why a rule refused an action.
use vstd::prelude::*;

use crate::text::{decimal, push_decimal};

verus! {

#[derive(Debug, Clone, PartialEq, Eq)]
pub enum DomainError {
    IllegalMove { distance: u32, points: u8 },
    IllegalStage { expected: &'static str, got: &'static str },
    NotActivePlayer,
    UnknownPlayer,
    Forbidden(&'static str),
    InvalidDice(u8),
    InvalidCcc,
    InvalidMissionId(u8),
    LobbyFull { max: u8 },
    LobbySize { min: u8, max: u8, have: u8 },
    LobbyNotReady,
    AlreadyPlaying,
    StillInLobby,
    WrongRoundPhase { expected: &'static str, got: &'static str },
    NoEventTokenHere,
    NoEventTokens,
}

/// The text a refusal is shown with.
pub open spec fn domain_message(e: DomainError) -> Seq<char> {
    match e {
        DomainError::IllegalMove { distance, points } => "illegal move: distance "@ + decimal(distance as nat)
            + " exceeds move points "@ + decimal(points as nat),
        DomainError::IllegalStage { expected, got } => "illegal stage action: expected "@ + expected@ + ", got "@ + got@,
        DomainError::NotActivePlayer => "not active player"@,
        DomainError::UnknownPlayer => "unknown player"@,
        DomainError::Forbidden(why) => "forbidden: "@ + why@,
        DomainError::InvalidDice(v) => "invalid dice value: "@ + decimal(v as nat),
        DomainError::InvalidCcc => "invalid CCC combination"@,
        DomainError::InvalidMissionId(id) => "invalid mission id: "@ + decimal(id as nat),
        DomainError::LobbyFull { max } => "lobby full (max "@ + decimal(max as nat) + " players)"@,
        DomainError::LobbySize { min, max, have } => "need "@ + decimal(min as nat) + "..="@ + decimal(max as nat)
            + " players to start, have "@ + decimal(have as nat),
        DomainError::LobbyNotReady => "not all players are ready"@,
        DomainError::AlreadyPlaying => "game already started"@,
        DomainError::StillInLobby => "still in lobby"@,
        DomainError::WrongRoundPhase { expected, got } => "wrong round phase: expected "@ + expected@ + ", got "@ + got@,
        DomainError::NoEventTokenHere => "no event token here"@,
        DomainError::NoEventTokens => "no unresolved event tokens"@,
    }
}

fn text_with_number(prefix: &str, n: u64, suffix: &str) -> (s: String)
    ensures
        s@ == prefix@ + decimal(n as nat) + suffix@,
{
    let mut s = String::from_str(prefix);
    push_decimal(&mut s, n);
    s.append(suffix);
    s
}

fn text_with_two(prefix: &str, a: &str, middle: &str, b: &str) -> (s: String)
    ensures
        s@ == prefix@ + a@ + middle@ + b@,
{
    let mut s = String::from_str(prefix);
    s.append(a);
    s.append(middle);
    s.append(b);
    assert(s@ =~= prefix@ + a@ + middle@ + b@);
    s
}

fn illegal_move_text(distance: u64, points: u64) -> (s: String)
    ensures
        s@ == "illegal move: distance "@ + decimal(distance as nat) + " exceeds move points "@ + decimal(points as nat),
{
    let mut s = text_with_number("illegal move: distance ", distance, " exceeds move points ");
    push_decimal(&mut s, points);
    s
}

impl DomainError {
    /// The refusal as text.
    pub fn message(&self) -> (s: String)
        ensures
            s@ == domain_message(*self),
    {
        proof {
            reveal_strlit("");
        }
        match self {
            DomainError::IllegalMove { distance, points } => {
                let d: u64 = *distance as u64;
                let p: u64 = *points as u64;
                illegal_move_text(d, p)
            },
            DomainError::IllegalStage { expected, got } => text_with_two("illegal stage action: expected ", expected, ", got ", got),
            DomainError::NotActivePlayer => String::from_str("not active player"),
            DomainError::UnknownPlayer => String::from_str("unknown player"),
            DomainError::Forbidden(why) => text_with_two("forbidden: ", why, "", ""),
            DomainError::InvalidDice(v) => text_with_number("invalid dice value: ", *v as u64, ""),
            DomainError::InvalidCcc => String::from_str("invalid CCC combination"),
            DomainError::InvalidMissionId(id) => text_with_number("invalid mission id: ", *id as u64, ""),
            DomainError::LobbyFull { max } => text_with_number("lobby full (max ", *max as u64, " players)"),
            DomainError::LobbySize { min, max, have } => {
                let mut s = text_with_number("need ", *min as u64, "..=");
                push_decimal(&mut s, *max as u64);
                s.append(" players to start, have ");
                push_decimal(&mut s, *have as u64);
                s
            },
            DomainError::LobbyNotReady => String::from_str("not all players are ready"),
            DomainError::AlreadyPlaying => String::from_str("game already started"),
            DomainError::StillInLobby => String::from_str("still in lobby"),
            DomainError::WrongRoundPhase { expected, got } => text_with_two("wrong round phase: expected ", expected, ", got ", got),
            DomainError::NoEventTokenHere => String::from_str("no event token here"),
            DomainError::NoEventTokens => String::from_str("no unresolved event tokens"),
        }
    }
}

} // verus!
