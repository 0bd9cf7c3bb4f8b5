//! The authoritative state of one room: lobby seats, campaign progress and history.
use vstd::prelude::*;

use crate::ccc::CccDeck;
use crate::events::{EventDeck, EventToken};
use crate::ids::{RoomId, UserId};
use crate::lobby::{LOBBY_MAX_PLAYERS, LOBBY_MIN_PLAYERS, RoomPhase};
use crate::npc::Npc;
use crate::round::RoundPhase;
use crate::token::PlayerToken;

verus! {

#[derive(Debug, Clone, PartialEq, Eq)]
pub struct RoomState {
    pub room_id: RoomId,
    pub code: String,
    pub gm_user_id: UserId,
    pub phase: RoomPhase,
    pub mission_id: u8,
    pub tokens: Vec<PlayerToken>,
    pub active_user_id: Option<UserId>,
    pub history: Vec<String>,
    /// Seed of the deterministic dice, kept for replay.
    pub rng_seed: u64,
    pub min_players: u8,
    pub max_players: u8,
    pub game_day: u32,
    pub game_hour: u8,
    pub play_started_unix: Option<i64>,
    pub ccc_deck: CccDeck,
    pub npcs: Vec<Npc>,
    pub round_phase: RoundPhase,
    pub round_number: u32,
    pub event_tokens: Vec<EventToken>,
    pub last_event: Option<String>,
    pub event_deck: EventDeck,
    pub next_event_token_id: u32,
}

/// Index of the first token of `user` at or after `i`, or -1.
pub open spec fn index_from(s: Seq<PlayerToken>, user: UserId, i: nat) -> int
    decreases s.len() - i,
{
    if i >= s.len() {
        -1
    } else if s[i as int].user_id == user {
        i as int
    } else {
        index_from(s, user, i + 1)
    }
}

/// Index of the first token of `user`, or -1 when the user holds no seat.
pub open spec fn token_index(s: Seq<PlayerToken>, user: UserId) -> int {
    index_from(s, user, 0)
}

/// Whether the user holds a seat.
pub open spec fn seated(s: Seq<PlayerToken>, user: UserId) -> bool {
    exists|i: int| 0 <= i < s.len() && s[i].user_id == user
}

pub proof fn lemma_index_from(s: Seq<PlayerToken>, user: UserId, i: nat)
    ensures
        ({
            let r = index_from(s, user, i);
            &&& r == -1 || (i <= r < s.len() && s[r].user_id == user)
            &&& r == -1 ==> forall|j: int| i <= j < s.len() ==> s[j].user_id != user
            &&& r >= 0 ==> forall|j: int| i <= j < r ==> s[j].user_id != user
        }),
    decreases s.len() - i,
{
    if i < s.len() && s[i as int].user_id != user {
        lemma_index_from(s, user, i + 1);
    }
}

/// The first-seat index is a seat of the user, before which the user holds none.
pub proof fn lemma_token_index(s: Seq<PlayerToken>, user: UserId)
    ensures
        seated(s, user) <==> token_index(s, user) >= 0,
        token_index(s, user) >= 0 ==> {
            &&& token_index(s, user) < s.len()
            &&& s[token_index(s, user)].user_id == user
        },
        token_index(s, user) < 0 ==> token_index(s, user) == -1,
        forall|j: int| 0 <= j < token_index(s, user) ==> s[j].user_id != user,
{
    lemma_index_from(s, user, 0);
}

/// Two token sequences with the same user at every seat.
pub open spec fn same_seats(a: Seq<PlayerToken>, b: Seq<PlayerToken>) -> bool {
    a.len() == b.len() && forall|i: int| 0 <= i < a.len() ==> a[i].user_id == b[i].user_id
}

proof fn lemma_same_seats_from(a: Seq<PlayerToken>, b: Seq<PlayerToken>, user: UserId, i: nat)
    requires
        same_seats(a, b),
    ensures
        index_from(a, user, i) == index_from(b, user, i),
    decreases a.len() - i,
{
    if i < a.len() {
        lemma_same_seats_from(a, b, user, i + 1);
    }
}

/// Seat lookups only depend on who sits where.
pub proof fn lemma_same_seats(a: Seq<PlayerToken>, b: Seq<PlayerToken>, user: UserId)
    requires
        same_seats(a, b),
    ensures
        token_index(a, user) == token_index(b, user),
{
    lemma_same_seats_from(a, b, user, 0);
}

/// Every token is ready (and there is at least one).
pub open spec fn all_tokens_ready(s: Seq<PlayerToken>) -> bool {
    s.len() > 0 && forall|i: int| 0 <= i < s.len() ==> s[i].ready
}

/// The lobby can start: still in the lobby, seats within bounds, everyone ready.
pub open spec fn room_can_start(r: RoomState) -> bool {
    &&& r.phase == RoomPhase::Lobby
    &&& (r.tokens@.len() as u8) >= r.min_players
    &&& (r.tokens@.len() as u8) <= r.max_players
    &&& all_tokens_ready(r.tokens@)
}

/// Whether every event token on the sector is resolved.
pub open spec fn all_resolved(s: Seq<EventToken>) -> bool {
    forall|i: int| 0 <= i < s.len() ==> s[i].resolved
}

impl RoomState {
    /// A new room in the lobby with the GM seated, active, and nothing played yet.
    pub fn new(room_id: RoomId, code: String, gm: PlayerToken, rng_seed: u64) -> (s: RoomState)
        ensures
            s.room_id == room_id,
            s.code == code,
            s.gm_user_id == gm.user_id,
            s.phase == RoomPhase::Lobby,
            s.mission_id == 1,
            s.tokens@ == seq![gm],
            s.active_user_id == Some(gm.user_id),
            s.history@.len() == 0,
            s.rng_seed == rng_seed,
            s.min_players == LOBBY_MIN_PLAYERS,
            s.max_players == LOBBY_MAX_PLAYERS,
            s.game_day == 1,
            s.game_hour == 0,
            s.play_started_unix is None,
            s.ccc_deck.complete(),
            s.npcs@.len() == 0,
            s.round_phase == RoundPhase::ExitZone,
            s.round_number == 0,
            s.event_tokens@.len() == 0,
            s.last_event is None,
            s.event_deck.draw@.len() == 0,
            s.event_deck.discard@.len() == 0,
            s.next_event_token_id == 0,
    {
        let gm_user_id = gm.user_id;
        let mut tokens: Vec<PlayerToken> = Vec::new();
        tokens.push(gm);
        assert(tokens@ =~= seq![gm]);
        RoomState {
            room_id,
            code,
            gm_user_id,
            phase: RoomPhase::Lobby,
            mission_id: 1,
            tokens,
            active_user_id: Some(gm_user_id),
            history: Vec::new(),
            rng_seed,
            min_players: LOBBY_MIN_PLAYERS,
            max_players: LOBBY_MAX_PLAYERS,
            game_day: 1,
            game_hour: 0,
            play_started_unix: None,
            ccc_deck: CccDeck::default(),
            npcs: Vec::new(),
            round_phase: RoundPhase::ExitZone,
            round_number: 0,
            event_tokens: Vec::new(),
            last_event: None,
            event_deck: EventDeck::default(),
            next_event_token_id: 0,
        }
    }

    /// Seats taken, as a `u8` (the count wraps past 255).
    pub fn player_count(&self) -> (n: u8)
        ensures
            n == self.tokens@.len() as u8,
    {
        self.tokens.len() as u8
    }

    pub fn is_full(&self) -> (b: bool)
        ensures
            b == ((self.tokens@.len() as u8) >= self.max_players),
    {
        self.player_count() >= self.max_players
    }

    pub fn all_ready(&self) -> (b: bool)
        ensures
            b == all_tokens_ready(self.tokens@),
    {
        if self.tokens.len() == 0 {
            return false;
        }
        let mut i: usize = 0;
        while i < self.tokens.len()
            invariant
                i <= self.tokens@.len(),
                forall|j: int| 0 <= j < i ==> self.tokens@[j].ready,
            decreases self.tokens@.len() - i,
        {
            if !self.tokens[i].ready {
                return false;
            }
            i = i + 1;
        }
        true
    }

    pub fn can_start(&self) -> (b: bool)
        ensures
            b == room_can_start(*self),
    {
        self.phase == RoomPhase::Lobby && self.player_count() >= self.min_players
            && self.player_count() <= self.max_players && self.all_ready()
    }

    /// Index of the user's seat, if any.
    pub fn token_position(&self, user_id: UserId) -> (r: Option<usize>)
        ensures
            token_index(self.tokens@, user_id) < 0 ==> r is None,
            token_index(self.tokens@, user_id) >= 0 ==> r == Some(
                token_index(self.tokens@, user_id) as usize,
            ),
            r matches Some(i) ==> i < self.tokens@.len() && self.tokens@[i as int].user_id
                == user_id,
    {
        proof {
            lemma_token_index(self.tokens@, user_id);
        }
        let mut i: usize = 0;
        while i < self.tokens.len()
            invariant
                i <= self.tokens@.len(),
                index_from(self.tokens@, user_id, 0) == index_from(self.tokens@, user_id, i as nat),
            decreases self.tokens@.len() - i,
        {
            if self.tokens[i].user_id == user_id {
                return Some(i);
            }
            i = i + 1;
        }
        None
    }

    /// The user's token, if seated.
    pub fn find_token(&self, user_id: UserId) -> (r: Option<&PlayerToken>)
        ensures
            token_index(self.tokens@, user_id) < 0 ==> r is None,
            token_index(self.tokens@, user_id) >= 0 ==> r is Some,
            r matches Some(t) ==> *t == self.tokens@[token_index(self.tokens@, user_id)],
    {
        proof {
            lemma_token_index(self.tokens@, user_id);
        }
        match self.token_position(user_id) {
            Some(i) => Some(&self.tokens[i]),
            None => None,
        }
    }

    /// The user's token for update in place, if seated.
    pub fn find_token_mut(&mut self, user_id: UserId) -> (r: Option<&mut PlayerToken>)
        ensures
            token_index(old(self).tokens@, user_id) < 0 ==> r is None && *final(self) == *old(self),
            token_index(old(self).tokens@, user_id) >= 0 ==> r is Some,
            r matches Some(t) ==> {
                let i = token_index(old(self).tokens@, user_id);
                &&& *t == old(self).tokens@[i]
                &&& final(self).tokens@ == old(self).tokens@.update(i, *final(t))
                &&& *final(self) == (RoomState { tokens: final(self).tokens, ..*old(self) })
            },
    {
        proof {
            lemma_token_index(self.tokens@, user_id);
        }
        match self.token_position(user_id) {
            Some(i) => Some(&mut self.tokens[i]),
            None => None,
        }
    }

    /// Whether every event token is resolved.
    pub fn all_event_tokens_resolved(&self) -> (b: bool)
        ensures
            b == all_resolved(self.event_tokens@),
    {
        let mut i: usize = 0;
        while i < self.event_tokens.len()
            invariant
                i <= self.event_tokens@.len(),
                forall|j: int| 0 <= j < i ==> self.event_tokens@[j].resolved,
            decreases self.event_tokens@.len() - i,
        {
            if !self.event_tokens[i].resolved {
                return false;
            }
            i = i + 1;
        }
        true
    }

    /// Two more game hours on the room clock.
    pub fn advance_clock_after_travel_resolution(&mut self)
        requires
            crate::clock::clock_can_advance(old(self).game_day, old(self).game_hour, 2),
        ensures
            (final(self).game_day, final(self).game_hour) == crate::clock::clock_after(
                old(self).game_day,
                old(self).game_hour,
                2,
            ),
            *final(self) == (RoomState { game_day: final(self).game_day, game_hour: final(self).game_hour, ..*old(self) }),
    {
        let mut clock = crate::clock::GameClock {
            game_day: self.game_day,
            game_hour: self.game_hour,
            play_started_unix: None,
        };
        clock.advance_after_travel_resolution();
        self.game_day = clock.game_day;
        self.game_hour = clock.game_hour;
    }
}

} // verus!
