//! The round of the campaign: exit to the Zone (event tokens), exploration (event
//! cards), and the return to the base.
use vstd::prelude::*;

use crate::clock::{clock_after, clock_can_advance};
use crate::error::DomainError;
use crate::events::{EventCard, EventDeck, EventToken, deck_shuffle_state, event_title, event_wire, unshuffled_deck};
use crate::hex::HexCoord;
use crate::history::uid_text;
use crate::ids::{UserId, uuid_text};
use crate::location::LocationId;
use crate::npc::{npc_id_bits, Npc, NpcKind};
use crate::rng::{GameRng, seeded_roll};
use crate::room::{RoomState, all_resolved, lemma_token_index, token_index};
use crate::round::RoundPhase;
use crate::sector::{sector_hexes, sector_seq};
use crate::shuffle::{lcg_shuffle, swap_at};
use crate::text::{decimal, push_decimal};
use crate::token::{PlayerToken, TurnStage, starting_hp};

verus! {

/// A token at the start of a round: at the Cordon's first sector, centre hex, nothing
/// rolled, exploring; a token with no hit points left is restored to the starting value.
pub open spec fn round_start_token(t: PlayerToken) -> PlayerToken {
    PlayerToken {
        location: Some(LocationId::Cordon),
        sector: Some(1),
        ccc_tens: None,
        ccc_units: None,
        hex: HexCoord { q: 0, r: 0 },
        target_hex: None,
        move_points: 0,
        travel_stage: TurnStage::Idle,
        hp: if t.hp == 0 { starting_hp() } else { t.hp },
        ..t
    }
}

/// The round number a round starts with: at least one.
pub open spec fn round_start_number(n: u32) -> u32 {
    if n < 1 { 1 } else { n }
}

/// A new round begins at the exit-zone phase with no event tokens, no last event, a
/// fresh event deck shuffled from the seed and the round number, and every token back
/// at the start.
pub open spec fn round_begun(s: RoomState, n: RoomState) -> bool {
    let round = round_start_number(s.round_number);
    &&& n == (RoomState {
        round_phase: RoundPhase::ExitZone,
        round_number: round,
        event_tokens: n.event_tokens,
        last_event: None,
        event_deck: n.event_deck,
        tokens: n.tokens,
        ..s
    })
    &&& n.event_tokens@.len() == 0
    &&& n.event_deck.draw@ == lcg_shuffle(unshuffled_deck(), deck_shuffle_state(s.rng_seed ^ (round as u64)))
    &&& n.event_deck.discard@.len() == 0
    &&& n.tokens@ == s.tokens@.map_values(|t: PlayerToken| round_start_token(t))
}

fn reset_for_round(t: &mut PlayerToken)
    ensures
        *final(t) == round_start_token(*old(t)),
{
    t.location = Some(LocationId::Cordon);
    t.sector = Some(1);
    t.ccc_tens = None;
    t.ccc_units = None;
    t.hex = HexCoord::zero();
    t.target_hex = None;
    t.move_points = 0;
    t.travel_stage = TurnStage::Idle;
    if t.hp == 0 {
        t.hp = 100;
    }
}

pub fn begin_playing_round(state: &mut RoomState)
    ensures
        round_begun(*old(state), *final(state)),
{
    state.round_phase = RoundPhase::ExitZone;
    if state.round_number < 1 {
        state.round_number = 1;
    }
    state.event_tokens = Vec::new();
    state.last_event = None;
    state.event_deck = EventDeck::shuffled(state.rng_seed ^ state.round_number as u64);
    let n = state.tokens.len();
    let mut i: usize = 0;
    let ghost before = *state;
    while i < n
        invariant
            n == state.tokens@.len(),
            n == old(state).tokens@.len(),
            i <= n,
            forall|j: int| 0 <= j < i ==> state.tokens@[j] == round_start_token(old(state).tokens@[j]),
            forall|j: int| i <= j < n ==> state.tokens@[j] == old(state).tokens@[j],
            *state == (RoomState { tokens: state.tokens, ..before }),
        decreases n - i,
    {
        reset_for_round(&mut state.tokens[i]);
        i = i + 1;
    }
    assert(state.tokens@ =~= old(state).tokens@.map_values(|t: PlayerToken| round_start_token(t)));
}

/// After the base: four game hours pass (two travel resolutions), the round number
/// goes up by one (saturating) and the next round begins.
pub open spec fn base_finished(s: RoomState, n: RoomState) -> bool {
    let c1 = clock_after(s.game_day, s.game_hour, 2);
    let c2 = clock_after(c1.0, c1.1, 2);
    let round = if s.round_number == u32::MAX { u32::MAX } else { (s.round_number + 1) as u32 };
    round_begun(RoomState { game_day: c2.0, game_hour: c2.1, round_number: round, ..s }, n)
}

pub fn finish_base_and_next_round(state: &mut RoomState)
    requires
        clock_can_advance(old(state).game_day, old(state).game_hour, 2),
        clock_can_advance(
            clock_after(old(state).game_day, old(state).game_hour, 2).0,
            clock_after(old(state).game_day, old(state).game_hour, 2).1,
            2,
        ),
    ensures
        base_finished(*old(state), *final(state)),
{
    state.advance_clock_after_travel_resolution();
    state.advance_clock_after_travel_resolution();
    state.round_number = state.round_number.saturating_add(1);
    begin_playing_round(state);
}

// ---------------------------------------------------------------------------------
// Event tokens

/// Fisher-Yates over the candidate hexes from index `i` down to 1, each step rolling a
/// D20 and a D6 and swapping with index `(d20 + d6) % (i + 1)`; returns the order and
/// the dice record after the shuffle.
pub open spec fn token_shuffle(s: Seq<HexCoord>, seed: u64, earlier: Seq<(u8, u8)>, i: nat) -> (Seq<HexCoord>, Seq<(u8, u8)>)
    decreases i,
{
    if i == 0 {
        (s, earlier)
    } else {
        let a = seeded_roll(seed, earlier, 1, 20);
        let e1 = earlier.push((1u8, 20u8));
        let b = seeded_roll(seed, e1, 1, 6);
        let e2 = e1.push((1u8, 6u8));
        let j = (a + b) % ((i + 1) as int);
        token_shuffle(swap_at(s, i as int, j as int), seed, e2, (i - 1) as nat)
    }
}

/// The sector hexes other than the centre (entry 9), in sector order.
pub open spec fn outer_hexes() -> Seq<HexCoord> {
    sector_seq().take(9) + sector_seq().skip(10)
}

/// How many tokens are placed: the count, clamped to 1..=18.
pub open spec fn token_count(count: u8) -> nat {
    if count < 1 { 1 } else if count > 18 { 18 } else { count as nat }
}

/// Id of the `k`-th token placed from a starting id, saturating at `u32::MAX`.
pub open spec fn token_id_at(start: u32, k: nat) -> u32 {
    if start + k > u32::MAX { u32::MAX } else { (start + k) as u32 }
}

/// Tokens are placed on the first hexes of the shuffled order, unresolved, numbered
/// from the room's next id; the room enters the explore phase.
pub open spec fn tokens_placed(s: RoomState, dice: (u64, Seq<(u8, u8)>), count: u8, n: RoomState, placed: Seq<HexCoord>) -> bool {
    let order = token_shuffle(outer_hexes(), dice.0, dice.1, 17).0;
    let k = token_count(count);
    &&& n == (RoomState {
        event_tokens: n.event_tokens,
        next_event_token_id: token_id_at(s.next_event_token_id, k),
        round_phase: RoundPhase::Explore,
        ..s
    })
    &&& placed == order.take(k as int)
    &&& n.event_tokens@.len() == k
    &&& forall|m: int| 0 <= m < k ==> #[trigger] n.event_tokens@[m] == (EventToken {
        id: token_id_at(s.next_event_token_id, m as nat),
        hex: order[m],
        resolved: false,
    })
}

fn outer_hex_vec() -> (v: Vec<HexCoord>)
    ensures
        v@ == outer_hexes(),
        v@.len() == 18,
{
    let v = vec![
        HexCoord::new(0, -2), HexCoord::new(1, -2), HexCoord::new(2, -2),
        HexCoord::new(-1, -1), HexCoord::new(0, -1), HexCoord::new(1, -1), HexCoord::new(2, -1),
        HexCoord::new(-2, 0), HexCoord::new(-1, 0), HexCoord::new(1, 0), HexCoord::new(2, 0),
        HexCoord::new(-2, 1), HexCoord::new(-1, 1), HexCoord::new(0, 1), HexCoord::new(1, 1),
        HexCoord::new(-2, 2), HexCoord::new(-1, 2), HexCoord::new(0, 2),
    ];
    assert(v@ =~= outer_hexes());
    v
}

/// Places event tokens for the exit-zone phase; never refused.
pub fn place_event_tokens(state: &mut RoomState, rng: &mut GameRng, count: u8) -> (r: Result<Vec<HexCoord>, DomainError>)
    ensures
        r matches Ok(placed) && tokens_placed(*old(state), old(rng)@, count, *final(state), placed@),
        final(rng)@ == (old(rng)@.0, token_shuffle(outer_hexes(), old(rng)@.0, old(rng)@.1, 17).1),
{
    let mut available = outer_hex_vec();
    let mut i: usize = 17;
    let ghost seed = old(rng)@.0;
    while i >= 1
        invariant
            available@.len() == 18,
            i <= 17,
            rng@.0 == seed,
            seed == old(rng)@.0,
            token_shuffle(outer_hexes(), seed, old(rng)@.1, 17) == token_shuffle(available@, seed, rng@.1, i as nat),
        decreases i,
    {
        let a = rng.d20();
        let b = rng.d6();
        let j = (a as usize + b as usize) % (i + 1);
        let x = available[i];
        let y = available[j];
        available.set(i, y);
        available.set(j, x);
        i = i - 1;
    }
    let ghost order = available@;
    let n: usize = if count < 1 { 1 } else if count > 18 { 18 } else { count as usize };
    let mut placed: Vec<HexCoord> = Vec::new();
    state.event_tokens = Vec::new();
    let ghost start = state.next_event_token_id;
    let ghost before = *state;
    let mut k: usize = 0;
    while k < n
        invariant
            k <= n,
            n == token_count(count),
            available@ == order,
            order.len() == 18,
            n <= 18,
            placed@ == order.take(k as int),
            state.event_tokens@.len() == k,
            state.next_event_token_id == token_id_at(start, k as nat),
            forall|m: int| 0 <= m < k ==> #[trigger] state.event_tokens@[m] == (EventToken {
                id: token_id_at(start, m as nat),
                hex: order[m],
                resolved: false,
            }),
            *state == (RoomState { event_tokens: state.event_tokens, next_event_token_id: state.next_event_token_id, ..before }),
        decreases n - k,
    {
        let hex = available[k];
        let id = state.next_event_token_id;
        state.next_event_token_id = state.next_event_token_id.saturating_add(1);
        state.event_tokens.push(EventToken { id, hex, resolved: false });
        placed.push(hex);
        assert(placed@ =~= order.take(k as int + 1));
        k = k + 1;
    }
    state.round_phase = RoundPhase::Explore;
    Ok(placed)
}

/// The id of the first unresolved event token on the user's hex, if any.
pub open spec fn unresolved_here(s: RoomState, user: UserId) -> Option<u32> {
    let i = token_index(s.tokens@, user);
    if i < 0 {
        None
    } else {
        let hex = s.tokens@[i].hex;
        let k = first_unresolved_at(s.event_tokens@, hex, 0);
        if k < 0 { None } else { Some(s.event_tokens@[k].id) }
    }
}

/// Index of the first unresolved token on `hex` at or after `i`, or -1.
pub open spec fn first_unresolved_at(s: Seq<EventToken>, hex: HexCoord, i: nat) -> int
    decreases s.len() - i,
{
    if i >= s.len() {
        -1
    } else if !s[i as int].resolved && s[i as int].hex == hex {
        i as int
    } else {
        first_unresolved_at(s, hex, i + 1)
    }
}

proof fn lemma_first_unresolved_at(s: Seq<EventToken>, hex: HexCoord, i: nat)
    ensures
        first_unresolved_at(s, hex, i) == -1 || (i <= first_unresolved_at(s, hex, i) < s.len()),
    decreases s.len() - i,
{
    if i < s.len() {
        lemma_first_unresolved_at(s, hex, i + 1);
    }
}

pub fn token_on_unresolved_event(state: &RoomState, user_id: UserId) -> (r: Option<u32>)
    ensures
        r == unresolved_here(*state, user_id),
{
    proof {
        lemma_token_index(state.tokens@, user_id);
    }
    let hex = match state.find_token(user_id) {
        Some(t) => t.hex,
        None => {
            return None;
        },
    };
    proof {
        lemma_first_unresolved_at(state.event_tokens@, hex, 0);
    }
    let mut k: usize = 0;
    while k < state.event_tokens.len()
        invariant
            k <= state.event_tokens@.len(),
            token_index(state.tokens@, user_id) >= 0,
            hex == state.tokens@[token_index(state.tokens@, user_id)].hex,
            first_unresolved_at(state.event_tokens@, hex, 0) == first_unresolved_at(state.event_tokens@, hex, k as nat),
        decreases state.event_tokens@.len() - k,
    {
        let t = state.event_tokens[k];
        if !t.resolved && t.hex == hex {
            return Some(t.id);
        }
        k = k + 1;
    }
    None
}

// ---------------------------------------------------------------------------------
// Event cards

/// Index of the first event token with this id at or after `i`, or -1.
pub open spec fn event_index_from(s: Seq<EventToken>, id: u32, i: nat) -> int
    decreases s.len() - i,
{
    if i >= s.len() {
        -1
    } else if s[i as int].id == id {
        i as int
    } else {
        event_index_from(s, id, i + 1)
    }
}

proof fn lemma_event_index_from(s: Seq<EventToken>, id: u32, i: nat)
    ensures
        event_index_from(s, id, i) == -1 || (i <= event_index_from(s, id, i) < s.len()
            && s[event_index_from(s, id, i)].id == id),
    decreases s.len() - i,
{
    if i < s.len() {
        lemma_event_index_from(s, id, i + 1);
    }
}

/// The first token with the id marked resolved (nothing changes when there is none).
pub open spec fn mark_resolved(s: Seq<EventToken>, id: u32) -> Seq<EventToken> {
    let k = event_index_from(s, id, 0);
    if k < 0 { s } else { s.update(k, EventToken { resolved: true, ..s[k] }) }
}

/// Every token marked resolved.
pub open spec fn all_marked(s: Seq<EventToken>) -> Seq<EventToken> {
    s.map_values(|t: EventToken| EventToken { resolved: true, ..t })
}

pub open spec fn sat_add_u32(a: u32, b: int) -> u32 {
    if a + b > u32::MAX { u32::MAX } else { (a + b) as u32 }
}

pub open spec fn sat_add_u8(a: u8, b: int) -> u8 {
    if a + b > u8::MAX { u8::MAX } else { (a + b) as u8 }
}

pub open spec fn sat_sub_u16(a: u16, b: int) -> u16 {
    if a - b < 0 { 0 } else { (a - b) as u16 }
}

pub open spec fn is_loot(c: EventCard) -> bool {
    c == EventCard::Loot || c == EventCard::Corpse || c == EventCard::Chance
}

pub open spec fn is_combat(c: EventCard) -> bool {
    c == EventCard::MutantAttack || c == EventCard::GopStop || c == EventCard::Hunt || c == EventCard::Squad
}

pub open spec fn is_radiation(c: EventCard) -> bool {
    c == EventCard::Radiation || c == EventCard::RadioactiveRain || c == EventCard::PoisonFog
}

pub open spec fn is_hazard(c: EventCard) -> bool {
    c == EventCard::Mine || c == EventCard::Minefield || c == EventCard::Trap || c == EventCard::StrayBullet
}

pub open spec fn is_heal(c: EventCard) -> bool {
    c == EventCard::SwampDoctor || c == EventCard::Campfire || c == EventCard::Miracle || c == EventCard::ClearSky
}

/// How many D6 a card rolls.
pub open spec fn card_dice(c: EventCard) -> nat {
    if is_combat(c) { 2 } else if is_loot(c) || is_radiation(c) || is_hazard(c) || c == EventCard::Anomaly { 1 } else { 0 }
}

/// What a card does to the drawing player's token, given the first and second D6.
pub open spec fn card_token(t: PlayerToken, c: EventCard, d1: u8, d2: u8) -> PlayerToken {
    if c == EventCard::Artifact {
        PlayerToken { artifacts: sat_add_u8(t.artifacts, 1), rubles: sat_add_u32(t.rubles, 500), ..t }
    } else if is_loot(c) {
        PlayerToken { rubles: sat_add_u32(t.rubles, d1 * 100), ..t }
    } else if is_combat(c) {
        if d2 >= d1 {
            PlayerToken { rubles: sat_add_u32(t.rubles, d1 * 50), ..t }
        } else {
            PlayerToken { hp: sat_sub_u16(t.hp, d1 * 3), ..t }
        }
    } else if is_radiation(c) {
        PlayerToken { hp: sat_sub_u16(t.hp, d1 * 2), ..t }
    } else if is_hazard(c) {
        PlayerToken { hp: sat_sub_u16(t.hp, d1 * 4), ..t }
    } else if is_heal(c) {
        PlayerToken { hp: if t.hp + 20 < 120 { (t.hp + 20) as u16 } else { 120 }, ..t }
    } else if c == EventCard::Anomaly {
        if d1 <= 2 {
            PlayerToken { hp: sat_sub_u16(t.hp, 10), ..t }
        } else if d1 >= 5 {
            PlayerToken { artifacts: sat_add_u8(t.artifacts, 1), ..t }
        } else {
            t
        }
    } else {
        t
    }
}

/// The entries a card adds after its heading, given whether the player is seated, the
/// hit points after the card, the round number and the dice.
pub open spec fn card_entries(c: EventCard, u: UserId, seated: bool, after_hp: u16, round: u32, d1: u8, d2: u8) -> Seq<Seq<char>> {
    if c == EventCard::Blowout {
        seq!["blowout:round:"@ + decimal(round as nat)]
    } else if c == EventCard::Artifact {
        seq!["loot_artifact:"@ + uid_text(u)]
    } else if is_loot(c) {
        seq!["loot_rubles:"@ + decimal((d1 * 100) as nat) + ":"@ + uid_text(u)]
    } else if is_combat(c) {
        if !seated {
            Seq::empty()
        } else if d2 >= d1 {
            seq!["combat_win:"@ + uid_text(u) + ":p"@ + decimal(d2 as nat) + ":e"@ + decimal(d1 as nat)]
        } else {
            seq!["combat_loss:"@ + uid_text(u) + ":dmg"@ + decimal((d1 * 3) as nat) + ":hp"@ + decimal(after_hp as nat)]
        }
    } else if is_radiation(c) {
        seq!["radiation:"@ + decimal((d1 * 2) as nat) + ":"@ + uid_text(u)]
    } else if is_hazard(c) {
        seq!["hazard:"@ + decimal((d1 * 4) as nat) + ":"@ + uid_text(u)]
    } else if is_heal(c) {
        seq!["heal:"@ + uid_text(u)]
    } else if c == EventCard::Pilgrim {
        seq!["story:pilgrim_started"@]
    } else if c == EventCard::Anomaly {
        if d1 <= 2 {
            seq!["anomaly_hurt:"@ + decimal(d1 as nat) + ":"@ + uid_text(u)]
        } else if d1 >= 5 {
            seq!["anomaly_find:"@ + decimal(d1 as nat) + ":"@ + uid_text(u)]
        } else {
            seq!["anomaly_pass:"@ + decimal(d1 as nat) + ":"@ + uid_text(u)]
        }
    } else {
        seq!["event_flavor:"@ + event_wire(c) + ":"@ + uid_text(u)]
    }
}

/// The heading entry of a drawn card.
pub open spec fn card_heading(c: EventCard, u: UserId) -> Seq<char> {
    "event:"@ + event_wire(c) + ":"@ + event_title(c) + ":"@ + uid_text(u)
}

/// The precondition of resolving a card: a healing card must not overflow the
/// drawing player's hit points.
pub open spec fn card_resolvable(s: RoomState, user: UserId, c: EventCard) -> bool {
    let i = token_index(s.tokens@, user);
    is_heal(c) && i >= 0 ==> s.tokens@[i].hp + 20 <= u16::MAX
}

/// Resolving a card: the token with the id is resolved (a blowout resolves all of them
/// and sends the room to the base), the card becomes the last event, the drawing
/// player's token takes the card's effect, a mutant attack adds a GM-controlled mutant
/// on the player's hex (its id drawn from the room's dice seed), the Pilgrim card switches to mission 1, and the explore phase
/// ends once no token is left unresolved.
pub open spec fn card_resolved(s: RoomState, dice: (u64, Seq<(u8, u8)>), user: UserId, c: EventCard, token_id: u32, n: RoomState, events: Seq<Seq<char>>) -> bool {
    let d1 = if card_dice(c) >= 1 { seeded_roll(dice.0, dice.1, 1, 6) } else { 1 };
    let d2 = if card_dice(c) >= 2 { seeded_roll(dice.0, dice.1.push((1u8, 6u8)), 1, 6) } else { 1 };
    let i = token_index(s.tokens@, user);
    let seated = i >= 0;
    let marked = mark_resolved(s.event_tokens@, token_id);
    let tokens_after_card = if c == EventCard::Blowout { all_marked(marked) } else { marked };
    let phase_after_card = if c == EventCard::Blowout { RoundPhase::ReturnBase } else { s.round_phase };
    let ends_explore = phase_after_card == RoundPhase::Explore && all_resolved(tokens_after_card);
    let after = if seated { card_token(s.tokens@[i], c, d1, d2) } else { s.tokens@[0] };
    &&& n == (RoomState {
        event_tokens: n.event_tokens,
        last_event: n.last_event,
        round_phase: if ends_explore { RoundPhase::ReturnBase } else { phase_after_card },
        tokens: n.tokens,
        npcs: n.npcs,
        mission_id: if c == EventCard::Pilgrim { 1 } else { s.mission_id },
        ..s
    })
    &&& n.event_tokens@ == tokens_after_card
    &&& n.last_event matches Some(text) && text@ == event_title(c) + " ("@ + event_wire(c) + ")"@
    &&& n.tokens@ == (if seated { s.tokens@.update(i, after) } else { s.tokens@ })
    &&& (c == EventCard::MutantAttack ==> {
        &&& n.npcs@.len() == s.npcs@.len() + 1
        &&& n.npcs@.drop_last() == s.npcs@
        &&& n.npcs@.last().id == npc_id_bits(s.rng_seed, s.npcs@.len() as u64)
        &&& n.npcs@.last().name@ == "Мутант"@
        &&& n.npcs@.last().kind == NpcKind::Mutant
        &&& n.npcs@.last().controlled_by == Some(s.gm_user_id)
        &&& n.npcs@.last().hex == (if seated { s.tokens@[i].hex } else { HexCoord { q: 0, r: 0 } })
        &&& n.npcs@.last().location is None
        &&& n.npcs@.last().sector is None
    })
    &&& (c != EventCard::MutantAttack ==> n.npcs == s.npcs)
    &&& events == seq![card_heading(c, user)] + card_entries(c, user, seated, after.hp, s.round_number, d1, d2)
        + (if ends_explore { seq!["phase:return_base"@] } else { Seq::empty() })
}

/// The dice record after a card: one D6 per die the card rolls.
pub open spec fn card_dice_after(dice: Seq<(u8, u8)>, c: EventCard) -> Seq<(u8, u8)> {
    if card_dice(c) == 2 {
        dice.push((1u8, 6u8)).push((1u8, 6u8))
    } else if card_dice(c) == 1 {
        dice.push((1u8, 6u8))
    } else {
        dice
    }
}

fn text2(a: &str, b: &str) -> (s: String)
    ensures
        s@ == a@ + b@,
{
    let mut s = String::from_str(a);
    s.append(b);
    s
}

fn uid_string(u: UserId) -> (s: String)
    ensures
        s@ == uid_text(u),
{
    uuid_text(u.0)
}

fn num_string(n: u64) -> (s: String)
    ensures
        s@ == decimal(n as nat),
{
    let mut s = String::new();
    push_decimal(&mut s, n);
    assert(s@ =~= decimal(n as nat));
    s
}

fn mark_token_resolved(tokens: &mut Vec<EventToken>, token_id: u32)
    ensures
        final(tokens)@ == mark_resolved(old(tokens)@, token_id),
{
    proof {
        lemma_event_index_from(tokens@, token_id, 0);
    }
    let mut k: usize = 0;
    while k < tokens.len()
        invariant
            k <= tokens@.len(),
            tokens@ == old(tokens)@,
            event_index_from(tokens@, token_id, 0) == event_index_from(tokens@, token_id, k as nat),
        decreases tokens@.len() - k,
    {
        if tokens[k].id == token_id {
            let t = tokens[k];
            tokens.set(k, EventToken { resolved: true, ..t });
            return;
        }
        k = k + 1;
    }
}

fn mark_all_resolved(tokens: &mut Vec<EventToken>)
    ensures
        final(tokens)@ == all_marked(old(tokens)@),
{
    let mut k: usize = 0;
    while k < tokens.len()
        invariant
            k <= tokens@.len(),
            tokens@.len() == old(tokens)@.len(),
            forall|j: int| 0 <= j < k ==> tokens@[j] == (EventToken { resolved: true, ..old(tokens)@[j] }),
            forall|j: int| k <= j < tokens@.len() ==> tokens@[j] == old(tokens)@[j],
        decreases tokens@.len() - k,
    {
        let t = tokens[k];
        tokens.set(k, EventToken { resolved: true, ..t });
        k = k + 1;
    }
    assert(tokens@ =~= all_marked(old(tokens)@));
}

/// The card's effect on the token, rolling the dice the card needs.
fn apply_card_to_token(t: &mut PlayerToken, c: EventCard, d1: u8, d2: u8)
    requires
        1 <= d1 <= 6,
        is_heal(c) ==> old(t).hp + 20 <= u16::MAX,
    ensures
        *final(t) == card_token(*old(t), c, d1, d2),
{
    if c == EventCard::Artifact {
        t.artifacts = t.artifacts.saturating_add(1);
        t.rubles = t.rubles.saturating_add(500);
    } else if is_loot_card(c) {
        t.rubles = t.rubles.saturating_add(d1 as u32 * 100);
    } else if is_combat_card(c) {
        if d2 >= d1 {
            t.rubles = t.rubles.saturating_add(d1 as u32 * 50);
        } else {
            t.hp = t.hp.saturating_sub(d1 as u16 * 3);
        }
    } else if is_radiation_card(c) {
        t.hp = t.hp.saturating_sub(d1 as u16 * 2);
    } else if is_hazard_card(c) {
        t.hp = t.hp.saturating_sub(d1 as u16 * 4);
    } else if is_heal_card(c) {
        let healed = t.hp + 20;
        t.hp = if healed < 120 { healed } else { 120 };
    } else if c == EventCard::Anomaly {
        if d1 <= 2 {
            t.hp = t.hp.saturating_sub(10);
        } else if d1 >= 5 {
            t.artifacts = t.artifacts.saturating_add(1);
        }
    }
}

fn is_loot_card(c: EventCard) -> (b: bool)
    ensures
        b == is_loot(c),
{
    c == EventCard::Loot || c == EventCard::Corpse || c == EventCard::Chance
}

fn is_combat_card(c: EventCard) -> (b: bool)
    ensures
        b == is_combat(c),
{
    c == EventCard::MutantAttack || c == EventCard::GopStop || c == EventCard::Hunt || c == EventCard::Squad
}

fn is_radiation_card(c: EventCard) -> (b: bool)
    ensures
        b == is_radiation(c),
{
    c == EventCard::Radiation || c == EventCard::RadioactiveRain || c == EventCard::PoisonFog
}

fn is_hazard_card(c: EventCard) -> (b: bool)
    ensures
        b == is_hazard(c),
{
    c == EventCard::Mine || c == EventCard::Minefield || c == EventCard::Trap || c == EventCard::StrayBullet
}

fn is_heal_card(c: EventCard) -> (b: bool)
    ensures
        b == is_heal(c),
{
    c == EventCard::SwampDoctor || c == EventCard::Campfire || c == EventCard::Miracle || c == EventCard::ClearSky
}

/// The entries a card adds after its heading.
fn card_entry_texts(c: EventCard, u: UserId, seated: bool, after_hp: u16, round: u32, d1: u8, d2: u8) -> (v: Vec<String>)
    ensures
        crate::history::texts(v@) == card_entries(c, u, seated, after_hp, round, d1, d2),
{
    let mut v: Vec<String> = Vec::new();
    let uid = uid_string(u);
    if c == EventCard::Blowout {
        let mut s = String::from_str("blowout:round:");
        push_decimal(&mut s, round as u64);
        v.push(s);
    } else if c == EventCard::Artifact {
        v.push(text2("loot_artifact:", uid.as_str()));
    } else if is_loot_card(c) {
        let mut s = String::from_str("loot_rubles:");
        push_decimal(&mut s, d1 as u64 * 100);
        s.append(":");
        s.append(uid.as_str());
        v.push(s);
    } else if is_combat_card(c) {
        if seated {
            if d2 >= d1 {
                let mut s = String::from_str("combat_win:");
                s.append(uid.as_str());
                s.append(":p");
                push_decimal(&mut s, d2 as u64);
                s.append(":e");
                push_decimal(&mut s, d1 as u64);
                v.push(s);
            } else {
                let mut s = String::from_str("combat_loss:");
                s.append(uid.as_str());
                s.append(":dmg");
                push_decimal(&mut s, d1 as u64 * 3);
                s.append(":hp");
                push_decimal(&mut s, after_hp as u64);
                v.push(s);
            }
        }
    } else if is_radiation_card(c) {
        let mut s = String::from_str("radiation:");
        push_decimal(&mut s, d1 as u64 * 2);
        s.append(":");
        s.append(uid.as_str());
        v.push(s);
    } else if is_hazard_card(c) {
        let mut s = String::from_str("hazard:");
        push_decimal(&mut s, d1 as u64 * 4);
        s.append(":");
        s.append(uid.as_str());
        v.push(s);
    } else if is_heal_card(c) {
        v.push(text2("heal:", uid.as_str()));
    } else if c == EventCard::Pilgrim {
        v.push(String::from_str("story:pilgrim_started"));
    } else if c == EventCard::Anomaly {
        let head = if d1 <= 2 { "anomaly_hurt:" } else if d1 >= 5 { "anomaly_find:" } else { "anomaly_pass:" };
        let mut s = String::from_str(head);
        push_decimal(&mut s, d1 as u64);
        s.append(":");
        s.append(uid.as_str());
        v.push(s);
    } else {
        let mut s = String::from_str("event_flavor:");
        s.append(c.wire_id());
        s.append(":");
        s.append(uid.as_str());
        v.push(s);
    }
    assert(crate::history::texts(v@) =~= card_entries(c, u, seated, after_hp, round, d1, d2));
    v
}

/// Resolves a drawn event card for a player and returns the entries it produced.
pub fn resolve_event_card(state: &mut RoomState, rng: &mut GameRng, user_id: UserId, card: EventCard, token_id: u32) -> (events: Vec<String>)
    requires
        card_resolvable(*old(state), user_id, card),
    ensures
        card_resolved(*old(state), old(rng)@, user_id, card, token_id, *final(state), crate::history::texts(events@)),
        final(rng)@ == (old(rng)@.0, card_dice_after(old(rng)@.1, card)),
{
    let ghost s0 = *old(state);
    mark_token_resolved(&mut state.event_tokens, token_id);
    let mut last = String::from_str(card.title_ru());
    last.append(" (");
    last.append(card.wire_id());
    last.append(")");
    state.last_event = Some(last);
    let mut events: Vec<String> = Vec::new();
    let mut head = String::from_str("event:");
    head.append(card.wire_id());
    head.append(":");
    head.append(card.title_ru());
    head.append(":");
    let uid = uid_string(user_id);
    head.append(uid.as_str());
    assert(head@ =~= card_heading(card, user_id));
    events.push(head);
    assert(crate::history::texts(events@) =~= seq![card_heading(card, user_id)]);
    let d1: u8 = if card_dice_count(card) >= 1 { rng.d6() } else { 1 };
    let d2: u8 = if card_dice_count(card) >= 2 { rng.d6() } else { 1 };
    proof {
        lemma_token_index(state.tokens@, user_id);
    }
    let seated = state.token_position(user_id).is_some();
    if card == EventCard::Blowout {
        mark_all_resolved(&mut state.event_tokens);
        state.round_phase = RoundPhase::ReturnBase;
    }
    let mut after_hp: u16 = 0;
    let mut at_hex = HexCoord::zero();
    match state.find_token_mut(user_id) {
        Some(p) => {
            apply_card_to_token(p, card, d1, d2);
            after_hp = p.hp;
            at_hex = p.hex;
        },
        None => {},
    }
    if card == EventCard::MutantAttack {
        let npc = Npc::seeded("Мутант", NpcKind::Mutant, state.gm_user_id, at_hex, state.rng_seed, state.npcs.len() as u64);
        state.npcs.push(npc);
        assert(state.npcs@.drop_last() =~= s0.npcs@);
    }
    if card == EventCard::Pilgrim {
        state.mission_id = 1;
    }
    let mut more = card_entry_texts(card, user_id, seated, after_hp, state.round_number, d1, d2);
    let ghost more_texts = crate::history::texts(more@);
    events.append(&mut more);
    assert(crate::history::texts(events@) =~= seq![card_heading(card, user_id)] + more_texts);
    if state.round_phase == RoundPhase::Explore && state.all_event_tokens_resolved() {
        state.round_phase = RoundPhase::ReturnBase;
        let ghost before = events@;
        events.push(String::from_str("phase:return_base"));
        assert(crate::history::texts(events@) =~= crate::history::texts(before) + seq!["phase:return_base"@]);
    } else {
        assert(crate::history::texts(events@) =~= seq![card_heading(card, user_id)] + more_texts + Seq::<Seq<char>>::empty());
    }
    events
}

fn card_dice_count(c: EventCard) -> (n: u8)
    ensures
        n as nat == card_dice(c),
{
    if is_combat_card(c) {
        2
    } else if is_loot_card(c) || is_radiation_card(c) || is_hazard_card(c) || c == EventCard::Anomaly {
        1
    } else {
        0
    }
}

/// A fight (mutant attack, gop-stop, hunt, squad) is settled by two D6: the enemy's
/// (rolled first) and the player's (rolled second). A player who rolls at least as
/// high as the enemy wins, a tie included: the rubles grow by fifty per pip of the
/// enemy's roll (saturating) and the hit points stay. Only a strictly lower roll
/// loses: three hit points per pip of the enemy's roll (down to zero), rubles kept.
pub proof fn lemma_combat_tie_goes_to_player(
    s: RoomState,
    dice: (u64, Seq<(u8, u8)>),
    user: UserId,
    c: EventCard,
    token_id: u32,
    n: RoomState,
    events: Seq<Seq<char>>,
)
    requires
        c == EventCard::MutantAttack || c == EventCard::GopStop || c == EventCard::Hunt || c == EventCard::Squad,
        card_resolved(s, dice, user, c, token_id, n, events),
        token_index(s.tokens@, user) >= 0,
    ensures
        ({
            let i = token_index(s.tokens@, user);
            let enemy = seeded_roll(dice.0, dice.1, 1, 6);
            let player = seeded_roll(dice.0, dice.1.push((1u8, 6u8)), 1, 6);
            let before = s.tokens@[i];
            let after = n.tokens@[i];
            &&& player >= enemy ==> {
                &&& after.hp == before.hp
                &&& after.rubles as int == (if before.rubles + 50 * enemy > 0xFFFF_FFFF { 0xFFFF_FFFF } else { before.rubles + 50 * enemy })
            }
            &&& player < enemy ==> {
                &&& after.rubles == before.rubles
                &&& after.hp as int == (if before.hp >= 3 * enemy { before.hp - 3 * enemy } else { 0 })
            }
        }),
{
    lemma_token_index(s.tokens@, user);
}

/// Whatever a token held, a new round puts it back at the start: location Cordon,
/// sector 1, the centre hex, nothing rolled or targeted, idle; a stalker with no hit
/// points gets 100 again, every other hit point, ruble and artifact stays. The round
/// opens at the exit-zone phase, numbered at least 1, with no event tokens and no
/// last event.
pub proof fn lemma_round_start_resets_tokens(s: RoomState, n: RoomState, i: int)
    requires
        round_begun(s, n),
        0 <= i < s.tokens@.len(),
    ensures
        n.round_phase == RoundPhase::ExitZone,
        n.round_number == (if s.round_number == 0 { 1 } else { s.round_number }),
        n.event_tokens@.len() == 0,
        n.last_event is None,
        n.tokens@[i].hp == (if s.tokens@[i].hp == 0 { 100 } else { s.tokens@[i].hp }),
        n.tokens@[i].rubles == s.tokens@[i].rubles,
        n.tokens@[i].artifacts == s.tokens@[i].artifacts,
        n.tokens@[i].ready == s.tokens@[i].ready,
        n.tokens@.len() == s.tokens@.len(),
        n.tokens@[i].location == Some(LocationId::Cordon),
        n.tokens@[i].sector == Some(1u8),
        n.tokens@[i].hex == (HexCoord { q: 0, r: 0 }),
        n.tokens@[i].target_hex is None,
        n.tokens@[i].ccc_tens is None,
        n.tokens@[i].ccc_units is None,
        n.tokens@[i].move_points == 0,
        n.tokens@[i].travel_stage == TurnStage::Idle,
        n.tokens@[i].user_id == s.tokens@[i].user_id,
{
    assert(n.tokens@[i] == round_start_token(s.tokens@[i]));
}

/// What each card does to the drawing player, by the card's die (the first D6):
/// an artifact adds one artifact and 500 rubles; loot, a corpse or a chance adds 100
/// rubles per pip; radiation, radioactive rain or poison fog takes two hit points per
/// pip, a mine, minefield, trap or stray bullet four; the swamp doctor, a campfire, a
/// miracle or clear sky heal 20 up to 120; an anomaly hurts 10 on one or two, gives an
/// artifact on five or six and does nothing otherwise; every other card but a fight
/// leaves the player as it was. Gains saturate and losses stop at zero; position and
/// identity never change.
pub proof fn lemma_card_effects(
    s: RoomState,
    dice: (u64, Seq<(u8, u8)>),
    user: UserId,
    c: EventCard,
    token_id: u32,
    n: RoomState,
    events: Seq<Seq<char>>,
)
    requires
        card_resolved(s, dice, user, c, token_id, n, events),
        token_index(s.tokens@, user) >= 0,
    ensures
        ({
            let i = token_index(s.tokens@, user);
            let d = seeded_roll(dice.0, dice.1, 1, 6) as int;
            let b = s.tokens@[i];
            let a = n.tokens@[i];
            let rubles_plus = |x: int| if b.rubles + x > 0xFFFF_FFFF { 0xFFFF_FFFF } else { b.rubles + x };
            let hp_minus = |x: int| if b.hp >= x { b.hp - x } else { 0 };
            let one_more_artifact = if b.artifacts == 0xFF { 0xFF } else { b.artifacts + 1 };
            &&& a.user_id == b.user_id && a.hex == b.hex && a.location == b.location && a.ready == b.ready
            &&& c == EventCard::Artifact ==> a.artifacts == one_more_artifact && a.rubles == rubles_plus(500) && a.hp == b.hp
            &&& (c == EventCard::Loot || c == EventCard::Corpse || c == EventCard::Chance)
                ==> a.rubles == rubles_plus(100 * d) && a.hp == b.hp && a.artifacts == b.artifacts
            &&& (c == EventCard::Radiation || c == EventCard::RadioactiveRain || c == EventCard::PoisonFog)
                ==> a.hp == hp_minus(2 * d) && a.rubles == b.rubles && a.artifacts == b.artifacts
            &&& (c == EventCard::Mine || c == EventCard::Minefield || c == EventCard::Trap || c == EventCard::StrayBullet)
                ==> a.hp == hp_minus(4 * d) && a.rubles == b.rubles && a.artifacts == b.artifacts
            &&& (c == EventCard::SwampDoctor || c == EventCard::Campfire || c == EventCard::Miracle || c == EventCard::ClearSky)
                ==> a.hp == (if b.hp + 20 > 120 { 120 } else { b.hp + 20 }) && a.rubles == b.rubles && a.artifacts == b.artifacts
            &&& c == EventCard::Anomaly ==> {
                &&& d <= 2 ==> a.hp == hp_minus(10) && a.artifacts == b.artifacts
                &&& d >= 5 ==> a.artifacts == one_more_artifact && a.hp == b.hp
                &&& 3 <= d <= 4 ==> a == b
                &&& a.rubles == b.rubles
            }
            &&& !(c == EventCard::Artifact || c == EventCard::Loot || c == EventCard::Corpse || c == EventCard::Chance
                || c == EventCard::Radiation || c == EventCard::RadioactiveRain || c == EventCard::PoisonFog
                || c == EventCard::Mine || c == EventCard::Minefield || c == EventCard::Trap || c == EventCard::StrayBullet
                || c == EventCard::SwampDoctor || c == EventCard::Campfire || c == EventCard::Miracle || c == EventCard::ClearSky
                || c == EventCard::Anomaly || c == EventCard::MutantAttack || c == EventCard::GopStop || c == EventCard::Hunt
                || c == EventCard::Squad) ==> a == b
        }),
{
    lemma_token_index(s.tokens@, user);
}

} // verus!
