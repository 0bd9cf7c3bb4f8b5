use nnk::ccc::CccDeck;
use nnk::clock::GameClock;
use nnk::events::{EventCard, EventDeck};
use nnk::hex::HexCoord;
use nnk::ids::{RoomId, UserId};
use nnk::lobby::{RoomPhase, LOBBY_MAX_PLAYERS, LOBBY_MIN_PLAYERS};
use nnk::location::{CccDraw, LocationId};
use nnk::mission::MissionDef;
use nnk::npc::{Npc, NpcKind};
use nnk::room::RoomState;
use nnk::round::RoundPhase;
use nnk::sector::{hex_from_d20, sector_hexes};
use nnk::tablet::PlayerTablet;
use nnk::token::{PlayerToken, TurnStage};

#[test]
fn deck_contains_real_ccc_cards() {
    let deck = CccDeck::shuffled(42);
    let mut tens = deck.tens.clone();
    let mut units = deck.units.clone();
    tens.sort_unstable();
    units.sort_unstable();
    assert_eq!(tens, [0u8, 10, 20, 30, 40, 50, 60, 70, 80, 90]);
    assert_eq!(units, [0u8, 1, 2, 3, 4, 5, 6, 7, 8, 9]);
}

#[test]
fn draws_consume_and_discard_cards() {
    let mut deck = CccDeck::shuffled(1);
    let tens_len = deck.tens.len();
    let units_len = deck.units.len();
    let draw = deck.draw_ccc().unwrap();
    assert_eq!(deck.tens.len(), tens_len - 1);
    assert_eq!(deck.units.len(), units_len - 1);
    assert_eq!(deck.tens_discard, vec![draw.tens]);
    assert_eq!(deck.units_discard, vec![draw.units]);
    assert!((1..=100).contains(&draw.sector));
}

#[test]
fn reshuffles_discard_when_empty() {
    let mut deck = CccDeck::shuffled(5);
    for _ in 0..10 {
        let _ = deck.draw_ccc().unwrap();
    }
    assert!(deck.tens.is_empty());
    assert!(deck.units.is_empty());
    assert_eq!(deck.tens_discard.len(), 10);
    assert_eq!(deck.units_discard.len(), 10);

    let _ = deck.draw_ccc().unwrap();

    assert_eq!(deck.tens.len(), 9);
    assert_eq!(deck.units.len(), 9);
    assert_eq!(deck.tens_discard.len(), 1);
    assert_eq!(deck.units_discard.len(), 1);
}

#[test]
fn starts_at_day_one_midnight() {
    let clock = GameClock::default();
    assert_eq!(clock.game_day, 1);
    assert_eq!(clock.game_hour, 0);
    assert_eq!(clock.play_started_unix, None);
}

#[test]
fn advances_across_midnight() {
    let mut clock = GameClock { game_day: 2, game_hour: 23, play_started_unix: Some(10) };
    clock.advance_after_travel_resolution();
    assert_eq!(clock.game_day, 3);
    assert_eq!(clock.game_hour, 1);
    assert_eq!(clock.play_started_unix, Some(10));
}

#[test]
fn deck_has_blowout_and_pilgrim() {
    let deck = EventDeck::shuffled(42);
    assert!(deck.draw.contains(&EventCard::Blowout));
    assert!(deck.draw.contains(&EventCard::Pilgrim));
    assert!(deck.draw.len() >= 40);
}

#[test]
fn draw_cycles() {
    let mut deck = EventDeck::shuffled(1);
    let n = deck.draw.len();
    for _ in 0..n + 3 {
        let _ = deck.draw_one();
    }
    assert!(!deck.discard.is_empty() || !deck.draw.is_empty());
}

#[test]
fn zero_distance() {
    assert_eq!(HexCoord::zero().distance(HexCoord::zero()), 0);
}

#[test]
fn neighbors_distance_one() {
    assert_eq!(HexCoord::new(1, 0).distance(HexCoord::zero()), 1);
    assert_eq!(HexCoord::new(0, -1).distance(HexCoord::zero()), 1);
    assert_eq!(HexCoord::new(-1, 1).distance(HexCoord::zero()), 1);
}

#[test]
fn longer_path() {
    assert_eq!(HexCoord::new(2, -1).distance(HexCoord::zero()), 2);
    assert_eq!(HexCoord::new(3, -3).distance(HexCoord::zero()), 3);
}

#[test]
fn capacity_bounds() {
    assert_eq!(LOBBY_MIN_PLAYERS, 4);
    assert_eq!(LOBBY_MAX_PLAYERS, 5);
    assert!(LOBBY_MIN_PLAYERS <= LOBBY_MAX_PLAYERS);
}

#[test]
fn ccc_form_examples() {
    assert_eq!(CccDraw::combine(30, 6).unwrap().sector, 36);
    assert_eq!(CccDraw::combine(0, 2).unwrap().sector, 2);
    assert_eq!(CccDraw::combine(0, 0).unwrap().sector, 100);
}

#[test]
fn ccc_rejects_bad() {
    assert!(CccDraw::combine(15, 1).is_err());
    assert!(CccDraw::combine(10, 10).is_err());
}

#[test]
fn d20_mapping() {
    assert_eq!(LocationId::from_d20(1).unwrap(), Some(LocationId::Cordon));
    assert_eq!(LocationId::from_d20(19).unwrap(), None);
    assert_eq!(LocationId::from_d20(20).unwrap(), None);
    assert!(LocationId::from_d20(0).is_err());
    assert!(LocationId::from_d20(21).is_err());
}

#[test]
fn all_named() {
    for roll in 1..=18u8 {
        let loc = LocationId::from_d20(roll).unwrap().unwrap();
        assert!(!loc.name_ru().is_empty());
    }
}

#[test]
fn npc_defaults_to_gm_control() {
    let gm = UserId::new();
    let npc = Npc::new("Сталкер", NpcKind::Stalker, gm, HexCoord::zero());
    assert_eq!(npc.controlled_by, Some(gm));
    assert_eq!(npc.location, None);
    assert_eq!(npc.sector, None);
}

#[test]
fn room_starts_in_lobby() {
    let gm_id = UserId::new();
    let room = RoomState::new(RoomId::new(), "ABCD12".to_string(), PlayerToken::new(gm_id, "GM"), 7);
    assert_eq!(room.phase, RoomPhase::Lobby);
    assert_eq!(room.min_players, 4);
    assert_eq!(room.max_players, 5);
    assert!(!room.can_start());
    assert!(!room.is_full());
}

#[test]
fn can_start_requires_four_ready() {
    let gm = UserId::new();
    let mut room = RoomState::new(RoomId::new(), "X".to_string(), PlayerToken::new(gm, "gm"), 1);
    for i in 0..3 {
        let mut t = PlayerToken::new(UserId::new(), &format!("p{i}"));
        t.ready = true;
        room.tokens.push(t);
    }
    room.tokens[0].ready = true;
    assert_eq!(room.player_count(), 4);
    assert!(room.can_start());
}

#[test]
fn wire_ids_stable() {
    assert_eq!(RoundPhase::ExitZone.wire_id(), "exit_zone");
    assert_eq!(RoundPhase::Explore.label_ru(), "Розыгрыш событий");
}

#[test]
fn nineteen_unique() {
    let h = sector_hexes();
    let mut v = h.to_vec();
    v.sort_by_key(|c| (c.q, c.r));
    v.dedup();
    assert_eq!(v.len(), 19);
}

#[test]
fn d20_maps() {
    assert_eq!(hex_from_d20(1).unwrap(), Some(HexCoord::new(0, -2)));
    assert_eq!(hex_from_d20(10).unwrap(), Some(HexCoord::zero()));
    assert_eq!(hex_from_d20(19).unwrap(), Some(HexCoord::new(0, 2)));
    assert_eq!(hex_from_d20(20).unwrap(), None);
    assert!(hex_from_d20(0).is_err());
}

#[test]
fn row_major_order() {
    assert_eq!(
        sector_hexes(),
        [
            HexCoord::new(0, -2),
            HexCoord::new(1, -2),
            HexCoord::new(2, -2),
            HexCoord::new(-1, -1),
            HexCoord::new(0, -1),
            HexCoord::new(1, -1),
            HexCoord::new(2, -1),
            HexCoord::new(-2, 0),
            HexCoord::new(-1, 0),
            HexCoord::new(0, 0),
            HexCoord::new(1, 0),
            HexCoord::new(2, 0),
            HexCoord::new(-2, 1),
            HexCoord::new(-1, 1),
            HexCoord::new(0, 1),
            HexCoord::new(1, 1),
            HexCoord::new(-2, 2),
            HexCoord::new(-1, 2),
            HexCoord::new(0, 2),
        ]
    );
}

#[test]
fn tablet_aggregates_token_and_mission_state() {
    let mut token = PlayerToken::new(UserId::new(), "ГГ");
    token.location = Some(LocationId::Cordon);
    token.sector = Some(36);
    token.ccc_tens = Some(30);
    token.ccc_units = Some(6);
    token.hex = HexCoord::new(0, -2);
    token.target_hex = Some(HexCoord::zero());
    token.move_points = 3;

    let tablet = PlayerTablet::from_token(&token, &MissionDef::get(1).unwrap(), "short note");

    assert_eq!(tablet.callsign, "ГГ");
    assert_eq!(tablet.display_name, "ГГ");
    assert_eq!(tablet.mission_id, 1);
    assert_eq!(tablet.location_name.as_deref(), Some("Кордон"));
    assert_eq!(tablet.current_hex, HexCoord::new(0, -2));
    assert_eq!(tablet.target_hex, Some(HexCoord::zero()));
    assert_eq!(tablet.notes, "short note");
}

#[test]
fn new_token_defaults() {
    let id = UserId::new();
    let t = PlayerToken::new(id, "ГГ");
    assert_eq!(t.hex, HexCoord::zero());
    assert!(t.target_hex.is_none());
    assert_eq!(t.move_points, 0);
    assert_eq!(t.travel_stage, TurnStage::Idle);
    assert_eq!(t.hp, 100);
    assert!(t.location.is_none());
    assert!(t.ccc_tens.is_none());
    assert!(t.ccc_units.is_none());
}
