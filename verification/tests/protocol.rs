use nnk::actions::Action;
use nnk::hex::HexCoord;
use nnk::ids::{RoomId, UserId};
use nnk::location::LocationId;
use nnk::mission::MissionDef;
use nnk::npc::{Npc, NpcKind};
use nnk::protocol::{ClientMsg, LobbyView};
use nnk::room::RoomState;
use nnk::token::PlayerToken;

#[test]
fn into_action_maps() {
    assert!(matches!(ClientMsg::StartGame.into_action(), Some(Action::StartGame)));
    assert!(matches!(
        ClientMsg::SpawnNpc { name: "Guide".to_string(), kind: NpcKind::Stalker }.into_action(),
        Some(Action::SpawnNpc { .. })
    ));
    assert!(ClientMsg::JoinRoom { code: "X".to_string() }.into_action().is_none());
}

#[test]
fn lobby_view_from_state() {
    let gm = UserId::new();
    let mut state = RoomState::new(RoomId::new(), "ABC".to_string(), PlayerToken::new(gm, "gm"), 1);
    state.mission_id = 3;
    state.game_day = 2;
    state.game_hour = 14;
    state.tokens[0].location = Some(LocationId::Cordon);
    state.tokens[0].sector = Some(36);
    state.tokens[0].ccc_tens = Some(30);
    state.tokens[0].ccc_units = Some(6);
    state.tokens[0].target_hex = Some(HexCoord::new(1, 0));
    state.npcs.push(Npc::new("Guide", NpcKind::Stalker, gm, HexCoord::zero()));
    let view = LobbyView::from_state(&state);
    assert_eq!(view.phase, "lobby");
    assert_eq!(view.max_players, 5);
    assert_eq!(view.players.len(), 1);
    assert!(view.players[0].is_gm);
    assert_eq!(view.mission_id, 3);
    assert_eq!(view.mission_title, MissionDef::get(3).unwrap().title);
    assert_eq!(view.mission_objective, MissionDef::get(3).unwrap().objective);
    assert_eq!(view.mission_briefing, MissionDef::get(3).unwrap().briefing);
    assert_eq!(view.game_day, 2);
    assert_eq!(view.game_hour, 14);
    assert_eq!(view.players[0].location.as_deref(), Some("Кордон"));
    assert_eq!(view.players[0].sector, Some(36));
    assert_eq!(view.players[0].ccc_tens, Some(30));
    assert_eq!(view.players[0].ccc_units, Some(6));
    assert_eq!(view.players[0].target_hex, Some(HexCoord::new(1, 0)));
    assert_eq!(view.npcs.len(), 1);
    assert_eq!(view.npcs[0].name, "Guide");
    assert_eq!(view.npcs[0].kind, "stalker");
    assert_eq!(view.npcs[0].hex, HexCoord::zero());
}
