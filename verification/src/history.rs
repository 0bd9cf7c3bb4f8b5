//! The text of the entries the engine writes into a room's history.
use vstd::prelude::*;

use crate::hex::HexCoord;
use crate::ids::{UserId, uuid_hyphenated, uuid_text};
use crate::npc::{NpcKind, npc_kind_debug, npc_kind_debug_name};
use crate::text::{bool_text, decimal, push_bool, push_decimal, push_signed, signed_decimal};

verus! {

/// The characters of each string, in order.
pub open spec fn texts(v: Seq<String>) -> Seq<Seq<char>> {
    v.map_values(|s: String| s@)
}

/// How a user id is written: its hyphenated UUID.
pub open spec fn uid_text(u: UserId) -> Seq<char> {
    uuid_hyphenated(u.0)
}

/// `Debug` of a hex: `HexCoord { q: 1, r: -2 }`.
pub open spec fn hex_debug(h: HexCoord) -> Seq<char> {
    "HexCoord { q: "@ + signed_decimal(h.q as int) + ", r: "@ + signed_decimal(h.r as int) + " }"@
}

/// A hex as `q,r`.
pub open spec fn hex_pair(h: HexCoord) -> Seq<char> {
    signed_decimal(h.q as int) + ","@ + signed_decimal(h.r as int)
}

pub open spec fn text_room_created() -> Seq<char> {
    "room_created"@
}

pub open spec fn text_player_joined(name: Seq<char>) -> Seq<char> {
    "player_joined:"@ + name
}

pub open spec fn text_ready(u: UserId, ready: bool) -> Seq<char> {
    "ready:"@ + uid_text(u) + ":"@ + bool_text(ready)
}

pub open spec fn text_game_started(have: u8) -> Seq<char> {
    "game_started:"@ + decimal(have as nat)
}

pub open spec fn text_mission_started(id: u8, title: Seq<char>) -> Seq<char> {
    "mission_started:"@ + decimal(id as nat) + ":"@ + title
}

pub open spec fn text_location_reroll(v: u8) -> Seq<char> {
    "d20_location_reroll:"@ + decimal(v as nat)
}

pub open spec fn text_location(v: u8, name: Seq<char>, u: UserId) -> Seq<char> {
    "d20_location:"@ + decimal(v as nat) + ":"@ + name + ":"@ + uid_text(u)
}

pub open spec fn text_ccc(tens: u8, units: u8, sector: u8, u: UserId) -> Seq<char> {
    "ccc:"@ + decimal(tens as nat) + ":"@ + decimal(units as nat) + ":"@ + decimal(sector as nat)
        + ":"@ + uid_text(u)
}

pub open spec fn text_hex_roll(v: u8, u: UserId, h: HexCoord) -> Seq<char> {
    "d20_hex:"@ + decimal(v as nat) + ":"@ + uid_text(u) + ":"@ + hex_pair(h)
}

pub open spec fn text_d6(v: u8, u: UserId) -> Seq<char> {
    "d6_move:"@ + decimal(v as nat) + ":"@ + uid_text(u)
}

pub open spec fn text_arrived_debug(u: UserId, h: HexCoord) -> Seq<char> {
    "arrived:"@ + uid_text(u) + ":"@ + hex_debug(h)
}

pub open spec fn text_moved(u: UserId, from: HexCoord, to: HexCoord) -> Seq<char> {
    "moved:"@ + uid_text(u) + ":"@ + hex_debug(from) + "->"@ + hex_debug(to)
}

pub open spec fn text_arrived(u: UserId, h: HexCoord) -> Seq<char> {
    "arrived:"@ + uid_text(u) + ":"@ + hex_pair(h)
}

pub open spec fn text_npc_spawned(name: Seq<char>, kind: NpcKind) -> Seq<char> {
    "npc_spawned:"@ + name + ":"@ + npc_kind_debug(kind)
}

pub open spec fn text_chat(u: UserId, text: Seq<char>) -> Seq<char> {
    "chat:"@ + uid_text(u) + ":"@ + text
}

fn push_uid(s: &mut String, u: UserId)
    ensures
        final(s)@ == old(s)@ + uid_text(u),
{
    let t = uuid_text(u.0);
    s.append(t.as_str());
}

fn push_hex_debug(s: &mut String, h: HexCoord)
    ensures
        final(s)@ == old(s)@ + hex_debug(h),
{
    s.append("HexCoord { q: ");
    push_signed(s, h.q as i64);
    s.append(", r: ");
    push_signed(s, h.r as i64);
    s.append(" }");
    assert(final(s)@ =~= old(s)@ + hex_debug(h));
}

fn push_hex_pair(s: &mut String, h: HexCoord)
    ensures
        final(s)@ == old(s)@ + hex_pair(h),
{
    push_signed(s, h.q as i64);
    s.append(",");
    push_signed(s, h.r as i64);
    assert(final(s)@ =~= old(s)@ + hex_pair(h));
}

pub fn room_created_text() -> (s: String)
    ensures
        s@ == text_room_created(),
{
    String::from_str("room_created")
}

pub fn player_joined_text(name: &str) -> (s: String)
    ensures
        s@ == text_player_joined(name@),
{
    let mut s = String::from_str("player_joined:");
    s.append(name);
    s
}

pub fn ready_text(u: UserId, ready: bool) -> (s: String)
    ensures
        s@ == text_ready(u, ready),
{
    let mut s = String::from_str("ready:");
    push_uid(&mut s, u);
    s.append(":");
    push_bool(&mut s, ready);
    assert(s@ =~= text_ready(u, ready));
    s
}

pub fn game_started_text(have: u8) -> (s: String)
    ensures
        s@ == text_game_started(have),
{
    let mut s = String::from_str("game_started:");
    push_decimal(&mut s, have as u64);
    s
}

pub fn mission_started_text(id: u8, title: &str) -> (s: String)
    ensures
        s@ == text_mission_started(id, title@),
{
    let mut s = String::from_str("mission_started:");
    push_decimal(&mut s, id as u64);
    s.append(":");
    s.append(title);
    assert(s@ =~= text_mission_started(id, title@));
    s
}

pub fn location_reroll_text(v: u8) -> (s: String)
    ensures
        s@ == text_location_reroll(v),
{
    let mut s = String::from_str("d20_location_reroll:");
    push_decimal(&mut s, v as u64);
    s
}

pub fn location_text(v: u8, name: &str, u: UserId) -> (s: String)
    ensures
        s@ == text_location(v, name@, u),
{
    let mut s = String::from_str("d20_location:");
    push_decimal(&mut s, v as u64);
    s.append(":");
    s.append(name);
    s.append(":");
    push_uid(&mut s, u);
    assert(s@ =~= text_location(v, name@, u));
    s
}

pub fn ccc_text(tens: u8, units: u8, sector: u8, u: UserId) -> (s: String)
    ensures
        s@ == text_ccc(tens, units, sector, u),
{
    let mut s = String::from_str("ccc:");
    push_decimal(&mut s, tens as u64);
    s.append(":");
    push_decimal(&mut s, units as u64);
    s.append(":");
    push_decimal(&mut s, sector as u64);
    s.append(":");
    push_uid(&mut s, u);
    assert(s@ =~= text_ccc(tens, units, sector, u));
    s
}

pub fn hex_roll_text(v: u8, u: UserId, h: HexCoord) -> (s: String)
    ensures
        s@ == text_hex_roll(v, u, h),
{
    let mut s = String::from_str("d20_hex:");
    push_decimal(&mut s, v as u64);
    s.append(":");
    push_uid(&mut s, u);
    s.append(":");
    push_hex_pair(&mut s, h);
    assert(s@ =~= text_hex_roll(v, u, h));
    s
}

pub fn d6_text(v: u8, u: UserId) -> (s: String)
    ensures
        s@ == text_d6(v, u),
{
    let mut s = String::from_str("d6_move:");
    push_decimal(&mut s, v as u64);
    s.append(":");
    push_uid(&mut s, u);
    assert(s@ =~= text_d6(v, u));
    s
}

pub fn arrived_debug_text(u: UserId, h: HexCoord) -> (s: String)
    ensures
        s@ == text_arrived_debug(u, h),
{
    let mut s = String::from_str("arrived:");
    push_uid(&mut s, u);
    s.append(":");
    push_hex_debug(&mut s, h);
    assert(s@ =~= text_arrived_debug(u, h));
    s
}

pub fn moved_text(u: UserId, from: HexCoord, to: HexCoord) -> (s: String)
    ensures
        s@ == text_moved(u, from, to),
{
    let mut s = String::from_str("moved:");
    push_uid(&mut s, u);
    s.append(":");
    push_hex_debug(&mut s, from);
    s.append("->");
    push_hex_debug(&mut s, to);
    assert(s@ =~= text_moved(u, from, to));
    s
}

pub fn arrived_text(u: UserId, h: HexCoord) -> (s: String)
    ensures
        s@ == text_arrived(u, h),
{
    let mut s = String::from_str("arrived:");
    push_uid(&mut s, u);
    s.append(":");
    push_hex_pair(&mut s, h);
    assert(s@ =~= text_arrived(u, h));
    s
}

pub fn npc_spawned_text(name: &str, kind: NpcKind) -> (s: String)
    ensures
        s@ == text_npc_spawned(name@, kind),
{
    let mut s = String::from_str("npc_spawned:");
    s.append(name);
    s.append(":");
    s.append(npc_kind_debug_name(kind));
    assert(s@ =~= text_npc_spawned(name@, kind));
    s
}

pub fn chat_text(u: UserId, text: &str) -> (s: String)
    ensures
        s@ == text_chat(u, text@),
{
    let mut s = String::from_str("chat:");
    push_uid(&mut s, u);
    s.append(":");
    s.append(text);
    assert(s@ =~= text_chat(u, text@));
    s
}

} // verus!
