//! Non-player characters that the GM places on the map.
use vstd::prelude::*;

use crate::hex::HexCoord;
use crate::ids::{is_v4_bits, random_uuid_bits, uuid_text, UserId};
use crate::shuffle::{splitmix64, splitmix64_spec};
use crate::location::LocationId;

verus! {

#[derive(Debug, Clone, Copy, PartialEq, Eq, Structural, Hash)]
pub enum NpcKind {
    Stalker,
    Mutant,
}

/// How the kind is written on the wire.
pub open spec fn npc_kind_wire(kind: NpcKind) -> Seq<char> {
    match kind {
        NpcKind::Stalker => "stalker"@,
        NpcKind::Mutant => "mutant"@,
    }
}

/// How the kind prints for debugging.
pub open spec fn npc_kind_debug(kind: NpcKind) -> Seq<char> {
    match kind {
        NpcKind::Stalker => "Stalker"@,
        NpcKind::Mutant => "Mutant"@,
    }
}

pub fn npc_kind_wire_id(kind: NpcKind) -> (s: &'static str)
    ensures
        s@ == npc_kind_wire(kind),
{
    match kind {
        NpcKind::Stalker => "stalker",
        NpcKind::Mutant => "mutant",
    }
}

pub fn npc_kind_debug_name(kind: NpcKind) -> (s: &'static str)
    ensures
        s@ == npc_kind_debug(kind),
{
    match kind {
        NpcKind::Stalker => "Stalker",
        NpcKind::Mutant => "Mutant",
    }
}

/// What an NPC holds, its name taken by its text.
pub open spec fn npc_view(n: Npc) -> (u128, Seq<char>, NpcKind, Option<UserId>, HexCoord, Option<LocationId>, Option<u8>) {
    (n.id, n.name@, n.kind, n.controlled_by, n.hex, n.location, n.sector)
}

/// The NPCs of a room by what they hold.
pub open spec fn npc_views(s: Seq<Npc>) -> Seq<(u128, Seq<char>, NpcKind, Option<UserId>, HexCoord, Option<LocationId>, Option<u8>)> {
    s.map_values(|n: Npc| npc_view(n))
}

/// 128 bits made a version-4 UUID: the version and variant bits set, the rest kept.
pub open spec fn v4_of(bits: u128) -> u128 {
    (bits & !0xF000_C000_0000_0000_0000u128) | 0x4000_8000_0000_0000_0000u128
}

fn version_four(bits: u128) -> (id: u128)
    ensures
        id == v4_of(bits),
        is_v4_bits(id),
{
    let id = (bits & !0xF000_C000_0000_0000_0000u128) | 0x4000_8000_0000_0000_0000u128;
    assert(id & 0xF000_C000_0000_0000_0000u128 == 0x4000_8000_0000_0000_0000u128) by (bit_vector)
        requires
            id == (bits & !0xF000_C000_0000_0000_0000u128) | 0x4000_8000_0000_0000_0000u128;
    id
}

/// The id of the `n`th NPC spawned in a room whose dice seed is `seed`: two
/// SplitMix64 draws from the seed (mixed with `n`), as the high and low halves of a
/// version-4 UUID.
pub open spec fn npc_id_bits(seed: u64, n: u64) -> u128 {
    let hi = splitmix64_spec(seed ^ n);
    let lo = splitmix64_spec(hi);
    v4_of(((hi as u128) << 64u128) | (lo as u128))
}

#[derive(Debug, Clone, PartialEq, Eq)]
pub struct Npc {
    /// The 128 bits of the NPC's UUID.
    pub id: u128,
    pub name: String,
    pub kind: NpcKind,
    pub controlled_by: Option<UserId>,
    pub hex: HexCoord,
    pub location: Option<LocationId>,
    pub sector: Option<u8>,
}

impl Npc {
    /// A new NPC under the GM's control, at `hex`, with no location or sector yet and a
    /// fresh random id.
    pub fn new(name: &str, kind: NpcKind, gm_user_id: UserId, hex: HexCoord) -> (n: Npc)
        ensures
            n.name@ == name@,
            n.kind == kind,
            n.controlled_by == Some(gm_user_id),
            n.hex == hex,
            n.location is None,
            n.sector is None,
            is_v4_bits(n.id),
    {
        Npc {
            id: random_uuid_bits(),
            name: String::from_str(name),
            kind,
            controlled_by: Some(gm_user_id),
            hex,
            location: None,
            sector: None,
        }
    }

    /// A new NPC under the GM's control whose id is drawn from a room's dice seed:
    /// the `n`th NPC of the room gets `npc_id_bits(seed, n)`.
    pub fn seeded(name: &str, kind: NpcKind, gm_user_id: UserId, hex: HexCoord, seed: u64, n: u64) -> (npc: Npc)
        ensures
            npc.id == npc_id_bits(seed, n),
            npc.name@ == name@,
            npc.kind == kind,
            npc.controlled_by == Some(gm_user_id),
            npc.hex == hex,
            npc.location is None,
            npc.sector is None,
            is_v4_bits(npc.id),
    {
        let hi = splitmix64(seed ^ n);
        let lo = splitmix64(hi);
        let id = version_four(((hi as u128) << 64u128) | (lo as u128));
        Npc {
            id,
            name: String::from_str(name),
            kind,
            controlled_by: Some(gm_user_id),
            hex,
            location: None,
            sector: None,
        }
    }

    /// The NPC's id as hyphenated UUID text.
    pub fn id_text(&self) -> (s: String)
        ensures
            s@ == crate::ids::uuid_hyphenated(self.id),
    {
        uuid_text(self.id)
    }
}

} // verus!

