//! Identifiers of users and rooms, and the role a member holds in a room.
use vstd::prelude::*;

verus! {

/// A user, identified by the 128 bits of a UUID.
#[derive(Debug, Clone, Copy, PartialEq, Eq, Structural, Hash)]
pub struct UserId(pub u128);

/// A room, identified by the 128 bits of a UUID.
#[derive(Debug, Clone, Copy, PartialEq, Eq, Structural, Hash)]
pub struct RoomId(pub u128);

/// What a member may do in a room.
#[derive(Debug, Clone, Copy, PartialEq, Eq, Structural, Hash)]
pub enum MemberRole {
    Gm,
    Player,
}

/// The dice the table rolls.
#[derive(Debug, Clone, Copy, PartialEq, Eq, Structural, Hash)]
pub enum DiceKind {
    D6,
    D20,
}

/// The hyphenated lower-case text of the UUID with these 128 bits, as `uuid` prints it.
pub uninterp spec fn uuid_hyphenated(bits: u128) -> Seq<char>;

/// The 128 bits of a version-4 (random) UUID: the version nibble is 4 and the variant
/// bits are `10`.
pub open spec fn is_v4_bits(bits: u128) -> bool {
    bits & 0xF000_C000_0000_0000_0000u128 == 0x4000_8000_0000_0000_0000u128
}

/// `uuid::Uuid::new_v4`: a fresh random version-4 UUID, returned as its 128 bits. The
/// bits come from the operating system's randomness; what is claimed is only what
/// `new_v4` fixes of them, the version and variant bits.
#[verifier::external_body]
pub(crate) fn random_uuid_bits() -> (bits: u128)
    ensures
        is_v4_bits(bits),
{
    uuid::Uuid::new_v4().as_u128()
}

/// `Display` of `uuid::Uuid` (through `to_string`) on the UUID with these bits: the
/// result is named, it depends on the bits alone.
#[verifier::external_body]
pub(crate) fn uuid_text(bits: u128) -> (s: String)
    ensures
        s@ == uuid_hyphenated(bits),
{
    uuid::Uuid::from_u128(bits).to_string()
}

impl UserId {
    /// A fresh random user id: a version-4 UUID.
    pub fn new() -> (id: UserId)
        ensures
            is_v4_bits(id.0),
    {
        UserId(random_uuid_bits())
    }

    /// The id as text: its hyphenated UUID.
    pub fn text(&self) -> (s: String)
        ensures
            s@ == uuid_hyphenated(self.0),
    {
        uuid_text(self.0)
    }
}

impl RoomId {
    /// A fresh random room id: a version-4 UUID.
    pub fn new() -> (id: RoomId)
        ensures
            is_v4_bits(id.0),
    {
        RoomId(random_uuid_bits())
    }
}

} // verus!
