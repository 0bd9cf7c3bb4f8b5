//! The 19 hexes of one sector (a radius-2 hex flower) and the D20 roll onto them.
use vstd::prelude::*;

use crate::error::DomainError;
use crate::hex::HexCoord;

verus! {

pub open spec fn hx(q: int, r: int) -> HexCoord {
    HexCoord { q: q as i32, r: r as i32 }
}

/// The sector's hexes, left to right and top to bottom; a D20 roll `k` in 1..=19
/// selects entry `k - 1`.
pub open spec fn sector_seq() -> Seq<HexCoord> {
    seq![
        hx(0, -2), hx(1, -2), hx(2, -2),
        hx(-1, -1), hx(0, -1), hx(1, -1), hx(2, -1),
        hx(-2, 0), hx(-1, 0), hx(0, 0), hx(1, 0), hx(2, 0),
        hx(-2, 1), hx(-1, 1), hx(0, 1), hx(1, 1),
        hx(-2, 2), hx(-1, 2), hx(0, 2),
    ]
}

/// A hex of the sector: within hex distance two of the centre.
pub open spec fn in_sector(h: HexCoord) -> bool {
    sector_seq().contains(h)
}

pub fn sector_hexes() -> (a: [HexCoord; 19])
    ensures
        a@ == sector_seq(),
{
    let a = [
        HexCoord::new(0, -2), HexCoord::new(1, -2), HexCoord::new(2, -2),
        HexCoord::new(-1, -1), HexCoord::new(0, -1), HexCoord::new(1, -1), HexCoord::new(2, -1),
        HexCoord::new(-2, 0), HexCoord::new(-1, 0), HexCoord::new(0, 0), HexCoord::new(1, 0),
        HexCoord::new(2, 0),
        HexCoord::new(-2, 1), HexCoord::new(-1, 1), HexCoord::new(0, 1), HexCoord::new(1, 1),
        HexCoord::new(-2, 2), HexCoord::new(-1, 2), HexCoord::new(0, 2),
    ];
    assert(a@ =~= sector_seq());
    a
}

/// Maps a D20 roll to a sector hex: 1..=19 select a hex, 20 asks for a reroll.
pub fn hex_from_d20(roll: u8) -> (r: Result<Option<HexCoord>, DomainError>)
    ensures
        1 <= roll <= 19 ==> r == Ok::<Option<HexCoord>, DomainError>(
            Some(sector_seq()[roll - 1]),
        ),
        roll == 20 ==> r == Ok::<Option<HexCoord>, DomainError>(None),
        (roll == 0 || roll > 20) ==> r == Err::<Option<HexCoord>, DomainError>(
            DomainError::InvalidDice(roll),
        ),
{
    if 1 <= roll && roll <= 19 {
        let hexes = sector_hexes();
        Ok(Some(hexes[(roll - 1) as usize]))
    } else if roll == 20 {
        Ok(None)
    } else {
        Err(DomainError::InvalidDice(roll))
    }
}

pub fn is_sector_hex(hex: HexCoord) -> (b: bool)
    ensures
        b == in_sector(hex),
{
    let hexes = sector_hexes();
    let mut i: usize = 0;
    while i < 19
        invariant
            i <= 19,
            hexes@ == sector_seq(),
            forall|j: int| 0 <= j < i ==> hexes@[j] != hex,
        decreases 19 - i,
    {
        if hexes[i] == hex {
            assert(sector_seq()[i as int] == hex);
            return true;
        }
        i = i + 1;
    }
    assert(!sector_seq().contains(hex)) by {
        if sector_seq().contains(hex) {
            let k = choose|k: int| 0 <= k < sector_seq().len() && sector_seq()[k] == hex;
            assert(hexes@[k] == hex);
        }
    }
    false
}

/// Every sector hex has small coordinates.
pub proof fn lemma_sector_hex_bounded(h: HexCoord)
    requires
        in_sector(h),
    ensures
        -2 <= h.q <= 2,
        -2 <= h.r <= 2,
        h.is_bounded(),
{
    let k = choose|k: int| 0 <= k < sector_seq().len() && sector_seq()[k] == h;
    assert(0 <= k < 19);
}

/// A hex lies within two steps of the sector's centre (cube coordinates).
pub open spec fn within_two(h: HexCoord) -> bool {
    -2 <= h.q <= 2 && -2 <= h.r <= 2 && -2 <= h.q + h.r <= 2
}

/// The D20 hex table reads the sector's hexes row by row from the top, left to right
/// in each row: every roll from 1 to 19 names a hex within two steps of the centre,
/// and each roll's hex comes strictly after the one before it (a lower row, or the
/// same row further right); 20 names none, anything else is not a D20 roll.
pub proof fn lemma_hex_table_row_major(k: u8, r: Result<Option<HexCoord>, DomainError>, next: Result<Option<HexCoord>, DomainError>)
    requires
        call_ensures(hex_from_d20, (k,), r),
        call_ensures(hex_from_d20, ((k + 1) as u8,), next),
    ensures
        1 <= k <= 19 ==> (r matches Ok(Some(h)) && within_two(h)),
        1 <= k <= 18 ==> (r matches Ok(Some(h)) && next matches Ok(Some(g)) && (h.r < g.r || (h.r == g.r && h.q < g.q))),
        k == 20 ==> r == Ok::<Option<HexCoord>, DomainError>(None),
        (k == 0 || k > 20) ==> r == Err::<Option<HexCoord>, DomainError>(DomainError::InvalidDice(k)),
{
    if k == 1 {} else if k == 2 {} else if k == 3 {} else if k == 4 {} else if k == 5 {} else if k == 6 {} else if k == 7 {} else if k == 8 {} else if k == 9 {} else if k == 10 {} else if k == 11 {} else if k == 12 {} else if k == 13 {} else if k == 14 {} else if k == 15 {} else if k == 16 {} else if k == 17 {} else if k == 18 {} else if k == 19 {}
}

} // verus!
