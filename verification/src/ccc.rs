//! The coordination-card (CCC) decks: a tens deck and a units deck, each with a
//! discard pile, reshuffled from a seed that advances with every shuffle.
use vstd::prelude::*;
use vstd::multiset::Multiset;

use crate::error::DomainError;
use crate::location::{CccDraw, ccc_sector, valid_ccc_cards};
use crate::shuffle::{lemma_splitmix_shuffle_perm, shuffle, splitmix64, splitmix64_spec, splitmix_shuffle};

verus! {

/// Salt mixed into the seed before the tens deck is shuffled.
pub const TENS_SALT: u64 = 0x4343_435f_5445_4e53;

/// Salt mixed into the seed before the units deck is shuffled.
pub const UNITS_SALT: u64 = 0x4343_435f_554e_4954;

/// The ten tens cards.
pub open spec fn tens_cards() -> Seq<u8> {
    seq![0u8, 10, 20, 30, 40, 50, 60, 70, 80, 90]
}

/// The ten units cards.
pub open spec fn units_cards() -> Seq<u8> {
    seq![0u8, 1, 2, 3, 4, 5, 6, 7, 8, 9]
}

pub fn tens_card_vec() -> (v: Vec<u8>)
    ensures
        v@ == tens_cards(),
{
    let v = vec![0u8, 10, 20, 30, 40, 50, 60, 70, 80, 90];
    assert(v@ =~= tens_cards());
    v
}

pub fn units_card_vec() -> (v: Vec<u8>)
    ensures
        v@ == units_cards(),
{
    let v = vec![0u8, 1, 2, 3, 4, 5, 6, 7, 8, 9];
    assert(v@ =~= units_cards());
    v
}

#[derive(Debug, Clone, PartialEq, Eq)]
pub struct CccDeck {
    pub tens: Vec<u8>,
    pub units: Vec<u8>,
    pub tens_discard: Vec<u8>,
    pub units_discard: Vec<u8>,
    pub shuffle_seed: u64,
}

/// One pile as the rules see it: draw pile, discard pile, and the seed of the next shuffle.
pub struct PileModel {
    pub draw: Seq<u8>,
    pub discard: Seq<u8>,
    pub seed: u64,
}

/// Before a draw: an empty draw pile takes the discard and is shuffled; with no
/// discard either, it is rebuilt from the full card set and shuffled.
pub open spec fn refill(p: PileModel, full: Seq<u8>, salt: u64) -> PileModel {
    if p.draw.len() > 0 {
        p
    } else if p.discard.len() > 0 {
        let st = splitmix64_spec(p.seed ^ salt);
        PileModel { draw: splitmix_shuffle(p.discard, st), discard: Seq::empty(), seed: st }
    } else {
        let st = splitmix64_spec(p.seed ^ salt);
        PileModel { draw: splitmix_shuffle(full, st), discard: p.discard, seed: st }
    }
}

/// The pile after one draw: the top (last) card moves to the discard.
pub open spec fn after_draw(p: PileModel, full: Seq<u8>, salt: u64) -> PileModel {
    let r = refill(p, full, salt);
    PileModel { draw: r.draw.drop_last(), discard: r.discard.push(r.draw.last()), seed: r.seed }
}

/// The card one draw takes.
pub open spec fn drawn_card(p: PileModel, full: Seq<u8>, salt: u64) -> u8 {
    refill(p, full, salt).draw.last()
}

/// The deck `CccDeck::shuffled(seed)` builds.
pub open spec fn is_shuffled_deck(d: CccDeck, seed: u64) -> bool {
    &&& d.tens@ == splitmix_shuffle(tens_cards(), splitmix64_spec(seed ^ TENS_SALT))
    &&& d.units@ == splitmix_shuffle(
        units_cards(),
        splitmix64_spec(splitmix64_spec(seed ^ TENS_SALT) ^ UNITS_SALT),
    )
    &&& d.tens_discard@.len() == 0
    &&& d.units_discard@.len() == 0
    &&& d.shuffle_seed == splitmix64_spec(splitmix64_spec(seed ^ TENS_SALT) ^ UNITS_SALT)
}

/// The units pile as the units draw sees it: after the tens draw moved the seed.
pub open spec fn units_pile_after_tens(d: CccDeck) -> PileModel {
    PileModel {
        draw: d.units@,
        discard: d.units_discard@,
        seed: after_draw(d.tens_pile(), tens_cards(), TENS_SALT).seed,
    }
}

/// The tens card a CCC draw takes.
pub open spec fn ccc_drawn_tens(d: CccDeck) -> u8 {
    drawn_card(d.tens_pile(), tens_cards(), TENS_SALT)
}

/// The units card a CCC draw takes.
pub open spec fn ccc_drawn_units(d: CccDeck) -> u8 {
    drawn_card(units_pile_after_tens(d), units_cards(), UNITS_SALT)
}

/// The deck `n` after one CCC draw from `d`: a tens draw, then a units draw.
pub open spec fn ccc_deck_after(d: CccDeck, n: CccDeck) -> bool {
    let tp = after_draw(d.tens_pile(), tens_cards(), TENS_SALT);
    let up = after_draw(units_pile_after_tens(d), units_cards(), UNITS_SALT);
    &&& n.tens@ == tp.draw
    &&& n.tens_discard@ == tp.discard
    &&& n.units@ == up.draw
    &&& n.units_discard@ == up.discard
    &&& n.shuffle_seed == up.seed
}

impl CccDeck {
    pub open spec fn tens_pile(&self) -> PileModel {
        PileModel { draw: self.tens@, discard: self.tens_discard@, seed: self.shuffle_seed }
    }

    pub open spec fn units_pile(&self) -> PileModel {
        PileModel { draw: self.units@, discard: self.units_discard@, seed: self.shuffle_seed }
    }

    /// Every tens card is in the tens draw pile or its discard, and likewise for units.
    pub open spec fn complete(&self) -> bool {
        &&& (self.tens@ + self.tens_discard@).to_multiset() == tens_cards().to_multiset()
        &&& (self.units@ + self.units_discard@).to_multiset() == units_cards().to_multiset()
    }

    /// A fresh deck: both piles shuffled, tens first, from the seed.
    pub fn shuffled(seed: u64) -> (d: CccDeck)
        ensures
            d.tens@ == splitmix_shuffle(tens_cards(), splitmix64_spec(seed ^ TENS_SALT)),
            d.units@ == splitmix_shuffle(
                units_cards(),
                splitmix64_spec(splitmix64_spec(seed ^ TENS_SALT) ^ UNITS_SALT),
            ),
            d.tens_discard@.len() == 0,
            d.units_discard@.len() == 0,
            d.shuffle_seed == splitmix64_spec(splitmix64_spec(seed ^ TENS_SALT) ^ UNITS_SALT),
            is_shuffled_deck(d, seed),
            d.complete(),
    {
        let mut deck = CccDeck {
            tens: tens_card_vec(),
            units: units_card_vec(),
            tens_discard: Vec::new(),
            units_discard: Vec::new(),
            shuffle_seed: seed,
        };
        deck.shuffle_tens();
        deck.shuffle_units();
        proof {
            broadcast use vstd::seq_lib::group_to_multiset_ensures;
            lemma_splitmix_shuffle_perm(tens_cards(), splitmix64_spec(seed ^ TENS_SALT));
            lemma_splitmix_shuffle_perm(
                units_cards(),
                splitmix64_spec(splitmix64_spec(seed ^ TENS_SALT) ^ UNITS_SALT),
            );
            assert(deck.tens@ + deck.tens_discard@ =~= deck.tens@);
            assert(deck.units@ + deck.units_discard@ =~= deck.units@);
        }
        deck
    }

    fn next_shuffle_seed(&mut self, salt: u64) -> (r: u64)
        ensures
            r == splitmix64_spec(old(self).shuffle_seed ^ salt),
            final(self).shuffle_seed == r,
            final(self).tens == old(self).tens,
            final(self).units == old(self).units,
            final(self).tens_discard == old(self).tens_discard,
            final(self).units_discard == old(self).units_discard,
    {
        self.shuffle_seed = splitmix64(self.shuffle_seed ^ salt);
        self.shuffle_seed
    }

    fn shuffle_tens(&mut self)
        ensures
            final(self).shuffle_seed == splitmix64_spec(old(self).shuffle_seed ^ TENS_SALT),
            final(self).tens@ == splitmix_shuffle(old(self).tens@, final(self).shuffle_seed),
            final(self).units == old(self).units,
            final(self).tens_discard == old(self).tens_discard,
            final(self).units_discard == old(self).units_discard,
    {
        let seed = self.next_shuffle_seed(TENS_SALT);
        shuffle(&mut self.tens, seed);
    }

    fn shuffle_units(&mut self)
        ensures
            final(self).shuffle_seed == splitmix64_spec(old(self).shuffle_seed ^ UNITS_SALT),
            final(self).units@ == splitmix_shuffle(old(self).units@, final(self).shuffle_seed),
            final(self).tens == old(self).tens,
            final(self).tens_discard == old(self).tens_discard,
            final(self).units_discard == old(self).units_discard,
    {
        let seed = self.next_shuffle_seed(UNITS_SALT);
        shuffle(&mut self.units, seed);
    }

    fn reshuffle_tens_from_discard(&mut self)
        requires
            old(self).tens@.len() == 0,
        ensures
            old(self).tens_discard@.len() == 0 ==> *final(self) == *old(self),
            old(self).tens_discard@.len() > 0 ==> {
                &&& final(self).tens_pile() == refill(old(self).tens_pile(), tens_cards(), TENS_SALT)
                &&& final(self).units == old(self).units
                &&& final(self).units_discard == old(self).units_discard
            },
    {
        if self.tens_discard.len() == 0 {
            return;
        }
        self.tens.append(&mut self.tens_discard);
        self.shuffle_tens();
        assert(final(self).tens_discard@ =~= Seq::<u8>::empty());
    }

    fn reshuffle_units_from_discard(&mut self)
        requires
            old(self).units@.len() == 0,
        ensures
            old(self).units_discard@.len() == 0 ==> *final(self) == *old(self),
            old(self).units_discard@.len() > 0 ==> {
                &&& final(self).units_pile() == refill(old(self).units_pile(), units_cards(), UNITS_SALT)
                &&& final(self).tens == old(self).tens
                &&& final(self).tens_discard == old(self).tens_discard
            },
    {
        if self.units_discard.len() == 0 {
            return;
        }
        self.units.append(&mut self.units_discard);
        self.shuffle_units();
        assert(final(self).units_discard@ =~= Seq::<u8>::empty());
    }

    /// Draws the top tens card into the tens discard, refilling the pile first when
    /// it is empty.
    pub fn draw_tens(&mut self) -> (card: u8)
        ensures
            card == drawn_card(old(self).tens_pile(), tens_cards(), TENS_SALT),
            final(self).tens_pile() == after_draw(old(self).tens_pile(), tens_cards(), TENS_SALT),
            final(self).units == old(self).units,
            final(self).units_discard == old(self).units_discard,
    {
        let ghost refilled = refill(old(self).tens_pile(), tens_cards(), TENS_SALT);
        if self.tens.len() == 0 {
            if self.tens_discard.len() > 0 {
                self.reshuffle_tens_from_discard();
                proof {
                    lemma_splitmix_shuffle_perm(old(self).tens_discard@, self.shuffle_seed);
                }
            } else {
                self.tens = tens_card_vec();
                self.shuffle_tens();
                proof {
                    lemma_splitmix_shuffle_perm(tens_cards(), self.shuffle_seed);
                }
            }
        }
        assert(self.tens_pile() == refilled);
        assert(self.tens@.len() > 0);
        let card = self.tens.pop().unwrap();
        self.tens_discard.push(card);
        card
    }

    /// Draws the top units card into the units discard, refilling the pile first
    /// when it is empty.
    pub fn draw_units(&mut self) -> (card: u8)
        ensures
            card == drawn_card(old(self).units_pile(), units_cards(), UNITS_SALT),
            final(self).units_pile() == after_draw(old(self).units_pile(), units_cards(), UNITS_SALT),
            final(self).tens == old(self).tens,
            final(self).tens_discard == old(self).tens_discard,
    {
        let ghost refilled = refill(old(self).units_pile(), units_cards(), UNITS_SALT);
        if self.units.len() == 0 {
            if self.units_discard.len() > 0 {
                self.reshuffle_units_from_discard();
                proof {
                    lemma_splitmix_shuffle_perm(old(self).units_discard@, self.shuffle_seed);
                }
            } else {
                self.units = units_card_vec();
                self.shuffle_units();
                proof {
                    lemma_splitmix_shuffle_perm(units_cards(), self.shuffle_seed);
                }
            }
        }
        assert(self.units_pile() == refilled);
        assert(self.units@.len() > 0);
        let card = self.units.pop().unwrap();
        self.units_discard.push(card);
        card
    }

    /// Draws a tens card, then a units card, and combines them into a sector.
    pub fn draw_ccc(&mut self) -> (r: Result<CccDraw, DomainError>)
        ensures
            ccc_deck_after(*old(self), *final(self)),
            valid_ccc_cards(ccc_drawn_tens(*old(self)), ccc_drawn_units(*old(self))) ==> r
                == Ok::<CccDraw, DomainError>(
                CccDraw {
                    tens: ccc_drawn_tens(*old(self)),
                    units: ccc_drawn_units(*old(self)),
                    sector: ccc_sector(ccc_drawn_tens(*old(self)), ccc_drawn_units(*old(self))),
                },
            ),
            !valid_ccc_cards(ccc_drawn_tens(*old(self)), ccc_drawn_units(*old(self))) ==> r
                == Err::<CccDraw, DomainError>(DomainError::InvalidCcc),
    {
        let tens = self.draw_tens();
        let units = self.draw_units();
        CccDraw::combine(tens, units)
    }
}

/// The cards of a pile, counted over its draw pile and discard together.
pub open spec fn pile_cards(p: PileModel) -> Multiset<u8> {
    (p.draw + p.discard).to_multiset()
}

proof fn lemma_draw_from_nonempty(p: PileModel)
    requires
        p.draw.len() > 0,
    ensures
        pile_cards(PileModel { draw: p.draw.drop_last(), discard: p.discard.push(p.draw.last()), seed: p.seed })
            == pile_cards(p),
{
    broadcast use vstd::seq_lib::group_to_multiset_ensures;
    broadcast use vstd::seq_lib::lemma_multiset_commutative;
    broadcast use vstd::multiset::group_multiset_axioms;

    let d = p.draw.drop_last();
    assert(p.draw =~= d.push(p.draw.last()));
    assert(pile_cards(p) == p.draw.to_multiset().add(p.discard.to_multiset()));
    assert(pile_cards(PileModel { draw: d, discard: p.discard.push(p.draw.last()), seed: p.seed })
        == d.to_multiset().add(p.discard.push(p.draw.last()).to_multiset()));
    assert(pile_cards(PileModel { draw: d, discard: p.discard.push(p.draw.last()), seed: p.seed })
        =~= pile_cards(p));
}

/// A draw keeps every card of a complete pile in the pile (draw pile or discard), and
/// the card drawn is one of the pile's cards.
pub proof fn lemma_draw_conserves_cards(p: PileModel, full: Seq<u8>, salt: u64)
    requires
        full.len() > 0,
        full.len() <= usize::MAX,
        pile_cards(p) == full.to_multiset(),
    ensures
        pile_cards(after_draw(p, full, salt)) == full.to_multiset(),
        full.contains(drawn_card(p, full, salt)),
{
    broadcast use vstd::seq_lib::group_to_multiset_ensures;
    broadcast use vstd::seq_lib::lemma_multiset_commutative;
    broadcast use vstd::multiset::group_multiset_axioms;

    let r = refill(p, full, salt);
    if p.draw.len() == 0 {
        if p.discard.len() > 0 {
            let st = splitmix64_spec(p.seed ^ salt);
            assert(p.draw + p.discard =~= p.discard);
            assert(p.discard.to_multiset().len() == p.discard.len());
            assert(full.to_multiset().len() == full.len());
            lemma_splitmix_shuffle_perm(p.discard, st);
            assert(r.draw + r.discard =~= r.draw);
        } else {
            assert(p.draw + p.discard =~= Seq::<u8>::empty());
            assert(full.to_multiset().len() == full.len());
            assert(false);
        }
    }
    assert(pile_cards(r) == full.to_multiset());
    assert(r.draw.len() > 0);
    lemma_draw_from_nonempty(r);
    let c = r.draw.last();
    assert((r.draw + r.discard)[r.draw.len() - 1] == c);
    assert((r.draw + r.discard).contains(c));
    assert(full.to_multiset().count(c) > 0);
}

impl CccDeck {
    /// Drawing from a complete deck keeps it complete, and both cards drawn are real
    /// cards, so the combination is always a valid sector.
    pub proof fn lemma_draw_ccc_from_complete(self)
        requires
            self.complete(),
        ensures
            valid_ccc_cards(ccc_drawn_tens(self), ccc_drawn_units(self)),
            forall|n: CccDeck| ccc_deck_after(self, n) ==> n.complete(),
    {
        lemma_draw_conserves_cards(self.tens_pile(), tens_cards(), TENS_SALT);
        lemma_draw_conserves_cards(units_pile_after_tens(self), units_cards(), UNITS_SALT);
        assert(self.units@ + self.units_discard@ == units_pile_after_tens(self).draw + units_pile_after_tens(self).discard);
    }
}

impl Default for CccDeck {
    /// The deck shuffled from seed 0.
    fn default() -> (d: CccDeck)
        ensures
            d.tens@ == splitmix_shuffle(tens_cards(), splitmix64_spec(0u64 ^ TENS_SALT)),
            d.units@ == splitmix_shuffle(
                units_cards(),
                splitmix64_spec(splitmix64_spec(0u64 ^ TENS_SALT) ^ UNITS_SALT),
            ),
            d.tens_discard@.len() == 0,
            d.units_discard@.len() == 0,
            d.complete(),
    {
        CccDeck::shuffled(0)
    }
}

} // verus!
