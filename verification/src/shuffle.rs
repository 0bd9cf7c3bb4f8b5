//! Seeded Fisher-Yates shuffles and the permutation facts they keep.
use vstd::prelude::*;
use vstd::wrapping::u64_specs;

verus! {

broadcast use vstd::seq_lib::group_to_multiset_ensures;

/// The sequence with the entries at `i` and `j` exchanged.
pub open spec fn swap_at<A>(s: Seq<A>, i: int, j: int) -> Seq<A> {
    s.update(i, s[j]).update(j, s[i])
}

pub proof fn lemma_swap_multiset<A>(s: Seq<A>, i: int, j: int)
    requires
        0 <= i < s.len(),
        0 <= j < s.len(),
    ensures
        swap_at(s, i, j).to_multiset() == s.to_multiset(),
        swap_at(s, i, j).len() == s.len(),
{
    broadcast use vstd::multiset::group_multiset_axioms;

    let s1 = s.update(i, s[j]);
    assert(s1.to_multiset() == s.to_multiset().insert(s[j]).remove(s[i]));
    assert(s1[j] == (if i == j { s[j] } else { s[j] }));
    assert(swap_at(s, i, j).to_multiset() == s1.to_multiset().insert(s[i]).remove(s1[j]));
    assert(swap_at(s, i, j).to_multiset() =~= s.to_multiset());
}

/// SplitMix64 step.
pub open spec fn splitmix64_spec(value: u64) -> u64 {
    let v = u64_specs::wrapping_add(value, 0x9E37_79B9_7F4A_7C15);
    let z1 = u64_specs::wrapping_mul(v ^ (v >> 30u64), 0xBF58_476D_1CE4_E5B9);
    let z2 = u64_specs::wrapping_mul(z1 ^ (z1 >> 27u64), 0x94D0_49BB_1331_11EB);
    z2 ^ (z2 >> 31u64)
}

pub fn splitmix64(value: u64) -> (r: u64)
    ensures
        r == splitmix64_spec(value),
{
    let v = value.wrapping_add(0x9E37_79B9_7F4A_7C15);
    let mut z = v;
    z = (z ^ (z >> 30)).wrapping_mul(0xBF58_476D_1CE4_E5B9);
    z = (z ^ (z >> 27)).wrapping_mul(0x94D0_49BB_1331_11EB);
    z ^ (z >> 31)
}

/// Fisher-Yates from index `i` down to 1, each step drawing a SplitMix64 value.
pub open spec fn splitmix_shuffle_from<A>(s: Seq<A>, state: u64, i: nat) -> Seq<A>
    decreases i,
{
    if i == 0 {
        s
    } else {
        let st = splitmix64_spec(state);
        let j = ((st as usize) % ((i + 1) as usize)) as int;
        splitmix_shuffle_from(swap_at(s, i as int, j), st, (i - 1) as nat)
    }
}

/// The SplitMix64 Fisher-Yates shuffle of a sequence under a seed.
pub open spec fn splitmix_shuffle<A>(s: Seq<A>, seed: u64) -> Seq<A> {
    if s.len() <= 1 { s } else { splitmix_shuffle_from(s, seed, (s.len() - 1) as nat) }
}

proof fn lemma_mod_bound(x: usize, m: usize)
    requires
        m > 0,
    ensures
        x % m < m,
{
}

pub proof fn lemma_splitmix_shuffle_from_perm<A>(s: Seq<A>, state: u64, i: nat)
    requires
        i < s.len() <= usize::MAX,
    ensures
        splitmix_shuffle_from(s, state, i).to_multiset() == s.to_multiset(),
        splitmix_shuffle_from(s, state, i).len() == s.len(),
    decreases i,
{
    if i > 0 {
        let st = splitmix64_spec(state);
        let j = ((st as usize) % ((i + 1) as usize)) as int;
        lemma_mod_bound(st as usize, (i + 1) as usize);
        lemma_swap_multiset(s, i as int, j);
        lemma_splitmix_shuffle_from_perm(swap_at(s, i as int, j), st, (i - 1) as nat);
    }
}

/// A shuffle is a permutation.
pub proof fn lemma_splitmix_shuffle_perm<A>(s: Seq<A>, seed: u64)
    requires
        s.len() <= usize::MAX,
    ensures
        splitmix_shuffle(s, seed).to_multiset() == s.to_multiset(),
        splitmix_shuffle(s, seed).len() == s.len(),
{
    if s.len() > 1 {
        lemma_splitmix_shuffle_from_perm(s, seed, (s.len() - 1) as nat);
    }
}

/// Shuffles the cards in place with the SplitMix64 Fisher-Yates shuffle.
pub fn shuffle(cards: &mut Vec<u8>, seed: u64)
    ensures
        final(cards)@ == splitmix_shuffle(old(cards)@, seed),
{
    let n = cards.len();
    if n <= 1 {
        return;
    }
    let mut state = seed;
    let mut i: usize = n - 1;
    while i >= 1
        invariant
            cards@.len() == n,
            n >= 2,
            i < n,
            splitmix_shuffle(old(cards)@, seed) == splitmix_shuffle_from(cards@, state, i as nat),
        decreases i,
    {
        state = splitmix64(state);
        let j = (state as usize) % (i + 1);
        let a = cards[i];
        let b = cards[j];
        cards.set(i, b);
        cards.set(j, a);
        i = i - 1;
    }
}

/// Linear congruential step used by the event deck.
pub open spec fn lcg_step(state: u64) -> u64 {
    u64_specs::wrapping_add(u64_specs::wrapping_mul(state, 6364136223846793005), 1)
}

/// Fisher-Yates from index `i` down to 1, each step drawing an LCG value.
pub open spec fn lcg_shuffle_from<A>(s: Seq<A>, state: u64, i: nat) -> Seq<A>
    decreases i,
{
    if i == 0 {
        s
    } else {
        let st = lcg_step(state);
        let j = (((st >> 33u64) as usize) % ((i + 1) as usize)) as int;
        lcg_shuffle_from(swap_at(s, i as int, j), st, (i - 1) as nat)
    }
}

pub open spec fn lcg_shuffle<A>(s: Seq<A>, state: u64) -> Seq<A> {
    if s.len() <= 1 { s } else { lcg_shuffle_from(s, state, (s.len() - 1) as nat) }
}

pub proof fn lemma_lcg_shuffle_from_perm<A>(s: Seq<A>, state: u64, i: nat)
    requires
        i < s.len() <= usize::MAX,
    ensures
        lcg_shuffle_from(s, state, i).to_multiset() == s.to_multiset(),
        lcg_shuffle_from(s, state, i).len() == s.len(),
    decreases i,
{
    if i > 0 {
        let st = lcg_step(state);
        let j = (((st >> 33u64) as usize) % ((i + 1) as usize)) as int;
        lemma_mod_bound((st >> 33u64) as usize, (i + 1) as usize);
        lemma_swap_multiset(s, i as int, j);
        lemma_lcg_shuffle_from_perm(swap_at(s, i as int, j), st, (i - 1) as nat);
    }
}

pub proof fn lemma_lcg_shuffle_perm<A>(s: Seq<A>, state: u64)
    requires
        s.len() <= usize::MAX,
    ensures
        lcg_shuffle(s, state).to_multiset() == s.to_multiset(),
        lcg_shuffle(s, state).len() == s.len(),
{
    if s.len() > 1 {
        lemma_lcg_shuffle_from_perm(s, state, (s.len() - 1) as nat);
    }
}

} // verus!
