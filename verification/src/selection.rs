//! Winner selection: deriving an index into the participant list from a seed.
//!
//! The seed is the block timestamp the host supplies. That is a manipulable
//! entropy source — whoever proposes the block containing the triggering
//! transaction can influence it. This is a documented weakness of the design,
//! kept as-is; the policies here are deterministic in (seed, count) so that
//! host execution stays replay-deterministic.

use vstd::prelude::*;
use vstd::arithmetic::div_mod::lemma_mod_division_less_than_divisor;

verus! {

/// How the winner's index is derived from the seed and the participant count.
#[derive(Clone, Copy, PartialEq, Eq, Debug)]
pub enum SelectionPolicy {
    /// The canonical policy: Fisher–Yates-shuffle the index range with swap
    /// partners drawn from the seed, then pick position `seed % count` of the
    /// shuffled range. Mixes the seed across more output bits than a bare
    /// modulo.
    Shuffle,
    /// The degraded mode: index = `seed % count`. Biased toward the low-order
    /// bits of the seed and trivially predictable; supported but not preferred.
    DirectModulo,
}

/// The ascending sequence `start, start + 1, ..., end`.
pub open spec fn range_seq(start: u32, end: u32) -> Seq<u32>
    recommends
        start <= end,
{
    Seq::new((end - start + 1) as nat, |i: int| (start + i) as u32)
}

/// `s` with the items at positions `i` and `j` exchanged.
pub open spec fn swapped(s: Seq<u32>, i: int, j: int) -> Seq<u32>
    recommends
        0 <= i < s.len(),
        0 <= j < s.len(),
{
    s.update(i, s[j]).update(j, s[i])
}

/// The state of `s` after the Fisher–Yates passes at positions
/// `s.len() - 1` down to `i`: each position `k`, taken in decreasing order,
/// is exchanged with position `seed % (k + 1)`.
pub open spec fn shuffled_from(s: Seq<u32>, seed: u32, i: int) -> Seq<u32>
    decreases s.len() - i,
{
    if 1 <= i < s.len() {
        swapped(shuffled_from(s, seed, i + 1), i, (seed as int) % (i + 1))
    } else {
        s
    }
}

/// The full Fisher–Yates shuffle of `s` under `seed`: passes at positions
/// `s.len() - 1` down to `1`.
pub open spec fn shuffled(s: Seq<u32>, seed: u32) -> Seq<u32> {
    shuffled_from(s, seed, 1)
}

/// The value the Shuffle policy picks from the range `[start, end]`:
/// position `seed % (end - start + 1)` of the shuffled range.
pub open spec fn selected_from_range(start: u32, end: u32, seed: u32) -> int
    recommends
        start <= end,
{
    shuffled(range_seq(start, end), seed)[(seed as int) % (end - start + 1)] as int
}

/// The winner's index among `n` participants, under `policy` and `seed`.
pub open spec fn winner_index_spec(policy: SelectionPolicy, n: int, seed: u32) -> int
    recommends
        0 < n <= u32::MAX,
{
    match policy {
        SelectionPolicy::Shuffle => selected_from_range(0, (n - 1) as u32, seed),
        SelectionPolicy::DirectModulo => (seed as int) % n,
    }
}

/// Shuffling keeps the length, and every item stays within any bounds that
/// held of all input items.
pub proof fn lemma_shuffled_from_bounds(s: Seq<u32>, seed: u32, i: int, lo: u32, hi: u32)
    requires
        forall|k: int| 0 <= k < s.len() ==> lo <= #[trigger] s[k] <= hi,
    ensures
        shuffled_from(s, seed, i).len() == s.len(),
        forall|k: int|
            0 <= k < s.len() ==> lo <= #[trigger] shuffled_from(s, seed, i)[k] <= hi,
    decreases s.len() - i,
{
    if 1 <= i < s.len() {
        lemma_shuffled_from_bounds(s, seed, i + 1, lo, hi);
        lemma_mod_division_less_than_divisor(seed as int, i + 1);
    }
}

/// Exchanging two items leaves the bag of items unchanged.
proof fn lemma_swapped_to_multiset(s: Seq<u32>, i: int, j: int)
    requires
        0 <= i < s.len(),
        0 <= j < s.len(),
    ensures
        swapped(s, i, j).to_multiset() == s.to_multiset(),
{
    broadcast use vstd::seq_lib::group_to_multiset_ensures;

    let t = s.update(i, s[j]);
    vstd::seq_lib::to_multiset_update(s, i, s[j]);
    vstd::seq_lib::to_multiset_update(t, j, s[i]);
    assert(s.contains(s[i]));
    assert(s.contains(s[j]));
    assert(swapped(s, i, j).to_multiset() =~= s.to_multiset());
}

/// Law: the Fisher–Yates shuffle is a permutation — the shuffled sequence
/// holds exactly the items of the input, multiplicities included.
pub proof fn lemma_shuffled_is_permutation(s: Seq<u32>, seed: u32)
    ensures
        shuffled(s, seed).to_multiset() == s.to_multiset(),
{
    lemma_shuffled_from_permutes(s, seed, 1);
}

proof fn lemma_shuffled_from_permutes(s: Seq<u32>, seed: u32, i: int)
    ensures
        shuffled_from(s, seed, i).to_multiset() == s.to_multiset(),
    decreases s.len() - i,
{
    broadcast use vstd::seq_lib::group_to_multiset_ensures;

    if 1 <= i < s.len() {
        lemma_shuffled_from_permutes(s, seed, i + 1);
        let t = shuffled_from(s, seed, i + 1);
        assert(t.len() == t.to_multiset().len());
        lemma_mod_division_less_than_divisor(seed as int, i + 1);
        lemma_swapped_to_multiset(t, i, (seed as int) % (i + 1));
    }
}

/// Builds the sequence `[start, ..., end]` and shuffles it in place under
/// `seed`, exactly as `shuffled` describes.
pub fn shuffle_span(start: u32, end: u32, seed: u32) -> (r: Vec<u32>)
    requires
        start <= end,
        end - start < u32::MAX,
    ensures
        r@ == shuffled(range_seq(start, end), seed),
        r@.len() == end - start + 1,
        forall|k: int| 0 <= k < r@.len() ==> start <= #[trigger] r@[k] <= end,
{
    let n: u32 = end - start + 1;
    let mut items: Vec<u32> = Vec::new();
    let mut i: u32 = 0;
    while i < n
        invariant
            i <= n,
            n == end - start + 1,
            start <= end,
            items@.len() == i as int,
            forall|k: int| 0 <= k < i as int ==> #[trigger] items@[k] == start + k,
        decreases n - i,
    {
        items.push(start + i);
        i = i + 1;
    }
    proof {
        assert(items@ =~= range_seq(start, end));
    }
    let len: usize = items.len();
    let mut pos: usize = len;
    while pos > 1
        invariant
            1 <= pos <= len,
            len == n as usize,
            n == end - start + 1,
            start <= end,
            items@.len() == len as int,
            items@ == shuffled_from(range_seq(start, end), seed, pos as int),
        decreases pos,
    {
        pos = pos - 1;
        let j: usize = (seed % (pos as u32 + 1)) as usize;
        proof {
            lemma_mod_division_less_than_divisor(seed as int, pos as int + 1);
        }
        let a: u32 = items[pos];
        let b: u32 = items[j];
        items.set(pos, b);
        items.set(j, a);
        proof {
            assert(items@ == swapped(
                shuffled_from(range_seq(start, end), seed, pos as int + 1),
                pos as int,
                (seed as int) % (pos as int + 1),
            ));
        }
    }
    proof {
        assert(forall|k: int|
            0 <= k < range_seq(start, end).len()
                ==> start <= #[trigger] range_seq(start, end)[k] <= end);
        lemma_shuffled_from_bounds(range_seq(start, end), seed, 1, start, end);
    }
    items
}

/// The winner's index among `n` participants: in `[0, n)`, and exactly what
/// `winner_index_spec` says for the chosen policy.
pub fn winner_index(policy: SelectionPolicy, n: usize, seed: u32) -> (r: usize)
    requires
        0 < n <= u32::MAX,
    ensures
        r == winner_index_spec(policy, n as int, seed),
        r < n,
{
    match policy {
        SelectionPolicy::Shuffle => {
            let end: u32 = (n as u32) - 1;
            let shuffled_items = shuffle_span(0, end, seed);
            let idx: usize = (seed % (end + 1)) as usize;
            proof {
                lemma_mod_division_less_than_divisor(seed as int, end as int + 1);
            }
            let v: u32 = shuffled_items[idx];
            v as usize
        },
        SelectionPolicy::DirectModulo => {
            proof {
                lemma_mod_division_less_than_divisor(seed as int, n as int);
            }
            (seed as usize) % n
        },
    }
}

/// Law: winner selection is deterministic. Two states with the same
/// participants and the same seed select the same winner index — under either
/// policy, with no hidden randomness — and that index always designates a
/// position in the participant sequence.
pub proof fn lemma_selection_deterministic(
    policy: SelectionPolicy,
    participants1: Seq<crate::Address>,
    participants2: Seq<crate::Address>,
    seed1: u32,
    seed2: u32,
)
    requires
        participants1 == participants2,
        seed1 == seed2,
        0 < participants1.len() <= u32::MAX,
    ensures
        winner_index_spec(policy, participants1.len() as int, seed1) == winner_index_spec(
            policy,
            participants2.len() as int,
            seed2,
        ),
        0 <= winner_index_spec(policy, participants1.len() as int, seed1)
            < participants1.len(),
{
    let n = participants1.len() as int;
    match policy {
        SelectionPolicy::Shuffle => {
            let end: u32 = (n - 1) as u32;
            assert(forall|k: int|
                0 <= k < range_seq(0, end).len()
                    ==> 0 <= #[trigger] range_seq(0, end)[k] <= end);
            lemma_shuffled_from_bounds(range_seq(0, end), seed1, 1, 0, end);
            lemma_mod_division_less_than_divisor(seed1 as int, end as int + 1);
        },
        SelectionPolicy::DirectModulo => {
            lemma_mod_division_less_than_divisor(seed1 as int, n);
        },
    }
}

} // verus!
