//! The tally accumulator and its three phases, as the network evaluates them
//! on decrypted values: Initialize, Apply and Reveal.

use vstd::prelude::*;

verus! {

/// Number of counters in the accumulator.
pub const MAX_OPTIONS: usize = 8;

/// A ballot: the index of the chosen option.
#[derive(Clone, Copy, Debug, PartialEq, Eq, Structural)]
pub struct VoteInput {
    pub option: u8,
}

/// The accumulator: one 64-bit counter per option slot.
#[derive(Clone, Copy, Debug)]
pub struct TallyState {
    pub counts: [u64; 8],
}

/// `x + 1`, wrapping to zero past the largest counter.
pub open spec fn wrapping_inc(x: u64) -> u64 {
    if x == u64::MAX {
        0
    } else {
        (x + 1) as u64
    }
}

/// The counters after one ballot for `option`: that slot goes up by one and
/// the others keep their values; a selector past the last slot changes nothing.
pub open spec fn applied(counts: Seq<u64>, option: u8) -> Seq<u64> {
    Seq::new(
        counts.len(),
        |j: int|
            if j == option as int {
                wrapping_inc(counts[j])
            } else {
                counts[j]
            },
    )
}

/// Eight zero counters.
pub open spec fn zero_counts() -> Seq<u64> {
    Seq::new(MAX_OPTIONS as nat, |j: int| 0u64)
}

/// The counters after applying `votes`, in order, to zero counters.
pub open spec fn tally_of(votes: Seq<u8>) -> Seq<u64>
    decreases votes.len(),
{
    if votes.len() == 0 {
        zero_counts()
    } else {
        applied(tally_of(votes.drop_last()), votes.last())
    }
}

/// How many of `votes` select slot `k`.
pub open spec fn count_of(votes: Seq<u8>, k: int) -> nat
    decreases votes.len(),
{
    if votes.len() == 0 {
        0
    } else {
        count_of(votes.drop_last(), k) + if votes.last() as int == k {
            1nat
        } else {
            0nat
        }
    }
}

impl TallyState {
    /// A tally with every counter at zero.
    pub fn zero() -> (r: Self)
        ensures
            r.counts@ == zero_counts(),
    {
        let r = TallyState { counts: [0u64; 8] };
        assert(r.counts@ =~= zero_counts());
        r
    }
}

/// Initialize: takes the tally as the creator supplied it and hands it on
/// under the network's key, with the counters unchanged. Starting from zero
/// is the caller's policy, not enforced here.
pub fn init_tally(tally: TallyState) -> (r: TallyState)
    ensures
        r == tally,
{
    let r = TallyState { counts: tally.counts };
    r
}

proof fn lemma_fold_low_bit(d0: u64, d1: u64, d2: u64, d3: u64, d4: u64, d5: u64, d6: u64)
    requires
        d1 == d0 | (d0 >> 32u64),
        d2 == d1 | (d1 >> 16u64),
        d3 == d2 | (d2 >> 8u64),
        d4 == d3 | (d3 >> 4u64),
        d5 == d4 | (d4 >> 2u64),
        d6 == d5 | (d5 >> 1u64),
    ensures
        (d6 & 1u64) == 0u64 <==> d0 == 0u64,
{
    assert((d6 & 1u64) == 0u64 <==> d0 == 0u64) by (bit_vector)
        requires
            d1 == d0 | (d0 >> 32u64),
            d2 == d1 | (d1 >> 16u64),
            d3 == d2 | (d2 >> 8u64),
            d4 == d3 | (d3 >> 4u64),
            d5 == d4 | (d4 >> 2u64),
            d6 == d5 | (d5 >> 1u64),
    ;
}

/// 1 when `a == b`, else 0, computed with bit operations only: the
/// differences are folded into the lowest bit, which is then flipped.
fn eq_bit(a: u64, b: u64) -> (r: u64)
    ensures
        r == if a == b {
            1u64
        } else {
            0u64
        },
{
    let d0 = a ^ b;
    let d1 = d0 | (d0 >> 32u64);
    let d2 = d1 | (d1 >> 16u64);
    let d3 = d2 | (d2 >> 8u64);
    let d4 = d3 | (d3 >> 4u64);
    let d5 = d4 | (d4 >> 2u64);
    let d6 = d5 | (d5 >> 1u64);
    let low = d6 & 1u64;
    let r = low ^ 1u64;
    proof {
        lemma_fold_low_bit(d0, d1, d2, d3, d4, d5, d6);
        assert(d0 == 0u64 <==> a == b) by (bit_vector)
            requires
                d0 == a ^ b,
        ;
        assert(low == 0u64 || low == 1u64) by (bit_vector)
            requires
                low == d6 & 1u64,
        ;
        assert(low == 0u64 ==> r == 1u64) by (bit_vector)
            requires
                r == low ^ 1u64,
        ;
        assert(low == 1u64 ==> r == 0u64) by (bit_vector)
            requires
                r == low ^ 1u64,
        ;
    }
    r
}

/// Apply: adds one ballot. Every slot is visited and incremented by the
/// outcome of comparing it with the selector, so the work done does not
/// depend on which option was chosen.
pub fn apply_vote(vote: VoteInput, tally: TallyState) -> (r: TallyState)
    ensures
        r.counts@ == applied(tally.counts@, vote.option),
{
    let mut counts = tally.counts;
    let selector = vote.option as usize;
    let mut j: usize = 0;
    while j < MAX_OPTIONS
        invariant
            j <= MAX_OPTIONS,
            selector == vote.option as usize,
            counts@.len() == MAX_OPTIONS,
            forall|k: int|
                0 <= k < MAX_OPTIONS ==> #[trigger] counts@[k] == if k < j {
                    applied(tally.counts@, vote.option)[k]
                } else {
                    tally.counts@[k]
                },
        decreases MAX_OPTIONS - j,
    {
        let hit = eq_bit(selector as u64, j as u64);
        let before = counts[j];
        let after = before.wrapping_add(hit);
        assert(before == tally.counts@[j as int]);
        assert(after == applied(tally.counts@, vote.option)[j as int]);
        counts[j] = after;
        j = j + 1;
    }
    let r = TallyState { counts };
    assert(r.counts@ =~= applied(tally.counts@, vote.option));
    r
}

/// Reveal: the eight counters in plaintext. Slots past a proposal's option
/// count stay zero and are the caller's to drop.
pub fn reveal_tally(tally: TallyState) -> (r: [u64; 8])
    ensures
        r@ == tally.counts@,
{
    tally.counts
}

/// Applying a ballot keeps eight counters.
proof fn lemma_tally_len(votes: Seq<u8>)
    ensures
        tally_of(votes).len() == MAX_OPTIONS,
    decreases votes.len(),
{
    if votes.len() > 0 {
        lemma_tally_len(votes.drop_last());
    }
}

pub proof fn lemma_count_bounded(votes: Seq<u8>, k: int)
    ensures
        count_of(votes, k) <= votes.len(),
    decreases votes.len(),
{
    if votes.len() > 0 {
        lemma_count_bounded(votes.drop_last(), k);
    }
}

/// Reveal after Initialize with zero counters and Apply of each of `votes`
/// gives, in each slot, the number of ballots that chose it, as long as there
/// are fewer ballots than a counter can hold.
pub proof fn lemma_reveal_counts(votes: Seq<u8>)
    requires
        votes.len() <= u64::MAX,
    ensures
        tally_of(votes).len() == MAX_OPTIONS,
        forall|j: int| 0 <= j < MAX_OPTIONS ==> #[trigger] tally_of(votes)[j] == count_of(votes, j),
    decreases votes.len(),
{
    lemma_tally_len(votes);
    if votes.len() > 0 {
        let rest = votes.drop_last();
        lemma_reveal_counts(rest);
        assert forall|j: int| 0 <= j < MAX_OPTIONS implies #[trigger] tally_of(votes)[j]
            == count_of(votes, j) by {
            lemma_count_bounded(rest, j);
        }
    }
}

/// `n` ballots, all for slot `k`.
pub open spec fn repeated(k: u8, n: nat) -> Seq<u8> {
    Seq::new(n, |i: int| k)
}

/// Applying `n` ballots for slot `k` to zero counters and revealing gives `n`
/// in slot `k` and zero everywhere else.
pub proof fn lemma_reveal_repeated_vote(k: u8, n: nat)
    requires
        n <= u64::MAX,
    ensures
        forall|j: int|
            0 <= j < MAX_OPTIONS ==> #[trigger] tally_of(repeated(k, n))[j] == if j
                == k as int {
                n
            } else {
                0
            },
    decreases n,
{
    let votes = repeated(k, n);
    lemma_reveal_counts(votes);
    lemma_count_repeated(k, n);
}

proof fn lemma_count_repeated(k: u8, n: nat)
    ensures
        forall|j: int|
            #[trigger] count_of(repeated(k, n), j) == if j == k as int {
                n
            } else {
                0
            },
    decreases n,
{
    if n > 0 {
        lemma_count_repeated(k, (n - 1) as nat);
        assert(repeated(k, n).drop_last() =~= repeated(k, (n - 1) as nat));
        assert(repeated(k, n).last() == k);
        assert forall|j: int|
            #[trigger] count_of(repeated(k, n), j) == if j == k as int {
                n
            } else {
                0
            } by {
            assert(count_of(repeated(k, n), j) == count_of(repeated(k, (n - 1) as nat), j) + if k
                as int == j {
                1nat
            } else {
                0nat
            });
        }
    }
}

} // verus!
