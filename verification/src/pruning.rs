//! Keeping a memory store within its item budget: which items go when it is full.
//!
//! The store orders its items from least to most relevant; long-term items are
//! never dropped, and the least relevant of the others go first.

use vstd::prelude::*;

verus! {

/// The number of items the store may keep when `reserve` places must stay free:
/// `max_items - reserve`, or none when the reserve is larger.
pub open spec fn prune_target(max_items: nat, reserve: nat) -> nat {
    if max_items >= reserve {
        (max_items - reserve) as nat
    } else {
        0
    }
}

/// The positions, in order, of the entries of `long_term[..i]` that are not long-term.
pub open spec fn short_term_positions(long_term: Seq<bool>, i: int) -> Seq<int>
    decreases i,
{
    if i <= 0 {
        Seq::empty()
    } else if long_term[i - 1] {
        short_term_positions(long_term, i - 1)
    } else {
        short_term_positions(long_term, i - 1).push(i - 1)
    }
}

/// The positions to drop from a store whose items, ordered from least to most
/// relevant, are long-term as `long_term` says: nothing when the store holds at
/// most `prune_target(max_items, reserve)` items; else the first of the items that
/// are not long-term, as many as the store is over that target (fewer when there
/// are not that many).
pub open spec fn pruned_positions(long_term: Seq<bool>, max_items: nat, reserve: nat) -> Seq<int> {
    let target = prune_target(max_items, reserve);
    let short = short_term_positions(long_term, long_term.len() as int);
    if long_term.len() <= target {
        Seq::empty()
    } else if short.len() <= long_term.len() - target {
        short
    } else {
        short.take(long_term.len() - target)
    }
}

/// The positions, in the store's order from least to most relevant, of the items
/// to drop so that the store keeps at most `max_items - reserve` items, long-term
/// items excepted (see `pruned_positions`).
pub fn prune_positions(long_term: &Vec<bool>, max_items: usize, reserve: usize) -> (r: Vec<usize>)
    ensures
        r@.len() == pruned_positions(long_term@, max_items as nat, reserve as nat).len(),
        forall|k: int| 0 <= k < r@.len() ==> r@[k] as int == #[trigger] pruned_positions(
            long_term@,
            max_items as nat,
            reserve as nat,
        )[k],
{
    let target = if max_items >= reserve { max_items - reserve } else { 0 };
    let n = long_term.len();
    let mut r: Vec<usize> = Vec::new();
    if n <= target {
        return r;
    }
    let over = n - target;
    let mut i: usize = 0;
    while i < n && r.len() < over
        invariant
            n == long_term@.len(),
            i <= n,
            r@.len() <= over,
            r@.len() == short_term_positions(long_term@, i as int).len(),
            forall|k: int| 0 <= k < r@.len() ==> r@[k] as int == #[trigger] short_term_positions(
                long_term@,
                i as int,
            )[k],
        decreases n - i,
    {
        if !long_term[i] {
            r.push(i);
        }
        i = i + 1;
        proof {
            assert forall|k: int| 0 <= k < r@.len() implies r@[k] as int
                == #[trigger] short_term_positions(long_term@, i as int)[k] by {}
        }
    }
    proof {
        lemma_short_positions_prefix(long_term@, i as int, n as int);
        let s = short_term_positions(long_term@, n as int);
        let p = pruned_positions(long_term@, max_items as nat, reserve as nat);
        if r@.len() < over {
            assert(i == n);
            assert(p == s);
        } else {
            assert(p == s.take(over as int));
        }
    }
    r
}

/// The short-term positions found in a prefix are the first ones found in the
/// whole: scanning further only appends.
proof fn lemma_short_positions_prefix(long_term: Seq<bool>, i: int, j: int)
    requires
        0 <= i <= j <= long_term.len(),
    ensures
        short_term_positions(long_term, i).len() <= short_term_positions(long_term, j).len(),
        forall|k: int| 0 <= k < short_term_positions(long_term, i).len()
            ==> #[trigger] short_term_positions(long_term, j)[k] == short_term_positions(long_term, i)[k],
    decreases j - i,
{
    if i < j {
        lemma_short_positions_prefix(long_term, i, j - 1);
    }
}

/// The positions of non-long-term entries are in range, increasing, and name
/// entries that are not long-term.
proof fn lemma_short_positions_valid(long_term: Seq<bool>, i: int)
    requires
        0 <= i <= long_term.len(),
    ensures
        short_term_positions(long_term, i).len() <= i,
        forall|k: int| 0 <= k < short_term_positions(long_term, i).len() ==> {
            let p = #[trigger] short_term_positions(long_term, i)[k];
            0 <= p < i && !long_term[p]
        },
        forall|a: int, b: int| 0 <= a < b < short_term_positions(long_term, i).len()
            ==> short_term_positions(long_term, i)[a] < short_term_positions(long_term, i)[b],
    decreases i,
{
    if i > 0 {
        lemma_short_positions_valid(long_term, i - 1);
    }
}

/// Pruning never drops a long-term item, drops each item at most once, and leaves
/// the store within `max_items - reserve` items whenever enough of its items are
/// not long-term; when the store is already within that number it drops nothing.
pub proof fn lemma_pruning_keeps_budget(long_term: Seq<bool>, max_items: nat, reserve: nat)
    ensures
        ({
            let p = pruned_positions(long_term, max_items, reserve);
            let target = prune_target(max_items, reserve);
            &&& forall|k: int| 0 <= k < p.len() ==> 0 <= #[trigger] p[k] < long_term.len() && !long_term[p[k]]
            &&& forall|a: int, b: int| 0 <= a < b < p.len() ==> p[a] < p[b]
            &&& long_term.len() <= target ==> p.len() == 0
            &&& long_term.len() > target && short_term_positions(long_term, long_term.len() as int).len()
                >= long_term.len() - target ==> long_term.len() - p.len() == target
        }),
{
    lemma_short_positions_valid(long_term, long_term.len() as int);
}

} // verus!
