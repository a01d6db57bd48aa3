use vstd::arithmetic::div_mod::lemma_small_mod;
use vstd::prelude::*;

use super::period::law_every_state_is_reached;
use super::xorshift::{iterate, lemma_iterate_zero};

verus! {

/// The index that a generator state stands for in a list of `len` entries.
pub open spec fn index_of(state: u64, len: usize) -> usize {
    ((state as usize) % len) as usize
}

/// The draw after `n` steps from `state`.
pub open spec fn draw(state: u64, len: usize, n: nat) -> usize {
    index_of(iterate(state, n), len)
}

/// The `n`-th draw is the first one that differs from `current`.
pub open spec fn settles(state: u64, len: usize, current: Option<usize>, n: nat) -> bool {
    &&& n >= 1
    &&& Some(draw(state, len, n)) != current
    &&& forall|m: nat| 1 <= m < n ==> Some(#[trigger] draw(state, len, m)) == current
}

/// The number of draws it takes to get away from `current`.
pub open spec fn draws_needed(state: u64, len: usize, current: Option<usize>) -> nat {
    choose|n: nat| settles(state, len, current, n)
}

/// Some draw differs from `current`: only the zero state draws nothing but the
/// first entry.
pub open spec fn can_draw_other(state: u64, current: Option<usize>) -> bool {
    state != 0 || current != Some(0usize)
}

proof fn lemma_first_other_draw(state: u64, len: usize, current: Option<usize>, n: nat)
    requires
        n >= 1,
        Some(draw(state, len, n)) != current,
    ensures
        exists|k: nat| settles(state, len, current, k),
    decreases n,
{
    if forall|m: nat| 1 <= m < n ==> Some(#[trigger] draw(state, len, m)) == current {
        assert(settles(state, len, current, n));
    } else {
        let m = choose|m: nat| 1 <= m < n && Some(#[trigger] draw(state, len, m)) != current;
        lemma_first_other_draw(state, len, current, m);
    }
}

/// Drawing ends: whatever entry is current in a list of two or more, every
/// nonzero state leads to a draw that differs from it, and exactly one draw is
/// the first to do so.
pub proof fn law_drawing_ends(state: u64, len: usize, current: Option<usize>)
    requires
        can_draw_other(state, current),
        len >= 2,
    ensures
        settles(state, len, current, draws_needed(state, len, current)),
        forall|n: nat| #[trigger]
            settles(state, len, current, n) ==> n == draws_needed(state, len, current),
{
    if state == 0 {
        lemma_iterate_zero(1);
        lemma_small_mod(0, len as nat);
        assert(0u64 as usize == 0usize);
        assert(draw(state, len, 1) == 0);
        lemma_first_other_draw(state, len, current, 1);
    } else {
        law_every_state_is_reached(state, 1);
        law_every_state_is_reached(state, 2);
        let a = choose|n: nat| n >= 1 && #[trigger] iterate(state, n) == 1;
        let b = choose|n: nat| n >= 1 && #[trigger] iterate(state, n) == 2;
        assert(1u64 as usize == 1usize);
        assert(2u64 as usize == 2usize);
        lemma_small_mod(1, len as nat);
        if len > 2 {
            lemma_small_mod(2, len as nat);
        }
        assert(draw(state, len, a) == 1);
        assert(draw(state, len, b) == if len == 2 {
            0usize
        } else {
            2usize
        });
        if Some(draw(state, len, a)) != current {
            lemma_first_other_draw(state, len, current, a);
        } else {
            lemma_first_other_draw(state, len, current, b);
        }
    }
    let k = draws_needed(state, len, current);
    assert forall|n: nat| #[trigger] settles(state, len, current, n) implies n == k by {
        if n < k {
            assert(Some(draw(state, len, n)) == current);
        } else if k < n {
            assert(Some(draw(state, len, k)) == current);
        }
    }
}

} // verus!
