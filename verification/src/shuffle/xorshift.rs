use vstd::prelude::*;

verus! {

/// One step of the 64-bit xorshift generator with shifts 13, 7 and 17.
pub open spec fn step(x: u64) -> u64 {
    let a = x ^ (x << 13);
    let b = a ^ (a >> 7);
    b ^ (b << 17)
}

/// The state reached from `x` after `n` steps.
pub open spec fn iterate(x: u64, n: nat) -> u64
    decreases n,
{
    if n == 0 {
        x
    } else {
        step(iterate(x, (n - 1) as nat))
    }
}

/// Computes one step of the generator.
pub fn advance(x: u64) -> (next: u64)
    ensures
        next == step(x),
{
    let a: u64 = x ^ (x << 13);
    let b: u64 = a ^ (a >> 7);
    b ^ (b << 17)
}

/// Walking `m` steps and then `n` more is walking `m + n` steps.
pub proof fn lemma_iterate_add(x: u64, m: nat, n: nat)
    ensures
        iterate(iterate(x, m), n) == iterate(x, m + n),
    decreases n,
{
    if n > 0 {
        lemma_iterate_add(x, m, (n - 1) as nat);
        assert(iterate(x, m + n) == step(iterate(x, (m + n - 1) as nat)));
    }
}

/// A step is linear over exclusive or.
pub proof fn lemma_step_linear(x: u64, y: u64)
    ensures
        step(x ^ y) == step(x) ^ step(y),
        step(0) == 0,
{
    assert(step(x ^ y) == step(x) ^ step(y)) by (bit_vector);
    assert(step(0) == 0) by (bit_vector);
}

/// The zero state only leads to itself.
pub proof fn lemma_iterate_zero(n: nat)
    ensures
        iterate(0, n) == 0,
    decreases n,
{
    if n > 0 {
        lemma_iterate_zero((n - 1) as nat);
        lemma_step_linear(0, 0);
    }
}

} // verus!
