use vstd::prelude::*;
use vstd::relations::injective_on;
use vstd::set_lib::{lemma_int_range, lemma_map_size, lemma_subset_equality, set_int_range};

use super::certificate::{lemma_cycle_closes, lemma_cycle_does_not_close_early};
use super::xorshift::{iterate, lemma_iterate_add, lemma_iterate_zero, step};

verus! {

/// The number of nonzero states, and the period of the generator.
pub open spec fn period() -> nat {
    0xffff_ffff_ffff_ffff
}

/// `q` has no divisor strictly between 1 and itself.
spec fn is_prime(q: nat) -> bool {
    &&& q >= 2
    &&& forall|r: nat| 2 <= r < q ==> #[trigger] (q % r) != 0
}

/// A number without divisors up to its square root is prime.
proof fn lemma_trial_division(q: nat, bound: nat)
    requires
        2 <= q < (bound + 1) * (bound + 1),
        forall|r: nat| 2 <= r <= bound && r < q ==> #[trigger] (q % r) != 0,
    ensures
        is_prime(q),
{
    assert forall|r: nat| 2 <= r < q implies #[trigger] (q % r) != 0 by {
        if r > bound && q % r == 0 {
            let c = q / r;
            assert(q == r * c && 2 <= c < q && c <= bound) by (nonlinear_arith)
                requires
                    2 <= r < q,
                    q % r == 0,
                    c == q / r,
                    r > bound,
                    q < (bound + 1) * (bound + 1),
            ;
            assert(q % c == 0) by (nonlinear_arith)
                requires
                    q == r * c,
                    c > 0,
            ;
        }
    }
}

proof fn lemma_primes()
    ensures
        is_prime(3),
        is_prime(5),
        is_prime(17),
        is_prime(257),
        is_prime(641),
        is_prime(65537),
        is_prime(6700417),
{
    assert forall|r: nat| 2 <= r <= 2588 implies #[trigger] (6700417nat % r) != 0 by {
        let s = r as u32;
        assert(6700417u32 % s != 0) by (bit_vector)
            requires
                2 <= s <= 2588,
        ;
    }
    assert forall|r: nat| 2 <= r <= 256 implies #[trigger] (65537nat % r) != 0 && 641nat % r != 0
        && (r < 257 ==> 257nat % r != 0) && (r < 17 ==> 17nat % r != 0) && (r < 5 ==> 5nat % r != 0)
        && (r < 3 ==> 3nat % r != 0) by {
        let s = r as u32;
        assert({
            &&& 65537u32 % s != 0
            &&& 641u32 % s != 0
            &&& s < 257 ==> 257u32 % s != 0
            &&& s < 17 ==> 17u32 % s != 0
            &&& s < 5 ==> 5u32 % s != 0
            &&& s < 3 ==> 3u32 % s != 0
        }) by (bit_vector)
            requires
                2 <= s <= 256,
        ;
    }
    assert((2588nat + 1) * (2588nat + 1) == 6702921) by (nonlinear_arith);
    assert((256nat + 1) * (256nat + 1) == 66049) by (nonlinear_arith);
    lemma_trial_division(6700417, 2588);
    lemma_trial_division(65537, 256);
    assert forall|r: nat| 2 <= r <= 256 implies #[trigger] (641nat % r) != 0 by {
        assert(65537nat % r != 0);
    }
    lemma_trial_division(641, 256);
    assert forall|r: nat| 2 <= r < 257 implies #[trigger] (257nat % r) != 0 by {
        assert(65537nat % r != 0);
    }
    assert forall|r: nat| 2 <= r < 17 implies #[trigger] (17nat % r) != 0 by {
        assert(65537nat % r != 0);
    }
    assert forall|r: nat| 2 <= r < 5 implies #[trigger] (5nat % r) != 0 by {
        assert(65537nat % r != 0);
    }
    assert forall|r: nat| 2 <= r < 3 implies #[trigger] (3nat % r) != 0 by {
        assert(65537nat % r != 0);
    }
}

/// If a prime divides `r * b` and `0 < r < q`, it divides `b`.
proof fn lemma_euclid_small(q: nat, r: nat, b: nat, k: nat) -> (c: nat)
    requires
        is_prime(q),
        0 < r < q,
        r * b == q * k,
    ensures
        b == q * c,
    decreases r,
{
    if r == 1 {
        assert(b == q * k) by (nonlinear_arith)
            requires
                r * b == q * k,
                r == 1,
        ;
        k
    } else {
        let s = q % r;
        let d = q / r;
        assert(s != 0);
        assert(q == r * d + s && s < r) by (nonlinear_arith)
            requires
                r > 0,
                s == q % r,
                d == q / r,
        ;
        let h = (b - d * k) as int;
        assert(s * b == q * h) by (nonlinear_arith)
            requires
                q == r * d + s,
                r * b == q * k,
                h == b - d * k,
        ;
        assert(h >= 0) by (nonlinear_arith)
            requires
                s * b == q * h,
                q > 0,
                s >= 0,
                b >= 0,
        ;
        lemma_euclid_small(q, s, b, h as nat)
    }
}

/// If a prime divides `a * b` but not `a`, it divides `b`.
proof fn lemma_euclid(q: nat, a: nat, b: nat, k: nat) -> (c: nat)
    requires
        is_prime(q),
        a % q != 0,
        a * b == q * k,
    ensures
        b == q * c,
{
    let r = a % q;
    let d = a / q;
    assert(a == q * d + r && 0 < r < q) by (nonlinear_arith)
        requires
            q > 0,
            r == a % q,
            d == a / q,
            r != 0,
    ;
    let h = (k - d * b) as int;
    assert(r * b == q * h) by (nonlinear_arith)
        requires
            a == q * d + r,
            a * b == q * k,
            h == k - d * b,
    ;
    assert(h >= 0) by (nonlinear_arith)
        requires
            r * b == q * h,
            q > 0,
            r >= 0,
            b >= 0,
    ;
    lemma_euclid_small(q, r, b, h as nat)
}

/// A prime that does not divide `m` can be cancelled from `m * k == q * n`.
proof fn lemma_cancel(q: nat, m: nat, k: nat, n: nat) -> (c: nat)
    requires
        is_prime(q),
        m % q != 0,
        m * k == q * n,
    ensures
        m * c == n,
{
    let c = lemma_euclid(q, m, k, n);
    assert(m * c == n) by (nonlinear_arith)
        requires
            k == q * c,
            m * k == q * n,
            q > 0,
    ;
    c
}

/// Every divisor of the period other than 1 has one of these prime factors.
proof fn lemma_divisor_has_factor(m: nat, k: nat)
    requires
        m * k == period(),
        m > 1,
    ensures
        ({
            ||| m % 3 == 0
            ||| m % 5 == 0
            ||| m % 17 == 0
            ||| m % 257 == 0
            ||| m % 641 == 0
            ||| m % 65537 == 0
            ||| m % 6700417 == 0
        }),
{
    lemma_primes();
    if m % 3 != 0 && m % 5 != 0 && m % 17 != 0 && m % 257 != 0 && m % 641 != 0 && m % 65537 != 0
        && m % 6700417 != 0 {
        let k = lemma_cancel(3, m, k, 6148914691236517205);
        let k = lemma_cancel(5, m, k, 1229782938247303441);
        let k = lemma_cancel(17, m, k, 72340172838076673);
        let k = lemma_cancel(257, m, k, 281479271743489);
        let k = lemma_cancel(641, m, k, 439125228929);
        let k = lemma_cancel(65537, m, k, 6700417);
        let k = lemma_cancel(6700417, m, k, 1);
        assert(m == 1) by (nonlinear_arith)
            requires
                m * k == 1,
                m > 0,
        ;
    }
}

/// If `k` steps from 1 come back to 1, so does every multiple of `k`.
proof fn lemma_multiples(k: nat, j: nat)
    requires
        iterate(1, k) == 1,
    ensures
        iterate(1, k * j) == 1,
    decreases j,
{
    if j > 0 {
        lemma_multiples(k, (j - 1) as nat);
        lemma_iterate_add(1, k * (j - 1) as nat, k);
        assert(k * (j - 1) as nat + k == k * j) by (nonlinear_arith)
            requires
                j > 0,
        ;
    } else {
        assert(k * 0 == 0);
    }
}

/// If `k` steps come back to 1 and `q` divides the cofactor of `k`, then so
/// do `period() / q` steps.
proof fn lemma_cofactor(k: nat, m: nat, q: nat, n: nat)
    requires
        iterate(1, k) == 1,
        k * m == period(),
        q > 0,
        m % q == 0,
        q * n == period(),
    ensures
        iterate(1, n) == 1,
{
    let j = m / q;
    assert(k * j == n) by (nonlinear_arith)
        requires
            q > 0,
            m % q == 0,
            j == m / q,
            k * m == q * n,
    ;
    lemma_multiples(k, j);
}

/// No shorter walk from 1 comes back to 1.
proof fn lemma_no_shorter_cycle(k: nat)
    requires
        0 < k < period(),
    ensures
        iterate(1, k) != 1,
    decreases k,
{
    if iterate(1, k) == 1 {
        let r = period() % k;
        let m = period() / k;
        assert(period() == k * m + r && r < k) by (nonlinear_arith)
            requires
                k > 0,
                r == period() % k,
                m == period() / k,
        ;
        lemma_cycle_closes();
        lemma_multiples(k, m);
        lemma_iterate_add(1, k * m, r);
        if r > 0 {
            lemma_no_shorter_cycle(r);
        } else {
            assert(m > 1) by (nonlinear_arith)
                requires
                    k * m == period(),
                    k < period(),
            ;
            assert(m * k == k * m) by (nonlinear_arith);
            lemma_divisor_has_factor(m, k);
            lemma_cycle_does_not_close_early();
            if m % 3 == 0 {
                lemma_cofactor(k, m, 3, 0x5555555555555555);
            } else if m % 5 == 0 {
                lemma_cofactor(k, m, 5, 0x3333333333333333);
            } else if m % 17 == 0 {
                lemma_cofactor(k, m, 17, 0xf0f0f0f0f0f0f0f);
            } else if m % 257 == 0 {
                lemma_cofactor(k, m, 257, 0xff00ff00ff00ff);
            } else if m % 641 == 0 {
                lemma_cofactor(k, m, 641, 0x663d80ff99c27f);
            } else if m % 65537 == 0 {
                lemma_cofactor(k, m, 65537, 0xffff0000ffff);
            } else {
                lemma_cofactor(k, m, 6700417, 0x280fffffd7f);
            }
        }
    }
}

/// The walk from 1 repeats after `period()` steps.
proof fn lemma_periodic(n: nat)
    ensures
        iterate(1, period() + n) == iterate(1, n),
{
    lemma_cycle_closes();
    lemma_iterate_add(1, period(), n);
}

/// The states on one round of the walk from 1 are different from each other.
proof fn lemma_distinct(i: nat, j: nat)
    requires
        i < j < period(),
    ensures
        iterate(1, i) != iterate(1, j),
{
    if iterate(1, i) == iterate(1, j) {
        let rest = (period() - i) as nat;
        lemma_iterate_add(1, i, rest);
        lemma_iterate_add(1, j, rest);
        lemma_cycle_closes();
        lemma_periodic((j - i) as nat);
        assert(j + rest == period() + (j - i));
        lemma_no_shorter_cycle((j - i) as nat);
    }
}

proof fn lemma_never_zero(n: nat)
    requires
        n < period(),
    ensures
        iterate(1, n) != 0,
{
    let rest = (period() - n) as nat;
    lemma_iterate_add(1, n, rest);
    lemma_iterate_zero(rest);
    lemma_cycle_closes();
}

/// Every nonzero state lies on the walk from 1.
proof fn lemma_reached_from_one(x: u64) -> (n: nat)
    requires
        x != 0,
    ensures
        n < period(),
        iterate(1, n) == x,
{
    let steps = set_int_range(0, period() as int);
    let states = set_int_range(1, period() as int + 1);
    let walk = |n: int| iterate(1, n as nat) as int;
    let seen = steps.map(walk);
    lemma_int_range(0, period() as int);
    lemma_int_range(1, period() as int + 1);
    assert(injective_on(walk, steps)) by {
        assert forall|i: int, j: int|
            steps.contains(i) && steps.contains(j) && #[trigger] walk(i) == #[trigger] walk(j)
            implies i == j by {
            if i < j {
                lemma_distinct(i as nat, j as nat);
            } else if j < i {
                lemma_distinct(j as nat, i as nat);
            }
        }
    }
    lemma_map_size(steps, seen, walk);
    assert(seen.subset_of(states)) by {
        assert forall|y: int| seen.contains(y) implies states.contains(y) by {
            let n = choose|n: int| steps.contains(n) && y == walk(n);
            lemma_never_zero(n as nat);
        }
    }
    lemma_subset_equality(seen, states);
    assert(seen.contains(x as int));
    let n = choose|n: int| steps.contains(n) && x as int == walk(n);
    n as nat
}

/// The generator has full period: from any nonzero state it reaches every
/// nonzero state, in one step or more.
pub proof fn law_every_state_is_reached(x: u64, y: u64)
    requires
        x != 0,
        y != 0,
    ensures
        exists|n: nat| n >= 1 && #[trigger] iterate(x, n) == y,
{
    let i = lemma_reached_from_one(x);
    let j = lemma_reached_from_one(y);
    let n = (period() + j - i) as nat;
    lemma_iterate_add(1, i, n);
    lemma_periodic(j);
    assert(i + n == period() + j);
    assert(n >= 1 && iterate(x, n) == y);
}

/// A nonzero state never leads to zero.
pub proof fn law_state_stays_nonzero(x: u64, n: nat)
    requires
        x != 0,
    ensures
        iterate(x, n) != 0,
    decreases n,
{
    if n > 0 {
        let y = iterate(x, (n - 1) as nat);
        law_state_stays_nonzero(x, (n - 1) as nat);
        if step(y) == 0 {
            law_every_state_is_reached(y, 1);
            let k = choose|k: nat| k >= 1 && #[trigger] iterate(y, k) == 1;
            lemma_iterate_add(y, 1, (k - 1) as nat);
            assert(iterate(y, 1) == step(iterate(y, 0)));
            lemma_iterate_zero((k - 1) as nat);
        }
    }
}

} // verus!
