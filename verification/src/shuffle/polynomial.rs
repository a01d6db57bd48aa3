use vstd::prelude::*;

use super::xorshift::{iterate, lemma_iterate_add, lemma_step_linear, step};

verus! {

/// The low coefficients of the generator's characteristic polynomial: walking
/// 64 steps from 1 gives the exclusive or of the states after those numbers of
/// steps whose bits are set here.
pub open spec fn feedback() -> u64 {
    0x13ed4a358913201
}

/// The state reached from 1 after `i` steps, for `i <= 64`.
pub open spec fn state(i: nat) -> u64 {
    if i == 0 {
        0x0000000000000001
    } else if i == 1 {
        0x0000000040822041
    } else if i == 2 {
        0x100041060c011441
    } else if i == 3 {
        0x9b1e842f6e862629
    } else if i == 4 {
        0xf554f503555d8025
    } else if i == 5 {
        0x860c1fb090599265
    } else if i == 6 {
        0xf6b05302e5531801
    } else if i == 7 {
        0xa2460108ebbd9e71
    } else if i == 8 {
        0xc62c9fc114d9590d
    } else if i == 9 {
        0x7d3e032e9a7908ff
    } else if i == 10 {
        0x73a397e1324c252e
    } else if i == 11 {
        0x1ccac1c38a4c36e4
    } else if i == 12 {
        0xefad64f8379b9789
    } else if i == 13 {
        0x4e2aa10f962c62e6
    } else if i == 14 {
        0x90e459e5090243a3
    } else if i == 15 {
        0x8986dedd543ccfe4
    } else if i == 16 {
        0xcf9d3e05e6adcf7b
    } else if i == 17 {
        0x1b26c62dabb62a25
    } else if i == 18 {
        0xa91f05e3064d6f31
    } else if i == 19 {
        0x0ef1de18cda219af
    } else if i == 20 {
        0x711f0d367b32d65c
    } else if i == 21 {
        0xf231b2a1c85aa4f0
    } else if i == 22 {
        0x4496d347928f2db9
    } else if i == 23 {
        0x256b6af8a0927da2
    } else if i == 24 {
        0x648a63e7d94a71d9
    } else if i == 25 {
        0xc35961406cabb37a
    } else if i == 26 {
        0xf2b6efee45c97a9c
    } else if i == 27 {
        0x4d2639865a9dcf69
    } else if i == 28 {
        0x35624e5c55d80eb7
    } else if i == 29 {
        0x528da2237c72f36a
    } else if i == 30 {
        0x5b68ae8160438c0c
    } else if i == 31 {
        0xa93df44f13c98814
    } else if i == 32 {
        0xebafe30772869e04
    } else if i == 33 {
        0x317a8f442a749238
    } else if i == 34 {
        0x3c6e7499477bf51c
    } else if i == 35 {
        0xbe850d995e47c5f6
    } else if i == 36 {
        0x8b324174ea4ef7fd
    } else if i == 37 {
        0x09907835247c3552
    } else if i == 38 {
        0xe49c5e2464e3d9b8
    } else if i == 39 {
        0xa9bcbccb8ffd700b
    } else if i == 40 {
        0x330515d199e9e82b
    } else if i == 41 {
        0x21dea3ebdfd3513b
    } else if i == 42 {
        0xcb0bb29e242dd959
    } else if i == 43 {
        0x31cd9686416ef4ab
    } else if i == 44 {
        0x4a36f59e0fc06382
    } else if i == 45 {
        0xe9b1a160483d43c5
    } else if i == 46 {
        0xfa48cc3dff816802
    } else if i == 47 {
        0x385c7f621d802a52
    } else if i == 48 {
        0x0f88255c41f7fe86
    } else if i == 49 {
        0xdf451c8e9aad70fb
    } else if i == 50 {
        0xb0a463f26b6f74da
    } else if i == 51 {
        0x0926ef3d0399dcb3
    } else if i == 52 {
        0x4ec9852fe3eba3ca
    } else if i == 53 {
        0x3dd0c4dbbea7c60d
    } else if i == 54 {
        0x6dd395bc0d68aac1
    } else if i == 55 {
        0xa728a838eda8ebd4
    } else if i == 56 {
        0x66863c817535cf03
    } else if i == 57 {
        0xdc53389b8bf6045d
    } else if i == 58 {
        0x28dbcaa03fc15f15
    } else if i == 59 {
        0xf4a99ad5d5ddb8eb
    } else if i == 60 {
        0x4a21ba240cb1595a
    } else if i == 61 {
        0x9e15766f19052d68
    } else if i == 62 {
        0x787363c7d9b57d32
    } else if i == 63 {
        0x0ba2a63ea26f1b48
    } else {
        0x2ef4f79f8978177e
    }
}

/// The power `64 + i` of `x` modulo the characteristic polynomial, for `i < 64`.
pub open spec fn residue(i: nat) -> u64 {
    if i == 0 {
        0x013ed4a358913201
    } else if i == 1 {
        0x027da946b1226402
    } else if i == 2 {
        0x04fb528d6244c804
    } else if i == 3 {
        0x09f6a51ac4899008
    } else if i == 4 {
        0x13ed4a3589132010
    } else if i == 5 {
        0x27da946b12264020
    } else if i == 6 {
        0x4fb528d6244c8040
    } else if i == 7 {
        0x9f6a51ac48990080
    } else if i == 8 {
        0x3fea77fbc9a33301
    } else if i == 9 {
        0x7fd4eff793466602
    } else if i == 10 {
        0xffa9dfef268ccc04
    } else if i == 11 {
        0xfe6d6b7d1588aa09
    } else if i == 12 {
        0xfde4025973806613
    } else if i == 13 {
        0xfaf6d011bf91fe27
    } else if i == 14 {
        0xf4d3748027b2ce4f
    } else if i == 15 {
        0xe8983da317f4ae9f
    } else if i == 16 {
        0xd00eafe577786f3f
    } else if i == 17 {
        0xa1238b69b661ec7f
    } else if i == 18 {
        0x4379c2703452eaff
    } else if i == 19 {
        0x86f384e068a5d5fe
    } else if i == 20 {
        0x0cd9dd6389da99fd
    } else if i == 21 {
        0x19b3bac713b533fa
    } else if i == 22 {
        0x3367758e276a67f4
    } else if i == 23 {
        0x66ceeb1c4ed4cfe8
    } else if i == 24 {
        0xcd9dd6389da99fd0
    } else if i == 25 {
        0x9a0578d263c20da1
    } else if i == 26 {
        0x353425079f152943
    } else if i == 27 {
        0x6a684a0f3e2a5286
    } else if i == 28 {
        0xd4d0941e7c54a50c
    } else if i == 29 {
        0xa89ffc9fa0387819
    } else if i == 30 {
        0x50012d9c18e1c233
    } else if i == 31 {
        0xa0025b3831c38466
    } else if i == 32 {
        0x413a62d33b163acd
    } else if i == 33 {
        0x8274c5a6762c759a
    } else if i == 34 {
        0x05d75fefb4c9d935
    } else if i == 35 {
        0x0baebfdf6993b26a
    } else if i == 36 {
        0x175d7fbed32764d4
    } else if i == 37 {
        0x2ebaff7da64ec9a8
    } else if i == 38 {
        0x5d75fefb4c9d9350
    } else if i == 39 {
        0xbaebfdf6993b26a0
    } else if i == 40 {
        0x74e92f4e6ae77f41
    } else if i == 41 {
        0xe9d25e9cd5cefe82
    } else if i == 42 {
        0xd29a699af30ccf05
    } else if i == 43 {
        0xa40a0796be88ac0b
    } else if i == 44 {
        0x492adb8e25806a17
    } else if i == 45 {
        0x9255b71c4b00d42e
    } else if i == 46 {
        0x2595ba9bce909a5d
    } else if i == 47 {
        0x4b2b75379d2134ba
    } else if i == 48 {
        0x9656ea6f3a426974
    } else if i == 49 {
        0x2d93007d2c15e0e9
    } else if i == 50 {
        0x5b2600fa582bc1d2
    } else if i == 51 {
        0xb64c01f4b05783a4
    } else if i == 52 {
        0x6da6d74a383e3549
    } else if i == 53 {
        0xdb4dae94707c6a92
    } else if i == 54 {
        0xb7a5898bb869e725
    } else if i == 55 {
        0x6e75c7b42842fc4b
    } else if i == 56 {
        0xdceb8f685085f896
    } else if i == 57 {
        0xb8e9ca73f99ac32d
    } else if i == 58 {
        0x70ed4044aba4b45b
    } else if i == 59 {
        0xe1da8089574968b6
    } else if i == 60 {
        0xc28bd5b1f603e36d
    } else if i == 61 {
        0x84297fc0b496f4db
    } else if i == 62 {
        0x096c2b2231bcdbb7
    } else {
        0x12d856446379b76e
    }
}

/// Bit `i` of `w`.
pub open spec fn bit(w: u128, i: nat) -> bool {
    (w >> (i as u128)) & 1 == 1
}

/// The exclusive or of the states reached from 1 after `k + i` steps, over
/// the set bits `i < n` of `w`: the polynomial `w` in the step, applied to
/// the state after `k` steps.
pub open spec fn mix(w: u128, n: nat, k: nat) -> u64
    decreases n,
{
    if n == 0 {
        0
    } else {
        mix(w, (n - 1) as nat, k) ^ (if bit(w, (n - 1) as nat) {
            iterate(1, (n - 1 + k) as nat)
        } else {
            0
        })
    }
}

/// `mix` at `k == 0`, read from the table of states.
pub open spec fn mix_table(w: u128, n: nat) -> u64
    decreases n,
{
    if n == 0 {
        0
    } else {
        mix_table(w, (n - 1) as nat) ^ (if bit(w, (n - 1) as nat) {
            state((n - 1) as nat)
        } else {
            0
        })
    }
}

/// The polynomial `a` applied to the state 1.
pub open spec fn apply(a: u64) -> u64 {
    mix(a as u128, 64, 0)
}

/// The product of `b` and the low `n` coefficients of `a`, over the field of
/// two elements.
pub open spec fn product(a: u64, b: u64, n: nat) -> u128
    decreases n,
{
    if n == 0 {
        0
    } else {
        product(a, b, (n - 1) as nat) ^ (if (a >> ((n - 1) as u64)) & 1 == 1 {
            (b as u128) << ((n - 1) as u128)
        } else {
            0
        })
    }
}

/// The low 64 coefficients of `w`, with the `n` coefficients above them
/// replaced by what they are modulo the characteristic polynomial.
pub open spec fn reduce(w: u128, n: nat) -> u64
    decreases n,
{
    if n == 0 {
        w as u64
    } else {
        reduce(w, (n - 1) as nat) ^ (if (w >> ((63 + n) as u128)) & 1 == 1 {
            residue((n - 1) as nat)
        } else {
            0
        })
    }
}

/// The product modulo the characteristic polynomial.
pub open spec fn times(a: u64, b: u64) -> u64 {
    reduce(product(a, b, 64), 64)
}

/// The product with the polynomial `x`, modulo the characteristic polynomial.
pub open spec fn shift_up(a: u64) -> u64 {
    (a << 1) ^ (if a >> 63 == 1 {
        0x13ed4a358913201
    } else {
        0u64
    })
}

/// `c` is the `e`-th power of `x`, as far as the state 1 can tell.
pub open spec fn is_power(e: nat, c: u64) -> bool {
    iterate(1, e) == apply(c)
}

proof fn lemma_step_mix(w: u128, n: nat, k: nat)
    ensures
        step(mix(w, n, k)) == mix(w, n, k + 1),
    decreases n,
{
    if n == 0 {
        lemma_step_linear(0, 0);
    } else {
        let low = mix(w, (n - 1) as nat, k);
        lemma_step_mix(w, (n - 1) as nat, k);
        lemma_step_linear(low, 0);
        lemma_step_linear(low, iterate(1, (n - 1 + k) as nat));
        assert((n - 1 + (k + 1)) as nat == (n - 1 + k) as nat + 1);
        assert(iterate(1, (n - 1 + (k + 1)) as nat) == step(iterate(1, (n - 1 + k) as nat)));
    }
}

/// Walking `m` steps from a mixed state shifts the mix by `m`.
proof fn lemma_iterate_mix(w: u128, n: nat, k: nat, m: nat)
    ensures
        iterate(mix(w, n, k), m) == mix(w, n, k + m),
    decreases m,
{
    if m > 0 {
        lemma_iterate_mix(w, n, k, (m - 1) as nat);
        lemma_step_mix(w, n, (k + m - 1) as nat);
    }
}

proof fn lemma_mix_xor(v: u128, w: u128, n: nat, k: nat)
    requires
        n <= 128,
    ensures
        mix(v ^ w, n, k) == mix(v, n, k) ^ mix(w, n, k),
    decreases n,
{
    if n == 0 {
        assert(0u64 ^ 0u64 == 0) by (bit_vector);
    } else {
        let i = (n - 1) as nat;
        let s = i as u128;
        lemma_mix_xor(v, w, i, k);
        assert((((v ^ w) >> s) & 1 == 1) <==> ((v >> s) & 1 == 1) != ((w >> s) & 1 == 1))
            by (bit_vector);
        let a = mix(v, i, k);
        let b = mix(w, i, k);
        let c = iterate(1, (i + k) as nat);
        assert((a ^ b) ^ 0 == (a ^ 0) ^ (b ^ 0)) by (bit_vector);
        assert((a ^ b) ^ c == (a ^ c) ^ (b ^ 0)) by (bit_vector);
        assert((a ^ b) ^ c == (a ^ 0) ^ (b ^ c)) by (bit_vector);
        assert((a ^ b) ^ 0 == (a ^ c) ^ (b ^ c)) by (bit_vector);
    }
}

/// Mixes agree where the bits they read agree.
proof fn lemma_mix_same_bits(v: u128, w: u128, n: nat, k: nat)
    requires
        forall|i: nat| i < n ==> #[trigger] bit(v, i) == bit(w, i),
    ensures
        mix(v, n, k) == mix(w, n, k),
    decreases n,
{
    if n > 0 {
        lemma_mix_same_bits(v, w, (n - 1) as nat, k);
        assert(bit(v, (n - 1) as nat) == bit(w, (n - 1) as nat));
    }
}

/// Clear bits at the top of `w` add nothing.
proof fn lemma_mix_clear_top(w: u128, low: nat, n: nat, k: nat)
    requires
        low <= n,
        forall|i: nat| low <= i < n ==> !#[trigger] bit(w, i),
    ensures
        mix(w, n, k) == mix(w, low, k),
    decreases n,
{
    if low < n {
        lemma_mix_clear_top(w, low, (n - 1) as nat, k);
        assert(!bit(w, (n - 1) as nat));
        let a = mix(w, low, k);
        assert(a ^ 0 == a) by (bit_vector);
    }
}

/// Shifting the polynomial up by `s` is walking `s` steps.
proof fn lemma_mix_shift(b: u64, s: nat, n: nat)
    requires
        s < 64,
        n <= 64,
    ensures
        mix((b as u128) << (s as u128), n + s, 0) == mix(b as u128, n, s),
    decreases n,
{
    let w = (b as u128) << (s as u128);
    let t = s as u128;
    if n == 0 {
        assert forall|i: nat| 0 <= i < s implies !#[trigger] bit(w, i) by {
            let j = i as u128;
            assert((((b as u128) << t) >> j) & 1 == 0) by (bit_vector)
                requires
                    j < t < 64,
            ;
        }
        lemma_mix_clear_top(w, 0, s, 0);
    } else {
        lemma_mix_shift(b, s, (n - 1) as nat);
        let i = (n - 1) as u128;
        let j = (n - 1 + s) as u128;
        assert((((b as u128) << t) >> j) & 1 == ((b as u128) >> i) & 1) by (bit_vector)
            requires
                j == i + t,
                i < 64,
                t < 64,
        ;
        assert(bit(w, (n - 1 + s) as nat) == bit(b as u128, (n - 1) as nat));
    }
}

proof fn lemma_mix_shift_wide(b: u64, s: nat)
    requires
        s < 64,
    ensures
        mix((b as u128) << (s as u128), 128, 0) == mix(b as u128, 64, s),
{
    let w = (b as u128) << (s as u128);
    let t = s as u128;
    lemma_mix_shift(b, s, 64);
    assert forall|i: nat| 64 + s <= i < 128 implies !#[trigger] bit(w, i) by {
        let j = i as u128;
        assert((((b as u128) << t) >> j) & 1 == 0) by (bit_vector)
            requires
                64 + t <= j < 128,
                t < 64,
        ;
    }
    lemma_mix_clear_top(w, 64 + s, 128, 0);
}

/// The unreduced product of `a` with the polynomial of the state after `m`
/// steps mixes the states from `m` on.
proof fn lemma_product(a: u64, b: u64, m: nat, n: nat)
    requires
        is_power(m, b),
        n <= 64,
    ensures
        mix(product(a, b, n), 128, 0) == mix(a as u128, n, m),
    decreases n,
{
    if n == 0 {
        assert forall|i: nat| 0 <= i < 128 implies !#[trigger] bit(0u128, i) by {
            let j = i as u128;
            assert((0u128 >> j) & 1 == 0) by (bit_vector);
        }
        lemma_mix_clear_top(0u128, 0, 128, 0);
    } else {
        let s = (n - 1) as nat;
        let low = product(a, b, s);
        lemma_product(a, b, m, s);
        let i = s as u64;
        let j = s as u128;
        assert(((a >> i) & 1 == 1) == (((a as u128) >> j) & 1 == 1)) by (bit_vector)
            requires
                i < 64,
                j == i,
        ;
        if bit(a as u128, s) {
            lemma_mix_xor(low, (b as u128) << j, 128, 0);
            lemma_mix_shift_wide(b, s);
            lemma_iterate_mix(b as u128, 64, 0, s);
            lemma_iterate_add(1, m, s);
            assert((s + m) as nat == m + s);
        } else {
            assert(low ^ 0 == low) by (bit_vector);
            let c = mix(a as u128, s, m);
            assert(c ^ 0 == c) by (bit_vector);
        }
    }
}

/// The table of states is the walk from 1.
pub proof fn lemma_state(i: nat)
    requires
        i <= 64,
    ensures
        iterate(1, i) == state(i),
    decreases i,
{
    if i > 0 {
        lemma_state((i - 1) as nat);
        lemma_state_steps();
        assert(step(state((i - 1) as nat)) == state(i));
    }
}

proof fn lemma_state_steps()
    ensures
        step(state(0)) == state(1),
        step(state(1)) == state(2),
        step(state(2)) == state(3),
        step(state(3)) == state(4),
        step(state(4)) == state(5),
        step(state(5)) == state(6),
        step(state(6)) == state(7),
        step(state(7)) == state(8),
        step(state(8)) == state(9),
        step(state(9)) == state(10),
        step(state(10)) == state(11),
        step(state(11)) == state(12),
        step(state(12)) == state(13),
        step(state(13)) == state(14),
        step(state(14)) == state(15),
        step(state(15)) == state(16),
        step(state(16)) == state(17),
        step(state(17)) == state(18),
        step(state(18)) == state(19),
        step(state(19)) == state(20),
        step(state(20)) == state(21),
        step(state(21)) == state(22),
        step(state(22)) == state(23),
        step(state(23)) == state(24),
        step(state(24)) == state(25),
        step(state(25)) == state(26),
        step(state(26)) == state(27),
        step(state(27)) == state(28),
        step(state(28)) == state(29),
        step(state(29)) == state(30),
        step(state(30)) == state(31),
        step(state(31)) == state(32),
        step(state(32)) == state(33),
        step(state(33)) == state(34),
        step(state(34)) == state(35),
        step(state(35)) == state(36),
        step(state(36)) == state(37),
        step(state(37)) == state(38),
        step(state(38)) == state(39),
        step(state(39)) == state(40),
        step(state(40)) == state(41),
        step(state(41)) == state(42),
        step(state(42)) == state(43),
        step(state(43)) == state(44),
        step(state(44)) == state(45),
        step(state(45)) == state(46),
        step(state(46)) == state(47),
        step(state(47)) == state(48),
        step(state(48)) == state(49),
        step(state(49)) == state(50),
        step(state(50)) == state(51),
        step(state(51)) == state(52),
        step(state(52)) == state(53),
        step(state(53)) == state(54),
        step(state(54)) == state(55),
        step(state(55)) == state(56),
        step(state(56)) == state(57),
        step(state(57)) == state(58),
        step(state(58)) == state(59),
        step(state(59)) == state(60),
        step(state(60)) == state(61),
        step(state(61)) == state(62),
        step(state(62)) == state(63),
        step(state(63)) == state(64),
{
    assert(
        step(state(0)) == state(1) &&
        step(state(1)) == state(2) &&
        step(state(2)) == state(3) &&
        step(state(3)) == state(4) &&
        step(state(4)) == state(5) &&
        step(state(5)) == state(6) &&
        step(state(6)) == state(7) &&
        step(state(7)) == state(8) &&
        step(state(8)) == state(9) &&
        step(state(9)) == state(10) &&
        step(state(10)) == state(11) &&
        step(state(11)) == state(12) &&
        step(state(12)) == state(13) &&
        step(state(13)) == state(14) &&
        step(state(14)) == state(15) &&
        step(state(15)) == state(16) &&
        step(state(16)) == state(17) &&
        step(state(17)) == state(18) &&
        step(state(18)) == state(19) &&
        step(state(19)) == state(20) &&
        step(state(20)) == state(21) &&
        step(state(21)) == state(22) &&
        step(state(22)) == state(23) &&
        step(state(23)) == state(24) &&
        step(state(24)) == state(25) &&
        step(state(25)) == state(26) &&
        step(state(26)) == state(27) &&
        step(state(27)) == state(28) &&
        step(state(28)) == state(29) &&
        step(state(29)) == state(30) &&
        step(state(30)) == state(31) &&
        step(state(31)) == state(32) &&
        step(state(32)) == state(33) &&
        step(state(33)) == state(34) &&
        step(state(34)) == state(35) &&
        step(state(35)) == state(36) &&
        step(state(36)) == state(37) &&
        step(state(37)) == state(38) &&
        step(state(38)) == state(39) &&
        step(state(39)) == state(40) &&
        step(state(40)) == state(41) &&
        step(state(41)) == state(42) &&
        step(state(42)) == state(43) &&
        step(state(43)) == state(44) &&
        step(state(44)) == state(45) &&
        step(state(45)) == state(46) &&
        step(state(46)) == state(47) &&
        step(state(47)) == state(48) &&
        step(state(48)) == state(49) &&
        step(state(49)) == state(50) &&
        step(state(50)) == state(51) &&
        step(state(51)) == state(52) &&
        step(state(52)) == state(53) &&
        step(state(53)) == state(54) &&
        step(state(54)) == state(55) &&
        step(state(55)) == state(56) &&
        step(state(56)) == state(57) &&
        step(state(57)) == state(58) &&
        step(state(58)) == state(59) &&
        step(state(59)) == state(60) &&
        step(state(60)) == state(61) &&
        step(state(61)) == state(62) &&
        step(state(62)) == state(63) &&
        step(state(63)) == state(64)
    ) by (bit_vector);
}

/// A mix of the first 64 states can be read from the table.
pub proof fn lemma_mix_table(w: u128, n: nat)
    requires
        n <= 64,
    ensures
        mix(w, n, 0) == mix_table(w, n),
    decreases n,
{
    if n > 0 {
        lemma_mix_table(w, (n - 1) as nat);
        lemma_state((n - 1) as nat);
    }
}

/// The polynomial `x` itself is one step, and the polynomial 1 none.
pub proof fn lemma_first_powers()
    ensures
        is_power(0, 1),
        is_power(1, 2),
        is_power(64, feedback()),
{
    lemma_mix_table(1, 64);
    lemma_mix_table(2, 64);
    lemma_mix_table(feedback() as u128, 64);
    lemma_state(0);
    lemma_state(1);
    lemma_state(64);
    assert(mix_table(1, 64) == state(0)) by (bit_vector);
    assert(mix_table(2, 64) == state(1)) by (bit_vector);
    assert(mix_table(feedback() as u128, 64) == state(64)) by (bit_vector);
    assert(1u64 as u128 == 1u128);
    assert(2u64 as u128 == 2u128);
}

/// One more step is one more factor `x`.
pub proof fn lemma_shift_up(e: nat, c: u64)
    requires
        is_power(e, c),
    ensures
        is_power(e + 1, shift_up(c)),
{
    let wide = (c as u128) << 1;
    let low = c << 1;
    lemma_first_powers();
    lemma_iterate_mix(c as u128, 64, 0, 1);
    lemma_iterate_add(1, e, 1);
    assert(iterate(apply(c), 1) == step(iterate(apply(c), 0)));
    lemma_mix_shift(c, 1, 64);
    assert(1nat as u128 == 1);
    assert(mix(wide, 65, 0) == mix(c as u128, 64, 1));
    assert forall|i: nat| i < 64 implies #[trigger] bit(wide, i) == bit(low as u128, i) by {
        let j = i as u128;
        assert((((c as u128) << 1) >> j) & 1 == (((c << 1) as u128) >> j) & 1) by (bit_vector)
            requires
                j < 64,
        ;
    }
    lemma_mix_same_bits(wide, low as u128, 64, 0);
    assert(((((c as u128) << 1) >> 64) & 1 == 1) == (c >> 63 == 1)) by (bit_vector);
    assert(64nat as u128 == 64);
    assert(mix(wide, 65, 0) == mix(wide, 64, 0) ^ (if bit(wide, 64) {
        iterate(1, 64)
    } else {
        0
    }));
    if c >> 63 == 1 {
        lemma_apply_xor(low, feedback());
    } else {
        assert(low ^ 0 == low) by (bit_vector);
        let a = apply(low);
        assert(a ^ 0 == a) by (bit_vector);
    }
}

proof fn lemma_apply_xor(a: u64, b: u64)
    ensures
        apply(a ^ b) == apply(a) ^ apply(b),
{
    assert((a ^ b) as u128 == (a as u128) ^ (b as u128)) by (bit_vector);
    lemma_mix_xor(a as u128, b as u128, 64, 0);
}

/// The table of residues: the powers of `x` from the 64th on.
pub proof fn lemma_residue(i: nat)
    requires
        i < 64,
    ensures
        is_power(64 + i, residue(i)),
    decreases i,
{
    lemma_first_powers();
    if i > 0 {
        lemma_residue((i - 1) as nat);
        lemma_residue_steps();
        lemma_shift_up((64 + i - 1) as nat, residue((i - 1) as nat));
        assert(shift_up(residue((i - 1) as nat)) == residue(i));
        assert((64 + i - 1) as nat + 1 == 64 + i);
    }
}

proof fn lemma_residue_steps()
    ensures
        shift_up(residue(0)) == residue(1),
        shift_up(residue(1)) == residue(2),
        shift_up(residue(2)) == residue(3),
        shift_up(residue(3)) == residue(4),
        shift_up(residue(4)) == residue(5),
        shift_up(residue(5)) == residue(6),
        shift_up(residue(6)) == residue(7),
        shift_up(residue(7)) == residue(8),
        shift_up(residue(8)) == residue(9),
        shift_up(residue(9)) == residue(10),
        shift_up(residue(10)) == residue(11),
        shift_up(residue(11)) == residue(12),
        shift_up(residue(12)) == residue(13),
        shift_up(residue(13)) == residue(14),
        shift_up(residue(14)) == residue(15),
        shift_up(residue(15)) == residue(16),
        shift_up(residue(16)) == residue(17),
        shift_up(residue(17)) == residue(18),
        shift_up(residue(18)) == residue(19),
        shift_up(residue(19)) == residue(20),
        shift_up(residue(20)) == residue(21),
        shift_up(residue(21)) == residue(22),
        shift_up(residue(22)) == residue(23),
        shift_up(residue(23)) == residue(24),
        shift_up(residue(24)) == residue(25),
        shift_up(residue(25)) == residue(26),
        shift_up(residue(26)) == residue(27),
        shift_up(residue(27)) == residue(28),
        shift_up(residue(28)) == residue(29),
        shift_up(residue(29)) == residue(30),
        shift_up(residue(30)) == residue(31),
        shift_up(residue(31)) == residue(32),
        shift_up(residue(32)) == residue(33),
        shift_up(residue(33)) == residue(34),
        shift_up(residue(34)) == residue(35),
        shift_up(residue(35)) == residue(36),
        shift_up(residue(36)) == residue(37),
        shift_up(residue(37)) == residue(38),
        shift_up(residue(38)) == residue(39),
        shift_up(residue(39)) == residue(40),
        shift_up(residue(40)) == residue(41),
        shift_up(residue(41)) == residue(42),
        shift_up(residue(42)) == residue(43),
        shift_up(residue(43)) == residue(44),
        shift_up(residue(44)) == residue(45),
        shift_up(residue(45)) == residue(46),
        shift_up(residue(46)) == residue(47),
        shift_up(residue(47)) == residue(48),
        shift_up(residue(48)) == residue(49),
        shift_up(residue(49)) == residue(50),
        shift_up(residue(50)) == residue(51),
        shift_up(residue(51)) == residue(52),
        shift_up(residue(52)) == residue(53),
        shift_up(residue(53)) == residue(54),
        shift_up(residue(54)) == residue(55),
        shift_up(residue(55)) == residue(56),
        shift_up(residue(56)) == residue(57),
        shift_up(residue(57)) == residue(58),
        shift_up(residue(58)) == residue(59),
        shift_up(residue(59)) == residue(60),
        shift_up(residue(60)) == residue(61),
        shift_up(residue(61)) == residue(62),
        shift_up(residue(62)) == residue(63),
{
    assert(
        shift_up(residue(0)) == residue(1) &&
        shift_up(residue(1)) == residue(2) &&
        shift_up(residue(2)) == residue(3) &&
        shift_up(residue(3)) == residue(4) &&
        shift_up(residue(4)) == residue(5) &&
        shift_up(residue(5)) == residue(6) &&
        shift_up(residue(6)) == residue(7) &&
        shift_up(residue(7)) == residue(8) &&
        shift_up(residue(8)) == residue(9) &&
        shift_up(residue(9)) == residue(10) &&
        shift_up(residue(10)) == residue(11) &&
        shift_up(residue(11)) == residue(12) &&
        shift_up(residue(12)) == residue(13) &&
        shift_up(residue(13)) == residue(14) &&
        shift_up(residue(14)) == residue(15) &&
        shift_up(residue(15)) == residue(16) &&
        shift_up(residue(16)) == residue(17) &&
        shift_up(residue(17)) == residue(18) &&
        shift_up(residue(18)) == residue(19) &&
        shift_up(residue(19)) == residue(20) &&
        shift_up(residue(20)) == residue(21) &&
        shift_up(residue(21)) == residue(22) &&
        shift_up(residue(22)) == residue(23) &&
        shift_up(residue(23)) == residue(24) &&
        shift_up(residue(24)) == residue(25) &&
        shift_up(residue(25)) == residue(26) &&
        shift_up(residue(26)) == residue(27) &&
        shift_up(residue(27)) == residue(28) &&
        shift_up(residue(28)) == residue(29) &&
        shift_up(residue(29)) == residue(30) &&
        shift_up(residue(30)) == residue(31) &&
        shift_up(residue(31)) == residue(32) &&
        shift_up(residue(32)) == residue(33) &&
        shift_up(residue(33)) == residue(34) &&
        shift_up(residue(34)) == residue(35) &&
        shift_up(residue(35)) == residue(36) &&
        shift_up(residue(36)) == residue(37) &&
        shift_up(residue(37)) == residue(38) &&
        shift_up(residue(38)) == residue(39) &&
        shift_up(residue(39)) == residue(40) &&
        shift_up(residue(40)) == residue(41) &&
        shift_up(residue(41)) == residue(42) &&
        shift_up(residue(42)) == residue(43) &&
        shift_up(residue(43)) == residue(44) &&
        shift_up(residue(44)) == residue(45) &&
        shift_up(residue(45)) == residue(46) &&
        shift_up(residue(46)) == residue(47) &&
        shift_up(residue(47)) == residue(48) &&
        shift_up(residue(48)) == residue(49) &&
        shift_up(residue(49)) == residue(50) &&
        shift_up(residue(50)) == residue(51) &&
        shift_up(residue(51)) == residue(52) &&
        shift_up(residue(52)) == residue(53) &&
        shift_up(residue(53)) == residue(54) &&
        shift_up(residue(54)) == residue(55) &&
        shift_up(residue(55)) == residue(56) &&
        shift_up(residue(56)) == residue(57) &&
        shift_up(residue(57)) == residue(58) &&
        shift_up(residue(58)) == residue(59) &&
        shift_up(residue(59)) == residue(60) &&
        shift_up(residue(60)) == residue(61) &&
        shift_up(residue(61)) == residue(62) &&
        shift_up(residue(62)) == residue(63)
    ) by (bit_vector);
}

/// Reduction does not change what a polynomial does to the state 1.
proof fn lemma_reduce(w: u128, n: nat)
    requires
        n <= 64,
    ensures
        mix(w, 64 + n, 0) == apply(reduce(w, n)),
    decreases n,
{
    if n == 0 {
        let low = w as u64;
        assert forall|i: nat| i < 64 implies #[trigger] bit(w, i) == bit(low as u128, i) by {
            let j = i as u128;
            assert((w >> j) & 1 == (((w as u64) as u128) >> j) & 1) by (bit_vector)
                requires
                    j < 64,
            ;
        }
        lemma_mix_same_bits(w, low as u128, 64, 0);
    } else {
        let m = (n - 1) as nat;
        lemma_reduce(w, m);
        lemma_residue(m);
        let low = reduce(w, m);
        assert((64 + n - 1) as nat == 64 + m);
        assert((63 + n) as u128 == ((64 + n) as nat - 1) as u128);
        if bit(w, 64 + m) {
            lemma_apply_xor(low, residue(m));
        } else {
            assert(low ^ 0 == low) by (bit_vector);
            let a = apply(low);
            assert(a ^ 0 == a) by (bit_vector);
        }
    }
}

/// Powers multiply by adding exponents.
pub proof fn lemma_times(e: nat, a: u64, f: nat, b: u64)
    requires
        is_power(e, a),
        is_power(f, b),
    ensures
        is_power(e + f, times(a, b)),
{
    lemma_product(a, b, f, 64);
    lemma_reduce(product(a, b, 64), 64);
    lemma_iterate_mix(a as u128, 64, 0, f);
    lemma_iterate_add(1, e, f);
}

} // verus!
