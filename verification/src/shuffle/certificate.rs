use vstd::prelude::*;

use super::polynomial::{
    is_power, lemma_first_powers, lemma_mix_table, lemma_shift_up, lemma_times, mix_table,
    shift_up, times,
};
use super::xorshift::iterate;

verus! {

/// Squaring a power doubles its exponent.
proof fn lemma_square(e: nat, c: u64, d: u64)
    requires
        is_power(e, c),
        times(c, c) == d,
    ensures
        is_power(2 * e, d),
{
    lemma_times(e, c, e, c);
}

/// Squaring a power and multiplying by `x` doubles its exponent and adds one.
proof fn lemma_square_and_step(e: nat, c: u64, d: u64)
    requires
        is_power(e, c),
        shift_up(times(c, c)) == d,
    ensures
        is_power(2 * e + 1, d),
{
    lemma_times(e, c, e, c);
    lemma_shift_up(e + e, times(c, c));
}

/// Multiplying powers adds their exponents.
proof fn lemma_multiply(e: nat, c: u64, f: nat, d: u64, p: u64)
    requires
        is_power(e, c),
        is_power(f, d),
        times(c, d) == p,
    ensures
        is_power(e + f, p),
{
    lemma_times(e, c, f, d);
}

/// The powers whose exponents are one less than a power of two; the last of
/// them closes the cycle.
proof fn lemma_all_ones()
    ensures
        is_power(0xffffffff, 0x55b552ae7510ece4),
        is_power(0xffffffffffffffff, 0x0000000000000001),
{
    lemma_first_powers();
    assert(
        shift_up(times(0x0000000000000002, 0x0000000000000002)) == 0x0000000000000008 &&
        shift_up(times(0x0000000000000008, 0x0000000000000008)) == 0x0000000000000080 &&
        shift_up(times(0x0000000000000080, 0x0000000000000080)) == 0x0000000000008000 &&
        shift_up(times(0x0000000000008000, 0x0000000000008000)) == 0x0000000080000000 &&
        shift_up(times(0x0000000080000000, 0x0000000080000000)) == 0x8000000000000000 &&
        shift_up(times(0x8000000000000000, 0x8000000000000000)) == 0x12d856446379b76e &&
        shift_up(times(0x12d856446379b76e, 0x12d856446379b76e)) == 0xdc1e7e544c6e7d2c &&
        shift_up(times(0xdc1e7e544c6e7d2c, 0xdc1e7e544c6e7d2c)) == 0xce29f14329246bd6 &&
        shift_up(times(0xce29f14329246bd6, 0xce29f14329246bd6)) == 0xa93cb4e8f6db4edb &&
        shift_up(times(0xa93cb4e8f6db4edb, 0xa93cb4e8f6db4edb)) == 0xf9f0ec4ece16cefb &&
        shift_up(times(0xf9f0ec4ece16cefb, 0xf9f0ec4ece16cefb)) == 0xee123101b3b3907f &&
        shift_up(times(0xee123101b3b3907f, 0xee123101b3b3907f)) == 0x4f1aba620c398f66 &&
        shift_up(times(0x4f1aba620c398f66, 0x4f1aba620c398f66)) == 0x4fc61931f1ec465e &&
        shift_up(times(0x4fc61931f1ec465e, 0x4fc61931f1ec465e)) == 0x228a082be5a53e8e &&
        shift_up(times(0x228a082be5a53e8e, 0x228a082be5a53e8e)) == 0x0998e3d0e6515aa1 &&
        shift_up(times(0x0998e3d0e6515aa1, 0x0998e3d0e6515aa1)) == 0xdb43d3f2bd3dd9fa &&
        shift_up(times(0xdb43d3f2bd3dd9fa, 0xdb43d3f2bd3dd9fa)) == 0x65f6fed3aa97622c &&
        shift_up(times(0x65f6fed3aa97622c, 0x65f6fed3aa97622c)) == 0xcd584651525b9f6d &&
        shift_up(times(0xcd584651525b9f6d, 0xcd584651525b9f6d)) == 0x5dbe223d60467311 &&
        shift_up(times(0x5dbe223d60467311, 0x5dbe223d60467311)) == 0xc2884b4b88701744 &&
        shift_up(times(0xc2884b4b88701744, 0xc2884b4b88701744)) == 0xd66b1f5ad30376f6 &&
        shift_up(times(0xd66b1f5ad30376f6, 0xd66b1f5ad30376f6)) == 0x356b9648f7da9a6c &&
        shift_up(times(0x356b9648f7da9a6c, 0x356b9648f7da9a6c)) == 0xc072edeedd270151 &&
        shift_up(times(0xc072edeedd270151, 0xc072edeedd270151)) == 0x019ea16ff932c1f7 &&
        shift_up(times(0x019ea16ff932c1f7, 0x019ea16ff932c1f7)) == 0x66fe7423ae9b0782 &&
        shift_up(times(0x66fe7423ae9b0782, 0x66fe7423ae9b0782)) == 0x3fa4e772461950eb &&
        shift_up(times(0x3fa4e772461950eb, 0x3fa4e772461950eb)) == 0xb848046a523ea13a &&
        shift_up(times(0xb848046a523ea13a, 0xb848046a523ea13a)) == 0xa49c6e558a6defe4 &&
        shift_up(times(0xa49c6e558a6defe4, 0xa49c6e558a6defe4)) == 0x059318bbbf79872e &&
        shift_up(times(0x059318bbbf79872e, 0x059318bbbf79872e)) == 0x565ca2ae0a0ddb4c &&
        shift_up(times(0x565ca2ae0a0ddb4c, 0x565ca2ae0a0ddb4c)) == 0x55b552ae7510ece4 &&
        shift_up(times(0x55b552ae7510ece4, 0x55b552ae7510ece4)) == 0x59db3912a8d5bbd4 &&
        shift_up(times(0x59db3912a8d5bbd4, 0x59db3912a8d5bbd4)) == 0xb599d325b428fc88 &&
        shift_up(times(0xb599d325b428fc88, 0xb599d325b428fc88)) == 0xc3f12f8006eac978 &&
        shift_up(times(0xc3f12f8006eac978, 0xc3f12f8006eac978)) == 0xc189f7fc8a1ff475 &&
        shift_up(times(0xc189f7fc8a1ff475, 0xc189f7fc8a1ff475)) == 0xa5aaeaff569a9bce &&
        shift_up(times(0xa5aaeaff569a9bce, 0xa5aaeaff569a9bce)) == 0xdbb4e8d3b1cd6586 &&
        shift_up(times(0xdbb4e8d3b1cd6586, 0xdbb4e8d3b1cd6586)) == 0x1bf35e854df3938c &&
        shift_up(times(0x1bf35e854df3938c, 0x1bf35e854df3938c)) == 0x76b616e42f867f8f &&
        shift_up(times(0x76b616e42f867f8f, 0x76b616e42f867f8f)) == 0x55ca22bc7e677a19 &&
        shift_up(times(0x55ca22bc7e677a19, 0x55ca22bc7e677a19)) == 0xb5870173806e6e1d &&
        shift_up(times(0xb5870173806e6e1d, 0xb5870173806e6e1d)) == 0x0099b962672e8497 &&
        shift_up(times(0x0099b962672e8497, 0x0099b962672e8497)) == 0x28a30cb5ddd627d8 &&
        shift_up(times(0x28a30cb5ddd627d8, 0x28a30cb5ddd627d8)) == 0x780d38122468d398 &&
        shift_up(times(0x780d38122468d398, 0x780d38122468d398)) == 0x4deb8e0f9da7dddc &&
        shift_up(times(0x4deb8e0f9da7dddc, 0x4deb8e0f9da7dddc)) == 0x3ad29b1da72194a4 &&
        shift_up(times(0x3ad29b1da72194a4, 0x3ad29b1da72194a4)) == 0x8c22e3d96450cd26 &&
        shift_up(times(0x8c22e3d96450cd26, 0x8c22e3d96450cd26)) == 0x95ecbda3ff73f2be &&
        shift_up(times(0x95ecbda3ff73f2be, 0x95ecbda3ff73f2be)) == 0x8c2f3637cba2ecb7 &&
        shift_up(times(0x8c2f3637cba2ecb7, 0x8c2f3637cba2ecb7)) == 0x7c2ed84fca1eee6c &&
        shift_up(times(0x7c2ed84fca1eee6c, 0x7c2ed84fca1eee6c)) == 0x4ec4c9932ed564eb &&
        shift_up(times(0x4ec4c9932ed564eb, 0x4ec4c9932ed564eb)) == 0x2b8691ba9ce7836f &&
        shift_up(times(0x2b8691ba9ce7836f, 0x2b8691ba9ce7836f)) == 0x9c763e17c8f507c6 &&
        shift_up(times(0x9c763e17c8f507c6, 0x9c763e17c8f507c6)) == 0x1f7661a7b18b1b34 &&
        shift_up(times(0x1f7661a7b18b1b34, 0x1f7661a7b18b1b34)) == 0xbfe57ff49d75b7a0 &&
        shift_up(times(0xbfe57ff49d75b7a0, 0xbfe57ff49d75b7a0)) == 0x8246cc1079cfaff2 &&
        shift_up(times(0x8246cc1079cfaff2, 0x8246cc1079cfaff2)) == 0x3163192f80855741 &&
        shift_up(times(0x3163192f80855741, 0x3163192f80855741)) == 0x5b9bba17eb30e430 &&
        shift_up(times(0x5b9bba17eb30e430, 0x5b9bba17eb30e430)) == 0x13ffa47321d69ae7 &&
        shift_up(times(0x13ffa47321d69ae7, 0x13ffa47321d69ae7)) == 0x010479362a55b193 &&
        shift_up(times(0x010479362a55b193, 0x010479362a55b193)) == 0x3b2bc6ee555db3c1 &&
        shift_up(times(0x3b2bc6ee555db3c1, 0x3b2bc6ee555db3c1)) == 0xd31851ee61e5e9a6 &&
        shift_up(times(0xd31851ee61e5e9a6, 0xd31851ee61e5e9a6)) == 0x0000000000000001
    ) by (bit_vector);
    lemma_square_and_step(0x1, 0x0000000000000002, 0x0000000000000008);
    lemma_square_and_step(0x3, 0x0000000000000008, 0x0000000000000080);
    lemma_square_and_step(0x7, 0x0000000000000080, 0x0000000000008000);
    lemma_square_and_step(0xf, 0x0000000000008000, 0x0000000080000000);
    lemma_square_and_step(0x1f, 0x0000000080000000, 0x8000000000000000);
    lemma_square_and_step(0x3f, 0x8000000000000000, 0x12d856446379b76e);
    lemma_square_and_step(0x7f, 0x12d856446379b76e, 0xdc1e7e544c6e7d2c);
    lemma_square_and_step(0xff, 0xdc1e7e544c6e7d2c, 0xce29f14329246bd6);
    lemma_square_and_step(0x1ff, 0xce29f14329246bd6, 0xa93cb4e8f6db4edb);
    lemma_square_and_step(0x3ff, 0xa93cb4e8f6db4edb, 0xf9f0ec4ece16cefb);
    lemma_square_and_step(0x7ff, 0xf9f0ec4ece16cefb, 0xee123101b3b3907f);
    lemma_square_and_step(0xfff, 0xee123101b3b3907f, 0x4f1aba620c398f66);
    lemma_square_and_step(0x1fff, 0x4f1aba620c398f66, 0x4fc61931f1ec465e);
    lemma_square_and_step(0x3fff, 0x4fc61931f1ec465e, 0x228a082be5a53e8e);
    lemma_square_and_step(0x7fff, 0x228a082be5a53e8e, 0x0998e3d0e6515aa1);
    lemma_square_and_step(0xffff, 0x0998e3d0e6515aa1, 0xdb43d3f2bd3dd9fa);
    lemma_square_and_step(0x1ffff, 0xdb43d3f2bd3dd9fa, 0x65f6fed3aa97622c);
    lemma_square_and_step(0x3ffff, 0x65f6fed3aa97622c, 0xcd584651525b9f6d);
    lemma_square_and_step(0x7ffff, 0xcd584651525b9f6d, 0x5dbe223d60467311);
    lemma_square_and_step(0xfffff, 0x5dbe223d60467311, 0xc2884b4b88701744);
    lemma_square_and_step(0x1fffff, 0xc2884b4b88701744, 0xd66b1f5ad30376f6);
    lemma_square_and_step(0x3fffff, 0xd66b1f5ad30376f6, 0x356b9648f7da9a6c);
    lemma_square_and_step(0x7fffff, 0x356b9648f7da9a6c, 0xc072edeedd270151);
    lemma_square_and_step(0xffffff, 0xc072edeedd270151, 0x019ea16ff932c1f7);
    lemma_square_and_step(0x1ffffff, 0x019ea16ff932c1f7, 0x66fe7423ae9b0782);
    lemma_square_and_step(0x3ffffff, 0x66fe7423ae9b0782, 0x3fa4e772461950eb);
    lemma_square_and_step(0x7ffffff, 0x3fa4e772461950eb, 0xb848046a523ea13a);
    lemma_square_and_step(0xfffffff, 0xb848046a523ea13a, 0xa49c6e558a6defe4);
    lemma_square_and_step(0x1fffffff, 0xa49c6e558a6defe4, 0x059318bbbf79872e);
    lemma_square_and_step(0x3fffffff, 0x059318bbbf79872e, 0x565ca2ae0a0ddb4c);
    lemma_square_and_step(0x7fffffff, 0x565ca2ae0a0ddb4c, 0x55b552ae7510ece4);
    lemma_square_and_step(0xffffffff, 0x55b552ae7510ece4, 0x59db3912a8d5bbd4);
    lemma_square_and_step(0x1ffffffff, 0x59db3912a8d5bbd4, 0xb599d325b428fc88);
    lemma_square_and_step(0x3ffffffff, 0xb599d325b428fc88, 0xc3f12f8006eac978);
    lemma_square_and_step(0x7ffffffff, 0xc3f12f8006eac978, 0xc189f7fc8a1ff475);
    lemma_square_and_step(0xfffffffff, 0xc189f7fc8a1ff475, 0xa5aaeaff569a9bce);
    lemma_square_and_step(0x1fffffffff, 0xa5aaeaff569a9bce, 0xdbb4e8d3b1cd6586);
    lemma_square_and_step(0x3fffffffff, 0xdbb4e8d3b1cd6586, 0x1bf35e854df3938c);
    lemma_square_and_step(0x7fffffffff, 0x1bf35e854df3938c, 0x76b616e42f867f8f);
    lemma_square_and_step(0xffffffffff, 0x76b616e42f867f8f, 0x55ca22bc7e677a19);
    lemma_square_and_step(0x1ffffffffff, 0x55ca22bc7e677a19, 0xb5870173806e6e1d);
    lemma_square_and_step(0x3ffffffffff, 0xb5870173806e6e1d, 0x0099b962672e8497);
    lemma_square_and_step(0x7ffffffffff, 0x0099b962672e8497, 0x28a30cb5ddd627d8);
    lemma_square_and_step(0xfffffffffff, 0x28a30cb5ddd627d8, 0x780d38122468d398);
    lemma_square_and_step(0x1fffffffffff, 0x780d38122468d398, 0x4deb8e0f9da7dddc);
    lemma_square_and_step(0x3fffffffffff, 0x4deb8e0f9da7dddc, 0x3ad29b1da72194a4);
    lemma_square_and_step(0x7fffffffffff, 0x3ad29b1da72194a4, 0x8c22e3d96450cd26);
    lemma_square_and_step(0xffffffffffff, 0x8c22e3d96450cd26, 0x95ecbda3ff73f2be);
    lemma_square_and_step(0x1ffffffffffff, 0x95ecbda3ff73f2be, 0x8c2f3637cba2ecb7);
    lemma_square_and_step(0x3ffffffffffff, 0x8c2f3637cba2ecb7, 0x7c2ed84fca1eee6c);
    lemma_square_and_step(0x7ffffffffffff, 0x7c2ed84fca1eee6c, 0x4ec4c9932ed564eb);
    lemma_square_and_step(0xfffffffffffff, 0x4ec4c9932ed564eb, 0x2b8691ba9ce7836f);
    lemma_square_and_step(0x1fffffffffffff, 0x2b8691ba9ce7836f, 0x9c763e17c8f507c6);
    lemma_square_and_step(0x3fffffffffffff, 0x9c763e17c8f507c6, 0x1f7661a7b18b1b34);
    lemma_square_and_step(0x7fffffffffffff, 0x1f7661a7b18b1b34, 0xbfe57ff49d75b7a0);
    lemma_square_and_step(0xffffffffffffff, 0xbfe57ff49d75b7a0, 0x8246cc1079cfaff2);
    lemma_square_and_step(0x1ffffffffffffff, 0x8246cc1079cfaff2, 0x3163192f80855741);
    lemma_square_and_step(0x3ffffffffffffff, 0x3163192f80855741, 0x5b9bba17eb30e430);
    lemma_square_and_step(0x7ffffffffffffff, 0x5b9bba17eb30e430, 0x13ffa47321d69ae7);
    lemma_square_and_step(0xfffffffffffffff, 0x13ffa47321d69ae7, 0x010479362a55b193);
    lemma_square_and_step(0x1fffffffffffffff, 0x010479362a55b193, 0x3b2bc6ee555db3c1);
    lemma_square_and_step(0x3fffffffffffffff, 0x3b2bc6ee555db3c1, 0xd31851ee61e5e9a6);
    lemma_square_and_step(0x7fffffffffffffff, 0xd31851ee61e5e9a6, 0x0000000000000001);
}

/// The norms of `x` down the tower of subfields.
proof fn lemma_norms()
    ensures
        is_power(0x100000001, 0x57eb9e1a8cd28191),
        is_power(0x1000100010001, 0x0149b246f2806a0a),
        is_power(0x101010101010101, 0x84e4a6e63544c92a),
        is_power(0x1111111111111111, 0xe4aea23ca59dfa70),
        is_power(0x5555555555555555, 0xd742ca58f5d785e2),
{
    lemma_first_powers();
    assert(
        times(0x0000000000000002, 0x0000000000000002) == 0x0000000000000004 &&
        times(0x0000000000000004, 0x0000000000000004) == 0x0000000000000010 &&
        times(0x0000000000000010, 0x0000000000000010) == 0x0000000000000100 &&
        times(0x0000000000000100, 0x0000000000000100) == 0x0000000000010000 &&
        times(0x0000000000010000, 0x0000000000010000) == 0x0000000100000000 &&
        times(0x0000000100000000, 0x0000000100000000) == 0x013ed4a358913201 &&
        times(0x013ed4a358913201, 0x013ed4a358913201) == 0x25b0ac88c6f36edc &&
        times(0x25b0ac88c6f36edc, 0x25b0ac88c6f36edc) == 0xb902280bc04dc859 &&
        times(0xb902280bc04dc859, 0xb902280bc04dc859) == 0x9d6d36250ad9e5ad &&
        times(0x9d6d36250ad9e5ad, 0x9d6d36250ad9e5ad) == 0x5347bd72b527afb7 &&
        times(0x5347bd72b527afb7, 0x5347bd72b527afb7) == 0xf2df0c3ec4bcaff7 &&
        times(0xf2df0c3ec4bcaff7, 0xf2df0c3ec4bcaff7) == 0xdd1ab6a03ff612ff &&
        times(0xdd1ab6a03ff612ff, 0xdd1ab6a03ff612ff) == 0x9e3574c418731ecc &&
        times(0x9e3574c418731ecc, 0x9e3574c418731ecc) == 0x9f8c3263e3d88cbc &&
        times(0x9f8c3263e3d88cbc, 0x9f8c3263e3d88cbc) == 0x45141057cb4a7d1c &&
        times(0x45141057cb4a7d1c, 0x45141057cb4a7d1c) == 0x1331c7a1cca2b542 &&
        times(0x1331c7a1cca2b542, 0x1331c7a1cca2b542) == 0xb7b9734622ea81f5 &&
        times(0xb7b9734622ea81f5, 0xb7b9734622ea81f5) == 0xcbedfda7552ec458 &&
        times(0xcbedfda7552ec458, 0xcbedfda7552ec458) == 0x9b8e5801fc260cdb &&
        times(0x9b8e5801fc260cdb, 0x9b8e5801fc260cdb) == 0xbb7c447ac08ce622 &&
        times(0xbb7c447ac08ce622, 0xbb7c447ac08ce622) == 0x842e423448711c89 &&
        times(0x842e423448711c89, 0x842e423448711c89) == 0xade8ea16fe97dfed &&
        times(0xade8ea16fe97dfed, 0xade8ea16fe97dfed) == 0x6ad72c91efb534d8 &&
        times(0x6ad72c91efb534d8, 0x6ad72c91efb534d8) == 0x81db0f7ee2df30a3 &&
        times(0x81db0f7ee2df30a3, 0x81db0f7ee2df30a3) == 0x033d42dff26583ee &&
        times(0x033d42dff26583ee, 0x033d42dff26583ee) == 0xcdfce8475d360f04 &&
        times(0xcdfce8475d360f04, 0xcdfce8475d360f04) == 0x7f49cee48c32a1d6 &&
        times(0x7f49cee48c32a1d6, 0x7f49cee48c32a1d6) == 0x71aedc77fcec7075 &&
        times(0x71aedc77fcec7075, 0x71aedc77fcec7075) == 0x480608084c4aedc9 &&
        times(0x480608084c4aedc9, 0x480608084c4aedc9) == 0x0b2631777ef30e5c &&
        times(0x0b2631777ef30e5c, 0x0b2631777ef30e5c) == 0xacb9455c141bb698 &&
        times(0xacb9455c141bb698, 0xacb9455c141bb698) == 0xab6aa55cea21d9c8 &&
        times(0xab6aa55cea21d9c8, 0x0000000000000002) == 0x57eb9e1a8cd28191 &&
        times(0x57eb9e1a8cd28191, 0x57eb9e1a8cd28191) == 0xcca461d3f78fbaa2 &&
        times(0xcca461d3f78fbaa2, 0xcca461d3f78fbaa2) == 0xa651d548df6a1d16 &&
        times(0xa651d548df6a1d16, 0xa651d548df6a1d16) == 0x45670932df5f5d86 &&
        times(0x45670932df5f5d86, 0x45670932df5f5d86) == 0x87ff29a5b223e2b0 &&
        times(0x87ff29a5b223e2b0, 0x87ff29a5b223e2b0) == 0xe74343d542ca66f8 &&
        times(0xe74343d542ca66f8, 0xe74343d542ca66f8) == 0x65b653c1fb6a6441 &&
        times(0x65b653c1fb6a6441, 0x65b653c1fb6a6441) == 0x0f8ced43d52aa9b3 &&
        times(0x0f8ced43d52aa9b3, 0x0f8ced43d52aa9b3) == 0x8fab94349c68114a &&
        times(0x8fab94349c68114a, 0x8fab94349c68114a) == 0xf3335f1646f38fc2 &&
        times(0xf3335f1646f38fc2, 0xf3335f1646f38fc2) == 0xc5631dda26054509 &&
        times(0xc5631dda26054509, 0xc5631dda26054509) == 0xb4e0e6c61379ffb3 &&
        times(0xb4e0e6c61379ffb3, 0xb4e0e6c61379ffb3) == 0x9788c37d46a7a54f &&
        times(0x9788c37d46a7a54f, 0x9788c37d46a7a54f) == 0x6ac251fab38c4e2e &&
        times(0x6ac251fab38c4e2e, 0x6ac251fab38c4e2e) == 0x39f12b7b99f81614 &&
        times(0x39f12b7b99f81614, 0x39f12b7b99f81614) == 0xa5b185334890916b &&
        times(0xa5b185334890916b, 0xa5b185334890916b) == 0x19bdf8ff86b106b1 &&
        times(0x19bdf8ff86b106b1, 0x57eb9e1a8cd28191) == 0x0149b246f2806a0a &&
        times(0x0149b246f2806a0a, 0x0149b246f2806a0a) == 0x9714ebfbcad5bae2 &&
        times(0x9714ebfbcad5bae2, 0x9714ebfbcad5bae2) == 0xd4506cdffd8e700b &&
        times(0xd4506cdffd8e700b, 0xd4506cdffd8e700b) == 0xa322ee3eb2895358 &&
        times(0xa322ee3eb2895358, 0xa322ee3eb2895358) == 0x737a99a5efc70de1 &&
        times(0x737a99a5efc70de1, 0x737a99a5efc70de1) == 0x270f88652ec38643 &&
        times(0x270f88652ec38643, 0x270f88652ec38643) == 0xa9528ad51a87300c &&
        times(0xa9528ad51a87300c, 0xa9528ad51a87300c) == 0x6533e66ea157ebfa &&
        times(0x6533e66ea157ebfa, 0x6533e66ea157ebfa) == 0x4ba2ac63c195f2ce &&
        times(0x4ba2ac63c195f2ce, 0x0149b246f2806a0a) == 0x84e4a6e63544c92a &&
        times(0x84e4a6e63544c92a, 0x84e4a6e63544c92a) == 0x03be3d4f316da51f &&
        times(0x03be3d4f316da51f, 0x03be3d4f316da51f) == 0xb708ce82650eb6b8 &&
        times(0xb708ce82650eb6b8, 0xb708ce82650eb6b8) == 0x44e6d26c22e2a907 &&
        times(0x44e6d26c22e2a907, 0x44e6d26c22e2a907) == 0x53a66cbec0934cc8 &&
        times(0x53a66cbec0934cc8, 0x84e4a6e63544c92a) == 0xe4aea23ca59dfa70 &&
        times(0xe4aea23ca59dfa70, 0xe4aea23ca59dfa70) == 0x901a257be65889fb &&
        times(0x901a257be65889fb, 0x901a257be65889fb) == 0x33ec6864504a7f92 &&
        times(0x33ec6864504a7f92, 0xe4aea23ca59dfa70) == 0xd742ca58f5d785e2
    ) by (bit_vector);
    lemma_square(0x1, 0x0000000000000002, 0x0000000000000004);
    lemma_square(0x2, 0x0000000000000004, 0x0000000000000010);
    lemma_square(0x4, 0x0000000000000010, 0x0000000000000100);
    lemma_square(0x8, 0x0000000000000100, 0x0000000000010000);
    lemma_square(0x10, 0x0000000000010000, 0x0000000100000000);
    lemma_square(0x20, 0x0000000100000000, 0x013ed4a358913201);
    lemma_square(0x40, 0x013ed4a358913201, 0x25b0ac88c6f36edc);
    lemma_square(0x80, 0x25b0ac88c6f36edc, 0xb902280bc04dc859);
    lemma_square(0x100, 0xb902280bc04dc859, 0x9d6d36250ad9e5ad);
    lemma_square(0x200, 0x9d6d36250ad9e5ad, 0x5347bd72b527afb7);
    lemma_square(0x400, 0x5347bd72b527afb7, 0xf2df0c3ec4bcaff7);
    lemma_square(0x800, 0xf2df0c3ec4bcaff7, 0xdd1ab6a03ff612ff);
    lemma_square(0x1000, 0xdd1ab6a03ff612ff, 0x9e3574c418731ecc);
    lemma_square(0x2000, 0x9e3574c418731ecc, 0x9f8c3263e3d88cbc);
    lemma_square(0x4000, 0x9f8c3263e3d88cbc, 0x45141057cb4a7d1c);
    lemma_square(0x8000, 0x45141057cb4a7d1c, 0x1331c7a1cca2b542);
    lemma_square(0x10000, 0x1331c7a1cca2b542, 0xb7b9734622ea81f5);
    lemma_square(0x20000, 0xb7b9734622ea81f5, 0xcbedfda7552ec458);
    lemma_square(0x40000, 0xcbedfda7552ec458, 0x9b8e5801fc260cdb);
    lemma_square(0x80000, 0x9b8e5801fc260cdb, 0xbb7c447ac08ce622);
    lemma_square(0x100000, 0xbb7c447ac08ce622, 0x842e423448711c89);
    lemma_square(0x200000, 0x842e423448711c89, 0xade8ea16fe97dfed);
    lemma_square(0x400000, 0xade8ea16fe97dfed, 0x6ad72c91efb534d8);
    lemma_square(0x800000, 0x6ad72c91efb534d8, 0x81db0f7ee2df30a3);
    lemma_square(0x1000000, 0x81db0f7ee2df30a3, 0x033d42dff26583ee);
    lemma_square(0x2000000, 0x033d42dff26583ee, 0xcdfce8475d360f04);
    lemma_square(0x4000000, 0xcdfce8475d360f04, 0x7f49cee48c32a1d6);
    lemma_square(0x8000000, 0x7f49cee48c32a1d6, 0x71aedc77fcec7075);
    lemma_square(0x10000000, 0x71aedc77fcec7075, 0x480608084c4aedc9);
    lemma_square(0x20000000, 0x480608084c4aedc9, 0x0b2631777ef30e5c);
    lemma_square(0x40000000, 0x0b2631777ef30e5c, 0xacb9455c141bb698);
    lemma_square(0x80000000, 0xacb9455c141bb698, 0xab6aa55cea21d9c8);
    lemma_multiply(0x100000000, 0xab6aa55cea21d9c8, 0x1, 0x0000000000000002, 0x57eb9e1a8cd28191);
    lemma_square(0x100000001, 0x57eb9e1a8cd28191, 0xcca461d3f78fbaa2);
    lemma_square(0x200000002, 0xcca461d3f78fbaa2, 0xa651d548df6a1d16);
    lemma_square(0x400000004, 0xa651d548df6a1d16, 0x45670932df5f5d86);
    lemma_square(0x800000008, 0x45670932df5f5d86, 0x87ff29a5b223e2b0);
    lemma_square(0x1000000010, 0x87ff29a5b223e2b0, 0xe74343d542ca66f8);
    lemma_square(0x2000000020, 0xe74343d542ca66f8, 0x65b653c1fb6a6441);
    lemma_square(0x4000000040, 0x65b653c1fb6a6441, 0x0f8ced43d52aa9b3);
    lemma_square(0x8000000080, 0x0f8ced43d52aa9b3, 0x8fab94349c68114a);
    lemma_square(0x10000000100, 0x8fab94349c68114a, 0xf3335f1646f38fc2);
    lemma_square(0x20000000200, 0xf3335f1646f38fc2, 0xc5631dda26054509);
    lemma_square(0x40000000400, 0xc5631dda26054509, 0xb4e0e6c61379ffb3);
    lemma_square(0x80000000800, 0xb4e0e6c61379ffb3, 0x9788c37d46a7a54f);
    lemma_square(0x100000001000, 0x9788c37d46a7a54f, 0x6ac251fab38c4e2e);
    lemma_square(0x200000002000, 0x6ac251fab38c4e2e, 0x39f12b7b99f81614);
    lemma_square(0x400000004000, 0x39f12b7b99f81614, 0xa5b185334890916b);
    lemma_square(0x800000008000, 0xa5b185334890916b, 0x19bdf8ff86b106b1);
    lemma_multiply(0x1000000010000, 0x19bdf8ff86b106b1, 0x100000001, 0x57eb9e1a8cd28191, 0x0149b246f2806a0a);
    lemma_square(0x1000100010001, 0x0149b246f2806a0a, 0x9714ebfbcad5bae2);
    lemma_square(0x2000200020002, 0x9714ebfbcad5bae2, 0xd4506cdffd8e700b);
    lemma_square(0x4000400040004, 0xd4506cdffd8e700b, 0xa322ee3eb2895358);
    lemma_square(0x8000800080008, 0xa322ee3eb2895358, 0x737a99a5efc70de1);
    lemma_square(0x10001000100010, 0x737a99a5efc70de1, 0x270f88652ec38643);
    lemma_square(0x20002000200020, 0x270f88652ec38643, 0xa9528ad51a87300c);
    lemma_square(0x40004000400040, 0xa9528ad51a87300c, 0x6533e66ea157ebfa);
    lemma_square(0x80008000800080, 0x6533e66ea157ebfa, 0x4ba2ac63c195f2ce);
    lemma_multiply(0x100010001000100, 0x4ba2ac63c195f2ce, 0x1000100010001, 0x0149b246f2806a0a, 0x84e4a6e63544c92a);
    lemma_square(0x101010101010101, 0x84e4a6e63544c92a, 0x03be3d4f316da51f);
    lemma_square(0x202020202020202, 0x03be3d4f316da51f, 0xb708ce82650eb6b8);
    lemma_square(0x404040404040404, 0xb708ce82650eb6b8, 0x44e6d26c22e2a907);
    lemma_square(0x808080808080808, 0x44e6d26c22e2a907, 0x53a66cbec0934cc8);
    lemma_multiply(0x1010101010101010, 0x53a66cbec0934cc8, 0x101010101010101, 0x84e4a6e63544c92a, 0xe4aea23ca59dfa70);
    lemma_square(0x1111111111111111, 0xe4aea23ca59dfa70, 0x901a257be65889fb);
    lemma_square(0x2222222222222222, 0x901a257be65889fb, 0x33ec6864504a7f92);
    lemma_multiply(0x4444444444444444, 0x33ec6864504a7f92, 0x1111111111111111, 0xe4aea23ca59dfa70, 0xd742ca58f5d785e2);
}

/// The powers with the exponents `(2^64 - 1) / q` for the Fermat primes `q` above 3.
proof fn lemma_small_cofactors()
    requires
        is_power(0x100000001, 0x57eb9e1a8cd28191),
        is_power(0x1000100010001, 0x0149b246f2806a0a),
        is_power(0x101010101010101, 0x84e4a6e63544c92a),
        is_power(0x1111111111111111, 0xe4aea23ca59dfa70),
    ensures
        is_power(0x3333333333333333, 0x33ec6864504a7f93),
        is_power(0xf0f0f0f0f0f0f0f, 0xb36452d0ddae191a),
        is_power(0xff00ff00ff00ff, 0x83a30be66e29c2af),
        is_power(0xffff0000ffff, 0x66afc02739afee79),
{
    assert(
        times(0xe4aea23ca59dfa70, 0xe4aea23ca59dfa70) == 0x901a257be65889fb &&
        times(0x901a257be65889fb, 0xe4aea23ca59dfa70) == 0x33ec6864504a7f93 &&
        times(0x84e4a6e63544c92a, 0x84e4a6e63544c92a) == 0x03be3d4f316da51f &&
        times(0x03be3d4f316da51f, 0x84e4a6e63544c92a) == 0xe0c23e6e1d3d55d2 &&
        times(0xe0c23e6e1d3d55d2, 0xe0c23e6e1d3d55d2) == 0x0db3f106209a94dc &&
        times(0x0db3f106209a94dc, 0x0db3f106209a94dc) == 0x343ec979d987752e &&
        times(0x343ec979d987752e, 0xe0c23e6e1d3d55d2) == 0xb36452d0ddae191a &&
        times(0x0149b246f2806a0a, 0x0149b246f2806a0a) == 0x9714ebfbcad5bae2 &&
        times(0x9714ebfbcad5bae2, 0x0149b246f2806a0a) == 0x1492c8376aa75d55 &&
        times(0x1492c8376aa75d55, 0x1492c8376aa75d55) == 0x907f7e0e7662c53c &&
        times(0x907f7e0e7662c53c, 0x907f7e0e7662c53c) == 0x2912acbfb6378763 &&
        times(0x2912acbfb6378763, 0x1492c8376aa75d55) == 0xe8b9d5889888f059 &&
        times(0xe8b9d5889888f059, 0xe8b9d5889888f059) == 0xfcbb5611a5c2b943 &&
        times(0xfcbb5611a5c2b943, 0xfcbb5611a5c2b943) == 0x0bb4fe9fa0f6a411 &&
        times(0x0bb4fe9fa0f6a411, 0x0bb4fe9fa0f6a411) == 0x3875726d9f3c620e &&
        times(0x3875726d9f3c620e, 0x3875726d9f3c620e) == 0xd3e30d67e96eeed0 &&
        times(0xd3e30d67e96eeed0, 0xe8b9d5889888f059) == 0x83a30be66e29c2af &&
        times(0x57eb9e1a8cd28191, 0x57eb9e1a8cd28191) == 0xcca461d3f78fbaa2 &&
        times(0xcca461d3f78fbaa2, 0x57eb9e1a8cd28191) == 0xce4ee693ac8b8c33 &&
        times(0xce4ee693ac8b8c33, 0xce4ee693ac8b8c33) == 0x38fee30ac38c50f2 &&
        times(0x38fee30ac38c50f2, 0x38fee30ac38c50f2) == 0xa74974d7f54213ab &&
        times(0xa74974d7f54213ab, 0xce4ee693ac8b8c33) == 0x2f5fc0efecf24eb2 &&
        times(0x2f5fc0efecf24eb2, 0x2f5fc0efecf24eb2) == 0x2b1a1dd4874dd38d &&
        times(0x2b1a1dd4874dd38d, 0x2b1a1dd4874dd38d) == 0x617b2776e2f13b06 &&
        times(0x617b2776e2f13b06, 0x617b2776e2f13b06) == 0x06de53023f94d0d1 &&
        times(0x06de53023f94d0d1, 0x06de53023f94d0d1) == 0xeabd7b6f5b027338 &&
        times(0xeabd7b6f5b027338, 0x2f5fc0efecf24eb2) == 0xc08401a0169c88ab &&
        times(0xc08401a0169c88ab, 0xc08401a0169c88ab) == 0x234f7e6cec0eef62 &&
        times(0x234f7e6cec0eef62, 0x234f7e6cec0eef62) == 0xa0897f9bb4247bbc &&
        times(0xa0897f9bb4247bbc, 0xa0897f9bb4247bbc) == 0x04b2461f55bcf621 &&
        times(0x04b2461f55bcf621, 0x04b2461f55bcf621) == 0x07812981116d7d3e &&
        times(0x07812981116d7d3e, 0x07812981116d7d3e) == 0xe6c8ae890aa4e5ed &&
        times(0xe6c8ae890aa4e5ed, 0xe6c8ae890aa4e5ed) == 0x1fae586ab9ebccd9 &&
        times(0x1fae586ab9ebccd9, 0x1fae586ab9ebccd9) == 0x5500f2972197178f &&
        times(0x5500f2972197178f, 0x5500f2972197178f) == 0x03816144aa631b9b &&
        times(0x03816144aa631b9b, 0xc08401a0169c88ab) == 0x66afc02739afee79
    ) by (bit_vector);
    lemma_square(0x1111111111111111, 0xe4aea23ca59dfa70, 0x901a257be65889fb);
    lemma_multiply(0x2222222222222222, 0x901a257be65889fb, 0x1111111111111111, 0xe4aea23ca59dfa70, 0x33ec6864504a7f93);
    lemma_square(0x101010101010101, 0x84e4a6e63544c92a, 0x03be3d4f316da51f);
    lemma_multiply(0x202020202020202, 0x03be3d4f316da51f, 0x101010101010101, 0x84e4a6e63544c92a, 0xe0c23e6e1d3d55d2);
    lemma_square(0x303030303030303, 0xe0c23e6e1d3d55d2, 0x0db3f106209a94dc);
    lemma_square(0x606060606060606, 0x0db3f106209a94dc, 0x343ec979d987752e);
    lemma_multiply(0xc0c0c0c0c0c0c0c, 0x343ec979d987752e, 0x303030303030303, 0xe0c23e6e1d3d55d2, 0xb36452d0ddae191a);
    lemma_square(0x1000100010001, 0x0149b246f2806a0a, 0x9714ebfbcad5bae2);
    lemma_multiply(0x2000200020002, 0x9714ebfbcad5bae2, 0x1000100010001, 0x0149b246f2806a0a, 0x1492c8376aa75d55);
    lemma_square(0x3000300030003, 0x1492c8376aa75d55, 0x907f7e0e7662c53c);
    lemma_square(0x6000600060006, 0x907f7e0e7662c53c, 0x2912acbfb6378763);
    lemma_multiply(0xc000c000c000c, 0x2912acbfb6378763, 0x3000300030003, 0x1492c8376aa75d55, 0xe8b9d5889888f059);
    lemma_square(0xf000f000f000f, 0xe8b9d5889888f059, 0xfcbb5611a5c2b943);
    lemma_square(0x1e001e001e001e, 0xfcbb5611a5c2b943, 0x0bb4fe9fa0f6a411);
    lemma_square(0x3c003c003c003c, 0x0bb4fe9fa0f6a411, 0x3875726d9f3c620e);
    lemma_square(0x78007800780078, 0x3875726d9f3c620e, 0xd3e30d67e96eeed0);
    lemma_multiply(0xf000f000f000f0, 0xd3e30d67e96eeed0, 0xf000f000f000f, 0xe8b9d5889888f059, 0x83a30be66e29c2af);
    lemma_square(0x100000001, 0x57eb9e1a8cd28191, 0xcca461d3f78fbaa2);
    lemma_multiply(0x200000002, 0xcca461d3f78fbaa2, 0x100000001, 0x57eb9e1a8cd28191, 0xce4ee693ac8b8c33);
    lemma_square(0x300000003, 0xce4ee693ac8b8c33, 0x38fee30ac38c50f2);
    lemma_square(0x600000006, 0x38fee30ac38c50f2, 0xa74974d7f54213ab);
    lemma_multiply(0xc0000000c, 0xa74974d7f54213ab, 0x300000003, 0xce4ee693ac8b8c33, 0x2f5fc0efecf24eb2);
    lemma_square(0xf0000000f, 0x2f5fc0efecf24eb2, 0x2b1a1dd4874dd38d);
    lemma_square(0x1e0000001e, 0x2b1a1dd4874dd38d, 0x617b2776e2f13b06);
    lemma_square(0x3c0000003c, 0x617b2776e2f13b06, 0x06de53023f94d0d1);
    lemma_square(0x7800000078, 0x06de53023f94d0d1, 0xeabd7b6f5b027338);
    lemma_multiply(0xf0000000f0, 0xeabd7b6f5b027338, 0xf0000000f, 0x2f5fc0efecf24eb2, 0xc08401a0169c88ab);
    lemma_square(0xff000000ff, 0xc08401a0169c88ab, 0x234f7e6cec0eef62);
    lemma_square(0x1fe000001fe, 0x234f7e6cec0eef62, 0xa0897f9bb4247bbc);
    lemma_square(0x3fc000003fc, 0xa0897f9bb4247bbc, 0x04b2461f55bcf621);
    lemma_square(0x7f8000007f8, 0x04b2461f55bcf621, 0x07812981116d7d3e);
    lemma_square(0xff000000ff0, 0x07812981116d7d3e, 0xe6c8ae890aa4e5ed);
    lemma_square(0x1fe000001fe0, 0xe6c8ae890aa4e5ed, 0x1fae586ab9ebccd9);
    lemma_square(0x3fc000003fc0, 0x1fae586ab9ebccd9, 0x5500f2972197178f);
    lemma_square(0x7f8000007f80, 0x5500f2972197178f, 0x03816144aa631b9b);
    lemma_multiply(0xff000000ff00, 0x03816144aa631b9b, 0xff000000ff, 0xc08401a0169c88ab, 0x66afc02739afee79);
}

/// The powers with the exponents `(2^64 - 1) / q` for the two prime factors of `2^32 + 1`.
proof fn lemma_large_cofactors()
    requires
        is_power(0xffffffff, 0x55b552ae7510ece4),
    ensures
        is_power(0x663d80ff99c27f, 0xeb75669663e23b9b),
        is_power(0x280fffffd7f, 0xa2344e72c8f1925f),
{
    assert(
        times(0x55b552ae7510ece4, 0x55b552ae7510ece4) == 0x2ced9c89546addea &&
        times(0x2ced9c89546addea, 0x55b552ae7510ece4) == 0xcfe4e914a37836e8 &&
        times(0xcfe4e914a37836e8, 0xcfe4e914a37836e8) == 0x4f62539600ac186d &&
        times(0x4f62539600ac186d, 0x4f62539600ac186d) == 0x1d8afc3ed0a95b97 &&
        times(0x1d8afc3ed0a95b97, 0x1d8afc3ed0a95b97) == 0x67af1e22259c6a57 &&
        times(0x67af1e22259c6a57, 0x55b552ae7510ece4) == 0x8429d7c2a2d92114 &&
        times(0x8429d7c2a2d92114, 0x8429d7c2a2d92114) == 0x3535a3838c9e0dfc &&
        times(0x3535a3838c9e0dfc, 0x55b552ae7510ece4) == 0x130cabe26caea409 &&
        times(0x130cabe26caea409, 0x130cabe26caea409) == 0x78a34bd71a0802ed &&
        times(0x78a34bd71a0802ed, 0x78a34bd71a0802ed) == 0x3fbb3c57314fac04 &&
        times(0x3fbb3c57314fac04, 0x3fbb3c57314fac04) == 0x373bb6ce6c9fab3b &&
        times(0x373bb6ce6c9fab3b, 0x373bb6ce6c9fab3b) == 0x11f7b1b28366d321 &&
        times(0x11f7b1b28366d321, 0x55b552ae7510ece4) == 0x52495b3246b22869 &&
        times(0x52495b3246b22869, 0x52495b3246b22869) == 0x7dd2f825a030e20b &&
        times(0x7dd2f825a030e20b, 0x55b552ae7510ece4) == 0x7224470b056b4042 &&
        times(0x7224470b056b4042, 0x7224470b056b4042) == 0xf1739216cd1f16d3 &&
        times(0xf1739216cd1f16d3, 0x55b552ae7510ece4) == 0x87db6a83ade38013 &&
        times(0x87db6a83ade38013, 0x87db6a83ade38013) == 0x8cc93b2d84408df0 &&
        times(0x8cc93b2d84408df0, 0x55b552ae7510ece4) == 0xc7d90c3cb7ef7ff0 &&
        times(0xc7d90c3cb7ef7ff0, 0xc7d90c3cb7ef7ff0) == 0x89982770920177ff &&
        times(0x89982770920177ff, 0x89982770920177ff) == 0xf2af1c558722da97 &&
        times(0xf2af1c558722da97, 0x55b552ae7510ece4) == 0x9ac587cf3b17492b &&
        times(0x9ac587cf3b17492b, 0x9ac587cf3b17492b) == 0x999c5f2883b283c7 &&
        times(0x999c5f2883b283c7, 0x55b552ae7510ece4) == 0x851c91154ff03dd5 &&
        times(0x851c91154ff03dd5, 0x851c91154ff03dd5) == 0xbca3502029dd4d92 &&
        times(0xbca3502029dd4d92, 0xbca3502029dd4d92) == 0x2e2e986a2fa9446a &&
        times(0x2e2e986a2fa9446a, 0x2e2e986a2fa9446a) == 0x8f00c4c90a918a51 &&
        times(0x8f00c4c90a918a51, 0x8f00c4c90a918a51) == 0xd1ef303a564654a3 &&
        times(0xd1ef303a564654a3, 0xd1ef303a564654a3) == 0x530a1e061f8ac7dc &&
        times(0x530a1e061f8ac7dc, 0x530a1e061f8ac7dc) == 0x2cabf50180b2cb5a &&
        times(0x2cabf50180b2cb5a, 0x2cabf50180b2cb5a) == 0xa5e8a7df455247ec &&
        times(0xa5e8a7df455247ec, 0x55b552ae7510ece4) == 0xeb75669663e23b9b &&
        times(0x55b552ae7510ece4, 0x55b552ae7510ece4) == 0x2ced9c89546addea &&
        times(0x2ced9c89546addea, 0x2ced9c89546addea) == 0x16b33a64b6851f91 &&
        times(0x16b33a64b6851f91, 0x55b552ae7510ece4) == 0x2fb616acdf855d53 &&
        times(0x2fb616acdf855d53, 0x2fb616acdf855d53) == 0x72b868b8e41e06a5 &&
        times(0x72b868b8e41e06a5, 0x72b868b8e41e06a5) == 0x168e29526601c99b &&
        times(0x168e29526601c99b, 0x168e29526601c99b) == 0x84bde4ab9252453a &&
        times(0x84bde4ab9252453a, 0x84bde4ab9252453a) == 0x510cb6c48799a365 &&
        times(0x510cb6c48799a365, 0x510cb6c48799a365) == 0x7fd98dee3d8f1ef4 &&
        times(0x7fd98dee3d8f1ef4, 0x7fd98dee3d8f1ef4) == 0x693a8f2364b8f9e5 &&
        times(0x693a8f2364b8f9e5, 0x693a8f2364b8f9e5) == 0x7ff0e5b40250f8ac &&
        times(0x7ff0e5b40250f8ac, 0x55b552ae7510ece4) == 0xa2344e72c8f1925f
    ) by (bit_vector);
    lemma_square(0xffffffff, 0x55b552ae7510ece4, 0x2ced9c89546addea);
    lemma_multiply(0x1fffffffe, 0x2ced9c89546addea, 0xffffffff, 0x55b552ae7510ece4, 0xcfe4e914a37836e8);
    lemma_square(0x2fffffffd, 0xcfe4e914a37836e8, 0x4f62539600ac186d);
    lemma_square(0x5fffffffa, 0x4f62539600ac186d, 0x1d8afc3ed0a95b97);
    lemma_square(0xbfffffff4, 0x1d8afc3ed0a95b97, 0x67af1e22259c6a57);
    lemma_multiply(0x17ffffffe8, 0x67af1e22259c6a57, 0xffffffff, 0x55b552ae7510ece4, 0x8429d7c2a2d92114);
    lemma_square(0x18ffffffe7, 0x8429d7c2a2d92114, 0x3535a3838c9e0dfc);
    lemma_multiply(0x31ffffffce, 0x3535a3838c9e0dfc, 0xffffffff, 0x55b552ae7510ece4, 0x130cabe26caea409);
    lemma_square(0x32ffffffcd, 0x130cabe26caea409, 0x78a34bd71a0802ed);
    lemma_square(0x65ffffff9a, 0x78a34bd71a0802ed, 0x3fbb3c57314fac04);
    lemma_square(0xcbffffff34, 0x3fbb3c57314fac04, 0x373bb6ce6c9fab3b);
    lemma_square(0x197fffffe68, 0x373bb6ce6c9fab3b, 0x11f7b1b28366d321);
    lemma_multiply(0x32ffffffcd0, 0x11f7b1b28366d321, 0xffffffff, 0x55b552ae7510ece4, 0x52495b3246b22869);
    lemma_square(0x330fffffccf, 0x52495b3246b22869, 0x7dd2f825a030e20b);
    lemma_multiply(0x661fffff99e, 0x7dd2f825a030e20b, 0xffffffff, 0x55b552ae7510ece4, 0x7224470b056b4042);
    lemma_square(0x662fffff99d, 0x7224470b056b4042, 0xf1739216cd1f16d3);
    lemma_multiply(0xcc5fffff33a, 0xf1739216cd1f16d3, 0xffffffff, 0x55b552ae7510ece4, 0x87db6a83ade38013);
    lemma_square(0xcc6fffff339, 0x87db6a83ade38013, 0x8cc93b2d84408df0);
    lemma_multiply(0x198dffffe672, 0x8cc93b2d84408df0, 0xffffffff, 0x55b552ae7510ece4, 0xc7d90c3cb7ef7ff0);
    lemma_square(0x198effffe671, 0xc7d90c3cb7ef7ff0, 0x89982770920177ff);
    lemma_square(0x331dffffcce2, 0x89982770920177ff, 0xf2af1c558722da97);
    lemma_multiply(0x663bffff99c4, 0xf2af1c558722da97, 0xffffffff, 0x55b552ae7510ece4, 0x9ac587cf3b17492b);
    lemma_square(0x663cffff99c3, 0x9ac587cf3b17492b, 0x999c5f2883b283c7);
    lemma_multiply(0xcc79ffff3386, 0x999c5f2883b283c7, 0xffffffff, 0x55b552ae7510ece4, 0x851c91154ff03dd5);
    lemma_square(0xcc7affff3385, 0x851c91154ff03dd5, 0xbca3502029dd4d92);
    lemma_square(0x198f5fffe670a, 0xbca3502029dd4d92, 0x2e2e986a2fa9446a);
    lemma_square(0x331ebfffcce14, 0x2e2e986a2fa9446a, 0x8f00c4c90a918a51);
    lemma_square(0x663d7fff99c28, 0x8f00c4c90a918a51, 0xd1ef303a564654a3);
    lemma_square(0xcc7affff33850, 0xd1ef303a564654a3, 0x530a1e061f8ac7dc);
    lemma_square(0x198f5fffe670a0, 0x530a1e061f8ac7dc, 0x2cabf50180b2cb5a);
    lemma_square(0x331ebfffcce140, 0x2cabf50180b2cb5a, 0xa5e8a7df455247ec);
    lemma_multiply(0x663d7fff99c280, 0xa5e8a7df455247ec, 0xffffffff, 0x55b552ae7510ece4, 0xeb75669663e23b9b);
    lemma_square(0xffffffff, 0x55b552ae7510ece4, 0x2ced9c89546addea);
    lemma_square(0x1fffffffe, 0x2ced9c89546addea, 0x16b33a64b6851f91);
    lemma_multiply(0x3fffffffc, 0x16b33a64b6851f91, 0xffffffff, 0x55b552ae7510ece4, 0x2fb616acdf855d53);
    lemma_square(0x4fffffffb, 0x2fb616acdf855d53, 0x72b868b8e41e06a5);
    lemma_square(0x9fffffff6, 0x72b868b8e41e06a5, 0x168e29526601c99b);
    lemma_square(0x13ffffffec, 0x168e29526601c99b, 0x84bde4ab9252453a);
    lemma_square(0x27ffffffd8, 0x84bde4ab9252453a, 0x510cb6c48799a365);
    lemma_square(0x4fffffffb0, 0x510cb6c48799a365, 0x7fd98dee3d8f1ef4);
    lemma_square(0x9fffffff60, 0x7fd98dee3d8f1ef4, 0x693a8f2364b8f9e5);
    lemma_square(0x13ffffffec0, 0x693a8f2364b8f9e5, 0x7ff0e5b40250f8ac);
    lemma_multiply(0x27ffffffd80, 0x7ff0e5b40250f8ac, 0xffffffff, 0x55b552ae7510ece4, 0xa2344e72c8f1925f);
}

/// Walking `2^64 - 1` steps from 1 comes back to 1.
pub proof fn lemma_cycle_closes()
    ensures
        iterate(1, 0xffff_ffff_ffff_ffff) == 1,
{
    lemma_all_ones();
    lemma_first_powers();
    assert(iterate(1, 0) == 1);
}

/// Walking `(2^64 - 1) / q` steps from 1 does not, for any of the prime
/// factors `q`.
pub proof fn lemma_cycle_does_not_close_early()
    ensures
        iterate(1, 0x5555555555555555) != 1,
        iterate(1, 0x3333333333333333) != 1,
        iterate(1, 0xf0f0f0f0f0f0f0f) != 1,
        iterate(1, 0xff00ff00ff00ff) != 1,
        iterate(1, 0x663d80ff99c27f) != 1,
        iterate(1, 0xffff0000ffff) != 1,
        iterate(1, 0x280fffffd7f) != 1,
{
    lemma_all_ones();
    lemma_norms();
    lemma_small_cofactors();
    lemma_large_cofactors();
    lemma_mix_table(0xd742ca58f5d785e2u64 as u128, 64);
    lemma_mix_table(0x33ec6864504a7f93u64 as u128, 64);
    lemma_mix_table(0xb36452d0ddae191au64 as u128, 64);
    lemma_mix_table(0x83a30be66e29c2afu64 as u128, 64);
    lemma_mix_table(0xeb75669663e23b9bu64 as u128, 64);
    lemma_mix_table(0x66afc02739afee79u64 as u128, 64);
    lemma_mix_table(0xa2344e72c8f1925fu64 as u128, 64);
    assert(
        mix_table(0xd742ca58f5d785e2u64 as u128, 64) != 1 &&
        mix_table(0x33ec6864504a7f93u64 as u128, 64) != 1 &&
        mix_table(0xb36452d0ddae191au64 as u128, 64) != 1 &&
        mix_table(0x83a30be66e29c2afu64 as u128, 64) != 1 &&
        mix_table(0xeb75669663e23b9bu64 as u128, 64) != 1 &&
        mix_table(0x66afc02739afee79u64 as u128, 64) != 1 &&
        mix_table(0xa2344e72c8f1925fu64 as u128, 64) != 1
    ) by (bit_vector);
}

} // verus!
