//! Reduced forms of the scale and conversion constants the quantity
//! catalog declares: one small proof per constant, evaluating the gcd
//! reduction step by step, plus the powers of ten the declarations use.

use crate::amount::{gcd, lemma_canon_concrete, pow10, rat_canon, Rat};
use vstd::prelude::*;

verus! {

/// The powers of ten up to the largest exponent a declaration uses.
pub proof fn lemma_pow10_values()
    ensures
        pow10(0) == 1,
        pow10(1) == 10,
        pow10(2) == 100,
        pow10(3) == 1000,
        pow10(4) == 10000,
        pow10(5) == 100000,
        pow10(6) == 1000000,
        pow10(7) == 10000000,
        pow10(8) == 100000000,
        pow10(9) == 1000000000,
        pow10(10) == 10000000000,
        pow10(11) == 100000000000,
        pow10(12) == 1000000000000,
        pow10(13) == 10000000000000,
        pow10(14) == 100000000000000,
        pow10(15) == 1000000000000000,
        pow10(16) == 10000000000000000,
        pow10(17) == 100000000000000000,
        pow10(18) == 1000000000000000000,
        pow10(19) == 10000000000000000000,
        pow10(20) == 100000000000000000000,
        pow10(21) == 1000000000000000000000,
        pow10(22) == 10000000000000000000000,
        pow10(23) == 100000000000000000000000,
        pow10(24) == 1000000000000000000000000,
        pow10(25) == 10000000000000000000000000,
        pow10(26) == 100000000000000000000000000,
        pow10(27) == 1000000000000000000000000000,
{
    assert(pow10(0) == 1);
    assert(pow10(1) == 10);
    assert(pow10(2) == 100);
    assert(pow10(3) == 1000);
    assert(pow10(4) == 10000);
    assert(pow10(5) == 100000);
    assert(pow10(6) == 1000000);
    assert(pow10(7) == 10000000);
    assert(pow10(8) == 100000000);
    assert(pow10(9) == 1000000000);
    assert(pow10(10) == 10000000000);
    assert(pow10(11) == 100000000000);
    assert(pow10(12) == 1000000000000);
    assert(pow10(13) == 10000000000000);
    assert(pow10(14) == 100000000000000);
    assert(pow10(15) == 1000000000000000);
    assert(pow10(16) == 10000000000000000);
    assert(pow10(17) == 100000000000000000);
    assert(pow10(18) == 1000000000000000000);
    assert(pow10(19) == 10000000000000000000);
    assert(pow10(20) == 100000000000000000000);
    assert(pow10(21) == 1000000000000000000000);
    assert(pow10(22) == 10000000000000000000000);
    assert(pow10(23) == 100000000000000000000000);
    assert(pow10(24) == 1000000000000000000000000);
    assert(pow10(25) == 10000000000000000000000000);
    assert(pow10(26) == 100000000000000000000000000);
    assert(pow10(27) == 1000000000000000000000000000);
}

/// `1` at ten to the `-9`, in lowest terms.
pub proof fn lemma_canon_1_em9()
    ensures
        rat_canon(Rat { n: 1, d: 1000000000 }) == (Rat { n: 1, d: 1000000000 }),
{
    assert(gcd(1, 0) == 1);
    assert(gcd(1000000000, 1) == 1);
    assert(gcd(1, 1000000000) == 1);
    lemma_canon_concrete(Rat { n: 1, d: 1000000000 }, 1, 1, 1000000000);
}

/// `1` at ten to the `-6`, in lowest terms.
pub proof fn lemma_canon_1_em6()
    ensures
        rat_canon(Rat { n: 1, d: 1000000 }) == (Rat { n: 1, d: 1000000 }),
{
    assert(gcd(1, 0) == 1);
    assert(gcd(1000000, 1) == 1);
    assert(gcd(1, 1000000) == 1);
    lemma_canon_concrete(Rat { n: 1, d: 1000000 }, 1, 1, 1000000);
}

/// `1` at ten to the `-5`, in lowest terms.
pub proof fn lemma_canon_1_em5()
    ensures
        rat_canon(Rat { n: 1, d: 100000 }) == (Rat { n: 1, d: 100000 }),
{
    assert(gcd(1, 0) == 1);
    assert(gcd(100000, 1) == 1);
    assert(gcd(1, 100000) == 1);
    lemma_canon_concrete(Rat { n: 1, d: 100000 }, 1, 1, 100000);
}

/// `1` at ten to the `-4`, in lowest terms.
pub proof fn lemma_canon_1_em4()
    ensures
        rat_canon(Rat { n: 1, d: 10000 }) == (Rat { n: 1, d: 10000 }),
{
    assert(gcd(1, 0) == 1);
    assert(gcd(10000, 1) == 1);
    assert(gcd(1, 10000) == 1);
    lemma_canon_concrete(Rat { n: 1, d: 10000 }, 1, 1, 10000);
}

/// `1` at ten to the `-3`, in lowest terms.
pub proof fn lemma_canon_1_em3()
    ensures
        rat_canon(Rat { n: 1, d: 1000 }) == (Rat { n: 1, d: 1000 }),
{
    assert(gcd(1, 0) == 1);
    assert(gcd(1000, 1) == 1);
    assert(gcd(1, 1000) == 1);
    lemma_canon_concrete(Rat { n: 1, d: 1000 }, 1, 1, 1000);
}

/// `1` at ten to the `-2`, in lowest terms.
pub proof fn lemma_canon_1_em2()
    ensures
        rat_canon(Rat { n: 1, d: 100 }) == (Rat { n: 1, d: 100 }),
{
    assert(gcd(1, 0) == 1);
    assert(gcd(100, 1) == 1);
    assert(gcd(1, 100) == 1);
    lemma_canon_concrete(Rat { n: 1, d: 100 }, 1, 1, 100);
}

/// `1` at ten to the `-1`, in lowest terms.
pub proof fn lemma_canon_1_em1()
    ensures
        rat_canon(Rat { n: 1, d: 10 }) == (Rat { n: 1, d: 10 }),
{
    assert(gcd(1, 0) == 1);
    assert(gcd(10, 1) == 1);
    assert(gcd(1, 10) == 1);
    lemma_canon_concrete(Rat { n: 1, d: 10 }, 1, 1, 10);
}

/// `1` at ten to the `0`, in lowest terms.
pub proof fn lemma_canon_1_e0()
    ensures
        rat_canon(Rat { n: 1, d: 1 }) == (Rat { n: 1, d: 1 }),
{
    assert(gcd(1, 0) == 1);
    assert(gcd(1, 1) == 1);
    lemma_canon_concrete(Rat { n: 1, d: 1 }, 1, 1, 1);
}

/// `1` at ten to the `2`, in lowest terms.
pub proof fn lemma_canon_1_e2()
    ensures
        rat_canon(Rat { n: 100, d: 1 }) == (Rat { n: 100, d: 1 }),
{
    assert(gcd(1, 0) == 1);
    assert(gcd(100, 1) == 1);
    lemma_canon_concrete(Rat { n: 100, d: 1 }, 1, 100, 1);
}

/// `1` at ten to the `3`, in lowest terms.
pub proof fn lemma_canon_1_e3()
    ensures
        rat_canon(Rat { n: 1000, d: 1 }) == (Rat { n: 1000, d: 1 }),
{
    assert(gcd(1, 0) == 1);
    assert(gcd(1000, 1) == 1);
    lemma_canon_concrete(Rat { n: 1000, d: 1 }, 1, 1000, 1);
}

/// `1` at ten to the `4`, in lowest terms.
pub proof fn lemma_canon_1_e4()
    ensures
        rat_canon(Rat { n: 10000, d: 1 }) == (Rat { n: 10000, d: 1 }),
{
    assert(gcd(1, 0) == 1);
    assert(gcd(10000, 1) == 1);
    lemma_canon_concrete(Rat { n: 10000, d: 1 }, 1, 10000, 1);
}

/// `1` at ten to the `6`, in lowest terms.
pub proof fn lemma_canon_1_e6()
    ensures
        rat_canon(Rat { n: 1000000, d: 1 }) == (Rat { n: 1000000, d: 1 }),
{
    assert(gcd(1, 0) == 1);
    assert(gcd(1000000, 1) == 1);
    lemma_canon_concrete(Rat { n: 1000000, d: 1 }, 1, 1000000, 1);
}

/// `1` at ten to the `9`, in lowest terms.
pub proof fn lemma_canon_1_e9()
    ensures
        rat_canon(Rat { n: 1000000000, d: 1 }) == (Rat { n: 1000000000, d: 1 }),
{
    assert(gcd(1, 0) == 1);
    assert(gcd(1000000000, 1) == 1);
    lemma_canon_concrete(Rat { n: 1000000000, d: 1 }, 1, 1000000000, 1);
}

/// `1` at ten to the `12`, in lowest terms.
pub proof fn lemma_canon_1_e12()
    ensures
        rat_canon(Rat { n: 1000000000000, d: 1 }) == (Rat { n: 1000000000000, d: 1 }),
{
    assert(gcd(1, 0) == 1);
    assert(gcd(1000000000000, 1) == 1);
    lemma_canon_concrete(Rat { n: 1000000000000, d: 1 }, 1, 1000000000000, 1);
}

/// `2` at ten to the `-4`, in lowest terms.
pub proof fn lemma_canon_2_em4()
    ensures
        rat_canon(Rat { n: 2, d: 10000 }) == (Rat { n: 1, d: 5000 }),
{
    assert(gcd(2, 0) == 2);
    assert(gcd(10000, 2) == 2);
    assert(gcd(2, 10000) == 2);
    lemma_canon_concrete(Rat { n: 2, d: 10000 }, 2, 1, 5000);
}

/// `6` at ten to the `1`, in lowest terms.
pub proof fn lemma_canon_6_e1()
    ensures
        rat_canon(Rat { n: 60, d: 1 }) == (Rat { n: 60, d: 1 }),
{
    assert(gcd(1, 0) == 1);
    assert(gcd(60, 1) == 1);
    lemma_canon_concrete(Rat { n: 60, d: 1 }, 1, 60, 1);
}

/// `18` at ten to the `-1`, in lowest terms.
pub proof fn lemma_canon_18_em1()
    ensures
        rat_canon(Rat { n: 18, d: 10 }) == (Rat { n: 9, d: 5 }),
{
    assert(gcd(2, 0) == 2);
    assert(gcd(8, 2) == 2);
    assert(gcd(10, 8) == 2);
    assert(gcd(18, 10) == 2);
    lemma_canon_concrete(Rat { n: 18, d: 10 }, 2, 9, 5);
}

/// `32` at ten to the `0`, in lowest terms.
pub proof fn lemma_canon_32_e0()
    ensures
        rat_canon(Rat { n: 32, d: 1 }) == (Rat { n: 32, d: 1 }),
{
    assert(gcd(1, 0) == 1);
    assert(gcd(32, 1) == 1);
    lemma_canon_concrete(Rat { n: 32, d: 1 }, 1, 32, 1);
}

/// `36` at ten to the `2`, in lowest terms.
pub proof fn lemma_canon_36_e2()
    ensures
        rat_canon(Rat { n: 3600, d: 1 }) == (Rat { n: 3600, d: 1 }),
{
    assert(gcd(1, 0) == 1);
    assert(gcd(3600, 1) == 1);
    lemma_canon_concrete(Rat { n: 3600, d: 1 }, 1, 3600, 1);
}

/// `36` at ten to the `5`, in lowest terms.
pub proof fn lemma_canon_36_e5()
    ensures
        rat_canon(Rat { n: 3600000, d: 1 }) == (Rat { n: 3600000, d: 1 }),
{
    assert(gcd(1, 0) == 1);
    assert(gcd(3600000, 1) == 1);
    lemma_canon_concrete(Rat { n: 3600000, d: 1 }, 1, 3600000, 1);
}

/// `125` at ten to the `-3`, in lowest terms.
pub proof fn lemma_canon_125_em3()
    ensures
        rat_canon(Rat { n: 125, d: 1000 }) == (Rat { n: 1, d: 8 }),
{
    assert(gcd(125, 0) == 125);
    assert(gcd(1000, 125) == 125);
    assert(gcd(125, 1000) == 125);
    lemma_canon_concrete(Rat { n: 125, d: 1000 }, 125, 1, 8);
}

/// `125` at ten to the `0`, in lowest terms.
pub proof fn lemma_canon_125_e0()
    ensures
        rat_canon(Rat { n: 125, d: 1 }) == (Rat { n: 125, d: 1 }),
{
    assert(gcd(1, 0) == 1);
    assert(gcd(125, 1) == 1);
    lemma_canon_concrete(Rat { n: 125, d: 1 }, 1, 125, 1);
}

/// `125` at ten to the `3`, in lowest terms.
pub proof fn lemma_canon_125_e3()
    ensures
        rat_canon(Rat { n: 125000, d: 1 }) == (Rat { n: 125000, d: 1 }),
{
    assert(gcd(1, 0) == 1);
    assert(gcd(125000, 1) == 1);
    lemma_canon_concrete(Rat { n: 125000, d: 1 }, 1, 125000, 1);
}

/// `125` at ten to the `6`, in lowest terms.
pub proof fn lemma_canon_125_e6()
    ensures
        rat_canon(Rat { n: 125000000, d: 1 }) == (Rat { n: 125000000, d: 1 }),
{
    assert(gcd(1, 0) == 1);
    assert(gcd(125000000, 1) == 1);
    lemma_canon_concrete(Rat { n: 125000000, d: 1 }, 1, 125000000, 1);
}

/// `125` at ten to the `9`, in lowest terms.
pub proof fn lemma_canon_125_e9()
    ensures
        rat_canon(Rat { n: 125000000000, d: 1 }) == (Rat { n: 125000000000, d: 1 }),
{
    assert(gcd(1, 0) == 1);
    assert(gcd(125000000000, 1) == 1);
    lemma_canon_concrete(Rat { n: 125000000000, d: 1 }, 1, 125000000000, 1);
}

/// `128` at ten to the `0`, in lowest terms.
pub proof fn lemma_canon_128_e0()
    ensures
        rat_canon(Rat { n: 128, d: 1 }) == (Rat { n: 128, d: 1 }),
{
    assert(gcd(1, 0) == 1);
    assert(gcd(128, 1) == 1);
    lemma_canon_concrete(Rat { n: 128, d: 1 }, 1, 128, 1);
}

/// `254` at ten to the `-4`, in lowest terms.
pub proof fn lemma_canon_254_em4()
    ensures
        rat_canon(Rat { n: 254, d: 10000 }) == (Rat { n: 127, d: 5000 }),
{
    assert(gcd(2, 0) == 2);
    assert(gcd(8, 2) == 2);
    assert(gcd(10, 8) == 2);
    assert(gcd(28, 10) == 2);
    assert(gcd(66, 28) == 2);
    assert(gcd(94, 66) == 2);
    assert(gcd(254, 94) == 2);
    assert(gcd(10000, 254) == 2);
    assert(gcd(254, 10000) == 2);
    lemma_canon_concrete(Rat { n: 254, d: 10000 }, 2, 127, 5000);
}

/// `597` at ten to the `22`, in lowest terms.
pub proof fn lemma_canon_597_e22()
    ensures
        rat_canon(Rat { n: 5970000000000000000000000, d: 1 }) == (Rat { n: 5970000000000000000000000, d: 1 }),
{
    assert(gcd(1, 0) == 1);
    assert(gcd(5970000000000000000000000, 1) == 1);
    lemma_canon_concrete(Rat { n: 5970000000000000000000000, d: 1 }, 1, 5970000000000000000000000, 1);
}

/// `864` at ten to the `2`, in lowest terms.
pub proof fn lemma_canon_864_e2()
    ensures
        rat_canon(Rat { n: 86400, d: 1 }) == (Rat { n: 86400, d: 1 }),
{
    assert(gcd(1, 0) == 1);
    assert(gcd(86400, 1) == 1);
    lemma_canon_concrete(Rat { n: 86400, d: 1 }, 1, 86400, 1);
}

/// `1024` at ten to the `0`, in lowest terms.
pub proof fn lemma_canon_1024_e0()
    ensures
        rat_canon(Rat { n: 1024, d: 1 }) == (Rat { n: 1024, d: 1 }),
{
    assert(gcd(1, 0) == 1);
    assert(gcd(1024, 1) == 1);
    lemma_canon_concrete(Rat { n: 1024, d: 1 }, 1, 1024, 1);
}

/// `1898` at ten to the `27`, in lowest terms.
pub proof fn lemma_canon_1898_e27()
    ensures
        rat_canon(Rat { n: 1898000000000000000000000000000, d: 1 }) == (Rat { n: 1898000000000000000000000000000, d: 1 }),
{
    assert(gcd(1, 0) == 1);
    assert(gcd(1898000000000000000000000000000, 1) == 1);
    lemma_canon_concrete(Rat { n: 1898000000000000000000000000000, d: 1 }, 1, 1898000000000000000000000000000, 1);
}

/// `3048` at ten to the `-4`, in lowest terms.
pub proof fn lemma_canon_3048_em4()
    ensures
        rat_canon(Rat { n: 3048, d: 10000 }) == (Rat { n: 381, d: 1250 }),
{
    assert(gcd(8, 0) == 8);
    assert(gcd(16, 8) == 8);
    assert(gcd(24, 16) == 8);
    assert(gcd(40, 24) == 8);
    assert(gcd(64, 40) == 8);
    assert(gcd(104, 64) == 8);
    assert(gcd(376, 104) == 8);
    assert(gcd(480, 376) == 8);
    assert(gcd(856, 480) == 8);
    assert(gcd(3048, 856) == 8);
    assert(gcd(10000, 3048) == 8);
    assert(gcd(3048, 10000) == 8);
    lemma_canon_concrete(Rat { n: 3048, d: 10000 }, 8, 381, 1250);
}

/// `7342` at ten to the `19`, in lowest terms.
pub proof fn lemma_canon_7342_e19()
    ensures
        rat_canon(Rat { n: 73420000000000000000000, d: 1 }) == (Rat { n: 73420000000000000000000, d: 1 }),
{
    assert(gcd(1, 0) == 1);
    assert(gcd(73420000000000000000000, 1) == 1);
    lemma_canon_concrete(Rat { n: 73420000000000000000000, d: 1 }, 1, 73420000000000000000000, 1);
}

/// `9144` at ten to the `-4`, in lowest terms.
pub proof fn lemma_canon_9144_em4()
    ensures
        rat_canon(Rat { n: 9144, d: 10000 }) == (Rat { n: 1143, d: 1250 }),
{
    assert(gcd(8, 0) == 8);
    assert(gcd(32, 8) == 8);
    assert(gcd(40, 32) == 8);
    assert(gcd(272, 40) == 8);
    assert(gcd(584, 272) == 8);
    assert(gcd(856, 584) == 8);
    assert(gcd(9144, 856) == 8);
    assert(gcd(10000, 9144) == 8);
    assert(gcd(9144, 10000) == 8);
    lemma_canon_concrete(Rat { n: 9144, d: 10000 }, 8, 1143, 1250);
}

/// `-27315` at ten to the `-2`, in lowest terms.
pub proof fn lemma_canon_neg27315_em2()
    ensures
        rat_canon(Rat { n: -27315, d: 100 }) == (Rat { n: -5463, d: 20 }),
{
    assert(gcd(5, 0) == 5);
    assert(gcd(10, 5) == 5);
    assert(gcd(15, 10) == 5);
    assert(gcd(100, 15) == 5);
    assert(gcd(27315, 100) == 5);
    lemma_canon_concrete(Rat { n: -27315, d: 100 }, 5, -5463, 20);
}

/// `27315` at ten to the `-2`, in lowest terms.
pub proof fn lemma_canon_27315_em2()
    ensures
        rat_canon(Rat { n: 27315, d: 100 }) == (Rat { n: 5463, d: 20 }),
{
    assert(gcd(5, 0) == 5);
    assert(gcd(10, 5) == 5);
    assert(gcd(15, 10) == 5);
    assert(gcd(100, 15) == 5);
    assert(gcd(27315, 100) == 5);
    lemma_canon_concrete(Rat { n: 27315, d: 100 }, 5, 5463, 20);
}

/// `44704` at ten to the `-5`, in lowest terms.
pub proof fn lemma_canon_44704_em5()
    ensures
        rat_canon(Rat { n: 44704, d: 100000 }) == (Rat { n: 1397, d: 3125 }),
{
    assert(gcd(32, 0) == 32);
    assert(gcd(128, 32) == 32);
    assert(gcd(160, 128) == 32);
    assert(gcd(1088, 160) == 32);
    assert(gcd(1248, 1088) == 32);
    assert(gcd(2336, 1248) == 32);
    assert(gcd(10592, 2336) == 32);
    assert(gcd(44704, 10592) == 32);
    assert(gcd(100000, 44704) == 32);
    assert(gcd(44704, 100000) == 32);
    lemma_canon_concrete(Rat { n: 44704, d: 100000 }, 32, 1397, 3125);
}

/// `-45967` at ten to the `-2`, in lowest terms.
pub proof fn lemma_canon_neg45967_em2()
    ensures
        rat_canon(Rat { n: -45967, d: 100 }) == (Rat { n: -45967, d: 100 }),
{
    assert(gcd(1, 0) == 1);
    assert(gcd(33, 1) == 1);
    assert(gcd(67, 33) == 1);
    assert(gcd(100, 67) == 1);
    assert(gcd(45967, 100) == 1);
    lemma_canon_concrete(Rat { n: -45967, d: 100 }, 1, -45967, 100);
}

/// `64516` at ten to the `-8`, in lowest terms.
pub proof fn lemma_canon_64516_em8()
    ensures
        rat_canon(Rat { n: 64516, d: 100000000 }) == (Rat { n: 16129, d: 25000000 }),
{
    assert(gcd(4, 0) == 4);
    assert(gcd(8, 4) == 4);
    assert(gcd(12, 8) == 4);
    assert(gcd(20, 12) == 4);
    assert(gcd(32, 20) == 4);
    assert(gcd(84, 32) == 4);
    assert(gcd(116, 84) == 4);
    assert(gcd(200, 116) == 4);
    assert(gcd(64516, 200) == 4);
    assert(gcd(100000000, 64516) == 4);
    assert(gcd(64516, 100000000) == 4);
    lemma_canon_concrete(Rat { n: 64516, d: 100000000 }, 4, 16129, 25000000);
}

/// `86164` at ten to the `0`, in lowest terms.
pub proof fn lemma_canon_86164_e0()
    ensures
        rat_canon(Rat { n: 86164, d: 1 }) == (Rat { n: 86164, d: 1 }),
{
    assert(gcd(1, 0) == 1);
    assert(gcd(86164, 1) == 1);
    lemma_canon_concrete(Rat { n: 86164, d: 1 }, 1, 86164, 1);
}

/// `131072` at ten to the `0`, in lowest terms.
pub proof fn lemma_canon_131072_e0()
    ensures
        rat_canon(Rat { n: 131072, d: 1 }) == (Rat { n: 131072, d: 1 }),
{
    assert(gcd(1, 0) == 1);
    assert(gcd(131072, 1) == 1);
    lemma_canon_concrete(Rat { n: 131072, d: 1 }, 1, 131072, 1);
}

/// `201168` at ten to the `-4`, in lowest terms.
pub proof fn lemma_canon_201168_em4()
    ensures
        rat_canon(Rat { n: 201168, d: 10000 }) == (Rat { n: 12573, d: 625 }),
{
    assert(gcd(16, 0) == 16);
    assert(gcd(64, 16) == 16);
    assert(gcd(80, 64) == 16);
    assert(gcd(144, 80) == 16);
    assert(gcd(512, 144) == 16);
    assert(gcd(656, 512) == 16);
    assert(gcd(1168, 656) == 16);
    assert(gcd(10000, 1168) == 16);
    assert(gcd(201168, 10000) == 16);
    lemma_canon_concrete(Rat { n: 201168, d: 10000 }, 16, 12573, 625);
}

/// `201168` at ten to the `-3`, in lowest terms.
pub proof fn lemma_canon_201168_em3()
    ensures
        rat_canon(Rat { n: 201168, d: 1000 }) == (Rat { n: 25146, d: 125 }),
{
    assert(gcd(8, 0) == 8);
    assert(gcd(160, 8) == 8);
    assert(gcd(168, 160) == 8);
    assert(gcd(1000, 168) == 8);
    assert(gcd(201168, 1000) == 8);
    lemma_canon_concrete(Rat { n: 201168, d: 1000 }, 8, 25146, 125);
}

/// `315576` at ten to the `2`, in lowest terms.
pub proof fn lemma_canon_315576_e2()
    ensures
        rat_canon(Rat { n: 31557600, d: 1 }) == (Rat { n: 31557600, d: 1 }),
{
    assert(gcd(1, 0) == 1);
    assert(gcd(31557600, 1) == 1);
    lemma_canon_concrete(Rat { n: 31557600, d: 1 }, 1, 31557600, 1);
}

/// `1048576` at ten to the `0`, in lowest terms.
pub proof fn lemma_canon_1048576_e0()
    ensures
        rat_canon(Rat { n: 1048576, d: 1 }) == (Rat { n: 1048576, d: 1 }),
{
    assert(gcd(1, 0) == 1);
    assert(gcd(1048576, 1) == 1);
    lemma_canon_concrete(Rat { n: 1048576, d: 1 }, 1, 1048576, 1);
}

/// `1609344` at ten to the `-3`, in lowest terms.
pub proof fn lemma_canon_1609344_em3()
    ensures
        rat_canon(Rat { n: 1609344, d: 1000 }) == (Rat { n: 201168, d: 125 }),
{
    assert(gcd(8, 0) == 8);
    assert(gcd(24, 8) == 8);
    assert(gcd(32, 24) == 8);
    assert(gcd(312, 32) == 8);
    assert(gcd(344, 312) == 8);
    assert(gcd(1000, 344) == 8);
    assert(gcd(1609344, 1000) == 8);
    lemma_canon_concrete(Rat { n: 1609344, d: 1000 }, 8, 201168, 125);
}

/// `1988435` at ten to the `24`, in lowest terms.
pub proof fn lemma_canon_1988435_e24()
    ensures
        rat_canon(Rat { n: 1988435000000000000000000000000, d: 1 }) == (Rat { n: 1988435000000000000000000000000, d: 1 }),
{
    assert(gcd(1, 0) == 1);
    assert(gcd(1988435000000000000000000000000, 1) == 1);
    lemma_canon_concrete(Rat { n: 1988435000000000000000000000000, d: 1 }, 1, 1988435000000000000000000000000, 1);
}

/// `9290304` at ten to the `-8`, in lowest terms.
pub proof fn lemma_canon_9290304_em8()
    ensures
        rat_canon(Rat { n: 9290304, d: 100000000 }) == (Rat { n: 145161, d: 1562500 }),
{
    assert(gcd(64, 0) == 64);
    assert(gcd(128, 64) == 64);
    assert(gcd(448, 128) == 64);
    assert(gcd(1024, 448) == 64);
    assert(gcd(1472, 1024) == 64);
    assert(gcd(2496, 1472) == 64);
    assert(gcd(3968, 2496) == 64);
    assert(gcd(10432, 3968) == 64);
    assert(gcd(14400, 10432) == 64);
    assert(gcd(125632, 14400) == 64);
    assert(gcd(516928, 125632) == 64);
    assert(gcd(2193344, 516928) == 64);
    assert(gcd(7096960, 2193344) == 64);
    assert(gcd(9290304, 7096960) == 64);
    assert(gcd(100000000, 9290304) == 64);
    assert(gcd(9290304, 100000000) == 64);
    lemma_canon_concrete(Rat { n: 9290304, d: 100000000 }, 64, 145161, 1562500);
}

/// `16387064` at ten to the `-12`, in lowest terms.
pub proof fn lemma_canon_16387064_em12()
    ensures
        rat_canon(Rat { n: 16387064, d: 1000000000000 }) == (Rat { n: 2048383, d: 125000000000 }),
{
    assert(gcd(8, 0) == 8);
    assert(gcd(336, 8) == 8);
    assert(gcd(1016, 336) == 8);
    assert(gcd(64344, 1016) == 8);
    assert(gcd(322736, 64344) == 8);
    assert(gcd(387080, 322736) == 8);
    assert(gcd(3806456, 387080) == 8);
    assert(gcd(4193536, 3806456) == 8);
    assert(gcd(12193528, 4193536) == 8);
    assert(gcd(16387064, 12193528) == 8);
    assert(gcd(1000000000000, 16387064) == 8);
    assert(gcd(16387064, 1000000000000) == 8);
    lemma_canon_concrete(Rat { n: 16387064, d: 1000000000000 }, 8, 2048383, 125000000000);
}

/// `31556952` at ten to the `0`, in lowest terms.
pub proof fn lemma_canon_31556952_e0()
    ensures
        rat_canon(Rat { n: 31556952, d: 1 }) == (Rat { n: 31556952, d: 1 }),
{
    assert(gcd(1, 0) == 1);
    assert(gcd(31556952, 1) == 1);
    lemma_canon_concrete(Rat { n: 31556952, d: 1 }, 1, 31556952, 1);
}

/// `45359237` at ten to the `-8`, in lowest terms.
pub proof fn lemma_canon_45359237_em8()
    ensures
        rat_canon(Rat { n: 45359237, d: 100000000 }) == (Rat { n: 45359237, d: 100000000 }),
{
    assert(gcd(1, 0) == 1);
    assert(gcd(2, 1) == 1);
    assert(gcd(3, 2) == 1);
    assert(gcd(14, 3) == 1);
    assert(gcd(17, 14) == 1);
    assert(gcd(48, 17) == 1);
    assert(gcd(65, 48) == 1);
    assert(gcd(113, 65) == 1);
    assert(gcd(404, 113) == 1);
    assert(gcd(1729, 404) == 1);
    assert(gcd(5591, 1729) == 1);
    assert(gcd(29684, 5591) == 1);
    assert(gcd(124327, 29684) == 1);
    assert(gcd(154011, 124327) == 1);
    assert(gcd(894382, 154011) == 1);
    assert(gcd(1048393, 894382) == 1);
    assert(gcd(8233133, 1048393) == 1);
    assert(gcd(9281526, 8233133) == 1);
    assert(gcd(45359237, 9281526) == 1);
    assert(gcd(100000000, 45359237) == 1);
    assert(gcd(45359237, 100000000) == 1);
    lemma_canon_concrete(Rat { n: 45359237, d: 100000000 }, 1, 45359237, 100000000);
}

/// `83612736` at ten to the `-8`, in lowest terms.
pub proof fn lemma_canon_83612736_em8()
    ensures
        rat_canon(Rat { n: 83612736, d: 100000000 }) == (Rat { n: 1306449, d: 1562500 }),
{
    assert(gcd(64, 0) == 64);
    assert(gcd(128, 64) == 64);
    assert(gcd(192, 128) == 64);
    assert(gcd(320, 192) == 64);
    assert(gcd(512, 320) == 64);
    assert(gcd(832, 512) == 64);
    assert(gcd(1344, 832) == 64);
    assert(gcd(3520, 1344) == 64);
    assert(gcd(11904, 3520) == 64);
    assert(gcd(39232, 11904) == 64);
    assert(gcd(168832, 39232) == 64);
    assert(gcd(376896, 168832) == 64);
    assert(gcd(1299520, 376896) == 64);
    assert(gcd(1676416, 1299520) == 64);
    assert(gcd(16387264, 1676416) == 64);
    assert(gcd(83612736, 16387264) == 64);
    assert(gcd(100000000, 83612736) == 64);
    assert(gcd(83612736, 100000000) == 64);
    lemma_canon_concrete(Rat { n: 83612736, d: 100000000 }, 64, 1306449, 1562500);
}

/// `134217728` at ten to the `0`, in lowest terms.
pub proof fn lemma_canon_134217728_e0()
    ensures
        rat_canon(Rat { n: 134217728, d: 1 }) == (Rat { n: 134217728, d: 1 }),
{
    assert(gcd(1, 0) == 1);
    assert(gcd(134217728, 1) == 1);
    lemma_canon_concrete(Rat { n: 134217728, d: 1 }, 1, 134217728, 1);
}

/// `635029318` at ten to the `-8`, in lowest terms.
pub proof fn lemma_canon_635029318_em8()
    ensures
        rat_canon(Rat { n: 635029318, d: 100000000 }) == (Rat { n: 317514659, d: 50000000 }),
{
    assert(gcd(2, 0) == 2);
    assert(gcd(46, 2) == 2);
    assert(gcd(48, 46) == 2);
    assert(gcd(1390, 48) == 2);
    assert(gcd(1438, 1390) == 2);
    assert(gcd(4266, 1438) == 2);
    assert(gcd(18502, 4266) == 2);
    assert(gcd(189286, 18502) == 2);
    assert(gcd(397074, 189286) == 2);
    assert(gcd(586360, 397074) == 2);
    assert(gcd(4501594, 586360) == 2);
    assert(gcd(5087954, 4501594) == 2);
    assert(gcd(29941364, 5087954) == 2);
    assert(gcd(35029318, 29941364) == 2);
    assert(gcd(100000000, 35029318) == 2);
    assert(gcd(635029318, 100000000) == 2);
    lemma_canon_concrete(Rat { n: 635029318, d: 100000000 }, 2, 317514659, 50000000);
}

/// `1073741824` at ten to the `0`, in lowest terms.
pub proof fn lemma_canon_1073741824_e0()
    ensures
        rat_canon(Rat { n: 1073741824, d: 1 }) == (Rat { n: 1073741824, d: 1 }),
{
    assert(gcd(1, 0) == 1);
    assert(gcd(1073741824, 1) == 1);
    lemma_canon_concrete(Rat { n: 1073741824, d: 1 }, 1, 1073741824, 1);
}

/// `28316846592` at ten to the `-12`, in lowest terms.
pub proof fn lemma_canon_28316846592_em12()
    ensures
        rat_canon(Rat { n: 28316846592, d: 1000000000000 }) == (Rat { n: 55306341, d: 1953125000 }),
{
    assert(gcd(512, 0) == 512);
    assert(gcd(2560, 512) == 512);
    assert(gcd(3072, 2560) == 512);
    assert(gcd(193024, 3072) == 512);
    assert(gcd(582144, 193024) == 512);
    assert(gcd(75289600, 582144) == 512);
    assert(gcd(151161344, 75289600) == 512);
    assert(gcd(226450944, 151161344) == 512);
    assert(gcd(377612288, 226450944) == 512);
    assert(gcd(604063232, 377612288) == 512);
    assert(gcd(981675520, 604063232) == 512);
    assert(gcd(1585738752, 981675520) == 512);
    assert(gcd(8910369280, 1585738752) == 512);
    assert(gcd(28316846592, 8910369280) == 512);
    assert(gcd(1000000000000, 28316846592) == 512);
    assert(gcd(28316846592, 1000000000000) == 512);
    lemma_canon_concrete(Rat { n: 28316846592, d: 1000000000000 }, 512, 55306341, 1953125000);
}

/// `28349523125` at ten to the `-12`, in lowest terms.
pub proof fn lemma_canon_28349523125_em12()
    ensures
        rat_canon(Rat { n: 28349523125, d: 1000000000000 }) == (Rat { n: 45359237, d: 1600000000 }),
{
    assert(gcd(625, 0) == 625);
    assert(gcd(5625, 625) == 625);
    assert(gcd(6250, 5625) == 625);
    assert(gcd(18125, 6250) == 625);
    assert(gcd(24375, 18125) == 625);
    assert(gcd(42500, 24375) == 625);
    assert(gcd(109375, 42500) == 625);
    assert(gcd(151875, 109375) == 625);
    assert(gcd(716875, 151875) == 625);
    assert(gcd(1585625, 716875) == 625);
    assert(gcd(10230625, 1585625) == 625);
    assert(gcd(22046875, 10230625) == 625);
    assert(gcd(385027500, 22046875) == 625);
    assert(gcd(2332211875, 385027500) == 625);
    assert(gcd(2717239375, 2332211875) == 625);
    assert(gcd(5049451250, 2717239375) == 625);
    assert(gcd(7766690625, 5049451250) == 625);
    assert(gcd(28349523125, 7766690625) == 625);
    assert(gcd(1000000000000, 28349523125) == 625);
    assert(gcd(28349523125, 1000000000000) == 625);
    lemma_canon_concrete(Rat { n: 28349523125, d: 1000000000000 }, 625, 45359237, 1600000000);
}

/// `40468564224` at ten to the `-7`, in lowest terms.
pub proof fn lemma_canon_40468564224_em7()
    ensures
        rat_canon(Rat { n: 40468564224, d: 10000000 }) == (Rat { n: 316160658, d: 78125 }),
{
    assert(gcd(128, 0) == 128);
    assert(gcd(384, 128) == 128);
    assert(gcd(896, 384) == 128);
    assert(gcd(2176, 896) == 128);
    assert(gcd(3072, 2176) == 128);
    assert(gcd(23680, 3072) == 128);
    assert(gcd(50432, 23680) == 128);
    assert(gcd(1385344, 50432) == 128);
    assert(gcd(1435776, 1385344) == 128);
    assert(gcd(8564224, 1435776) == 128);
    assert(gcd(10000000, 8564224) == 128);
    assert(gcd(40468564224, 10000000) == 128);
    lemma_canon_concrete(Rat { n: 40468564224, d: 10000000 }, 128, 316160658, 78125);
}

/// `137438953472` at ten to the `0`, in lowest terms.
pub proof fn lemma_canon_137438953472_e0()
    ensures
        rat_canon(Rat { n: 137438953472, d: 1 }) == (Rat { n: 137438953472, d: 1 }),
{
    assert(gcd(1, 0) == 1);
    assert(gcd(137438953472, 1) == 1);
    lemma_canon_concrete(Rat { n: 137438953472, d: 1 }, 1, 137438953472, 1);
}

/// `315581497635` at ten to the `-4`, in lowest terms.
pub proof fn lemma_canon_315581497635_em4()
    ensures
        rat_canon(Rat { n: 315581497635, d: 10000 }) == (Rat { n: 63116299527, d: 2000 }),
{
    assert(gcd(5, 0) == 5);
    assert(gcd(15, 5) == 5);
    assert(gcd(20, 15) == 5);
    assert(gcd(55, 20) == 5);
    assert(gcd(75, 55) == 5);
    assert(gcd(130, 75) == 5);
    assert(gcd(205, 130) == 5);
    assert(gcd(540, 205) == 5);
    assert(gcd(2365, 540) == 5);
    assert(gcd(7635, 2365) == 5);
    assert(gcd(10000, 7635) == 5);
    assert(gcd(315581497635, 10000) == 5);
    lemma_canon_concrete(Rat { n: 315581497635, d: 10000 }, 5, 63116299527, 2000);
}

/// `764554857984` at ten to the `-12`, in lowest terms.
pub proof fn lemma_canon_764554857984_em12()
    ensures
        rat_canon(Rat { n: 764554857984, d: 1000000000000 }) == (Rat { n: 1493271207, d: 1953125000 }),
{
    assert(gcd(512, 0) == 512);
    assert(gcd(1024, 512) == 512);
    assert(gcd(19968, 1024) == 512);
    assert(gcd(20992, 19968) == 512);
    assert(gcd(82944, 20992) == 512);
    assert(gcd(186880, 82944) == 512);
    assert(gcd(2138624, 186880) == 512);
    assert(gcd(2325504, 2138624) == 512);
    assert(gcd(4464128, 2325504) == 512);
    assert(gcd(11253760, 4464128) == 512);
    assert(gcd(15717888, 11253760) == 512);
    assert(gcd(74125312, 15717888) == 512);
    assert(gcd(831096320, 74125312) == 512);
    assert(gcd(1736317952, 831096320) == 512);
    assert(gcd(2567414272, 1736317952) == 512);
    assert(gcd(58219431936, 2567414272) == 512);
    assert(gcd(235445142016, 58219431936) == 512);
    assert(gcd(764554857984, 235445142016) == 512);
    assert(gcd(1000000000000, 764554857984) == 512);
    assert(gcd(764554857984, 1000000000000) == 512);
    lemma_canon_concrete(Rat { n: 764554857984, d: 1000000000000 }, 512, 1493271207, 1953125000);
}

/// `1099511627776` at ten to the `0`, in lowest terms.
pub proof fn lemma_canon_1099511627776_e0()
    ensures
        rat_canon(Rat { n: 1099511627776, d: 1 }) == (Rat { n: 1099511627776, d: 1 }),
{
    assert(gcd(1, 0) == 1);
    assert(gcd(1099511627776, 1) == 1);
    lemma_canon_concrete(Rat { n: 1099511627776, d: 1 }, 1, 1099511627776, 1);
}

/// `2589988110336` at ten to the `-6`, in lowest terms.
pub proof fn lemma_canon_2589988110336_em6()
    ensures
        rat_canon(Rat { n: 2589988110336, d: 1000000 }) == (Rat { n: 40468564224, d: 15625 }),
{
    assert(gcd(64, 0) == 64);
    assert(gcd(128, 64) == 64);
    assert(gcd(576, 128) == 64);
    assert(gcd(1280, 576) == 64);
    assert(gcd(5696, 1280) == 64);
    assert(gcd(6976, 5696) == 64);
    assert(gcd(110336, 6976) == 64);
    assert(gcd(1000000, 110336) == 64);
    assert(gcd(2589988110336, 1000000) == 64);
    lemma_canon_concrete(Rat { n: 2589988110336, d: 1000000 }, 64, 40468564224, 15625);
}

/// `2777777777777778` at ten to the `-16`, in lowest terms.
pub proof fn lemma_canon_2777777777777778_em16()
    ensures
        rat_canon(Rat { n: 2777777777777778, d: 10000000000000000 }) == (Rat { n: 1388888888888889, d: 5000000000000000 }),
{
    assert(gcd(2, 0) == 2);
    assert(gcd(4, 2) == 2);
    assert(gcd(555555555555554, 4) == 2);
    assert(gcd(1111111111111112, 555555555555554) == 2);
    assert(gcd(1666666666666666, 1111111111111112) == 2);
    assert(gcd(2777777777777778, 1666666666666666) == 2);
    assert(gcd(10000000000000000, 2777777777777778) == 2);
    assert(gcd(2777777777777778, 10000000000000000) == 2);
    lemma_canon_concrete(Rat { n: 2777777777777778, d: 10000000000000000 }, 2, 1388888888888889, 5000000000000000);
}

/// `5144444444444445` at ten to the `-16`, in lowest terms.
pub proof fn lemma_canon_5144444444444445_em16()
    ensures
        rat_canon(Rat { n: 5144444444444445, d: 10000000000000000 }) == (Rat { n: 1028888888888889, d: 2000000000000000 }),
{
    assert(gcd(5, 0) == 5);
    assert(gcd(15, 5) == 5);
    assert(gcd(500, 15) == 5);
    assert(gcd(11111111111015, 500) == 5);
    assert(gcd(55555555555575, 11111111111015) == 5);
    assert(gcd(233333333333315, 55555555555575) == 5);
    assert(gcd(288888888888890, 233333333333315) == 5);
    assert(gcd(4855555555555555, 288888888888890) == 5);
    assert(gcd(5144444444444445, 4855555555555555) == 5);
    assert(gcd(10000000000000000, 5144444444444445) == 5);
    assert(gcd(5144444444444445, 10000000000000000) == 5);
    lemma_canon_concrete(Rat { n: 5144444444444445, d: 10000000000000000 }, 5, 1028888888888889, 2000000000000000);
}

/// `555555555555555556` at ten to the `-18`, in lowest terms.
pub proof fn lemma_canon_555555555555555556_em18()
    ensures
        rat_canon(Rat { n: 555555555555555556, d: 1000000000000000000 }) == (Rat { n: 138888888888888889, d: 250000000000000000 }),
{
    assert(gcd(4, 0) == 4);
    assert(gcd(111111111111111108, 4) == 4);
    assert(gcd(111111111111111112, 111111111111111108) == 4);
    assert(gcd(444444444444444444, 111111111111111112) == 4);
    assert(gcd(555555555555555556, 444444444444444444) == 4);
    assert(gcd(1000000000000000000, 555555555555555556) == 4);
    assert(gcd(555555555555555556, 1000000000000000000) == 4);
    lemma_canon_concrete(Rat { n: 555555555555555556, d: 1000000000000000000 }, 4, 138888888888888889, 250000000000000000);
}

/// `-17777777777777777778` at ten to the `-18`, in lowest terms.
pub proof fn lemma_canon_neg17777777777777777778_em18()
    ensures
        rat_canon(Rat { n: -17777777777777777778, d: 1000000000000000000 }) == (Rat { n: -8888888888888888889, d: 500000000000000000 }),
{
    assert(gcd(2, 0) == 2);
    assert(gcd(111111111111111110, 2) == 2);
    assert(gcd(111111111111111112, 111111111111111110) == 2);
    assert(gcd(222222222222222222, 111111111111111112) == 2);
    assert(gcd(777777777777777778, 222222222222222222) == 2);
    assert(gcd(1000000000000000000, 777777777777777778) == 2);
    assert(gcd(17777777777777777778, 1000000000000000000) == 2);
    lemma_canon_concrete(Rat { n: -17777777777777777778, d: 1000000000000000000 }, 2, -8888888888888888889, 500000000000000000);
}

/// `255372222222222222222` at ten to the `-18`, in lowest terms.
pub proof fn lemma_canon_255372222222222222222_em18()
    ensures
        rat_canon(Rat { n: 255372222222222222222, d: 1000000000000000000 }) == (Rat { n: 127686111111111111111, d: 500000000000000000 }),
{
    assert(gcd(2, 0) == 2);
    assert(gcd(12, 2) == 2);
    assert(gcd(14, 12) == 2);
    assert(gcd(26, 14) == 2);
    assert(gcd(40, 26) == 2);
    assert(gcd(5555555555555546, 40) == 2);
    assert(gcd(22222222222222224, 5555555555555546) == 2);
    assert(gcd(116666666666666666, 22222222222222224) == 2);
    assert(gcd(255555555555555556, 116666666666666666) == 2);
    assert(gcd(372222222222222222, 255555555555555556) == 2);
    assert(gcd(1000000000000000000, 372222222222222222) == 2);
    assert(gcd(255372222222222222222, 1000000000000000000) == 2);
    lemma_canon_concrete(Rat { n: 255372222222222222222, d: 1000000000000000000 }, 2, 127686111111111111111, 500000000000000000);
}

} // verus!
