//! The experience an account needs for its next level.
use vstd::arithmetic::power2::{
    lemma2_to64, lemma2_to64_rest, lemma_pow2_adds, lemma_pow2_strictly_increases,
    lemma_pow2_unfold, pow2,
};
use vstd::prelude::*;

verus! {

/// Highest level that still has an experience target.
pub const MAX_TARGET_LEVEL: u8 = 99;

/// The experience target of an account at `level` with the given intelligence:
/// `2^(level - 1) * (1100 - 2 * intelligence)`. At level 0 the power is one half,
/// which the even factor absorbs, so the value is always a whole number.
pub open spec fn exp_need_value(level: nat, intelligence: nat) -> int {
    pow2(level) * (550 - intelligence)
}

/// Experience needed to advance from `level`, as an exact whole number.
///
/// The value is `2^(level - 1) * (1100 - 2 * intelligence)`; it stays below `2^110`, so
/// it has at most eleven significant bits and converts to a double exactly.
pub fn calculate_exp_need(level: u8, intelligence: u8) -> (r: u128)
    requires
        level <= MAX_TARGET_LEVEL,
    ensures
        r == exp_need_value(level as nat, intelligence as nat),
        2 * r == pow2(level as nat) * (1100 - 2 * intelligence),
{
    proof {
        lemma2_to64();
        lemma2_to64_rest();
        lemma_pow2_adds(64, 35);
        assert(pow2(64) * pow2(35) == 0x8_0000_0000_0000_0000_0000_0000) by (nonlinear_arith)
            requires pow2(64) == 0x1_0000_0000_0000_0000, pow2(35) == 0x8_0000_0000;
    }
    let mut r: u128 = 550 - intelligence as u128;
    let mut i: u8 = 0;
    while i < level
        invariant
            i <= level <= MAX_TARGET_LEVEL,
            r == pow2(i as nat) * (550 - intelligence),
            pow2(99) == 0x8_0000_0000_0000_0000_0000_0000,
        decreases level - i,
    {
        proof {
            lemma_pow2_unfold((i + 1) as nat);
            lemma_pow2_strictly_increases(i as nat, 99);
            assert(pow2(i as nat) * (550 - intelligence) <= pow2(99) * 550) by (nonlinear_arith)
                requires pow2(i as nat) < pow2(99), intelligence <= 255;
            assert(pow2(i as nat) * (550 - intelligence) * 2 == pow2((i + 1) as nat) * (550
                - intelligence)) by (nonlinear_arith)
                requires pow2((i + 1) as nat) == 2 * pow2(i as nat);
        }
        r = r * 2;
        i = i + 1;
    }
    assert(2 * (pow2(level as nat) * (550 - intelligence)) == pow2(level as nat) * (1100 - 2
        * intelligence)) by (nonlinear_arith);
    r
}

} // verus!
