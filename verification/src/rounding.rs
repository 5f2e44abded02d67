//! Rounding of scalar planner quantities. Costs, row estimates and the row
//! limit hint are carried in thousandths of a unit, so the common decimal
//! values stay exact in integer form.

use vstd::prelude::*;

use vstd::arithmetic::div_mod::{
    lemma_div_is_ordered, lemma_div_multiples_vanish, lemma_fundamental_div_mod, lemma_mod_bound,
};

verus! {

/// Nearest whole unit of a thousandths-carried value; ties round away from
/// zero, the rule the host's float rounding uses.
pub open spec fn round_millis(m: int) -> int {
    if m >= 0 {
        (m + 500) / 1000
    } else {
        -((-m + 500) / 1000)
    }
}

/// `v` clamped to the `i32` range, as the host's saturating float-to-integer
/// conversion does.
pub open spec fn clamp_to_i32(v: int) -> int {
    if v > i32::MAX as int {
        i32::MAX as int
    } else if v < i32::MIN as int {
        i32::MIN as int
    } else {
        v
    }
}

/// Rounds a thousandths-carried value to the nearest whole unit, ties away
/// from zero, saturating at the `i32` bounds.
pub fn round_millis_to_i32(m: i64) -> (r: i32)
    ensures
        r as int == clamp_to_i32(round_millis(m as int)),
{
    if m >= 2_147_483_647_500i64 {
        proof {
            lemma_div_is_ordered(2_147_483_648_000int, m as int + 500, 1000);
        }
        i32::MAX
    } else if m >= 0 {
        let q: u64 = ((m as u64) + 500) / 1000;
        proof {
            lemma_div_is_ordered(m as int + 500, 2_147_483_647_999int, 1000);
        }
        q as i32
    } else if m <= -2_147_483_648_500i64 {
        proof {
            lemma_div_is_ordered(2_147_483_649_000int, -(m as int) + 500, 1000);
        }
        i32::MIN
    } else {
        let n: i64 = -m;
        let q: u64 = ((n as u64) + 500) / 1000;
        proof {
            lemma_div_is_ordered(-(m as int) + 500, 2_147_483_648_999int, 1000);
        }
        let r64: i64 = -(q as i64);
        r64 as i32
    }
}

/// Law: the rounding really picks the nearest whole unit — the result, scaled
/// back to thousandths, differs from the input by at most half a unit.
pub proof fn lemma_round_millis_is_nearest(m: int)
    ensures
        -500 <= 1000 * round_millis(m) - m <= 500,
{
    if m >= 0 {
        lemma_fundamental_div_mod(m + 500, 1000);
        lemma_mod_bound(m + 500, 1000);
    } else {
        lemma_fundamental_div_mod(-m + 500, 1000);
        lemma_mod_bound(-m + 500, 1000);
    }
}

/// Law: a value exactly halfway between two whole units rounds away from zero,
/// on either side of zero.
pub proof fn lemma_round_millis_ties_away_from_zero(k: int)
    requires
        k >= 0,
    ensures
        round_millis(1000 * k + 500) == k + 1,
        round_millis(-(1000 * k + 500)) == -(k + 1),
{
    assert(1000 * k + 500 + 500 == 1000 * (k + 1)) by (nonlinear_arith);
    lemma_div_multiples_vanish(k + 1, 1000);
}

} // verus!
