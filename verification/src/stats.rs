//! Averaging of per-core CPU percentages.
//!
//! All percentages are integers in hundredths of a percent, so the
//! rounding policy — scale, round to nearest, rescale; never truncate,
//! which would bias the values downward — is exact integer arithmetic.

use vstd::prelude::*;

use crate::model::cpu_seq_ok;
use crate::model::FULL_SCALE;

verus! {

/// Sum of a sequence of `u32` values, as a mathematical integer.
pub open spec fn sum_of(s: Seq<u32>) -> int
    decreases s.len(),
{
    if s.len() == 0 {
        0
    } else {
        sum_of(s.drop_last()) + s.last()
    }
}

/// Round-to-nearest mean of a sequence of percentages given in
/// hundredths of a percent; `0` when the sequence is empty.  Halves
/// round up, which for non-negative values matches rounding half away
/// from zero.
pub open spec fn rounded_mean(s: Seq<u32>) -> int {
    if s.len() == 0 {
        0
    } else {
        (2 * sum_of(s) + s.len()) / (2 * s.len() as int)
    }
}

/// The arithmetic mean of the per-core percentages, rounded to the
/// nearest hundredth of a percent; `0` for an empty sequence.
pub fn cpu_average(cpu: &Vec<u32>) -> (r: u32)
    requires
        cpu_seq_ok(cpu@),
    ensures
        r == rounded_mean(cpu@),
        r <= FULL_SCALE,
{
    if cpu.len() == 0 {
        return 0;
    }
    let mut sum: u128 = 0;
    let mut i: usize = 0;
    while i < cpu.len()
        invariant
            i <= cpu@.len(),
            cpu_seq_ok(cpu@),
            sum == sum_of(cpu@.take(i as int)),
            sum <= FULL_SCALE * i,
        decreases cpu@.len() - i,
    {
        proof {
            assert(cpu@.take(i + 1).drop_last() =~= cpu@.take(i as int));
            assert(cpu@.take(i + 1).last() == cpu@[i as int]);
        }
        sum = sum + cpu[i] as u128;
        i = i + 1;
    }
    proof {
        assert(cpu@.take(cpu@.len() as int) =~= cpu@);
    }
    let len: u128 = cpu.len() as u128;
    let q: u128 = (2 * sum + len) / (2 * len);
    proof {
        let s = sum as int;
        let n = len as int;
        assert((2 * s + n) < (2 * n) * (FULL_SCALE + 1)) by (nonlinear_arith)
            requires
                s <= FULL_SCALE * n,
                n >= 1,
        ;
        vstd::arithmetic::div_mod::lemma_multiply_divide_lt(
            2 * s + n,
            2 * n,
            FULL_SCALE + 1,
        );
    }
    q as u32
}

} // verus!
