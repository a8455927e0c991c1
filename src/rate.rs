use vstd::prelude::*;

verus! {

/// Number of rate units in one whole unit of the rate.
pub const RATE_SCALE: u64 = 1_000_000;

/// An exchange rate in fixed point: `micros / RATE_SCALE` units of the
/// outgoing currency per unit of the incoming currency.
#[derive(Clone, Copy, Debug, PartialEq, Eq, Structural)]
pub struct Rate {
    pub micros: u64,
}

/// `sum * rate`, rounded half up to the nearest minor unit.
pub open spec fn debit_spec(sum: int, micros: int) -> int {
    (sum * micros + RATE_SCALE / 2) / (RATE_SCALE as int)
}

/// What rounding leaves over, in rate units: `sum * micros - RATE_SCALE * debit`.
pub open spec fn rounding_residue(sum: int, micros: int) -> int {
    sum * micros - (RATE_SCALE as int) * debit_spec(sum, micros)
}

/// Rounding half up moves the exact product by at most half a minor unit.
pub proof fn lemma_rounding_bound(sum: int, micros: int)
    requires
        sum >= 0,
        micros >= 0,
    ensures
        -(RATE_SCALE as int) / 2 <= rounding_residue(sum, micros) < (RATE_SCALE as int) / 2,
        debit_spec(sum, micros) >= 0,
{
    let p = sum * micros;
    assert(p >= 0) by (nonlinear_arith)
        requires
            p == sum * micros,
            sum >= 0,
            micros >= 0,
    ;
    let d = (p + 500_000) / 1_000_000;
    assert(1_000_000 * d <= p + 500_000 < 1_000_000 * d + 1_000_000) by (nonlinear_arith)
        requires
            d == (p + 500_000) / 1_000_000,
            p >= 0,
    ;
    assert(debit_spec(sum, micros) == d);
    assert(rounding_residue(sum, micros) == p - 1_000_000 * d);
}

impl Rate {
    /// A rate of `micros / RATE_SCALE`.
    pub fn from_micros(micros: u64) -> (r: Rate)
        ensures
            r.micros == micros,
    {
        Rate { micros }
    }
}

/// The amount of outgoing currency paid for `sum` units of incoming currency
/// at `rate`: `sum * rate` rounded half up.
pub fn debit_for(sum: i32, rate: Rate) -> (r: u128)
    requires
        sum >= 0,
    ensures
        r as int == debit_spec(sum as int, rate.micros as int),
{
    let s = sum as u128;
    let m = rate.micros as u128;
    assert(s * m <= 0x8000_0000u128 * 0xffff_ffff_ffff_ffffu128) by (nonlinear_arith)
        requires
            s <= 0x8000_0000u128,
            m <= 0xffff_ffff_ffff_ffffu128,
    ;
    let p = s * m;
    (p + 500_000) / 1_000_000
}

} // verus!
