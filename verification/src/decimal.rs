use vstd::prelude::*;

verus! {

/// Ten to the given power.
pub open spec fn pow10(n: nat) -> nat
    decreases n,
{
    if n == 0 {
        1
    } else {
        10 * pow10((n - 1) as nat)
    }
}

/// A signed decimal number kept exactly as it is spelled on the wire:
/// sign, integer part, and a fraction of `frac_len` digits whose value is
/// `frac`. `1.05` is held as `(false, 1, 5, 2)`; a number without a dot
/// has `frac_len == 0`.
#[derive(Debug, Clone, Copy, PartialEq, Eq, Structural)]
pub struct Decimal {
    pub neg: bool,
    pub int_part: u64,
    pub frac: u64,
    pub frac_len: usize,
}

impl Decimal {
    /// The fraction fits in its declared digit count.
    pub open spec fn wf(self) -> bool {
        self.frac < pow10(self.frac_len as nat)
    }

    /// A whole number.
    pub fn from_int(neg: bool, int_part: u64) -> (r: Decimal)
        ensures
            r == (Decimal { neg, int_part, frac: 0, frac_len: 0 }),
            r.wf(),
    {
        Decimal { neg, int_part, frac: 0, frac_len: 0 }
    }

    /// Zero, spelled `0.0`.
    pub fn zero() -> (r: Decimal)
        ensures
            r == (Decimal { neg: false, int_part: 0, frac: 0, frac_len: 1 }),
            r.wf(),
    {
        proof {
            assert(pow10(0) == 1);
            assert(pow10(1) == 10);
        }
        Decimal { neg: false, int_part: 0, frac: 0, frac_len: 1 }
    }
}

} // verus!
