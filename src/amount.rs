use vstd::prelude::*;

verus! {

/// A decimal quantity or money amount held as a whole number of thousandths,
/// so that `1500.5` is `Amount { thousandths: 1_500_500 }`.
#[derive(Debug, Clone, Copy, PartialEq, Eq, Structural)]
pub struct Amount {
    pub thousandths: i64,
}

/// Number of thousandths in one whole unit.
pub const THOUSANDTHS_PER_UNIT: i64 = 1000;

impl Amount {
    /// The amount of `thousandths` thousandths of a unit.
    pub fn from_thousandths(thousandths: i64) -> (r: Amount)
        ensures
            r.thousandths == thousandths,
    {
        Amount { thousandths }
    }

    /// The amount of `units` whole units.
    pub fn from_units(units: i32) -> (r: Amount)
        ensures
            r.thousandths == units * 1000,
    {
        Amount { thousandths: units as i64 * THOUSANDTHS_PER_UNIT }
    }

    /// Whether this amount is strictly below `other`.
    pub fn is_below(&self, other: Amount) -> (r: bool)
        ensures
            r == (self.thousandths < other.thousandths),
    {
        self.thousandths < other.thousandths
    }
}

} // verus!
