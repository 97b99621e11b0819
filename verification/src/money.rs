use vstd::prelude::*;

verus! {

/// A non-negative amount of currency. The protocol never subtracts more than
/// is held, so subtraction carries a sufficiency precondition instead of a
/// runtime check.
#[derive(Debug, Clone, Copy, PartialEq, Eq, Hash, Structural)]
pub struct Gold(pub u64);

impl Gold {
    pub fn new(value: u64) -> (g: Gold)
        ensures
            g.0 == value,
    {
        Gold(value)
    }

    /// The raw amount.
    pub fn value(self) -> (v: u64)
        ensures
            v == self.0,
    {
        self.0
    }

    /// Addition; the caller must have ruled out overflow.
    pub fn add(self, other: Gold) -> (r: Gold)
        requires
            self.0 + other.0 <= u64::MAX,
        ensures
            r.0 == self.0 + other.0,
    {
        Gold(self.0 + other.0)
    }

    /// Subtraction; the caller must have checked sufficiency.
    pub fn sub(self, other: Gold) -> (r: Gold)
        requires
            other.0 <= self.0,
        ensures
            r.0 == self.0 - other.0,
    {
        Gold(self.0 - other.0)
    }

    /// `true` when this amount is strictly below `other`.
    pub fn lt(self, other: Gold) -> (r: bool)
        ensures
            r == (self.0 < other.0),
    {
        self.0 < other.0
    }
}

} // verus!
