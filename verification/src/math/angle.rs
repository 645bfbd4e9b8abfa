use vstd::prelude::*;

verus! {

/// An angle measured in radians.
#[derive(Debug, Clone, Copy, PartialEq, Eq, Hash)]
pub struct Rad<T>(pub T);

/// An angle measured in degrees.
#[derive(Debug, Clone, Copy, PartialEq, Eq, Hash)]
pub struct Deg<T>(pub T);

impl Deg<i64> {
    /// Adds two angles in degrees.
    pub fn add(self, rhs: Deg<i64>) -> (r: Deg<i64>)
        requires
            i64::MIN <= self.0 + rhs.0 <= i64::MAX,
        ensures
            r.0 == self.0 + rhs.0,
    {
        Deg(self.0 + rhs.0)
    }

    /// Multiplies two angles in degrees.
    pub fn mul(self, rhs: Deg<i64>) -> (r: Deg<i64>)
        requires
            i64::MIN <= self.0 * rhs.0 <= i64::MAX,
        ensures
            r.0 == self.0 * rhs.0,
    {
        Deg(self.0 * rhs.0)
    }
}

} // verus!
