//! Rational numbers as numerator and denominator.
use vstd::prelude::*;

verus! {

/// A ratio `numerator / denominator`, kept exactly as given.
#[derive(Clone, Copy, Debug, PartialEq, Eq, Structural)]
pub struct Rational(pub i32, pub i32);

impl Rational {
    pub fn numerator(&self) -> (r: i32)
        ensures
            r == self.0,
    {
        self.0
    }

    pub fn denominator(&self) -> (r: i32)
        ensures
            r == self.1,
    {
        self.1
    }
}

} // verus!
