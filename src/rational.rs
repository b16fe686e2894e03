//! Exact fractions, as the engine reports time bases and frame rates.
use vstd::prelude::*;

verus! {

/// A numerator over a denominator, kept as the engine gave them (not
/// reduced, and with a zero denominator where the engine knows no value).
#[derive(Clone, Copy, Debug, PartialEq, Eq, Structural)]
pub struct Rational(pub libc::c_int, pub libc::c_int);

impl Rational {
    pub fn new(numerator: libc::c_int, denominator: libc::c_int) -> (r: Rational)
        ensures
            r.0 == numerator,
            r.1 == denominator,
    {
        Rational(numerator, denominator)
    }

    pub fn numerator(&self) -> (r: libc::c_int)
        ensures
            r == self.0,
    {
        self.0
    }

    pub fn denominator(&self) -> (r: libc::c_int)
        ensures
            r == self.1,
    {
        self.1
    }
}

} // verus!
