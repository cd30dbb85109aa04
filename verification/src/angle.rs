//! Angles tagged with their unit.
use crate::ArithmeticType;
use vstd::prelude::*;

verus! {

/// An angle in one of three units. Conversions between the units, and the
/// arithmetic that normalizes an angle to one full turn, work on floating-point
/// values and are not part of this crate.
#[derive(Debug, Copy, Clone)]
pub enum Angle<T> {
    Degrees(T),
    Radians(T),
    Turns(T),
}

/// The value of an angle, whatever its unit.
pub open spec fn angle_value<T>(a: Angle<T>) -> T {
    match a {
        Angle::Degrees(v) => v,
        Angle::Radians(v) => v,
        Angle::Turns(v) => v,
    }
}

impl<T: ArithmeticType> Angle<T> {
    /// The zero angle, in radians.
    pub fn new() -> (r: Self)
        ensures
            r is Radians,
            angle_value(r).to_int() == 0,
    {
        Angle::Radians(T::zero())
    }
}

impl<T: ArithmeticType> Default for Angle<T> {
    /// The zero angle, in radians.
    fn default() -> (r: Self)
        ensures
            r is Radians,
            angle_value(r).to_int() == 0,
    {
        Self::new()
    }
}

impl<T: Copy> Angle<T> {
    /// The value of the angle in its own unit.
    pub fn inner(&self) -> (r: T)
        ensures
            r == angle_value(*self),
    {
        match self {
            Angle::Degrees(a) => *a,
            Angle::Turns(a) => *a,
            Angle::Radians(a) => *a,
        }
    }
}

} // verus!
