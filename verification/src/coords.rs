//! The validated coordinate wrappers and their range-checked arithmetic.
//!
//! `Latitude` and `Longitude` hold one signed value each; a value enters a
//! wrapper through the fallible `try_from` constructors only when it lies in
//! the kind's closed domain, and the `TryAdd` / `TrySubstract` operations
//! re-validate the mathematical sum or difference before returning a new
//! wrapper. Out-of-range results are reported as `LatLngError`, never
//! wrapped around or clamped; at the one width narrower than its domain
//! (longitude at i8) a result the width cannot store is likewise an error.
//! One implementation per signed integer width shares the overflow-safe
//! core of `crate::range`.

use vstd::prelude::*;

use crate::range::checked_shift_add;
use crate::range::checked_shift_sub;
use crate::range::in_bounds;
use crate::range::in_lat_range;
use crate::range::in_lng_range;

verus! {

/// A north-south coordinate; legal values lie in [-90, 90].
#[derive(Debug, PartialEq, Eq, Structural, Clone, Copy)]
pub struct Latitude<T>(pub T);

/// An east-west coordinate; legal values lie in [-180, 180].
#[derive(Debug, PartialEq, Eq, Structural, Clone, Copy)]
pub struct Longitude<T>(pub T);

/// The two ways a coordinate operation can fail: the produced value left
/// the legal domain of its kind.
#[derive(Debug, PartialEq, Eq, Structural, Clone, Copy)]
pub enum LatLngError {
    LatitudeOutOfRange,
    LongitudeOutOfRange,
}

/// Range-checked subtraction: the difference is returned only when it is
/// still a legal value of the same kind.
pub trait TrySubstract<RHS = Self>: Sized {
    type Output;

    type Err;

    fn try_substract(self, rhs: RHS) -> Result<Self::Output, Self::Err>;
}

/// Range-checked addition: the sum is returned only when it is still a
/// legal value of the same kind.
pub trait TryAdd<RHS = Self>: Sized {
    type Output;

    type Err;

    fn try_add(self, rhs: RHS) -> Result<Self::Output, Self::Err>;
}

impl Latitude<i8> {
    /// Accepts exactly the values of the closed domain [-90, 90].
    pub fn try_from(value: i8) -> (r: Result<Latitude<i8>, LatLngError>)
        ensures
            r == (if in_lat_range(value as int) {
                Ok::<Latitude<i8>, LatLngError>(Latitude(value))
            } else {
                Err(LatLngError::LatitudeOutOfRange)
            }),
    {
        if in_bounds(value as i128, 90) {
            Ok(Latitude(value))
        } else {
            Err(LatLngError::LatitudeOutOfRange)
        }
    }
}

impl TryAdd<i8> for Latitude<i8> {
    type Output = Latitude<i8>;

    type Err = LatLngError;

    fn try_add(self, rhs: i8) -> (r: Result<Latitude<i8>, LatLngError>)
        ensures
            r == (if in_lat_range(self.0 + rhs) {
                Ok::<Latitude<i8>, LatLngError>(Latitude((self.0 + rhs) as i8))
            } else {
                Err(LatLngError::LatitudeOutOfRange)
            }),
    {
        match checked_shift_add(self.0 as i128, rhs as i128, 90) {
            Some(s) => Ok(Latitude(s as i8)),
            None => Err(LatLngError::LatitudeOutOfRange),
        }
    }
}

impl TrySubstract<i8> for Latitude<i8> {
    type Output = Latitude<i8>;

    type Err = LatLngError;

    fn try_substract(self, rhs: i8) -> (r: Result<Latitude<i8>, LatLngError>)
        ensures
            r == (if in_lat_range(self.0 - rhs) {
                Ok::<Latitude<i8>, LatLngError>(Latitude((self.0 - rhs) as i8))
            } else {
                Err(LatLngError::LatitudeOutOfRange)
            }),
    {
        match checked_shift_sub(self.0 as i128, rhs as i128, 90) {
            Some(s) => Ok(Latitude(s as i8)),
            None => Err(LatLngError::LatitudeOutOfRange),
        }
    }
}

impl Latitude<i16> {
    /// Accepts exactly the values of the closed domain [-90, 90].
    pub fn try_from(value: i16) -> (r: Result<Latitude<i16>, LatLngError>)
        ensures
            r == (if in_lat_range(value as int) {
                Ok::<Latitude<i16>, LatLngError>(Latitude(value))
            } else {
                Err(LatLngError::LatitudeOutOfRange)
            }),
    {
        if in_bounds(value as i128, 90) {
            Ok(Latitude(value))
        } else {
            Err(LatLngError::LatitudeOutOfRange)
        }
    }
}

impl TryAdd<i16> for Latitude<i16> {
    type Output = Latitude<i16>;

    type Err = LatLngError;

    fn try_add(self, rhs: i16) -> (r: Result<Latitude<i16>, LatLngError>)
        ensures
            r == (if in_lat_range(self.0 + rhs) {
                Ok::<Latitude<i16>, LatLngError>(Latitude((self.0 + rhs) as i16))
            } else {
                Err(LatLngError::LatitudeOutOfRange)
            }),
    {
        match checked_shift_add(self.0 as i128, rhs as i128, 90) {
            Some(s) => Ok(Latitude(s as i16)),
            None => Err(LatLngError::LatitudeOutOfRange),
        }
    }
}

impl TrySubstract<i16> for Latitude<i16> {
    type Output = Latitude<i16>;

    type Err = LatLngError;

    fn try_substract(self, rhs: i16) -> (r: Result<Latitude<i16>, LatLngError>)
        ensures
            r == (if in_lat_range(self.0 - rhs) {
                Ok::<Latitude<i16>, LatLngError>(Latitude((self.0 - rhs) as i16))
            } else {
                Err(LatLngError::LatitudeOutOfRange)
            }),
    {
        match checked_shift_sub(self.0 as i128, rhs as i128, 90) {
            Some(s) => Ok(Latitude(s as i16)),
            None => Err(LatLngError::LatitudeOutOfRange),
        }
    }
}

impl Latitude<i32> {
    /// Accepts exactly the values of the closed domain [-90, 90].
    pub fn try_from(value: i32) -> (r: Result<Latitude<i32>, LatLngError>)
        ensures
            r == (if in_lat_range(value as int) {
                Ok::<Latitude<i32>, LatLngError>(Latitude(value))
            } else {
                Err(LatLngError::LatitudeOutOfRange)
            }),
    {
        if in_bounds(value as i128, 90) {
            Ok(Latitude(value))
        } else {
            Err(LatLngError::LatitudeOutOfRange)
        }
    }
}

impl TryAdd<i32> for Latitude<i32> {
    type Output = Latitude<i32>;

    type Err = LatLngError;

    fn try_add(self, rhs: i32) -> (r: Result<Latitude<i32>, LatLngError>)
        ensures
            r == (if in_lat_range(self.0 + rhs) {
                Ok::<Latitude<i32>, LatLngError>(Latitude((self.0 + rhs) as i32))
            } else {
                Err(LatLngError::LatitudeOutOfRange)
            }),
    {
        match checked_shift_add(self.0 as i128, rhs as i128, 90) {
            Some(s) => Ok(Latitude(s as i32)),
            None => Err(LatLngError::LatitudeOutOfRange),
        }
    }
}

impl TrySubstract<i32> for Latitude<i32> {
    type Output = Latitude<i32>;

    type Err = LatLngError;

    fn try_substract(self, rhs: i32) -> (r: Result<Latitude<i32>, LatLngError>)
        ensures
            r == (if in_lat_range(self.0 - rhs) {
                Ok::<Latitude<i32>, LatLngError>(Latitude((self.0 - rhs) as i32))
            } else {
                Err(LatLngError::LatitudeOutOfRange)
            }),
    {
        match checked_shift_sub(self.0 as i128, rhs as i128, 90) {
            Some(s) => Ok(Latitude(s as i32)),
            None => Err(LatLngError::LatitudeOutOfRange),
        }
    }
}

impl Latitude<i64> {
    /// Accepts exactly the values of the closed domain [-90, 90].
    pub fn try_from(value: i64) -> (r: Result<Latitude<i64>, LatLngError>)
        ensures
            r == (if in_lat_range(value as int) {
                Ok::<Latitude<i64>, LatLngError>(Latitude(value))
            } else {
                Err(LatLngError::LatitudeOutOfRange)
            }),
    {
        if in_bounds(value as i128, 90) {
            Ok(Latitude(value))
        } else {
            Err(LatLngError::LatitudeOutOfRange)
        }
    }
}

impl TryAdd<i64> for Latitude<i64> {
    type Output = Latitude<i64>;

    type Err = LatLngError;

    fn try_add(self, rhs: i64) -> (r: Result<Latitude<i64>, LatLngError>)
        ensures
            r == (if in_lat_range(self.0 + rhs) {
                Ok::<Latitude<i64>, LatLngError>(Latitude((self.0 + rhs) as i64))
            } else {
                Err(LatLngError::LatitudeOutOfRange)
            }),
    {
        match checked_shift_add(self.0 as i128, rhs as i128, 90) {
            Some(s) => Ok(Latitude(s as i64)),
            None => Err(LatLngError::LatitudeOutOfRange),
        }
    }
}

impl TrySubstract<i64> for Latitude<i64> {
    type Output = Latitude<i64>;

    type Err = LatLngError;

    fn try_substract(self, rhs: i64) -> (r: Result<Latitude<i64>, LatLngError>)
        ensures
            r == (if in_lat_range(self.0 - rhs) {
                Ok::<Latitude<i64>, LatLngError>(Latitude((self.0 - rhs) as i64))
            } else {
                Err(LatLngError::LatitudeOutOfRange)
            }),
    {
        match checked_shift_sub(self.0 as i128, rhs as i128, 90) {
            Some(s) => Ok(Latitude(s as i64)),
            None => Err(LatLngError::LatitudeOutOfRange),
        }
    }
}

impl Latitude<i128> {
    /// Accepts exactly the values of the closed domain [-90, 90].
    pub fn try_from(value: i128) -> (r: Result<Latitude<i128>, LatLngError>)
        ensures
            r == (if in_lat_range(value as int) {
                Ok::<Latitude<i128>, LatLngError>(Latitude(value))
            } else {
                Err(LatLngError::LatitudeOutOfRange)
            }),
    {
        if in_bounds(value as i128, 90) {
            Ok(Latitude(value))
        } else {
            Err(LatLngError::LatitudeOutOfRange)
        }
    }
}

impl TryAdd<i128> for Latitude<i128> {
    type Output = Latitude<i128>;

    type Err = LatLngError;

    fn try_add(self, rhs: i128) -> (r: Result<Latitude<i128>, LatLngError>)
        ensures
            r == (if in_lat_range(self.0 + rhs) {
                Ok::<Latitude<i128>, LatLngError>(Latitude((self.0 + rhs) as i128))
            } else {
                Err(LatLngError::LatitudeOutOfRange)
            }),
    {
        match checked_shift_add(self.0 as i128, rhs as i128, 90) {
            Some(s) => Ok(Latitude(s as i128)),
            None => Err(LatLngError::LatitudeOutOfRange),
        }
    }
}

impl TrySubstract<i128> for Latitude<i128> {
    type Output = Latitude<i128>;

    type Err = LatLngError;

    fn try_substract(self, rhs: i128) -> (r: Result<Latitude<i128>, LatLngError>)
        ensures
            r == (if in_lat_range(self.0 - rhs) {
                Ok::<Latitude<i128>, LatLngError>(Latitude((self.0 - rhs) as i128))
            } else {
                Err(LatLngError::LatitudeOutOfRange)
            }),
    {
        match checked_shift_sub(self.0 as i128, rhs as i128, 90) {
            Some(s) => Ok(Latitude(s as i128)),
            None => Err(LatLngError::LatitudeOutOfRange),
        }
    }
}

impl Latitude<isize> {
    /// Accepts exactly the values of the closed domain [-90, 90].
    pub fn try_from(value: isize) -> (r: Result<Latitude<isize>, LatLngError>)
        ensures
            r == (if in_lat_range(value as int) {
                Ok::<Latitude<isize>, LatLngError>(Latitude(value))
            } else {
                Err(LatLngError::LatitudeOutOfRange)
            }),
    {
        if in_bounds(value as i128, 90) {
            Ok(Latitude(value))
        } else {
            Err(LatLngError::LatitudeOutOfRange)
        }
    }
}

impl TryAdd<isize> for Latitude<isize> {
    type Output = Latitude<isize>;

    type Err = LatLngError;

    fn try_add(self, rhs: isize) -> (r: Result<Latitude<isize>, LatLngError>)
        ensures
            r == (if in_lat_range(self.0 + rhs) {
                Ok::<Latitude<isize>, LatLngError>(Latitude((self.0 + rhs) as isize))
            } else {
                Err(LatLngError::LatitudeOutOfRange)
            }),
    {
        match checked_shift_add(self.0 as i128, rhs as i128, 90) {
            Some(s) => Ok(Latitude(s as isize)),
            None => Err(LatLngError::LatitudeOutOfRange),
        }
    }
}

impl TrySubstract<isize> for Latitude<isize> {
    type Output = Latitude<isize>;

    type Err = LatLngError;

    fn try_substract(self, rhs: isize) -> (r: Result<Latitude<isize>, LatLngError>)
        ensures
            r == (if in_lat_range(self.0 - rhs) {
                Ok::<Latitude<isize>, LatLngError>(Latitude((self.0 - rhs) as isize))
            } else {
                Err(LatLngError::LatitudeOutOfRange)
            }),
    {
        match checked_shift_sub(self.0 as i128, rhs as i128, 90) {
            Some(s) => Ok(Latitude(s as isize)),
            None => Err(LatLngError::LatitudeOutOfRange),
        }
    }
}

impl Longitude<i8> {
    /// Accepts exactly the values of the closed domain [-180, 180].
    pub fn try_from(value: i8) -> (r: Result<Longitude<i8>, LatLngError>)
        ensures
            r == (if in_lng_range(value as int) {
                Ok::<Longitude<i8>, LatLngError>(Longitude(value))
            } else {
                Err(LatLngError::LongitudeOutOfRange)
            }),
    {
        if in_bounds(value as i128, 180) {
            Ok(Longitude(value))
        } else {
            Err(LatLngError::LongitudeOutOfRange)
        }
    }
}

impl TryAdd<i8> for Longitude<i8> {
    type Output = Longitude<i8>;

    type Err = LatLngError;

    /// The longitude domain [-180, 180] is wider than i8 itself, so a sum
    /// inside the domain but outside [-128, 127] cannot be stored at this
    /// width: it is an error too, never wrapped into a different value.
    fn try_add(self, rhs: i8) -> (r: Result<Longitude<i8>, LatLngError>)
        ensures
            r == (if in_lng_range(self.0 + rhs) && -128 <= self.0 + rhs <= 127 {
                Ok::<Longitude<i8>, LatLngError>(Longitude((self.0 + rhs) as i8))
            } else {
                Err(LatLngError::LongitudeOutOfRange)
            }),
    {
        match checked_shift_add(self.0 as i128, rhs as i128, 180) {
            Some(s) => {
                if -128 <= s && s <= 127 {
                    Ok(Longitude(s as i8))
                } else {
                    Err(LatLngError::LongitudeOutOfRange)
                }
            },
            None => Err(LatLngError::LongitudeOutOfRange),
        }
    }
}

impl TrySubstract<i8> for Longitude<i8> {
    type Output = Longitude<i8>;

    type Err = LatLngError;

    /// As for addition at this width: an in-domain difference that i8
    /// cannot store is an error, never wrapped.
    fn try_substract(self, rhs: i8) -> (r: Result<Longitude<i8>, LatLngError>)
        ensures
            r == (if in_lng_range(self.0 - rhs) && -128 <= self.0 - rhs <= 127 {
                Ok::<Longitude<i8>, LatLngError>(Longitude((self.0 - rhs) as i8))
            } else {
                Err(LatLngError::LongitudeOutOfRange)
            }),
    {
        match checked_shift_sub(self.0 as i128, rhs as i128, 180) {
            Some(s) => {
                if -128 <= s && s <= 127 {
                    Ok(Longitude(s as i8))
                } else {
                    Err(LatLngError::LongitudeOutOfRange)
                }
            },
            None => Err(LatLngError::LongitudeOutOfRange),
        }
    }
}

impl Longitude<i16> {
    /// Accepts exactly the values of the closed domain [-180, 180].
    pub fn try_from(value: i16) -> (r: Result<Longitude<i16>, LatLngError>)
        ensures
            r == (if in_lng_range(value as int) {
                Ok::<Longitude<i16>, LatLngError>(Longitude(value))
            } else {
                Err(LatLngError::LongitudeOutOfRange)
            }),
    {
        if in_bounds(value as i128, 180) {
            Ok(Longitude(value))
        } else {
            Err(LatLngError::LongitudeOutOfRange)
        }
    }
}

impl TryAdd<i16> for Longitude<i16> {
    type Output = Longitude<i16>;

    type Err = LatLngError;

    fn try_add(self, rhs: i16) -> (r: Result<Longitude<i16>, LatLngError>)
        ensures
            r == (if in_lng_range(self.0 + rhs) {
                Ok::<Longitude<i16>, LatLngError>(Longitude((self.0 + rhs) as i16))
            } else {
                Err(LatLngError::LongitudeOutOfRange)
            }),
    {
        match checked_shift_add(self.0 as i128, rhs as i128, 180) {
            Some(s) => Ok(Longitude(s as i16)),
            None => Err(LatLngError::LongitudeOutOfRange),
        }
    }
}

impl TrySubstract<i16> for Longitude<i16> {
    type Output = Longitude<i16>;

    type Err = LatLngError;

    fn try_substract(self, rhs: i16) -> (r: Result<Longitude<i16>, LatLngError>)
        ensures
            r == (if in_lng_range(self.0 - rhs) {
                Ok::<Longitude<i16>, LatLngError>(Longitude((self.0 - rhs) as i16))
            } else {
                Err(LatLngError::LongitudeOutOfRange)
            }),
    {
        match checked_shift_sub(self.0 as i128, rhs as i128, 180) {
            Some(s) => Ok(Longitude(s as i16)),
            None => Err(LatLngError::LongitudeOutOfRange),
        }
    }
}

impl Longitude<i32> {
    /// Accepts exactly the values of the closed domain [-180, 180].
    pub fn try_from(value: i32) -> (r: Result<Longitude<i32>, LatLngError>)
        ensures
            r == (if in_lng_range(value as int) {
                Ok::<Longitude<i32>, LatLngError>(Longitude(value))
            } else {
                Err(LatLngError::LongitudeOutOfRange)
            }),
    {
        if in_bounds(value as i128, 180) {
            Ok(Longitude(value))
        } else {
            Err(LatLngError::LongitudeOutOfRange)
        }
    }
}

impl TryAdd<i32> for Longitude<i32> {
    type Output = Longitude<i32>;

    type Err = LatLngError;

    fn try_add(self, rhs: i32) -> (r: Result<Longitude<i32>, LatLngError>)
        ensures
            r == (if in_lng_range(self.0 + rhs) {
                Ok::<Longitude<i32>, LatLngError>(Longitude((self.0 + rhs) as i32))
            } else {
                Err(LatLngError::LongitudeOutOfRange)
            }),
    {
        match checked_shift_add(self.0 as i128, rhs as i128, 180) {
            Some(s) => Ok(Longitude(s as i32)),
            None => Err(LatLngError::LongitudeOutOfRange),
        }
    }
}

impl TrySubstract<i32> for Longitude<i32> {
    type Output = Longitude<i32>;

    type Err = LatLngError;

    fn try_substract(self, rhs: i32) -> (r: Result<Longitude<i32>, LatLngError>)
        ensures
            r == (if in_lng_range(self.0 - rhs) {
                Ok::<Longitude<i32>, LatLngError>(Longitude((self.0 - rhs) as i32))
            } else {
                Err(LatLngError::LongitudeOutOfRange)
            }),
    {
        match checked_shift_sub(self.0 as i128, rhs as i128, 180) {
            Some(s) => Ok(Longitude(s as i32)),
            None => Err(LatLngError::LongitudeOutOfRange),
        }
    }
}

impl Longitude<i64> {
    /// Accepts exactly the values of the closed domain [-180, 180].
    pub fn try_from(value: i64) -> (r: Result<Longitude<i64>, LatLngError>)
        ensures
            r == (if in_lng_range(value as int) {
                Ok::<Longitude<i64>, LatLngError>(Longitude(value))
            } else {
                Err(LatLngError::LongitudeOutOfRange)
            }),
    {
        if in_bounds(value as i128, 180) {
            Ok(Longitude(value))
        } else {
            Err(LatLngError::LongitudeOutOfRange)
        }
    }
}

impl TryAdd<i64> for Longitude<i64> {
    type Output = Longitude<i64>;

    type Err = LatLngError;

    fn try_add(self, rhs: i64) -> (r: Result<Longitude<i64>, LatLngError>)
        ensures
            r == (if in_lng_range(self.0 + rhs) {
                Ok::<Longitude<i64>, LatLngError>(Longitude((self.0 + rhs) as i64))
            } else {
                Err(LatLngError::LongitudeOutOfRange)
            }),
    {
        match checked_shift_add(self.0 as i128, rhs as i128, 180) {
            Some(s) => Ok(Longitude(s as i64)),
            None => Err(LatLngError::LongitudeOutOfRange),
        }
    }
}

impl TrySubstract<i64> for Longitude<i64> {
    type Output = Longitude<i64>;

    type Err = LatLngError;

    fn try_substract(self, rhs: i64) -> (r: Result<Longitude<i64>, LatLngError>)
        ensures
            r == (if in_lng_range(self.0 - rhs) {
                Ok::<Longitude<i64>, LatLngError>(Longitude((self.0 - rhs) as i64))
            } else {
                Err(LatLngError::LongitudeOutOfRange)
            }),
    {
        match checked_shift_sub(self.0 as i128, rhs as i128, 180) {
            Some(s) => Ok(Longitude(s as i64)),
            None => Err(LatLngError::LongitudeOutOfRange),
        }
    }
}

impl Longitude<i128> {
    /// Accepts exactly the values of the closed domain [-180, 180].
    pub fn try_from(value: i128) -> (r: Result<Longitude<i128>, LatLngError>)
        ensures
            r == (if in_lng_range(value as int) {
                Ok::<Longitude<i128>, LatLngError>(Longitude(value))
            } else {
                Err(LatLngError::LongitudeOutOfRange)
            }),
    {
        if in_bounds(value as i128, 180) {
            Ok(Longitude(value))
        } else {
            Err(LatLngError::LongitudeOutOfRange)
        }
    }
}

impl TryAdd<i128> for Longitude<i128> {
    type Output = Longitude<i128>;

    type Err = LatLngError;

    fn try_add(self, rhs: i128) -> (r: Result<Longitude<i128>, LatLngError>)
        ensures
            r == (if in_lng_range(self.0 + rhs) {
                Ok::<Longitude<i128>, LatLngError>(Longitude((self.0 + rhs) as i128))
            } else {
                Err(LatLngError::LongitudeOutOfRange)
            }),
    {
        match checked_shift_add(self.0 as i128, rhs as i128, 180) {
            Some(s) => Ok(Longitude(s as i128)),
            None => Err(LatLngError::LongitudeOutOfRange),
        }
    }
}

impl TrySubstract<i128> for Longitude<i128> {
    type Output = Longitude<i128>;

    type Err = LatLngError;

    fn try_substract(self, rhs: i128) -> (r: Result<Longitude<i128>, LatLngError>)
        ensures
            r == (if in_lng_range(self.0 - rhs) {
                Ok::<Longitude<i128>, LatLngError>(Longitude((self.0 - rhs) as i128))
            } else {
                Err(LatLngError::LongitudeOutOfRange)
            }),
    {
        match checked_shift_sub(self.0 as i128, rhs as i128, 180) {
            Some(s) => Ok(Longitude(s as i128)),
            None => Err(LatLngError::LongitudeOutOfRange),
        }
    }
}

impl Longitude<isize> {
    /// Accepts exactly the values of the closed domain [-180, 180].
    pub fn try_from(value: isize) -> (r: Result<Longitude<isize>, LatLngError>)
        ensures
            r == (if in_lng_range(value as int) {
                Ok::<Longitude<isize>, LatLngError>(Longitude(value))
            } else {
                Err(LatLngError::LongitudeOutOfRange)
            }),
    {
        if in_bounds(value as i128, 180) {
            Ok(Longitude(value))
        } else {
            Err(LatLngError::LongitudeOutOfRange)
        }
    }
}

impl TryAdd<isize> for Longitude<isize> {
    type Output = Longitude<isize>;

    type Err = LatLngError;

    fn try_add(self, rhs: isize) -> (r: Result<Longitude<isize>, LatLngError>)
        ensures
            r == (if in_lng_range(self.0 + rhs) {
                Ok::<Longitude<isize>, LatLngError>(Longitude((self.0 + rhs) as isize))
            } else {
                Err(LatLngError::LongitudeOutOfRange)
            }),
    {
        match checked_shift_add(self.0 as i128, rhs as i128, 180) {
            Some(s) => Ok(Longitude(s as isize)),
            None => Err(LatLngError::LongitudeOutOfRange),
        }
    }
}

impl TrySubstract<isize> for Longitude<isize> {
    type Output = Longitude<isize>;

    type Err = LatLngError;

    fn try_substract(self, rhs: isize) -> (r: Result<Longitude<isize>, LatLngError>)
        ensures
            r == (if in_lng_range(self.0 - rhs) {
                Ok::<Longitude<isize>, LatLngError>(Longitude((self.0 - rhs) as isize))
            } else {
                Err(LatLngError::LongitudeOutOfRange)
            }),
    {
        match checked_shift_sub(self.0 as i128, rhs as i128, 180) {
            Some(s) => Ok(Longitude(s as isize)),
            None => Err(LatLngError::LongitudeOutOfRange),
        }
    }
}

impl TryAdd for Latitude<i8> {
    type Output = Latitude<i8>;

    type Err = LatLngError;

    fn try_add(self, rhs: Latitude<i8>) -> (r: Result<Latitude<i8>, LatLngError>)
        ensures
            r == (if in_lat_range(self.0 + rhs.0) {
                Ok::<Latitude<i8>, LatLngError>(Latitude((self.0 + rhs.0) as i8))
            } else {
                Err(LatLngError::LatitudeOutOfRange)
            }),
    {
        self.try_add(rhs.0)
    }
}

impl TrySubstract for Latitude<i8> {
    type Output = Latitude<i8>;

    type Err = LatLngError;

    fn try_substract(self, rhs: Latitude<i8>) -> (r: Result<Latitude<i8>, LatLngError>)
        ensures
            r == (if in_lat_range(self.0 - rhs.0) {
                Ok::<Latitude<i8>, LatLngError>(Latitude((self.0 - rhs.0) as i8))
            } else {
                Err(LatLngError::LatitudeOutOfRange)
            }),
    {
        self.try_substract(rhs.0)
    }
}

impl TryAdd for Latitude<i16> {
    type Output = Latitude<i16>;

    type Err = LatLngError;

    fn try_add(self, rhs: Latitude<i16>) -> (r: Result<Latitude<i16>, LatLngError>)
        ensures
            r == (if in_lat_range(self.0 + rhs.0) {
                Ok::<Latitude<i16>, LatLngError>(Latitude((self.0 + rhs.0) as i16))
            } else {
                Err(LatLngError::LatitudeOutOfRange)
            }),
    {
        self.try_add(rhs.0)
    }
}

impl TrySubstract for Latitude<i16> {
    type Output = Latitude<i16>;

    type Err = LatLngError;

    fn try_substract(self, rhs: Latitude<i16>) -> (r: Result<Latitude<i16>, LatLngError>)
        ensures
            r == (if in_lat_range(self.0 - rhs.0) {
                Ok::<Latitude<i16>, LatLngError>(Latitude((self.0 - rhs.0) as i16))
            } else {
                Err(LatLngError::LatitudeOutOfRange)
            }),
    {
        self.try_substract(rhs.0)
    }
}

impl TryAdd for Latitude<i32> {
    type Output = Latitude<i32>;

    type Err = LatLngError;

    fn try_add(self, rhs: Latitude<i32>) -> (r: Result<Latitude<i32>, LatLngError>)
        ensures
            r == (if in_lat_range(self.0 + rhs.0) {
                Ok::<Latitude<i32>, LatLngError>(Latitude((self.0 + rhs.0) as i32))
            } else {
                Err(LatLngError::LatitudeOutOfRange)
            }),
    {
        self.try_add(rhs.0)
    }
}

impl TrySubstract for Latitude<i32> {
    type Output = Latitude<i32>;

    type Err = LatLngError;

    fn try_substract(self, rhs: Latitude<i32>) -> (r: Result<Latitude<i32>, LatLngError>)
        ensures
            r == (if in_lat_range(self.0 - rhs.0) {
                Ok::<Latitude<i32>, LatLngError>(Latitude((self.0 - rhs.0) as i32))
            } else {
                Err(LatLngError::LatitudeOutOfRange)
            }),
    {
        self.try_substract(rhs.0)
    }
}

impl TryAdd for Latitude<i64> {
    type Output = Latitude<i64>;

    type Err = LatLngError;

    fn try_add(self, rhs: Latitude<i64>) -> (r: Result<Latitude<i64>, LatLngError>)
        ensures
            r == (if in_lat_range(self.0 + rhs.0) {
                Ok::<Latitude<i64>, LatLngError>(Latitude((self.0 + rhs.0) as i64))
            } else {
                Err(LatLngError::LatitudeOutOfRange)
            }),
    {
        self.try_add(rhs.0)
    }
}

impl TrySubstract for Latitude<i64> {
    type Output = Latitude<i64>;

    type Err = LatLngError;

    fn try_substract(self, rhs: Latitude<i64>) -> (r: Result<Latitude<i64>, LatLngError>)
        ensures
            r == (if in_lat_range(self.0 - rhs.0) {
                Ok::<Latitude<i64>, LatLngError>(Latitude((self.0 - rhs.0) as i64))
            } else {
                Err(LatLngError::LatitudeOutOfRange)
            }),
    {
        self.try_substract(rhs.0)
    }
}

impl TryAdd for Latitude<i128> {
    type Output = Latitude<i128>;

    type Err = LatLngError;

    fn try_add(self, rhs: Latitude<i128>) -> (r: Result<Latitude<i128>, LatLngError>)
        ensures
            r == (if in_lat_range(self.0 + rhs.0) {
                Ok::<Latitude<i128>, LatLngError>(Latitude((self.0 + rhs.0) as i128))
            } else {
                Err(LatLngError::LatitudeOutOfRange)
            }),
    {
        self.try_add(rhs.0)
    }
}

impl TrySubstract for Latitude<i128> {
    type Output = Latitude<i128>;

    type Err = LatLngError;

    fn try_substract(self, rhs: Latitude<i128>) -> (r: Result<Latitude<i128>, LatLngError>)
        ensures
            r == (if in_lat_range(self.0 - rhs.0) {
                Ok::<Latitude<i128>, LatLngError>(Latitude((self.0 - rhs.0) as i128))
            } else {
                Err(LatLngError::LatitudeOutOfRange)
            }),
    {
        self.try_substract(rhs.0)
    }
}

impl TryAdd for Latitude<isize> {
    type Output = Latitude<isize>;

    type Err = LatLngError;

    fn try_add(self, rhs: Latitude<isize>) -> (r: Result<Latitude<isize>, LatLngError>)
        ensures
            r == (if in_lat_range(self.0 + rhs.0) {
                Ok::<Latitude<isize>, LatLngError>(Latitude((self.0 + rhs.0) as isize))
            } else {
                Err(LatLngError::LatitudeOutOfRange)
            }),
    {
        self.try_add(rhs.0)
    }
}

impl TrySubstract for Latitude<isize> {
    type Output = Latitude<isize>;

    type Err = LatLngError;

    fn try_substract(self, rhs: Latitude<isize>) -> (r: Result<Latitude<isize>, LatLngError>)
        ensures
            r == (if in_lat_range(self.0 - rhs.0) {
                Ok::<Latitude<isize>, LatLngError>(Latitude((self.0 - rhs.0) as isize))
            } else {
                Err(LatLngError::LatitudeOutOfRange)
            }),
    {
        self.try_substract(rhs.0)
    }
}

impl TryAdd for Longitude<i8> {
    type Output = Longitude<i8>;

    type Err = LatLngError;

    /// A sum inside the domain but outside i8 is an error here too,
    /// never wrapped.
    fn try_add(self, rhs: Longitude<i8>) -> (r: Result<Longitude<i8>, LatLngError>)
        ensures
            r == (if in_lng_range(self.0 + rhs.0) && -128 <= self.0 + rhs.0 <= 127 {
                Ok::<Longitude<i8>, LatLngError>(Longitude((self.0 + rhs.0) as i8))
            } else {
                Err(LatLngError::LongitudeOutOfRange)
            }),
    {
        self.try_add(rhs.0)
    }
}

impl TrySubstract for Longitude<i8> {
    type Output = Longitude<i8>;

    type Err = LatLngError;

    /// A difference inside the domain but outside i8 is an error here too,
    /// never wrapped.
    fn try_substract(self, rhs: Longitude<i8>) -> (r: Result<Longitude<i8>, LatLngError>)
        ensures
            r == (if in_lng_range(self.0 - rhs.0) && -128 <= self.0 - rhs.0 <= 127 {
                Ok::<Longitude<i8>, LatLngError>(Longitude((self.0 - rhs.0) as i8))
            } else {
                Err(LatLngError::LongitudeOutOfRange)
            }),
    {
        self.try_substract(rhs.0)
    }
}

impl TryAdd for Longitude<i16> {
    type Output = Longitude<i16>;

    type Err = LatLngError;

    fn try_add(self, rhs: Longitude<i16>) -> (r: Result<Longitude<i16>, LatLngError>)
        ensures
            r == (if in_lng_range(self.0 + rhs.0) {
                Ok::<Longitude<i16>, LatLngError>(Longitude((self.0 + rhs.0) as i16))
            } else {
                Err(LatLngError::LongitudeOutOfRange)
            }),
    {
        self.try_add(rhs.0)
    }
}

impl TrySubstract for Longitude<i16> {
    type Output = Longitude<i16>;

    type Err = LatLngError;

    fn try_substract(self, rhs: Longitude<i16>) -> (r: Result<Longitude<i16>, LatLngError>)
        ensures
            r == (if in_lng_range(self.0 - rhs.0) {
                Ok::<Longitude<i16>, LatLngError>(Longitude((self.0 - rhs.0) as i16))
            } else {
                Err(LatLngError::LongitudeOutOfRange)
            }),
    {
        self.try_substract(rhs.0)
    }
}

impl TryAdd for Longitude<i32> {
    type Output = Longitude<i32>;

    type Err = LatLngError;

    fn try_add(self, rhs: Longitude<i32>) -> (r: Result<Longitude<i32>, LatLngError>)
        ensures
            r == (if in_lng_range(self.0 + rhs.0) {
                Ok::<Longitude<i32>, LatLngError>(Longitude((self.0 + rhs.0) as i32))
            } else {
                Err(LatLngError::LongitudeOutOfRange)
            }),
    {
        self.try_add(rhs.0)
    }
}

impl TrySubstract for Longitude<i32> {
    type Output = Longitude<i32>;

    type Err = LatLngError;

    fn try_substract(self, rhs: Longitude<i32>) -> (r: Result<Longitude<i32>, LatLngError>)
        ensures
            r == (if in_lng_range(self.0 - rhs.0) {
                Ok::<Longitude<i32>, LatLngError>(Longitude((self.0 - rhs.0) as i32))
            } else {
                Err(LatLngError::LongitudeOutOfRange)
            }),
    {
        self.try_substract(rhs.0)
    }
}

impl TryAdd for Longitude<i64> {
    type Output = Longitude<i64>;

    type Err = LatLngError;

    fn try_add(self, rhs: Longitude<i64>) -> (r: Result<Longitude<i64>, LatLngError>)
        ensures
            r == (if in_lng_range(self.0 + rhs.0) {
                Ok::<Longitude<i64>, LatLngError>(Longitude((self.0 + rhs.0) as i64))
            } else {
                Err(LatLngError::LongitudeOutOfRange)
            }),
    {
        self.try_add(rhs.0)
    }
}

impl TrySubstract for Longitude<i64> {
    type Output = Longitude<i64>;

    type Err = LatLngError;

    fn try_substract(self, rhs: Longitude<i64>) -> (r: Result<Longitude<i64>, LatLngError>)
        ensures
            r == (if in_lng_range(self.0 - rhs.0) {
                Ok::<Longitude<i64>, LatLngError>(Longitude((self.0 - rhs.0) as i64))
            } else {
                Err(LatLngError::LongitudeOutOfRange)
            }),
    {
        self.try_substract(rhs.0)
    }
}

impl TryAdd for Longitude<i128> {
    type Output = Longitude<i128>;

    type Err = LatLngError;

    fn try_add(self, rhs: Longitude<i128>) -> (r: Result<Longitude<i128>, LatLngError>)
        ensures
            r == (if in_lng_range(self.0 + rhs.0) {
                Ok::<Longitude<i128>, LatLngError>(Longitude((self.0 + rhs.0) as i128))
            } else {
                Err(LatLngError::LongitudeOutOfRange)
            }),
    {
        self.try_add(rhs.0)
    }
}

impl TrySubstract for Longitude<i128> {
    type Output = Longitude<i128>;

    type Err = LatLngError;

    fn try_substract(self, rhs: Longitude<i128>) -> (r: Result<Longitude<i128>, LatLngError>)
        ensures
            r == (if in_lng_range(self.0 - rhs.0) {
                Ok::<Longitude<i128>, LatLngError>(Longitude((self.0 - rhs.0) as i128))
            } else {
                Err(LatLngError::LongitudeOutOfRange)
            }),
    {
        self.try_substract(rhs.0)
    }
}

impl TryAdd for Longitude<isize> {
    type Output = Longitude<isize>;

    type Err = LatLngError;

    fn try_add(self, rhs: Longitude<isize>) -> (r: Result<Longitude<isize>, LatLngError>)
        ensures
            r == (if in_lng_range(self.0 + rhs.0) {
                Ok::<Longitude<isize>, LatLngError>(Longitude((self.0 + rhs.0) as isize))
            } else {
                Err(LatLngError::LongitudeOutOfRange)
            }),
    {
        self.try_add(rhs.0)
    }
}

impl TrySubstract for Longitude<isize> {
    type Output = Longitude<isize>;

    type Err = LatLngError;

    fn try_substract(self, rhs: Longitude<isize>) -> (r: Result<Longitude<isize>, LatLngError>)
        ensures
            r == (if in_lng_range(self.0 - rhs.0) {
                Ok::<Longitude<isize>, LatLngError>(Longitude((self.0 - rhs.0) as isize))
            } else {
                Err(LatLngError::LongitudeOutOfRange)
            }),
    {
        self.try_substract(rhs.0)
    }
}

/// Checked addition of two same-kind coordinates is commutative: the exact
/// results that `TryAdd` pins for `a.try_add(b)` and for `b.try_add(a)`
/// are equal, so the two calls succeed or fail together and, when they
/// succeed, produce equal values. The range predicate is shared by every
/// supported width, so the argument is the same at each of them.
pub proof fn lemma_try_add_commutative_latitude(a: Latitude<i64>, b: Latitude<i64>)
    ensures
        (if in_lat_range(a.0 + b.0) {
            Ok::<Latitude<i64>, LatLngError>(Latitude((a.0 + b.0) as i64))
        } else {
            Err(LatLngError::LatitudeOutOfRange)
        }) == (if in_lat_range(b.0 + a.0) {
            Ok::<Latitude<i64>, LatLngError>(Latitude((b.0 + a.0) as i64))
        } else {
            Err(LatLngError::LatitudeOutOfRange)
        }),
{
}

/// Checked addition of two longitudes is commutative, as for latitudes.
pub proof fn lemma_try_add_commutative_longitude(a: Longitude<i64>, b: Longitude<i64>)
    ensures
        (if in_lng_range(a.0 + b.0) {
            Ok::<Longitude<i64>, LatLngError>(Longitude((a.0 + b.0) as i64))
        } else {
            Err(LatLngError::LongitudeOutOfRange)
        }) == (if in_lng_range(b.0 + a.0) {
            Ok::<Longitude<i64>, LatLngError>(Longitude((b.0 + a.0) as i64))
        } else {
            Err(LatLngError::LongitudeOutOfRange)
        }),
{
}

/// Round trip: when `c` is a valid latitude and the shifted value `c.0 + d`
/// stays in the domain, `c.try_add(d)` returns `Ok` of exactly the sum
/// coordinate, and subtracting `d` from that sum succeeds and returns `c`
/// unchanged.
pub proof fn lemma_add_then_substract_latitude(c: Latitude<i64>, d: i64)
    requires
        in_lat_range(c.0 as int),
        in_lat_range(c.0 + d),
    ensures
        ({
            let sum = Latitude((c.0 + d) as i64);
            in_lat_range(sum.0 - d) && Latitude((sum.0 - d) as i64) == c
        }),
{
}

/// Round trip for longitudes, as for latitudes.
pub proof fn lemma_add_then_substract_longitude(c: Longitude<i64>, d: i64)
    requires
        in_lng_range(c.0 as int),
        in_lng_range(c.0 + d),
    ensures
        ({
            let sum = Longitude((c.0 + d) as i64);
            in_lng_range(sum.0 - d) && Longitude((sum.0 - d) as i64) == c
        }),
{
}

} // verus!
