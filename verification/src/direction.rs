//! Compass classification of a coordinate.
//!
//! The mapping is a total function of the wrapped value: the negative half
//! of the domain, the positive half, and everything else (zero as well as
//! any value outside the domain) each get one label. Note the defined
//! asymmetry for longitude: its negative half is labeled East and its
//! positive half West.

use vstd::prelude::*;

use crate::coords::Latitude;
use crate::coords::Longitude;

verus! {

/// A compass label derived from a coordinate's value.
#[derive(Debug, PartialEq, Eq, Structural, Clone, Copy)]
pub enum Direction {
    Notrh,
    East,
    South,
    West,
    Center,
}

/// The compass side a coordinate lies on.
pub trait Side {
    fn get_direction(&self) -> Direction;
}

/// The label of a latitude value: South on [-90, 0), Notrh on (0, 90],
/// Center at zero and for every value outside the domain.
pub open spec fn lat_direction(v: int) -> Direction {
    if -90 <= v && v < 0 {
        Direction::South
    } else if 0 < v && v <= 90 {
        Direction::Notrh
    } else {
        Direction::Center
    }
}

/// The label of a longitude value: East on [-180, 0), West on (0, 180],
/// Center at zero and for every value outside the domain.
pub open spec fn lng_direction(v: int) -> Direction {
    if -180 <= v && v < 0 {
        Direction::East
    } else if 0 < v && v <= 180 {
        Direction::West
    } else {
        Direction::Center
    }
}

/// Shared classifier: one label for each half of [-max, max], Center for
/// zero and for values outside the interval.
pub(crate) fn classify(v: i128, max: i128, negative: Direction, positive: Direction) -> (d:
    Direction)
    requires
        0 < max <= 180,
    ensures
        d == (if -max <= v && v < 0 {
            negative
        } else if 0 < v && v <= max {
            positive
        } else {
            Direction::Center
        }),
{
    if -max <= v && v < 0 {
        negative
    } else if 0 < v && v <= max {
        positive
    } else {
        Direction::Center
    }
}

impl Side for Latitude<i8> {
    fn get_direction(&self) -> (d: Direction)
        ensures
            d == lat_direction(self.0 as int),
    {
        classify(self.0 as i128, 90, Direction::South, Direction::Notrh)
    }
}

impl Side for Latitude<i16> {
    fn get_direction(&self) -> (d: Direction)
        ensures
            d == lat_direction(self.0 as int),
    {
        classify(self.0 as i128, 90, Direction::South, Direction::Notrh)
    }
}

impl Side for Latitude<i32> {
    fn get_direction(&self) -> (d: Direction)
        ensures
            d == lat_direction(self.0 as int),
    {
        classify(self.0 as i128, 90, Direction::South, Direction::Notrh)
    }
}

impl Side for Latitude<i64> {
    fn get_direction(&self) -> (d: Direction)
        ensures
            d == lat_direction(self.0 as int),
    {
        classify(self.0 as i128, 90, Direction::South, Direction::Notrh)
    }
}

impl Side for Latitude<i128> {
    fn get_direction(&self) -> (d: Direction)
        ensures
            d == lat_direction(self.0 as int),
    {
        classify(self.0 as i128, 90, Direction::South, Direction::Notrh)
    }
}

impl Side for Latitude<isize> {
    fn get_direction(&self) -> (d: Direction)
        ensures
            d == lat_direction(self.0 as int),
    {
        classify(self.0 as i128, 90, Direction::South, Direction::Notrh)
    }
}

impl Side for Longitude<i8> {
    fn get_direction(&self) -> (d: Direction)
        ensures
            d == lng_direction(self.0 as int),
    {
        classify(self.0 as i128, 180, Direction::East, Direction::West)
    }
}

impl Side for Longitude<i16> {
    fn get_direction(&self) -> (d: Direction)
        ensures
            d == lng_direction(self.0 as int),
    {
        classify(self.0 as i128, 180, Direction::East, Direction::West)
    }
}

impl Side for Longitude<i32> {
    fn get_direction(&self) -> (d: Direction)
        ensures
            d == lng_direction(self.0 as int),
    {
        classify(self.0 as i128, 180, Direction::East, Direction::West)
    }
}

impl Side for Longitude<i64> {
    fn get_direction(&self) -> (d: Direction)
        ensures
            d == lng_direction(self.0 as int),
    {
        classify(self.0 as i128, 180, Direction::East, Direction::West)
    }
}

impl Side for Longitude<i128> {
    fn get_direction(&self) -> (d: Direction)
        ensures
            d == lng_direction(self.0 as int),
    {
        classify(self.0 as i128, 180, Direction::East, Direction::West)
    }
}

impl Side for Longitude<isize> {
    fn get_direction(&self) -> (d: Direction)
        ensures
            d == lng_direction(self.0 as int),
    {
        classify(self.0 as i128, 180, Direction::East, Direction::West)
    }
}

} // verus!
