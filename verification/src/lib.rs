//! Bounded geographic coordinate values.
//!
//! Latitude and longitude are validated numeric wrappers: a value may only
//! be constructed, or produced by checked addition and subtraction, when it
//! lies inside its kind's closed domain ([-90, 90] for latitude,
//! [-180, 180] for longitude). A coordinate can further be classified into
//! a compass direction and rendered as text. An unrelated distance-unit
//! token parser lives beside them.

pub mod coords;
pub mod direction;
pub mod range;
pub mod text;
pub mod units;

pub use coords::LatLngError;
pub use coords::Latitude;
pub use coords::Longitude;
pub use coords::TryAdd;
pub use coords::TrySubstract;
pub use direction::Direction;
pub use direction::Side;
pub use units::DistanceUnit;
pub use range::in_lat_range;
pub use range::in_lng_range;
