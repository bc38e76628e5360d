use latlng::Direction;
use latlng::LatLngError;
use latlng::Latitude;
use latlng::Longitude;
use latlng::Side;
use latlng::TryAdd;
use latlng::TrySubstract;

#[test]
fn test_try_add() {
    assert_eq!(Longitude(20i64).try_add(-30), Ok(Longitude(-10)));
    assert_eq!(Longitude(-180i64).try_add(0), Ok(Longitude(-180)));
    assert_eq!(Longitude(-180i32).try_add(0), Ok(Longitude(-180)));

    assert_eq!(
        Longitude(-180i64).try_add(-1),
        Err(LatLngError::LongitudeOutOfRange)
    );

    assert_eq!(
        Longitude(90i64).try_add(200),
        Err(LatLngError::LongitudeOutOfRange)
    );

    assert_eq!(Latitude(10i32).try_add(20), Ok(Latitude(30)));
}

#[test]
fn test_try_subtract() {
    assert_eq!(Latitude(90i64).try_substract(50), Ok(Latitude(40)));

    assert_eq!(
        Latitude(-89i64).try_substract(12),
        Err(LatLngError::LatitudeOutOfRange)
    );

    assert_eq!(Latitude(-50i32).try_substract(-50), Ok(Latitude(0)));

    assert_eq!(
        Latitude(-50i32).try_substract(-200),
        Err(LatLngError::LatitudeOutOfRange)
    );
}

#[test]
fn test_direction() {
    assert_eq!(Latitude(0i32).get_direction(), Direction::Center);
    assert_eq!(Latitude(-12i64).get_direction(), Direction::South);
    assert_eq!(Latitude(12i64).get_direction(), Direction::Notrh);
    assert_eq!(Longitude(-32i64).get_direction(), Direction::East);
    assert_eq!(Longitude(32i64).get_direction(), Direction::West);
}
