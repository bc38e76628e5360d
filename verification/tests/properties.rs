use latlng::DistanceUnit;
use latlng::Direction;
use latlng::LatLngError;
use latlng::Latitude;
use latlng::Longitude;
use latlng::Side;
use latlng::TryAdd;
use latlng::TrySubstract;

#[test]
fn construction_accepts_exactly_the_domain() {
    assert_eq!(Latitude::<i64>::try_from(90), Ok(Latitude(90)));
    assert_eq!(Latitude::<i64>::try_from(-90), Ok(Latitude(-90)));
    assert_eq!(Latitude::<i64>::try_from(0), Ok(Latitude(0)));
    assert_eq!(
        Latitude::<i64>::try_from(91),
        Err(LatLngError::LatitudeOutOfRange)
    );
    assert_eq!(
        Latitude::<i64>::try_from(-91),
        Err(LatLngError::LatitudeOutOfRange)
    );

    assert_eq!(Longitude::<i64>::try_from(180), Ok(Longitude(180)));
    assert_eq!(Longitude::<i64>::try_from(-180), Ok(Longitude(-180)));
    assert_eq!(
        Longitude::<i64>::try_from(181),
        Err(LatLngError::LongitudeOutOfRange)
    );
    assert_eq!(
        Longitude::<i64>::try_from(-181),
        Err(LatLngError::LongitudeOutOfRange)
    );
}

#[test]
fn construction_works_at_every_width() {
    assert_eq!(Latitude::<i8>::try_from(90), Ok(Latitude(90)));
    assert_eq!(
        Latitude::<i8>::try_from(91),
        Err(LatLngError::LatitudeOutOfRange)
    );
    // The whole of i8 lies inside the longitude domain.
    assert_eq!(Longitude::<i8>::try_from(127), Ok(Longitude(127)));
    assert_eq!(Longitude::<i8>::try_from(-128), Ok(Longitude(-128)));

    assert_eq!(Latitude::<i16>::try_from(-90), Ok(Latitude(-90)));
    assert_eq!(
        Longitude::<i16>::try_from(-181),
        Err(LatLngError::LongitudeOutOfRange)
    );
    assert_eq!(Latitude::<i32>::try_from(45), Ok(Latitude(45)));
    assert_eq!(Longitude::<isize>::try_from(180), Ok(Longitude(180)));
    assert_eq!(
        Latitude::<isize>::try_from(-1000),
        Err(LatLngError::LatitudeOutOfRange)
    );
    assert_eq!(Latitude::<i128>::try_from(-90), Ok(Latitude(-90)));
    assert_eq!(
        Latitude::<i128>::try_from(i128::MAX),
        Err(LatLngError::LatitudeOutOfRange)
    );
    assert_eq!(
        Longitude::<i128>::try_from(i128::MIN),
        Err(LatLngError::LongitudeOutOfRange)
    );
}

#[test]
fn addition_is_commutative_on_coordinate_pairs() {
    let a = Latitude(30i64);
    let b = Latitude(40i64);
    assert_eq!(a.try_add(b), b.try_add(a));
    assert_eq!(a.try_add(b), Ok(Latitude(70)));

    let c = Latitude(80i64);
    let d = Latitude(80i64);
    assert_eq!(c.try_add(d), d.try_add(c));
    assert_eq!(c.try_add(d), Err(LatLngError::LatitudeOutOfRange));

    let e = Longitude(-100i32);
    let f = Longitude(60i32);
    assert_eq!(e.try_add(f), f.try_add(e));
    assert_eq!(e.try_add(f), Ok(Longitude(-40)));

    let g = Longitude(170i16);
    assert_eq!(g.try_substract(Longitude(20i16)), Ok(Longitude(150)));
}

#[test]
fn add_then_subtract_round_trips() {
    let c = Latitude(10i64);
    let sum = c.try_add(5).unwrap();
    assert_eq!(sum, Latitude(15));
    assert_eq!(sum.try_substract(5), Ok(c));

    let c = Longitude(-180i32);
    let sum = c.try_add(360).unwrap();
    assert_eq!(sum, Longitude(180));
    assert_eq!(sum.try_substract(360), Ok(c));
}

#[test]
fn boundaries_are_exact() {
    assert_eq!(Latitude(90i64).try_add(0), Ok(Latitude(90)));
    assert_eq!(
        Latitude(90i64).try_add(1),
        Err(LatLngError::LatitudeOutOfRange)
    );
    assert_eq!(Longitude(-180i64).try_add(0), Ok(Longitude(-180)));
    assert_eq!(
        Longitude(-180i64).try_substract(1),
        Err(LatLngError::LongitudeOutOfRange)
    );
}

#[test]
fn no_wraparound() {
    assert_eq!(
        Longitude(90i64).try_add(200),
        Err(LatLngError::LongitudeOutOfRange)
    );
    assert_eq!(
        Longitude(-180i64).try_substract(1),
        Err(LatLngError::LongitudeOutOfRange)
    );
}

#[test]
fn narrow_longitude_never_wraps() {
    // The longitude domain is wider than i8 itself: a sum inside the
    // domain that i8 cannot store is an error, never a wrapped value.
    assert_eq!(
        Longitude(100i8).try_add(50i8),
        Err(LatLngError::LongitudeOutOfRange)
    );
    assert_eq!(
        Longitude(-100i8).try_substract(50i8),
        Err(LatLngError::LongitudeOutOfRange)
    );
    assert_eq!(
        Longitude(100i8).try_add(Longitude(50i8)),
        Err(LatLngError::LongitudeOutOfRange)
    );
    assert_eq!(
        Longitude(-100i8).try_substract(Longitude(50i8)),
        Err(LatLngError::LongitudeOutOfRange)
    );
    // Representable results keep working, up to the exact i8 bounds.
    assert_eq!(Longitude(100i8).try_add(27i8), Ok(Longitude(127)));
    assert_eq!(Longitude(-128i8).try_add(0i8), Ok(Longitude(-128)));
    assert_eq!(Longitude(-100i8).try_substract(28i8), Ok(Longitude(-128)));
    // The same sums are fine one width up.
    assert_eq!(Longitude(100i16).try_add(50i16), Ok(Longitude(150)));
}

#[test]
fn arithmetic_is_safe_at_the_extremes_of_i128() {
    assert_eq!(
        Latitude(i128::MAX).try_add(i128::MAX),
        Err(LatLngError::LatitudeOutOfRange)
    );
    assert_eq!(
        Latitude(i128::MIN).try_substract(i128::MAX),
        Err(LatLngError::LatitudeOutOfRange)
    );
    assert_eq!(
        Longitude(i128::MIN).try_add(i128::MIN),
        Err(LatLngError::LongitudeOutOfRange)
    );
    // A huge stored value and a huge opposite delta still meet in-domain.
    assert_eq!(
        Latitude(i128::MAX).try_add(-i128::MAX + 50),
        Ok(Latitude(50))
    );
}

#[test]
fn direction_examples() {
    assert_eq!(Latitude(0i64).get_direction(), Direction::Center);
    assert_eq!(Latitude(-12i64).get_direction(), Direction::South);
    assert_eq!(Latitude(12i64).get_direction(), Direction::Notrh);
    assert_eq!(Longitude(-32i64).get_direction(), Direction::East);
    assert_eq!(Longitude(32i64).get_direction(), Direction::West);
    assert_eq!(Longitude(0i64).get_direction(), Direction::Center);
}

#[test]
fn direction_covers_the_boundaries() {
    assert_eq!(Latitude(-90i8).get_direction(), Direction::South);
    assert_eq!(Latitude(90i8).get_direction(), Direction::Notrh);
    assert_eq!(Longitude(-180i16).get_direction(), Direction::East);
    assert_eq!(Longitude(180i16).get_direction(), Direction::West);
    // Values outside the domain classify as Center, as the total
    // classification defines.
    assert_eq!(Latitude(91i32).get_direction(), Direction::Center);
    assert_eq!(Latitude(-91i32).get_direction(), Direction::Center);
    assert_eq!(Longitude(181i128).get_direction(), Direction::Center);
}

#[test]
fn unit_parsing() {
    assert!(matches!(
        DistanceUnit::from_str("cm"),
        Ok(DistanceUnit::Centimeters)
    ));
    assert!(matches!(
        DistanceUnit::from_str("CM"),
        Ok(DistanceUnit::Centimeters)
    ));
    assert!(matches!(
        DistanceUnit::from_str("Centimeters"),
        Ok(DistanceUnit::Centimeters)
    ));
    assert_eq!(DistanceUnit::from_str("lightyear"), Err("Unknown unit"));
}

#[test]
fn unit_parsing_all_tokens() {
    assert_eq!(DistanceUnit::from_str("m"), Ok(DistanceUnit::Meters));
    assert_eq!(DistanceUnit::from_str("METERS"), Ok(DistanceUnit::Meters));
    assert_eq!(
        DistanceUnit::from_str("MeTeRs"),
        Ok(DistanceUnit::Meters)
    );
    assert_eq!(DistanceUnit::from_str("km"), Ok(DistanceUnit::Kilometers));
    assert_eq!(
        DistanceUnit::from_str("KiLoMeTeRs"),
        Ok(DistanceUnit::Kilometers)
    );
    assert_eq!(DistanceUnit::from_str(""), Err("Unknown unit"));
    assert_eq!(DistanceUnit::from_str("cmm"), Err("Unknown unit"));
    assert_eq!(DistanceUnit::from_str("c m"), Err("Unknown unit"));
}

#[test]
fn rendering() {
    assert_eq!(Latitude(42i64).to_text(), "42\u{b0}");
    assert_eq!(Longitude(-180i32).to_text(), "-180\u{b0}");
    assert_eq!(Latitude(0i8).to_text(), "0\u{b0}");
    assert_eq!(Longitude(12345i64).to_text(), "12345\u{b0}");
    assert_eq!(
        Latitude(i128::MIN).to_text(),
        "-170141183460469231731687303715884105728\u{b0}"
    );

    assert_eq!(Direction::Notrh.to_text(), "N");
    assert_eq!(Direction::East.to_text(), "E");
    assert_eq!(Direction::South.to_text(), "S");
    assert_eq!(Direction::West.to_text(), "W");
    assert_eq!(Direction::Center.to_text(), "");
}

#[test]
fn error_messages() {
    assert_eq!(
        LatLngError::LatitudeOutOfRange.message(),
        "Latitude must be between -90\u{b0} and 90\u{b0}"
    );
    assert_eq!(
        LatLngError::LongitudeOutOfRange.message(),
        "Longitude must be between -180\u{b0} and 180\u{b0}"
    );
}
