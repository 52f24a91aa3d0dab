use google_geocoding::{ConstructionError, Coordinates, DecodeError, Viewport, decode_location};

#[test]
fn construction_keeps_what_was_written() {
    let point = Coordinates::try_new("37.42241", "-122.08561").unwrap();
    assert_eq!(point.latitude(), "37.42241");
    assert_eq!(point.longitude(), "-122.08561");
}

#[test]
fn to_string_is_latitude_comma_longitude() {
    let point = Coordinates::try_new("37.42241", "-122.08561").unwrap();
    assert_eq!(point.to_string(), "37.42241,-122.08561");
}

#[test]
fn numbers_as_floats_print_them() {
    let lat: f64 = 37.42241;
    let lon: f64 = -122.08561;
    let point = Coordinates::try_new(&format!("{}", lat), &format!("{}", lon)).unwrap();
    assert_eq!(point.to_string(), "37.42241,-122.08561");
    let whole = Coordinates::try_new(&format!("{}", 45.0f64), &format!("{}", -0.0f64)).unwrap();
    assert_eq!(whole.to_string(), "45,-0");
}

#[test]
fn the_limits_belong_to_the_range() {
    for lat in ["90", "-90", "90.0", "-90.000", "0", "-0", "0.0", "89.999999999999999999", "007"] {
        assert!(Coordinates::try_new(lat, "0").is_ok(), "{}", lat);
    }
    for lon in ["180", "-180", "180.00", "179.9999", "-179.5", "90.5", "0180", "00.10"] {
        assert!(Coordinates::try_new("0", lon).is_ok(), "{}", lon);
    }
}

#[test]
fn latitude_out_of_range_is_refused() {
    for lat in ["91", "-91", "90.0001", "-90.000000000000000001", "180", "900", "1000",
        "99999999999999999999999999", "0091"]
    {
        assert_eq!(Coordinates::try_new(lat, "0"), Err(ConstructionError::Latitude), "{}", lat);
    }
}

#[test]
fn longitude_out_of_range_is_refused() {
    for lon in ["181", "-181", "180.0000001", "-180.5", "1800", "360",
        "340282366920938463463374607431768211456"]
    {
        assert_eq!(Coordinates::try_new("0", lon), Err(ConstructionError::Longitude), "{}", lon);
    }
}

#[test]
fn what_is_no_number_is_refused() {
    let nan = format!("{}", f64::NAN);
    let inf = format!("{}", f64::INFINITY);
    let neg_inf = format!("{}", f64::NEG_INFINITY);
    for text in [nan.as_str(), inf.as_str(), neg_inf.as_str(), "", "-", ".", "1.", ".5", "-.5",
        "1.2.3", "+1", " 1", "1 ", "1e1", "1,5", "--1", "1-", "12a", "\u{ff11}", "1.\u{665}",
        "\u{2212}1"]
    {
        assert_eq!(Coordinates::try_new(text, "0"), Err(ConstructionError::Latitude), "{:?}", text);
        assert_eq!(Coordinates::try_new("0", text), Err(ConstructionError::Longitude), "{:?}", text);
    }
}

#[test]
fn the_latitude_is_judged_first() {
    assert_eq!(Coordinates::try_new("91", "181"), Err(ConstructionError::Latitude));
    assert_eq!(Coordinates::try_new("x", "y"), Err(ConstructionError::Latitude));
}

#[test]
fn equality_is_by_the_two_numbers() {
    let a = Coordinates::try_new("37.42241", "-122.08561").unwrap();
    let b = Coordinates::try_new("37.42241", "-122.08561").unwrap();
    let c = Coordinates::try_new("37.42241", "-122.08562").unwrap();
    let d = Coordinates::try_new("37.42242", "-122.08561").unwrap();
    assert_eq!(a, b);
    assert_ne!(a, c);
    assert_ne!(a, d);
    assert_eq!(a.clone(), a);
}

#[test]
fn viewport_is_southwest_then_northeast() {
    let viewport = Viewport {
        northeast: Coordinates::try_new("34.236144", "-118.500938").unwrap(),
        southwest: Coordinates::try_new("34.172684", "-118.604794").unwrap(),
    };
    assert_eq!(viewport.to_string(), "34.172684,-118.604794|34.236144,-118.500938");
    assert_eq!(viewport.clone(), viewport);
}

#[test]
fn decode_location_wraps_the_reason() {
    assert_eq!(
        decode_location("37.4224", "-122.0856").unwrap().to_string(),
        "37.4224,-122.0856"
    );
    assert_eq!(
        decode_location("97.4224", "-122.0856"),
        Err(DecodeError::Location(ConstructionError::Latitude))
    );
    assert_eq!(
        decode_location("37.4224", "-222.0856"),
        Err(DecodeError::Location(ConstructionError::Longitude))
    );
}

#[test]
fn every_float_in_range_is_accepted() {
    let mut tenths: i32 = -1800;
    while tenths <= 1800 {
        let lon = f64::from(tenths) / 10.0;
        let lat = lon / 2.0;
        let point = Coordinates::try_new(&lat.to_string(), &lon.to_string());
        assert!(point.is_ok(), "{} {}", lat, lon);
        assert_eq!(point.unwrap().to_string(), format!("{},{}", lat, lon));
        tenths += 7;
    }
    for lat in [f64::MIN_POSITIVE, -f64::MIN_POSITIVE, 1e-7, 89.99999999999999, -90.0] {
        assert!(Coordinates::try_new(&lat.to_string(), "0").is_ok(), "{}", lat);
    }
    for lon in [f64::MIN_POSITIVE, 1e-7, 90.5, 179.99999999999997, -180.0] {
        assert!(Coordinates::try_new("0", &lon.to_string()).is_ok(), "{}", lon);
    }
}

#[test]
fn every_float_out_of_range_is_refused() {
    for lat in [90.00000000000001, 91.0, -91.0, 1e3, 1e21, f64::MAX, f64::MIN] {
        assert_eq!(
            Coordinates::try_new(&lat.to_string(), "0"),
            Err(ConstructionError::Latitude),
            "{}",
            lat
        );
    }
    for lon in [180.00000000000003, 181.0, -181.0, 1e3, 1e21, f64::MAX, f64::MIN] {
        assert_eq!(
            Coordinates::try_new("0", &lon.to_string()),
            Err(ConstructionError::Longitude),
            "{}",
            lon
        );
    }
}

#[test]
fn what_was_accepted_is_accepted_again() {
    for (lat, lon) in [("37.42241", "-122.08561"), ("-90", "180.0"), ("0", "-0"), ("007.50", "00")] {
        let point = Coordinates::try_new(lat, lon).unwrap();
        let again = Coordinates::try_new(point.latitude(), point.longitude()).unwrap();
        assert_eq!(again, point);
        assert_eq!(again.to_string(), format!("{},{}", lat, lon));
    }
}
