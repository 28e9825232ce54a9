use earth_globe::errors::CoordError;
use earth_globe::geodesy::{map_latitude, map_longitude, Coordinates, LAT_LIMIT, LON_LIMIT, MICRODEG, UV_DENOM};

fn uv(numerator: i64) -> f64 {
    numerator as f64 / UV_DENOM as f64
}

#[test]
fn test_latitude_mapping() {
    let north_pole = 90 * MICRODEG;
    let south_pole = -90 * MICRODEG;
    let equator = 0;

    assert_eq!(uv(map_latitude(north_pole).unwrap()), 0.0);
    assert_eq!(uv(map_latitude(south_pole).unwrap()), 1.0);
    assert_eq!(uv(map_latitude(equator).unwrap()), 0.5);
}

#[test]
fn test_longitude_mapping() {
    let west = -180 * MICRODEG;
    let east = 180 * MICRODEG;
    let meridian = 0;
    assert_eq!(uv(map_longitude(west).unwrap()), 0.0);
    assert_eq!(uv(map_longitude(east).unwrap()), 1.0);
    assert_eq!(uv(map_longitude(meridian).unwrap()), 0.5);
}

#[test]
fn test_latlon_to_uv_mapping() {
    let cords = Coordinates::from_degrees(90 * MICRODEG, 180 * MICRODEG).unwrap();
    let (u, v) = cords.convert_to_uv_mercator();
    assert_eq!(uv(v), 0.0);
    assert_eq!(uv(u), 1.0);
}

#[test]
fn from_degrees_rejects_out_of_range_latitude() {
    let result = Coordinates::from_degrees(91 * MICRODEG, 0);
    assert!(result.is_err());
}

#[test]
fn from_degrees_rejects_out_of_range_longitude() {
    let result = Coordinates::from_degrees(0, 181 * MICRODEG);
    assert!(result.is_err());
}

#[test]
fn from_degrees_accepts_boundaries() {
    assert!(Coordinates::from_degrees(90 * MICRODEG, 180 * MICRODEG).is_ok());
    assert!(Coordinates::from_degrees(-90 * MICRODEG, -180 * MICRODEG).is_ok());
    assert!(Coordinates::from_degrees(0, 0).is_ok());
}

#[test]
fn as_degrees_round_trips_the_stored_angles() {
    let lat = 43_351_851; // 43.351851 degrees in microdegrees
    let lon = 42_436_877;
    let coords = Coordinates::from_degrees(lat, lon).unwrap();
    assert_eq!(coords.as_degrees(), (lat, lon));
}

#[test]
fn map_latitude_rejects_out_of_range_input() {
    assert!(map_latitude(LAT_LIMIT + 1).is_err());
    assert!(map_latitude(-LAT_LIMIT - 1).is_err());
}

#[test]
fn map_longitude_rejects_out_of_range_input() {
    assert!(map_longitude(LON_LIMIT + 1).is_err());
    assert!(map_longitude(-LON_LIMIT - 1).is_err());
}

#[test]
fn uv_map_is_exact_off_the_boundaries() {
    // 45 degrees north maps a quarter of the way down the texture.
    assert_eq!(uv(map_latitude(45 * MICRODEG).unwrap()), 0.25);
    // 90 degrees east maps three quarters of the way across.
    assert_eq!(uv(map_longitude(90 * MICRODEG).unwrap()), 0.75);
}

#[test]
fn coord_error_carries_a_message() {
    let err: CoordError = Coordinates::from_degrees(91 * MICRODEG, 0).unwrap_err();
    assert!(!err.message().is_empty());
}
