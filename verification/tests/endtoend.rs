//! End-to-end: the astronomy oracle computes the moon's quantities at a
//! fixed julian day, the library resolves and renders them.

use pracstro::{coord, moon, time};
use skytiles::query::{property_of, Ephem, Property};
use skytiles::render::render_value;
use skytiles::tile::location::location_tile;
use skytiles::value::{CelObj, Coord, Date, RefFrame, Value, CrdView, PhaseView};

const J2000: f64 = 2451545.0;

/// An angle in [0, 360) degrees as centi-arcseconds.
fn cas(a: time::Angle) -> i64 {
    let v = (a.degrees() * 360000.0).round() as i64;
    v.rem_euclid(129600000)
}

/// A latitude-style angle as signed centi-arcseconds.
fn cas_lat(a: time::Angle) -> i64 {
    (a.to_latitude().degrees() * 360000.0).round() as i64
}

fn moon_date() -> time::Date {
    time::Date::from_julian(J2000)
}

/// The oracle's answers for the moon at the fixed date, no location.
fn moon_ephem() -> Ephem {
    let date = moon_date();
    let equ_raw = moon::MOON
        .location(date)
        .precess(time::Date::from_julian(J2000), date);
    let (ra, dec) = equ_raw.equatorial();
    let (lon, lat) = equ_raw.ecliptic(date);
    Ephem {
        equ: Coord { ra: cas(ra), dec: cas_lat(dec) },
        ecl: Coord { ra: cas(lon), dec: cas_lat(lat) },
        hor: None,
        dist: (moon::MOON.distance(date) * 100.0).round() as i64,
        mag: (moon::MOON.magnitude(date) * 100.0).round() as i64,
        angdia: Some(cas(moon::MOON.angdia(date))),
        phase: Some(cas(moon::MOON.phaseangle(date))),
        riseset: None,
        sep: 0,
    }
}

fn frame() -> RefFrame {
    RefFrame { date: Date { jd_milli: 2451545000 }, latlong: None }
}

#[test]
fn moon_magnitude_renders_to_two_decimal_places() {
    let eph = moon_ephem();
    let v = property_of(&CelObj::Moon, &Property::Magnitude, &frame(), &eph).unwrap();
    let text = render_value(&v);
    let (_, decimals) = text.split_once('.').expect("a decimal point");
    assert_eq!(decimals.len(), 2);
    let parsed: f64 = text.parse().unwrap();
    let oracle = moon::MOON.magnitude(moon_date());
    assert!((parsed - oracle).abs() < 0.006, "{parsed} vs {oracle}");
}

#[test]
fn moon_phase_name_is_consistent_with_the_oracle_angle() {
    let eph = moon_ephem();
    let v = property_of(&CelObj::Moon, &Property::PhaseName, &frame(), &eph).unwrap();
    let name = render_value(&v);
    // Derive the expected name from the oracle's angle in degrees, by the
    // eight bands of forty-five degrees centered on the cardinal angles.
    let deg = moon::MOON.phaseangle(moon_date()).degrees();
    let expected = if deg < 22.5 {
        "New Moon"
    } else if deg < 67.5 {
        "Waxing Crescent"
    } else if deg < 112.5 {
        "First Quarter"
    } else if deg < 157.5 {
        "Waxing Gibbous"
    } else if deg < 202.5 {
        "Full Moon"
    } else if deg < 247.5 {
        "Waning Gibbous"
    } else if deg < 292.5 {
        "Last Quarter"
    } else if deg < 337.5 {
        "Waning Crescent"
    } else {
        "New Moon"
    };
    assert_eq!(name, expected);
}

#[test]
fn equatorial_and_ecliptic_views_share_one_position() {
    let eph = moon_ephem();
    let equ = property_of(&CelObj::Moon, &Property::Equatorial, &frame(), &eph).unwrap();
    let ecl = property_of(&CelObj::Moon, &Property::Ecliptic, &frame(), &eph).unwrap();
    let (stored_equ, stored_ecl) = match (equ, ecl) {
        (Value::Crd(a, CrdView::Equatorial), Value::Crd(b, CrdView::Ecliptic(e))) => {
            assert_eq!(a, b, "both views carry the same stored position");
            (a, e)
        },
        other => panic!("unexpected shapes: {other:?}"),
    };
    // The ecliptic pair converts back to the equatorial pair through the
    // oracle's own rotation, to within the fixed-point resolution.
    let date = moon_date();
    let back = coord::Coord::from_ecliptic(
        time::Angle::from_degrees(stored_ecl.ra as f64 / 360000.0),
        time::Angle::from_degrees(stored_ecl.dec as f64 / 360000.0),
        date,
    );
    let (ra, dec) = back.equatorial();
    assert!((cas(ra) - stored_equ.ra).abs() < 100, "right ascension round trip");
    assert!((cas_lat(dec) - stored_equ.dec).abs() < 100, "declination round trip");
}

#[test]
fn constellation_lookup_is_a_single_fixed_name() {
    let date = moon_date();
    let equ_raw = moon::MOON
        .location(date)
        .precess(time::Date::from_julian(J2000), date);
    let epoch_1875 = time::Date::from_calendar(1875, 0, 0, time::Angle::default());
    let coords_1875 = equ_raw.precess(date, epoch_1875).equatorial();
    let lookup = || {
        iau_constellations::CONSTELLATION_NAMES[iau_constellations::constell_1875(
            coords_1875.0.degrees(),
            coords_1875.1.to_latitude().degrees(),
        )]
    };
    let name = lookup();
    // The lookup names exactly one constellation, deterministically.
    assert_eq!(name, lookup());
    assert!(!name.is_empty());
    // The location tile shows it on its constellation row.
    let eph = moon_ephem();
    let row = location_tile(&eph.equ, &eph.ecl, &String::from(name), 3);
    assert!(row[1].content.contains(name));
}
