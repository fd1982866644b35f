//! Tests of the property-resolution layer: the support matrix, the typed
//! failures, and the derivation of compound properties.

use skytiles::query::{property_of, run, generate_cgi_data, Ephem, Property, PropTag, Error};
use skytiles::value::{CelObj, Coord, Date, ObjKind, PlanetId, RefFrame, Star, Value, CrdView,
    AngView, PhaseView};

fn sample_coord() -> Coord {
    Coord { ra: 50000000, dec: 1200000 }
}

fn sample_ephem(with_loc: bool) -> Ephem {
    Ephem {
        equ: sample_coord(),
        ecl: Coord { ra: 48000000, dec: -300000 },
        hor: if with_loc {
            Some(Coord { ra: 20000000, dec: 9000000 })
        } else {
            None
        },
        dist: 149,
        mag: -1267,
        angdia: Some(185000),
        phase: Some(43200000),
        riseset: Some((Date { jd_milli: 2451545250 }, Date { jd_milli: 2451545750 })),
        sep: 6480000,
    }
}

fn frame(with_loc: bool) -> RefFrame {
    RefFrame {
        date: Date { jd_milli: 2451545000 },
        latlong: if with_loc { Some((18000000, -27000000)) } else { None },
    }
}

#[test]
fn moon_supported_properties_return_expected_variants() {
    let obj = CelObj::Moon;
    let rf = frame(true);
    let eph = sample_ephem(true);
    assert!(matches!(
        property_of(&obj, &Property::Equatorial, &rf, &eph),
        Ok(Value::Crd(_, CrdView::Equatorial))
    ));
    assert!(matches!(
        property_of(&obj, &Property::Horizontal, &rf, &eph),
        Ok(Value::Crd(_, CrdView::Horizontal(_)))
    ));
    assert!(matches!(
        property_of(&obj, &Property::Ecliptic, &rf, &eph),
        Ok(Value::Crd(_, CrdView::Ecliptic(_)))
    ));
    assert!(matches!(property_of(&obj, &Property::Distance, &rf, &eph), Ok(Value::Dist(149))));
    assert!(matches!(property_of(&obj, &Property::Magnitude, &rf, &eph), Ok(Value::Num(-1267))));
    assert!(matches!(
        property_of(&obj, &Property::PhaseDefault, &rf, &eph),
        Ok(Value::Phase(43200000, PhaseView::Default(_)))
    ));
    assert!(matches!(
        property_of(&obj, &Property::PhaseName, &rf, &eph),
        Ok(Value::Phase(43200000, PhaseView::PhaseName))
    ));
    assert!(matches!(
        property_of(&obj, &Property::PhaseEmoji, &rf, &eph),
        Ok(Value::Phase(43200000, PhaseView::Emoji(_)))
    ));
    assert!(matches!(
        property_of(&obj, &Property::PhaseAngle, &rf, &eph),
        Ok(Value::Phase(43200000, PhaseView::PhaseAngle))
    ));
    assert!(matches!(
        property_of(&obj, &Property::IllumFrac, &rf, &eph),
        Ok(Value::Phase(43200000, PhaseView::Illumfrac))
    ));
    assert!(matches!(
        property_of(&obj, &Property::AngDia, &rf, &eph),
        Ok(Value::Ang(185000, AngView::Dms))
    ));
    assert!(matches!(
        property_of(&obj, &Property::Rise, &rf, &eph),
        Ok(Value::RsTime(Some(_)))
    ));
    assert!(matches!(
        property_of(&obj, &Property::SetTime, &rf, &eph),
        Ok(Value::RsTime(Some(_)))
    ));
    assert!(matches!(
        property_of(&obj, &Property::AngBet(CelObj::Sun), &rf, &eph),
        Ok(Value::Ang(6480000, AngView::Dms))
    ));
}

#[test]
fn unsupported_pairs_return_typed_failures() {
    let rf = frame(false);
    let eph = sample_ephem(false);
    let star = CelObj::Star(Star { loc_j2k: sample_coord(), pi: 100, mag: 145 });
    let raw = CelObj::Crd(sample_coord());
    let sun = CelObj::Sun;

    assert_eq!(
        property_of(&star, &Property::PhaseDefault, &rf, &eph),
        Err(Error::Unsupported(PropTag::PhaseDefault, ObjKind::Star))
    );
    assert_eq!(
        property_of(&sun, &Property::IllumFrac, &rf, &eph),
        Err(Error::Unsupported(PropTag::IllumFrac, ObjKind::Sun))
    );
    assert_eq!(
        property_of(&raw, &Property::PhaseEmoji, &rf, &eph),
        Err(Error::Unsupported(PropTag::PhaseEmoji, ObjKind::Coordinate))
    );
    assert_eq!(
        property_of(&star, &Property::AngDia, &rf, &eph),
        Err(Error::Unsupported(PropTag::AngDia, ObjKind::Star))
    );
    assert_eq!(
        property_of(&raw, &Property::Distance, &rf, &eph),
        Err(Error::Unsupported(PropTag::Distance, ObjKind::Coordinate))
    );
    assert_eq!(
        property_of(&raw, &Property::Magnitude, &rf, &eph),
        Err(Error::Unsupported(PropTag::Magnitude, ObjKind::Coordinate))
    );
    assert_eq!(
        property_of(&raw, &Property::AngDia, &rf, &eph),
        Err(Error::Unsupported(PropTag::AngDia, ObjKind::Coordinate))
    );
}

#[test]
fn support_matrix_is_exhaustive() {
    // With a location present, every supported (object kind, property) pair
    // resolves to a value and every unsupported pair fails with the typed
    // unsupported error naming both.
    let rf = frame(true);
    let eph = sample_ephem(true);
    let objects = [
        (CelObj::Planet(PlanetId::Jupiter), ObjKind::Planet),
        (CelObj::Sun, ObjKind::Sun),
        (CelObj::Moon, ObjKind::Moon),
        (CelObj::Star(Star { loc_j2k: sample_coord(), pi: 100, mag: 145 }), ObjKind::Star),
        (CelObj::Crd(sample_coord()), ObjKind::Coordinate),
    ];
    let properties = [
        (Property::Equatorial, PropTag::Equatorial),
        (Property::Horizontal, PropTag::Horizontal),
        (Property::Ecliptic, PropTag::Ecliptic),
        (Property::Distance, PropTag::Distance),
        (Property::Magnitude, PropTag::Magnitude),
        (Property::PhaseDefault, PropTag::PhaseDefault),
        (Property::PhaseName, PropTag::PhaseName),
        (Property::PhaseEmoji, PropTag::PhaseEmoji),
        (Property::PhaseAngle, PropTag::PhaseAngle),
        (Property::IllumFrac, PropTag::IllumFrac),
        (Property::AngDia, PropTag::AngDia),
        (Property::Rise, PropTag::Rise),
        (Property::SetTime, PropTag::SetTime),
        (Property::AngBet(CelObj::Sun), PropTag::AngBet),
    ];
    for (obj, kind) in objects.iter() {
        for (prop, tag) in properties.iter() {
            let supported = match tag {
                PropTag::Distance | PropTag::Magnitude => *kind != ObjKind::Coordinate,
                PropTag::PhaseDefault | PropTag::PhaseName | PropTag::PhaseEmoji
                | PropTag::PhaseAngle | PropTag::IllumFrac => {
                    matches!(kind, ObjKind::Planet | ObjKind::Moon)
                }
                PropTag::AngDia => matches!(kind, ObjKind::Planet | ObjKind::Sun | ObjKind::Moon),
                _ => true,
            };
            let got = property_of(obj, prop, &rf, &eph);
            if supported {
                assert!(got.is_ok(), "{tag:?} of {kind:?}");
            } else {
                assert_eq!(got, Err(Error::Unsupported(*tag, *kind)), "{tag:?} of {kind:?}");
            }
        }
    }
}

#[test]
fn error_messages_match_their_causes() {
    assert_eq!(
        Error::Unsupported(PropTag::PhaseDefault, ObjKind::Star).message(),
        "Can't get phase of a star"
    );
    assert_eq!(
        Error::Unsupported(PropTag::PhaseName, ObjKind::Coordinate).message(),
        "Can't get phase of a star"
    );
    assert_eq!(
        Error::Unsupported(PropTag::Distance, ObjKind::Coordinate).message(),
        "Can't get that property for a raw coordinate"
    );
    assert_eq!(
        Error::Unsupported(PropTag::AngDia, ObjKind::Star).message(),
        "Angular diameter of star not known"
    );
    assert_eq!(
        Error::MissingObserverLocation(PropTag::Horizontal).message(),
        "Need to specify a lat/long with -l"
    );
}

#[test]
fn missing_location_fails_exactly_without_location() {
    // The three location-dependent properties fail with the missing-location
    // error for every object kind exactly when the frame has no location.
    let objects = [
        CelObj::Moon,
        CelObj::Sun,
        CelObj::Planet(PlanetId::Mars),
        CelObj::Star(Star { loc_j2k: sample_coord(), pi: 100, mag: 145 }),
        CelObj::Crd(sample_coord()),
    ];
    for obj in objects.iter() {
        for (prop, tag) in [
            (Property::Horizontal, PropTag::Horizontal),
            (Property::Rise, PropTag::Rise),
            (Property::SetTime, PropTag::SetTime),
        ] {
            let none = property_of(obj, &prop, &frame(false), &sample_ephem(false));
            assert_eq!(none, Err(Error::MissingObserverLocation(tag)));
            let some = property_of(obj, &prop, &frame(true), &sample_ephem(true));
            assert!(some.is_ok());
        }
    }
}

#[test]
fn raw_coordinate_reports_its_own_position() {
    let c = Coord { ra: 1234500, dec: -678900 };
    let raw = CelObj::Crd(c);
    let got = property_of(&raw, &Property::Equatorial, &frame(false), &sample_ephem(false));
    assert_eq!(got, Ok(Value::Crd(c, CrdView::Equatorial)));
}

#[test]
fn star_distance_comes_from_parallax() {
    // A parallax of one arcsecond (100 centi-arcseconds) puts the star at
    // one parsec: 206265 units, kept in hundredths.
    let star = CelObj::Star(Star { loc_j2k: sample_coord(), pi: 100, mag: 145 });
    let got = property_of(&star, &Property::Distance, &frame(false), &sample_ephem(false));
    assert_eq!(got, Ok(Value::Dist(20626500)));
    let mag = property_of(&star, &Property::Magnitude, &frame(false), &sample_ephem(false));
    assert_eq!(mag, Ok(Value::Num(145)));
}

#[test]
fn hemisphere_follows_latitude_sign() {
    let eph = sample_ephem(true);
    let south = RefFrame {
        date: Date { jd_milli: 2451545000 },
        latlong: Some((-10000000, 0)),
    };
    let north = RefFrame {
        date: Date { jd_milli: 2451545000 },
        latlong: Some((10000000, 0)),
    };
    let no_loc = frame(false);
    assert_eq!(
        property_of(&CelObj::Moon, &Property::PhaseDefault, &south, &eph),
        Ok(Value::Phase(43200000, PhaseView::Default(true)))
    );
    assert_eq!(
        property_of(&CelObj::Moon, &Property::PhaseDefault, &north, &eph),
        Ok(Value::Phase(43200000, PhaseView::Default(false)))
    );
    // Without a location the northern convention is the default.
    assert_eq!(
        property_of(&CelObj::Moon, &Property::PhaseEmoji, &no_loc, &sample_ephem(false)),
        Ok(Value::Phase(43200000, PhaseView::Emoji(false)))
    );
}

#[test]
fn run_returns_values_in_request_order() {
    let obj = CelObj::Moon;
    let props = vec![Property::Distance, Property::Magnitude, Property::Equatorial];
    let ephs = vec![sample_ephem(false), sample_ephem(false), sample_ephem(false)];
    let got = run(&obj, &props, None, Date { jd_milli: 2451545000 }, &ephs).unwrap();
    assert_eq!(got.len(), 3);
    assert!(matches!(got[0], Value::Dist(149)));
    assert!(matches!(got[1], Value::Num(-1267)));
    assert!(matches!(got[2], Value::Crd(_, CrdView::Equatorial)));
}

#[test]
fn run_aborts_on_first_failure() {
    let star = CelObj::Star(Star { loc_j2k: sample_coord(), pi: 100, mag: 145 });
    let props = vec![Property::Equatorial, Property::PhaseDefault, Property::Distance];
    let ephs = vec![sample_ephem(false), sample_ephem(false), sample_ephem(false)];
    let got = run(&star, &props, None, Date { jd_milli: 2451545000 }, &ephs);
    assert_eq!(got, Err(Error::Unsupported(PropTag::PhaseDefault, ObjKind::Star)));
}

#[test]
fn cgi_data_collects_the_report_inputs() {
    let eph = sample_ephem(false);
    let moon = generate_cgi_data(&CelObj::Moon, Date { jd_milli: 2451545000 }, &eph);
    assert_eq!(moon.dist, 149);
    assert_eq!(moon.brightness, -1267);
    assert_eq!(moon.location, eph.equ);
    assert_eq!(moon.angdia, Some(185000));
    assert_eq!(moon.phaseangle, Some(43200000));

    let star = CelObj::Star(Star { loc_j2k: sample_coord(), pi: 100, mag: 145 });
    let sd = generate_cgi_data(&star, Date { jd_milli: 2451545000 }, &eph);
    assert_eq!(sd.dist, 20626500);
    assert_eq!(sd.brightness, 145);
    assert_eq!(sd.angdia, None);
    assert_eq!(sd.phaseangle, None);
}

#[test]
fn property_labels_are_stable() {
    assert_eq!(Property::Equatorial.label(), "Coordinates (RA/De)");
    assert_eq!(Property::Rise.label(), "Rise Time");
    assert_eq!(Property::SetTime.label(), "Set Time");
    assert_eq!(Property::AngBet(CelObj::Sun).label(), "Angle Between Object");
    assert_eq!(Property::IllumFrac.label(), "Illuminated Frac.");
}
