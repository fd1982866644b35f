//! The data model: celestial objects, reference frames, and the typed values
//! that property resolution produces.
//!
//! Angles are fixed-point integers in centi-arcseconds (one unit is a
//! hundredth of an arcsecond; a full turn is 129 600 000). Scalar quantities
//! (distances, magnitudes) are in hundredths of their unit. Instants are
//! julian days in thousandths.

use vstd::prelude::*;

verus! {

/// Centi-arcseconds in a full turn.
pub const CAS_TURN: i64 = 129600000;

/// Centi-arcseconds in a degree.
pub const CAS_DEG: i64 = 360000;

/// Centi-arcseconds in a quarter turn.
pub const CAS_QUARTER: i64 = 32400000;

/// Centi-arcseconds in half a turn.
pub const CAS_HALF: i64 = 64800000;

/// A pair of angles naming a direction on the sky: right ascension and
/// declination, or the analogous pair of another spherical coordinate
/// system (azimuth/altitude, ecliptic longitude/latitude).
#[derive(Clone, Copy, Debug, PartialEq, Eq)]
pub struct Coord {
    /// The angle along the reference circle, in [0, full turn), centi-arcseconds.
    pub ra: i64,
    /// The angle above or below the reference plane, in [-quarter turn,
    /// quarter turn], centi-arcseconds.
    pub dec: i64,
}

impl Coord {
    /// Both members lie in their documented ranges.
    pub open spec fn wf(self) -> bool {
        &&& 0 <= self.ra < CAS_TURN
        &&& -CAS_QUARTER <= self.dec <= CAS_QUARTER
    }
}

/// An instant, as a julian day in thousandths.
#[derive(Clone, Copy, Debug, PartialEq, Eq)]
pub struct Date {
    pub jd_milli: i64,
}

impl Date {
    /// Nonnegative and small enough for clock arithmetic.
    pub open spec fn wf(self) -> bool {
        0 <= self.jd_milli < 0x4000000000000000
    }
}

/// The context of a query: the date, and the observer's geodetic latitude
/// and longitude in centi-arcseconds when one was given.
#[derive(Clone, Copy, Debug, PartialEq, Eq)]
pub struct RefFrame {
    pub date: Date,
    pub latlong: Option<(i64, i64)>,
}

impl RefFrame {
    /// The observer is in the southern hemisphere; without a location the
    /// northern convention is the default. A latitude of exactly zero
    /// counts as southern.
    pub open spec fn spec_southern(self) -> bool {
        match self.latlong {
            Some((lat, _)) => lat <= 0,
            None => false,
        }
    }

    /// Decides the hemisphere convention: southern when a location with
    /// latitude at or below zero was given, northern otherwise.
    pub fn southern(&self) -> (r: bool)
        ensures
            r == self.spec_southern(),
    {
        match self.latlong {
            Some((lat, _)) => lat <= 0,
            None => false,
        }
    }
}

/// The major planets a query can name.
#[derive(Clone, Copy, Debug, PartialEq, Eq)]
pub enum PlanetId {
    Mercury,
    Venus,
    Mars,
    Jupiter,
    Saturn,
    Uranus,
    Neptune,
    Pluto,
}

/// A catalog star: its J2000 equatorial position, parallax and visual
/// magnitude.
#[derive(Clone, Copy, Debug, PartialEq, Eq)]
pub struct Star {
    /// Equatorial position at the J2000 epoch.
    pub loc_j2k: Coord,
    /// Annual parallax in centi-arcseconds; positive for any real star.
    pub pi: i64,
    /// Visual magnitude in hundredths.
    pub mag: i64,
}

/// A celestial object a query is about.
#[derive(Clone, Copy, Debug, PartialEq, Eq)]
pub enum CelObj {
    Planet(PlanetId),
    Sun,
    Moon,
    Star(Star),
    Crd(Coord),
}

/// The kind of a celestial object, used to report which combinations of
/// property and object are unsupported.
#[derive(Clone, Copy, Debug, PartialEq, Eq)]
pub enum ObjKind {
    Planet,
    Sun,
    Moon,
    Star,
    Coordinate,
}

impl CelObj {
    /// The kind of this object.
    pub open spec fn spec_kind(self) -> ObjKind {
        match self {
            CelObj::Planet(_) => ObjKind::Planet,
            CelObj::Sun => ObjKind::Sun,
            CelObj::Moon => ObjKind::Moon,
            CelObj::Star(_) => ObjKind::Star,
            CelObj::Crd(_) => ObjKind::Coordinate,
        }
    }

    /// Returns the kind of this object.
    pub fn kind(&self) -> (r: ObjKind)
        ensures
            r == self.spec_kind(),
    {
        match self {
            CelObj::Planet(_) => ObjKind::Planet,
            CelObj::Sun => ObjKind::Sun,
            CelObj::Moon => ObjKind::Moon,
            CelObj::Star(_) => ObjKind::Star,
            CelObj::Crd(_) => ObjKind::Coordinate,
        }
    }

    /// The object's own data lies in range: a star has a positive parallax
    /// and a bounded magnitude, a raw coordinate is a well-formed direction.
    pub open spec fn wf(self) -> bool {
        match self {
            CelObj::Star(s) => s.loc_j2k.wf() && 0 < s.pi < CAS_TURN && -100000 <= s.mag
                <= 100000,
            CelObj::Crd(c) => c.wf(),
            _ => true,
        }
    }
}

/// How a coordinate value is to be shown. The stored quantity is always the
/// equatorial pair; the horizontal and ecliptic views carry the pair the
/// oracle converted it to, since that conversion is astronomy, not layout.
#[derive(Clone, Copy, Debug, PartialEq, Eq)]
pub enum CrdView {
    Equatorial,
    Horizontal(Coord),
    Ecliptic(Coord),
}

/// How an angle value is to be shown.
#[derive(Clone, Copy, Debug, PartialEq, Eq)]
pub enum AngView {
    /// Degrees, minutes and seconds of arc.
    Dms,
    /// Decimal degrees with two decimal places.
    Degrees,
}

/// How a phase value is to be shown. The boolean of `Default` and `Emoji`
/// selects the southern-hemisphere mirror image.
#[derive(Clone, Copy, Debug, PartialEq, Eq)]
pub enum PhaseView {
    Default(bool),
    Emoji(bool),
    PhaseName,
    PhaseAngle,
    Illumfrac,
}

/// A typed result of property resolution. The view tag of a variant selects
/// a textual rendering only; it never alters the stored quantity.
#[derive(Clone, Copy, Debug, PartialEq, Eq)]
pub enum Value {
    /// An equatorial position together with the view it was requested in.
    Crd(Coord, CrdView),
    /// A distance in hundredths of the domain's standard unit.
    Dist(i64),
    /// A dimensionless scalar (a magnitude) in hundredths.
    Num(i64),
    /// An angle in centi-arcseconds.
    Ang(i64, AngView),
    /// A phase angle in centi-arcseconds, zero at new.
    Phase(i64, PhaseView),
    /// A rise or set instant; absence means the event never occurs for that
    /// date and location.
    RsTime(Option<Date>),
}

impl Value {
    /// Every quantity in the value lies in its documented range.
    pub open spec fn wf(self) -> bool {
        match self {
            Value::Crd(c, v) => c.wf() && match v {
                CrdView::Equatorial => true,
                CrdView::Horizontal(h) => h.wf(),
                CrdView::Ecliptic(e) => e.wf(),
            },
            Value::Dist(d) => -0x2000000000000 <= d <= 0x2000000000000,
            Value::Num(n) => -0x2000000000000 <= n <= 0x2000000000000,
            Value::Ang(a, _) => 0 <= a < CAS_TURN,
            Value::Phase(p, _) => 0 <= p < CAS_TURN,
            Value::RsTime(t) => match t {
                Some(d) => d.wf(),
                None => true,
            },
        }
    }
}

} // verus!
