//! Property resolution: mapping an (object, property, frame) triple onto a
//! typed value, enforcing which properties are defined for which object
//! kinds, and deriving compound properties from base ones.
//!
//! The astronomical quantities themselves come in as an [`Ephem`] record of
//! oracle answers for the object at the frame's date; resolution itself is a
//! pure function of its inputs.

use vstd::prelude::*;
use vstd::string::StringExecFns;
use crate::value::{CelObj, Coord, Date, ObjKind, RefFrame, Star, Value, CrdView, AngView,
    PhaseView, CAS_TURN};

verus! {

/// A property a query can request of an object. An angle-between request
/// carries the second object.
#[derive(Clone, Copy, Debug, PartialEq, Eq)]
pub enum Property {
    Equatorial,
    Horizontal,
    Ecliptic,
    Distance,
    Magnitude,
    PhaseDefault,
    PhaseName,
    PhaseEmoji,
    PhaseAngle,
    AngDia,
    IllumFrac,
    Rise,
    SetTime,
    AngBet(CelObj),
}

/// A property stripped of any payload, for error reports.
#[derive(Clone, Copy, Debug, PartialEq, Eq)]
pub enum PropTag {
    Equatorial,
    Horizontal,
    Ecliptic,
    Distance,
    Magnitude,
    PhaseDefault,
    PhaseName,
    PhaseEmoji,
    PhaseAngle,
    AngDia,
    IllumFrac,
    Rise,
    SetTime,
    AngBet,
}

impl Property {
    /// The tag of this property.
    pub open spec fn spec_tag(self) -> PropTag {
        match self {
            Property::Equatorial => PropTag::Equatorial,
            Property::Horizontal => PropTag::Horizontal,
            Property::Ecliptic => PropTag::Ecliptic,
            Property::Distance => PropTag::Distance,
            Property::Magnitude => PropTag::Magnitude,
            Property::PhaseDefault => PropTag::PhaseDefault,
            Property::PhaseName => PropTag::PhaseName,
            Property::PhaseEmoji => PropTag::PhaseEmoji,
            Property::PhaseAngle => PropTag::PhaseAngle,
            Property::AngDia => PropTag::AngDia,
            Property::IllumFrac => PropTag::IllumFrac,
            Property::Rise => PropTag::Rise,
            Property::SetTime => PropTag::SetTime,
            Property::AngBet(_) => PropTag::AngBet,
        }
    }

    /// Returns the tag of this property.
    pub fn tag(&self) -> (r: PropTag)
        ensures
            r == self.spec_tag(),
    {
        match self {
            Property::Equatorial => PropTag::Equatorial,
            Property::Horizontal => PropTag::Horizontal,
            Property::Ecliptic => PropTag::Ecliptic,
            Property::Distance => PropTag::Distance,
            Property::Magnitude => PropTag::Magnitude,
            Property::PhaseDefault => PropTag::PhaseDefault,
            Property::PhaseName => PropTag::PhaseName,
            Property::PhaseEmoji => PropTag::PhaseEmoji,
            Property::PhaseAngle => PropTag::PhaseAngle,
            Property::AngDia => PropTag::AngDia,
            Property::IllumFrac => PropTag::IllumFrac,
            Property::Rise => PropTag::Rise,
            Property::SetTime => PropTag::SetTime,
            Property::AngBet(_) => PropTag::AngBet,
        }
    }

    /// The displayed name of the property.
    pub open spec fn spec_label(self) -> Seq<char> {
        match self.spec_tag() {
            PropTag::Equatorial => "Coordinates (RA/De)"@,
            PropTag::Horizontal => "Coordinates (Azi/Alt)"@,
            PropTag::Ecliptic => "Coordinates (Ecliptic)"@,
            PropTag::Distance => "Distance"@,
            PropTag::Magnitude => "Magnitude"@,
            PropTag::PhaseDefault => "Phase"@,
            PropTag::PhaseEmoji => "Phase Emoji"@,
            PropTag::PhaseName => "Phase Name"@,
            PropTag::PhaseAngle => "Phase Angle"@,
            PropTag::IllumFrac => "Illuminated Frac."@,
            PropTag::AngDia => "Angular Diameter"@,
            PropTag::Rise => "Rise Time"@,
            PropTag::SetTime => "Set Time"@,
            PropTag::AngBet => "Angle Between Object"@,
        }
    }

    /// Returns the displayed name of the property.
    pub fn label(&self) -> (r: String)
        ensures
            r@ == self.spec_label(),
    {
        let t: &'static str = match self {
            Property::Equatorial => "Coordinates (RA/De)",
            Property::Horizontal => "Coordinates (Azi/Alt)",
            Property::Ecliptic => "Coordinates (Ecliptic)",
            Property::Distance => "Distance",
            Property::Magnitude => "Magnitude",
            Property::PhaseDefault => "Phase",
            Property::PhaseEmoji => "Phase Emoji",
            Property::PhaseName => "Phase Name",
            Property::PhaseAngle => "Phase Angle",
            Property::IllumFrac => "Illuminated Frac.",
            Property::AngDia => "Angular Diameter",
            Property::Rise => "Rise Time",
            Property::SetTime => "Set Time",
            Property::AngBet(_) => "Angle Between Object",
        };
        String::from_str(t)
    }
}

/// A failure of property resolution.
#[derive(Clone, Copy, Debug, PartialEq, Eq)]
pub enum Error {
    /// The property is not defined for objects of this kind.
    Unsupported(PropTag, ObjKind),
    /// The property needs an observer location and the frame has none.
    MissingObserverLocation(PropTag),
}

/// Whether a tag is one of the phase properties.
pub open spec fn is_phase_tag(t: PropTag) -> bool {
    match t {
        PropTag::PhaseDefault | PropTag::PhaseName | PropTag::PhaseEmoji | PropTag::PhaseAngle
            | PropTag::IllumFrac => true,
        _ => false,
    }
}

/// The message text of a failure.
pub open spec fn error_message(e: Error) -> Seq<char> {
    match e {
        Error::MissingObserverLocation(_) => "Need to specify a lat/long with -l"@,
        Error::Unsupported(t, k) => if is_phase_tag(t) {
            "Can't get phase of a star"@
        } else if k == ObjKind::Coordinate {
            "Can't get that property for a raw coordinate"@
        } else {
            "Angular diameter of star not known"@
        },
    }
}

impl Error {
    /// Returns the message text of this failure.
    pub fn message(&self) -> (r: String)
        ensures
            r@ == error_message(*self),
    {
        match self {
            Error::MissingObserverLocation(_) => String::from_str(
                "Need to specify a lat/long with -l",
            ),
            Error::Unsupported(t, k) => {
                let phase = match t {
                    PropTag::PhaseDefault | PropTag::PhaseName | PropTag::PhaseEmoji
                        | PropTag::PhaseAngle | PropTag::IllumFrac => true,
                    _ => false,
                };
                if phase {
                    String::from_str("Can't get phase of a star")
                } else {
                    match k {
                        ObjKind::Coordinate => String::from_str(
                            "Can't get that property for a raw coordinate",
                        ),
                        _ => String::from_str("Angular diameter of star not known"),
                    }
                }
            },
        }
    }
}

/// The oracle's answers for one object at one date (and location, where one
/// was given): every astronomical quantity resolution may hand back.
#[derive(Clone, Copy, Debug, PartialEq, Eq)]
pub struct Ephem {
    /// Equatorial position at the frame's date (already precessed to it).
    pub equ: Coord,
    /// The same direction converted to ecliptic longitude and latitude.
    pub ecl: Coord,
    /// The same direction converted to azimuth and altitude; present when
    /// the frame has an observer location.
    pub hor: Option<Coord>,
    /// Distance in hundredths of the standard unit.
    pub dist: i64,
    /// Visual magnitude in hundredths.
    pub mag: i64,
    /// Angular diameter in centi-arcseconds; present for the sun, the moon
    /// and planets.
    pub angdia: Option<i64>,
    /// Phase angle in centi-arcseconds, zero at new; present for the moon
    /// and planets.
    pub phase: Option<i64>,
    /// Rise and set instants; meaningful when the frame has a location, and
    /// absent there when the object never crosses the horizon that day.
    pub riseset: Option<(Date, Date)>,
    /// Angular separation to the second object of an angle-between request,
    /// in centi-arcseconds.
    pub sep: i64,
}

impl Ephem {
    /// The record carries what resolution for this object in this frame may
    /// read, and every quantity lies in its documented range.
    pub open spec fn wf_for(self, obj: CelObj, rf: RefFrame) -> bool {
        &&& self.equ.wf()
        &&& self.ecl.wf()
        &&& (obj.spec_kind() == ObjKind::Planet || obj.spec_kind() == ObjKind::Moon
            ==> self.phase is Some)
        &&& (match self.phase {
            Some(p) => 0 <= p < CAS_TURN,
            None => true,
        })
        &&& (obj.spec_kind() == ObjKind::Planet || obj.spec_kind() == ObjKind::Sun
            || obj.spec_kind() == ObjKind::Moon ==> self.angdia is Some)
        &&& (match self.angdia {
            Some(a) => 0 <= a < CAS_TURN,
            None => true,
        })
        &&& (rf.latlong is Some ==> self.hor is Some)
        &&& (match self.hor {
            Some(h) => h.wf(),
            None => true,
        })
        &&& -0x2000000000000 <= self.dist <= 0x2000000000000
        &&& -0x2000000000000 <= self.mag <= 0x2000000000000
        &&& (match self.riseset {
            Some((r, s)) => r.wf() && s.wf(),
            None => true,
        })
        &&& 0 <= self.sep < CAS_TURN
    }
}

/// Which (property, object kind) pairs resolution defines. Coordinates,
/// rise, set and separations are defined for every kind; distance and
/// magnitude for everything but a raw coordinate; phases only for the moon
/// and planets; the angular diameter for the sun, the moon and planets.
pub open spec fn supported(q: Property, k: ObjKind) -> bool {
    match q {
        Property::Equatorial | Property::Horizontal | Property::Ecliptic | Property::Rise
            | Property::SetTime | Property::AngBet(_) => true,
        Property::Distance | Property::Magnitude => k != ObjKind::Coordinate,
        Property::PhaseDefault | Property::PhaseName | Property::PhaseEmoji
            | Property::PhaseAngle | Property::IllumFrac => k == ObjKind::Planet || k
            == ObjKind::Moon,
        Property::AngDia => k == ObjKind::Planet || k == ObjKind::Sun || k == ObjKind::Moon,
    }
}

/// Which properties need an observer location in the frame.
pub open spec fn needs_location(q: Property) -> bool {
    match q {
        Property::Horizontal | Property::Rise | Property::SetTime => true,
        _ => false,
    }
}

/// The equatorial direction resolution reports for an object: a raw
/// coordinate is its own position, everything else has the oracle's.
pub open spec fn equ_of(obj: CelObj, eph: Ephem) -> Coord {
    match obj {
        CelObj::Crd(c) => c,
        _ => eph.equ,
    }
}

/// A star's distance in hundredths of the standard unit, from its annual
/// parallax in centi-arcseconds.
pub open spec fn star_distance(s: Star) -> int {
    2062650000int / (s.pi as int)
}

/// What resolving a property returns, as a function of the object, the
/// property, the frame and the oracle record.
pub open spec fn spec_resolve(obj: CelObj, q: Property, rf: RefFrame, eph: Ephem) -> Result<
    Value,
    Error,
> {
    let k = obj.spec_kind();
    if needs_location(q) && rf.latlong is None {
        Err(Error::MissingObserverLocation(q.spec_tag()))
    } else if !supported(q, k) {
        Err(Error::Unsupported(q.spec_tag(), k))
    } else {
        Ok(
            match q {
                Property::Equatorial => Value::Crd(equ_of(obj, eph), CrdView::Equatorial),
                Property::Horizontal => Value::Crd(
                    equ_of(obj, eph),
                    CrdView::Horizontal(eph.hor->Some_0),
                ),
                Property::Ecliptic => Value::Crd(equ_of(obj, eph), CrdView::Ecliptic(eph.ecl)),
                Property::Rise => Value::RsTime(
                    match eph.riseset {
                        Some((r, _)) => Some(r),
                        None => None,
                    },
                ),
                Property::SetTime => Value::RsTime(
                    match eph.riseset {
                        Some((_, s)) => Some(s),
                        None => None,
                    },
                ),
                Property::AngBet(_) => Value::Ang(eph.sep, AngView::Dms),
                Property::Distance => match obj {
                    CelObj::Star(s) => Value::Dist(star_distance(s) as i64),
                    _ => Value::Dist(eph.dist),
                },
                Property::Magnitude => match obj {
                    CelObj::Star(s) => Value::Num(s.mag),
                    _ => Value::Num(eph.mag),
                },
                Property::PhaseDefault => Value::Phase(
                    eph.phase->Some_0,
                    PhaseView::Default(rf.spec_southern()),
                ),
                Property::PhaseEmoji => Value::Phase(
                    eph.phase->Some_0,
                    PhaseView::Emoji(rf.spec_southern()),
                ),
                Property::PhaseName => Value::Phase(eph.phase->Some_0, PhaseView::PhaseName),
                Property::PhaseAngle => Value::Phase(eph.phase->Some_0, PhaseView::PhaseAngle),
                Property::IllumFrac => Value::Phase(eph.phase->Some_0, PhaseView::Illumfrac),
                Property::AngDia => Value::Ang(eph.angdia->Some_0, AngView::Dms),
            },
        )
    }
}

/// Resolves one property of an object within a frame, given the oracle's
/// answers for that object at the frame's date.
pub fn property_of(obj: &CelObj, q: &Property, rf: &RefFrame, eph: &Ephem) -> (r: Result<
    Value,
    Error,
>)
    requires
        obj.wf(),
        eph.wf_for(*obj, *rf),
    ensures
        r == spec_resolve(*obj, *q, *rf, *eph),
        (r matches Ok(v) ==> v.wf()),
{
    let k = obj.kind();
    let has_loc = rf.latlong.is_some();
    match q {
        Property::Equatorial => Ok(Value::Crd(equ_of_exec(obj, eph), CrdView::Equatorial)),
        Property::Horizontal => {
            if !has_loc {
                return Err(Error::MissingObserverLocation(PropTag::Horizontal));
            }
            match eph.hor {
                Some(h) => Ok(Value::Crd(equ_of_exec(obj, eph), CrdView::Horizontal(h))),
                None => vstd::pervasive::unreached(),
            }
        },
        Property::Ecliptic => Ok(Value::Crd(equ_of_exec(obj, eph), CrdView::Ecliptic(eph.ecl))),
        Property::Rise => {
            if !has_loc {
                return Err(Error::MissingObserverLocation(PropTag::Rise));
            }
            match eph.riseset {
                Some((rr, _)) => Ok(Value::RsTime(Some(rr))),
                None => Ok(Value::RsTime(None)),
            }
        },
        Property::SetTime => {
            if !has_loc {
                return Err(Error::MissingObserverLocation(PropTag::SetTime));
            }
            match eph.riseset {
                Some((_, ss)) => Ok(Value::RsTime(Some(ss))),
                None => Ok(Value::RsTime(None)),
            }
        },
        Property::AngBet(_) => Ok(Value::Ang(eph.sep, AngView::Dms)),
        Property::Distance => match obj {
            CelObj::Star(s) => Ok(Value::Dist(2062650000 / s.pi)),
            CelObj::Crd(_) => Err(Error::Unsupported(PropTag::Distance, k)),
            _ => Ok(Value::Dist(eph.dist)),
        },
        Property::Magnitude => match obj {
            CelObj::Star(s) => Ok(Value::Num(s.mag)),
            CelObj::Crd(_) => Err(Error::Unsupported(PropTag::Magnitude, k)),
            _ => Ok(Value::Num(eph.mag)),
        },
        Property::PhaseDefault => phase_value(obj, rf, eph, PropTag::PhaseDefault),
        Property::PhaseEmoji => phase_value(obj, rf, eph, PropTag::PhaseEmoji),
        Property::PhaseName => phase_value(obj, rf, eph, PropTag::PhaseName),
        Property::PhaseAngle => phase_value(obj, rf, eph, PropTag::PhaseAngle),
        Property::IllumFrac => phase_value(obj, rf, eph, PropTag::IllumFrac),
        Property::AngDia => match obj {
            CelObj::Planet(_) | CelObj::Sun | CelObj::Moon => match eph.angdia {
                Some(a) => Ok(Value::Ang(a, AngView::Dms)),
                None => vstd::pervasive::unreached(),
            },
            _ => Err(Error::Unsupported(PropTag::AngDia, k)),
        },
    }
}

/// The equatorial direction resolution reports for an object.
fn equ_of_exec(obj: &CelObj, eph: &Ephem) -> (r: Coord)
    ensures
        r == equ_of(*obj, *eph),
{
    match obj {
        CelObj::Crd(c) => *c,
        _ => eph.equ,
    }
}

/// Evaluates an ordered list of properties of one object and returns the
/// values in request order. The batch is fail-fast: the first failing
/// property aborts the whole request with its error. `ephs` carries the
/// oracle's answers for each request (they differ only where a request names
/// a second object).
pub fn run(
    object: &CelObj,
    proplist: &Vec<Property>,
    latlong: Option<(i64, i64)>,
    date: Date,
    ephs: &Vec<Ephem>,
) -> (r: Result<Vec<Value>, Error>)
    requires
        object.wf(),
        ephs@.len() == proplist@.len(),
        forall|i: int|
            0 <= i < ephs@.len() ==> ephs@[i].wf_for(*object, RefFrame { date, latlong }),
    ensures
        (match r {
            Ok(vs) => {
                &&& vs@.len() == proplist@.len()
                &&& forall|i: int|
                    0 <= i < vs@.len() ==> spec_resolve(
                        *object,
                        proplist@[i],
                        RefFrame { date, latlong },
                        ephs@[i],
                    ) == Ok::<Value, Error>(vs@[i])
            },
            Err(e) => exists|i: int|
                0 <= i < proplist@.len() && #[trigger] spec_resolve(
                    *object,
                    proplist@[i],
                    RefFrame { date, latlong },
                    ephs@[i],
                ) == Err::<Value, Error>(e) && (forall|j: int|
                    0 <= j < i ==> spec_resolve(
                        *object,
                        proplist@[j],
                        RefFrame { date, latlong },
                        ephs@[j],
                    ) is Ok),
        }),
{
    let rf = RefFrame { date, latlong };
    let mut vs: Vec<Value> = Vec::new();
    let mut i: usize = 0;
    while i < proplist.len()
        invariant
            i <= proplist@.len(),
            ephs@.len() == proplist@.len(),
            object.wf(),
            rf == (RefFrame { date, latlong }),
            forall|k: int| 0 <= k < ephs@.len() ==> ephs@[k].wf_for(*object, rf),
            vs@.len() == i,
            forall|k: int|
                0 <= k < i ==> #[trigger] spec_resolve(*object, proplist@[k], rf, ephs@[k])
                    == Ok::<Value, Error>(vs@[k]),
        decreases proplist@.len() - i,
    {
        match property_of(object, &proplist[i], &rf, &ephs[i]) {
            Ok(v) => vs.push(v),
            Err(e) => {
                return Err(e);
            },
        }
        i = i + 1;
    }
    Ok(vs)
}

/// The data the four-tile report needs for one object and date, resolved
/// with no observer location.
#[derive(Clone, Copy, Debug, PartialEq, Eq)]
pub struct CGIData {
    /// Distance in hundredths of the standard unit.
    pub dist: i64,
    /// Visual magnitude in hundredths.
    pub brightness: i64,
    /// Equatorial position.
    pub location: Coord,
    /// Angular diameter in centi-arcseconds, where the object kind has one.
    pub angdia: Option<i64>,
    /// Phase angle in centi-arcseconds, where the object kind has one.
    pub phaseangle: Option<i64>,
}

/// Resolves everything the four-tile report shows: distance, magnitude,
/// equatorial position, and, where the object kind supports them, angular
/// diameter and phase angle. A raw coordinate supports none of the four
/// panels and is excluded.
pub fn generate_cgi_data(object: &CelObj, date: Date, eph: &Ephem) -> (r: CGIData)
    requires
        object.wf(),
        !(*object matches CelObj::Crd(_)),
        eph.wf_for(*object, RefFrame { date, latlong: None }),
    ensures
        ({
            let rf = RefFrame { date, latlong: None };
            &&& spec_resolve(*object, Property::Distance, rf, *eph) == Ok::<Value, Error>(
                Value::Dist(r.dist),
            )
            &&& spec_resolve(*object, Property::Magnitude, rf, *eph) == Ok::<Value, Error>(
                Value::Num(r.brightness),
            )
            &&& spec_resolve(*object, Property::Equatorial, rf, *eph) == Ok::<Value, Error>(
                Value::Crd(r.location, CrdView::Equatorial),
            )
            &&& (r.angdia is Some <==> supported(Property::AngDia, object.spec_kind()))
            &&& (match r.angdia {
                Some(a) => spec_resolve(*object, Property::AngDia, rf, *eph) == Ok::<Value, Error>(
                    Value::Ang(a, AngView::Dms),
                ),
                None => true,
            })
            &&& (r.phaseangle is Some <==> supported(
                Property::PhaseAngle,
                object.spec_kind(),
            ))
            &&& (match r.phaseangle {
                Some(p) => spec_resolve(*object, Property::PhaseAngle, rf, *eph) == Ok::<
                    Value,
                    Error,
                >(Value::Phase(p, PhaseView::PhaseAngle)),
                None => true,
            })
        }),
{
    let rf = RefFrame { date, latlong: None };
    let dist = match property_of(object, &Property::Distance, &rf, eph) {
        Ok(Value::Dist(d)) => d,
        _ => vstd::pervasive::unreached(),
    };
    let brightness = match property_of(object, &Property::Magnitude, &rf, eph) {
        Ok(Value::Num(n)) => n,
        _ => vstd::pervasive::unreached(),
    };
    let location = match property_of(object, &Property::Equatorial, &rf, eph) {
        Ok(Value::Crd(c, _)) => c,
        _ => vstd::pervasive::unreached(),
    };
    let angdia = match property_of(object, &Property::AngDia, &rf, eph) {
        Ok(Value::Ang(a, _)) => Some(a),
        _ => None,
    };
    let phaseangle = match property_of(object, &Property::PhaseAngle, &rf, eph) {
        Ok(Value::Phase(p, _)) => Some(p),
        _ => None,
    };
    CGIData { dist, brightness, location, angdia, phaseangle }
}

/// The value variant, with its view, that each property is specified to
/// resolve to.
pub open spec fn expected_shape(q: Property, rf: RefFrame, v: Value) -> bool {
    match q {
        Property::Equatorial => v matches Value::Crd(_, CrdView::Equatorial),
        Property::Horizontal => v matches Value::Crd(_, CrdView::Horizontal(_)),
        Property::Ecliptic => v matches Value::Crd(_, CrdView::Ecliptic(_)),
        Property::Distance => v is Dist,
        Property::Magnitude => v is Num,
        Property::PhaseDefault => v matches Value::Phase(_, PhaseView::Default(s)) && s
            == rf.spec_southern(),
        Property::PhaseEmoji => v matches Value::Phase(_, PhaseView::Emoji(s)) && s
            == rf.spec_southern(),
        Property::PhaseName => v matches Value::Phase(_, PhaseView::PhaseName),
        Property::PhaseAngle => v matches Value::Phase(_, PhaseView::PhaseAngle),
        Property::IllumFrac => v matches Value::Phase(_, PhaseView::Illumfrac),
        Property::AngDia => v matches Value::Ang(_, AngView::Dms),
        Property::Rise => v is RsTime,
        Property::SetTime => v is RsTime,
        Property::AngBet(_) => v matches Value::Ang(_, AngView::Dms),
    }
}

/// Law: within a frame that has a location wherever one is needed, every
/// supported (object kind, property) pair resolves to a value of the
/// expected variant, and every unsupported pair fails with the matching
/// typed error naming the property and the kind.
pub proof fn lemma_resolve_support(obj: CelObj, q: Property, rf: RefFrame, eph: Ephem)
    requires
        obj.wf(),
        eph.wf_for(obj, rf),
        needs_location(q) ==> rf.latlong is Some,
    ensures
        supported(q, obj.spec_kind()) ==> (spec_resolve(obj, q, rf, eph) matches Ok(v)
            && expected_shape(q, rf, v)),
        !supported(q, obj.spec_kind()) ==> spec_resolve(obj, q, rf, eph) == Err::<Value, Error>(
            Error::Unsupported(q.spec_tag(), obj.spec_kind()),
        ),
{
}

/// Law: for the horizontal view and the rise and set instants, resolution
/// fails with the missing-location error exactly when the frame has no
/// observer location, whatever the kind of object; with a location those
/// three properties always succeed.
pub proof fn lemma_missing_location(obj: CelObj, q: Property, rf: RefFrame, eph: Ephem)
    requires
        obj.wf(),
        eph.wf_for(obj, rf),
        needs_location(q),
    ensures
        (spec_resolve(obj, q, rf, eph) == Err::<Value, Error>(
            Error::MissingObserverLocation(q.spec_tag()),
        )) <==> rf.latlong is None,
        rf.latlong is Some ==> spec_resolve(obj, q, rf, eph) is Ok,
{
}

/// Law: a property that does not need an observer location never fails for
/// its want; the missing-location error is confined to the three that do.
pub proof fn lemma_no_location_needed(obj: CelObj, q: Property, rf: RefFrame, eph: Ephem)
    requires
        !needs_location(q),
    ensures
        !(spec_resolve(obj, q, rf, eph) matches Err(Error::MissingObserverLocation(_))),
{
}

/// Resolves any of the phase properties: all of them re-tag the phase angle
/// of the object with a different view.
fn phase_value(obj: &CelObj, rf: &RefFrame, eph: &Ephem, t: PropTag) -> (r: Result<Value, Error>)
    requires
        eph.wf_for(*obj, *rf),
        is_phase_tag(t),
    ensures
        (match *obj {
            CelObj::Planet(_) | CelObj::Moon => r matches Ok(v) && v matches Value::Phase(p, view)
                && p == eph.phase->Some_0 && view == (match t {
                PropTag::PhaseDefault => PhaseView::Default(rf.spec_southern()),
                PropTag::PhaseEmoji => PhaseView::Emoji(rf.spec_southern()),
                PropTag::PhaseName => PhaseView::PhaseName,
                PropTag::PhaseAngle => PhaseView::PhaseAngle,
                _ => PhaseView::Illumfrac,
            }),
            _ => r == Err::<Value, Error>(Error::Unsupported(t, obj.spec_kind())),
        }),
{
    match obj {
        CelObj::Planet(_) | CelObj::Moon => {
            let p = match eph.phase {
                Some(p) => p,
                None => vstd::pervasive::unreached(),
            };
            let view = match t {
                PropTag::PhaseDefault => PhaseView::Default(rf.southern()),
                PropTag::PhaseEmoji => PhaseView::Emoji(rf.southern()),
                PropTag::PhaseName => PhaseView::PhaseName,
                PropTag::PhaseAngle => PhaseView::PhaseAngle,
                _ => PhaseView::Illumfrac,
            };
            Ok(Value::Phase(p, view))
        },
        _ => Err(Error::Unsupported(t, obj.kind())),
    }
}

} // verus!
