//! Textual rendering of typed values. Every view of a value is computed from
//! the stored quantity alone; rendering never alters it.

use vstd::prelude::*;
use vstd::string::StringExecFns;
use vstd::arithmetic::div_mod::lemma_multiply_divide_lt;
use vstd::arithmetic::div_mod::lemma_div_is_ordered;
use crate::strfmt::{
    dec_digits,
    centi_digits,
    two_digits,
    digit_char,
    lemma_dec_digits_len,
    pow10,
    u64_to_string,
    centi_to_string,
    two_digit_string,
};
use crate::trig::{cos_milli, cos_milli_spec, lemma_cos_milli_range};
use crate::value::{Value, Coord, CrdView, AngView, PhaseView, CAS_TURN, CAS_DEG};

verus! {

/// An angle of right ascension as hours, minutes and seconds of time,
/// two digits each.
pub open spec fn hms_digits(a: int) -> Seq<char> {
    let ts = a / 1500;
    two_digits(ts / 3600) + seq!['h'] + two_digits(ts % 3600 / 60) + seq!['m'] + two_digits(
        ts % 60,
    ) + seq!['s']
}

/// A nonnegative angle as degrees, minutes and seconds of arc; minutes and
/// seconds take two digits each, remaining hundredths of an arcsecond are
/// dropped.
pub open spec fn dms_digits(a: int) -> Seq<char> {
    dec_digits((a / 360000) as nat) + seq!['\u{b0}'] + two_digits(a % 360000 / 6000) + seq![
        '\'',
    ] + two_digits(a % 6000 / 100) + seq!['"']
}

/// A signed angle as an explicit sign followed by degrees, minutes and
/// seconds of arc.
pub open spec fn lat_dms_digits(a: int) -> Seq<char> {
    (if a < 0 {
        seq!['-']
    } else {
        seq!['+']
    }) + dms_digits(
        if a < 0 {
            -a
        } else {
            a
        },
    )
}

/// Renders right ascension as hours, minutes and seconds of time.
pub fn render_hms(a: i64) -> (r: String)
    requires
        0 <= a < CAS_TURN,
    ensures
        r@ == hms_digits(a as int),
        r@.len() == 9,
{
    let ts = a / 1500;
    proof {
        lemma_multiply_divide_lt(a as int, 1500, 86400);
        lemma_multiply_divide_lt(ts as int, 3600, 24);
    }
    let mut s = two_digit_string((ts / 3600) as u64);
    s.append("h");
    s.append(two_digit_string((ts % 3600 / 60) as u64).as_str());
    s.append("m");
    s.append(two_digit_string((ts % 60) as u64).as_str());
    s.append("s");
    proof {
        reveal_strlit("h");
        reveal_strlit("m");
        reveal_strlit("s");
        assert(s@ =~= hms_digits(a as int));
    }
    s
}

/// Renders a nonnegative angle as degrees, minutes and seconds of arc.
pub fn render_dms(a: i64) -> (r: String)
    requires
        0 <= a < CAS_TURN,
    ensures
        r@ == dms_digits(a as int),
        8 <= r@.len() <= 10,
{
    proof {
        lemma_multiply_divide_lt(a as int, CAS_DEG as int, 360);
        crate::strfmt::lemma_pow10_vals();
        lemma_dec_digits_len((a / CAS_DEG) as nat, 3);
        lemma_multiply_divide_lt(a as int % (CAS_DEG as int), 6000, 60);
        lemma_multiply_divide_lt(a as int % 6000, 100, 60);
    }
    let mut s = u64_to_string((a / CAS_DEG) as u64);
    s.append("\u{b0}");
    s.append(two_digit_string((a % CAS_DEG / 6000) as u64).as_str());
    s.append("'");
    s.append(two_digit_string((a % 6000 / 100) as u64).as_str());
    s.append("\"");
    proof {
        reveal_strlit("\u{b0}");
        reveal_strlit("'");
        reveal_strlit("\"");
        assert(s@ =~= dms_digits(a as int));
    }
    s
}

/// Renders a signed angle as a sign and degrees, minutes and seconds of arc.
pub fn render_lat_dms(a: i64) -> (r: String)
    requires
        -CAS_TURN < a < CAS_TURN,
    ensures
        r@ == lat_dms_digits(a as int),
        9 <= r@.len() <= 11,
{
    let mut s = if a < 0 {
        let t = String::from_str("-");
        proof {
            reveal_strlit("-");
            assert(t@ =~= seq!['-']);
        }
        t
    } else {
        let t = String::from_str("+");
        proof {
            reveal_strlit("+");
            assert(t@ =~= seq!['+']);
        }
        t
    };
    let m = if a < 0 {
        -a
    } else {
        a
    };
    s.append(render_dms(m).as_str());
    proof {
        assert(s@ =~= lat_dms_digits(a as int));
    }
    s
}

/// The textual phase description for a phase angle in centi-arcseconds,
/// zero at new: eight named phases in bands of an eighth of a turn centered
/// on the cardinal angles.
pub open spec fn phase_name_of(p: int) -> Seq<char> {
    if p < 8100000 {
        "New Moon"@
    } else if p < 24300000 {
        "Waxing Crescent"@
    } else if p < 40500000 {
        "First Quarter"@
    } else if p < 56700000 {
        "Waxing Gibbous"@
    } else if p < 72900000 {
        "Full Moon"@
    } else if p < 89100000 {
        "Waning Gibbous"@
    } else if p < 105300000 {
        "Last Quarter"@
    } else if p < 121500000 {
        "Waning Crescent"@
    } else {
        "New Moon"@
    }
}

/// Renders the phase name for a phase angle.
pub fn render_phase_name(p: i64) -> (r: &'static str)
    requires
        0 <= p < CAS_TURN,
    ensures
        r@ == phase_name_of(p as int),
        8 <= r@.len() <= 15,
{
    proof {
        reveal_strlit("New Moon");
        reveal_strlit("Waxing Crescent");
        reveal_strlit("First Quarter");
        reveal_strlit("Waxing Gibbous");
        reveal_strlit("Full Moon");
        reveal_strlit("Waning Gibbous");
        reveal_strlit("Last Quarter");
        reveal_strlit("Waning Crescent");
    }
    if p < 8100000 {
        "New Moon"
    } else if p < 24300000 {
        "Waxing Crescent"
    } else if p < 40500000 {
        "First Quarter"
    } else if p < 56700000 {
        "Waxing Gibbous"
    } else if p < 72900000 {
        "Full Moon"
    } else if p < 89100000 {
        "Waning Gibbous"
    } else if p < 105300000 {
        "Last Quarter"
    } else if p < 121500000 {
        "Waning Crescent"
    } else {
        "New Moon"
    }
}

/// The northern-hemisphere moon emoji for a phase angle, zero at new.
pub open spec fn phase_emoji_north(p: int) -> Seq<char> {
    if p < 8100000 {
        "\u{1f311}"@
    } else if p < 24300000 {
        "\u{1f312}"@
    } else if p < 40500000 {
        "\u{1f313}"@
    } else if p < 56700000 {
        "\u{1f314}"@
    } else if p < 72900000 {
        "\u{1f315}"@
    } else if p < 89100000 {
        "\u{1f316}"@
    } else if p < 105300000 {
        "\u{1f317}"@
    } else if p < 121500000 {
        "\u{1f318}"@
    } else {
        "\u{1f311}"@
    }
}

/// The hemisphere-correct moon emoji: a southern observer sees the mirror
/// image, which is the emoji of the complementary angle.
pub open spec fn phase_emoji_of(p: int, southern: bool) -> Seq<char> {
    if southern {
        phase_emoji_north(if p == 0 {
            0
        } else {
            CAS_TURN - p
        })
    } else {
        phase_emoji_north(p)
    }
}

/// Renders the hemisphere-correct moon emoji for a phase angle.
pub fn render_phase_emoji(p: i64, southern: bool) -> (r: &'static str)
    requires
        0 <= p < CAS_TURN,
    ensures
        r@ == phase_emoji_of(p as int, southern),
        r@.len() == 1,
{
    proof {
        reveal_strlit("\u{1f311}");
        reveal_strlit("\u{1f312}");
        reveal_strlit("\u{1f313}");
        reveal_strlit("\u{1f314}");
        reveal_strlit("\u{1f315}");
        reveal_strlit("\u{1f316}");
        reveal_strlit("\u{1f317}");
        reveal_strlit("\u{1f318}");
    }
    let q = if southern {
        if p == 0 {
            0
        } else {
            CAS_TURN - p
        }
    } else {
        p
    };
    if q < 8100000 {
        "\u{1f311}"
    } else if q < 24300000 {
        "\u{1f312}"
    } else if q < 40500000 {
        "\u{1f313}"
    } else if q < 56700000 {
        "\u{1f314}"
    } else if q < 72900000 {
        "\u{1f315}"
    } else if q < 89100000 {
        "\u{1f316}"
    } else if q < 105300000 {
        "\u{1f317}"
    } else if q < 121500000 {
        "\u{1f318}"
    } else {
        "\u{1f311}"
    }
}

/// The angle in whole degrees nearest a phase angle in centi-arcseconds.
pub open spec fn nearest_degree(p: int) -> int {
    (p + 180000) / 360000
}

/// The illuminated fraction of the disk, as a whole percentage, from the
/// phase angle: zero at new, one hundred at full.
pub open spec fn illum_percent_of(p: int) -> int {
    (1000 - cos_milli_spec(nearest_degree(p))) / 20
}

/// Computes the illuminated percentage for a phase angle.
pub fn illum_percent(p: i64) -> (r: i64)
    requires
        0 <= p < CAS_TURN,
    ensures
        r == illum_percent_of(p as int),
        0 <= r <= 100,
{
    proof {
        lemma_multiply_divide_lt(p as int + 180000, 360000, 361);
        lemma_cos_milli_range(nearest_degree(p as int));
    }
    let deg = ((p + 180000) / 360000) as u64;
    let c = cos_milli(deg);
    proof {
        lemma_div_is_ordered(1000 - c as int, 2000, 20);
    }
    (1000 - c) / 20
}

/// A clock reading, hours and minutes, from the fractional part of a julian
/// day in thousandths; the julian fraction of one half is midnight.
pub open spec fn clock_digits(jd_milli: int) -> Seq<char> {
    let x = (jd_milli % 1000 + 500) % 1000;
    let md = x * 1440 / 1000;
    two_digits(md / 60) + seq![':'] + two_digits(md % 60)
}

/// Renders the clock reading of an instant.
pub fn render_clock(jd_milli: i64) -> (r: String)
    requires
        0 <= jd_milli < 0x4000000000000000,
    ensures
        r@ == clock_digits(jd_milli as int),
        r@.len() == 5,
{
    let x = (jd_milli % 1000 + 500) % 1000;
    let md = x * 1440 / 1000;
    proof {
        lemma_multiply_divide_lt(x as int * 1440, 1000, 1440);
        lemma_multiply_divide_lt(md as int, 60, 24);
    }
    let mut s = two_digit_string((md / 60) as u64);
    s.append(":");
    s.append(two_digit_string((md % 60) as u64).as_str());
    proof {
        reveal_strlit(":");
        assert(s@ =~= clock_digits(jd_milli as int));
    }
    s
}

/// The full textual rendering of a typed value under its view tag.
pub open spec fn value_digits(v: Value) -> Seq<char> {
    match v {
        Value::Crd(c, CrdView::Equatorial) => hms_digits(c.ra as int) + seq![' '] + lat_dms_digits(
            c.dec as int,
        ),
        Value::Crd(_, CrdView::Horizontal(h)) => "Azi "@ + dms_digits(h.ra as int) + " Alt "@
            + lat_dms_digits(h.dec as int),
        Value::Crd(_, CrdView::Ecliptic(e)) => "Lon "@ + dms_digits(e.ra as int) + " Lat "@
            + lat_dms_digits(e.dec as int),
        Value::Dist(d) => centi_digits(d as int),
        Value::Num(n) => centi_digits(n as int),
        Value::Ang(a, AngView::Dms) => dms_digits(a as int),
        Value::Ang(a, AngView::Degrees) => centi_digits(a as int / 3600) + seq!['\u{b0}'],
        Value::Phase(p, PhaseView::Default(s)) => phase_name_of(p as int) + seq![' ']
            + phase_emoji_of(p as int, s),
        Value::Phase(p, PhaseView::Emoji(s)) => phase_emoji_of(p as int, s),
        Value::Phase(p, PhaseView::PhaseName) => phase_name_of(p as int),
        Value::Phase(p, PhaseView::PhaseAngle) => centi_digits(p as int / 3600) + seq!['\u{b0}'],
        Value::Phase(p, PhaseView::Illumfrac) => dec_digits(illum_percent_of(p as int) as nat)
            + seq!['%'],
        Value::RsTime(Some(d)) => clock_digits(d.jd_milli as int),
        Value::RsTime(None) => "Never"@,
    }
}

/// Renders a typed value under its view tag. The result is never wider than
/// thirty characters.
pub fn render_value(v: &Value) -> (r: String)
    requires
        v.wf(),
    ensures
        r@ == value_digits(*v),
        1 <= r@.len() <= 30,
{
    match v {
        Value::Crd(c, CrdView::Equatorial) => {
            let mut s = render_hms(c.ra);
            s.append(" ");
            s.append(render_lat_dms(c.dec).as_str());
            proof {
                reveal_strlit(" ");
                assert(s@ =~= value_digits(*v));
            }
            s
        },
        Value::Crd(_, CrdView::Horizontal(h)) => {
            let mut s = String::from_str("Azi ");
            s.append(render_dms(h.ra).as_str());
            s.append(" Alt ");
            s.append(render_lat_dms(h.dec).as_str());
            proof {
                reveal_strlit("Azi ");
                reveal_strlit(" Alt ");
                assert(s@ =~= value_digits(*v));
            }
            s
        },
        Value::Crd(_, CrdView::Ecliptic(e)) => {
            let mut s = String::from_str("Lon ");
            s.append(render_dms(e.ra).as_str());
            s.append(" Lat ");
            s.append(render_lat_dms(e.dec).as_str());
            proof {
                reveal_strlit("Lon ");
                reveal_strlit(" Lat ");
                assert(s@ =~= value_digits(*v));
            }
            s
        },
        Value::Dist(d) => {
            let s = centi_to_string(*d);
            proof {
                lemma_centi_len(*d as int);
            }
            s
        },
        Value::Num(n) => {
            let s = centi_to_string(*n);
            proof {
                lemma_centi_len(*n as int);
            }
            s
        },
        Value::Ang(a, AngView::Dms) => render_dms(*a),
        Value::Ang(a, AngView::Degrees) => {
            let mut s = centi_to_string(a / 3600);
            proof {
                lemma_multiply_divide_lt(*a as int, 3600, 36000);
                lemma_centi_len(*a as int / 3600);
            }
            s.append("\u{b0}");
            proof {
                reveal_strlit("\u{b0}");
                assert(s@ =~= value_digits(*v));
            }
            s
        },
        Value::Phase(p, PhaseView::Default(so)) => {
            let mut s = String::from_str(render_phase_name(*p));
            s.append(" ");
            s.append(render_phase_emoji(*p, *so));
            proof {
                reveal_strlit(" ");
                assert(s@ =~= value_digits(*v));
            }
            s
        },
        Value::Phase(p, PhaseView::Emoji(so)) => String::from_str(render_phase_emoji(*p, *so)),
        Value::Phase(p, PhaseView::PhaseName) => String::from_str(render_phase_name(*p)),
        Value::Phase(p, PhaseView::PhaseAngle) => {
            let mut s = centi_to_string(p / 3600);
            proof {
                lemma_multiply_divide_lt(*p as int, 3600, 36000);
                lemma_centi_len(*p as int / 3600);
            }
            s.append("\u{b0}");
            proof {
                reveal_strlit("\u{b0}");
                assert(s@ =~= value_digits(*v));
            }
            s
        },
        Value::Phase(p, PhaseView::Illumfrac) => {
            let pc = illum_percent(*p);
            let mut s = u64_to_string(pc as u64);
            proof {
                crate::strfmt::lemma_pow10_vals();
                lemma_dec_digits_len(pc as nat, 3);
            }
            s.append("%");
            proof {
                reveal_strlit("%");
                assert(s@ =~= value_digits(*v));
            }
            s
        },
        Value::RsTime(Some(d)) => render_clock(d.jd_milli),
        Value::RsTime(None) => {
            let s = String::from_str("Never");
            proof {
                reveal_strlit("Never");
            }
            s
        },
    }
}

/// A bounded value in hundredths renders as at most eighteen characters.
proof fn lemma_centi_len(vv: int)
    requires
        -0x2000000000000 <= vv <= 0x2000000000000,
    ensures
        4 <= centi_digits(vv).len() <= 18,
{
    crate::strfmt::lemma_pow10_vals();
    lemma_dec_digits_len((crate::strfmt::iabs(vv) / 100) as nat, 14);
}

} // verus!
