//! Tests of value rendering and the text drivers.

use skytiles::render::{render_value, render_phase_name, render_phase_emoji, illum_percent,
    render_hms, render_dms, render_lat_dms, render_clock};
use skytiles::text::{render_html_atom, render_ansi_atom, render_html_color, ansi_color_number,
    Color, ANSIColors, TextAtom, TextFormatting, Driver, DriverKind};
use skytiles::value::{Value, Coord, Date, CrdView, AngView, PhaseView};

#[test]
fn magnitude_renders_to_two_decimals() {
    assert_eq!(render_value(&Value::Num(-1267)), "-12.67");
    assert_eq!(render_value(&Value::Num(0)), "0.00");
    assert_eq!(render_value(&Value::Num(3)), "0.03");
    assert_eq!(render_value(&Value::Dist(14960)), "149.60");
}

#[test]
fn coordinates_render_in_all_three_views() {
    // 50 000 000 centi-arcseconds of right ascension is 138.888 degrees,
    // 9 hours 15 minutes 33 seconds of time.
    let c = Coord { ra: 50000000, dec: 1200000 };
    assert_eq!(
        render_value(&Value::Crd(c, CrdView::Equatorial)),
        "09h15m33s +3\u{b0}20'00\""
    );
    let h = Coord { ra: 20000000, dec: 9000000 };
    assert_eq!(
        render_value(&Value::Crd(c, CrdView::Horizontal(h))),
        "Azi 55\u{b0}33'20\" Alt +25\u{b0}00'00\""
    );
    let e = Coord { ra: 48000000, dec: -300000 };
    assert_eq!(
        render_value(&Value::Crd(c, CrdView::Ecliptic(e))),
        "Lon 133\u{b0}20'00\" Lat -0\u{b0}50'00\""
    );
}

#[test]
fn angles_render_as_dms_or_degrees() {
    assert_eq!(render_value(&Value::Ang(185000, AngView::Dms)), "0\u{b0}30'50\"");
    assert_eq!(render_value(&Value::Ang(185000, AngView::Degrees)), "0.51\u{b0}");
    assert_eq!(render_dms(204600), "0\u{b0}34'06\"");
    assert_eq!(render_hms(0), "00h00m00s");
    assert_eq!(render_lat_dms(-1200000), "-3\u{b0}20'00\"");
}

#[test]
fn phase_names_follow_the_angle() {
    assert_eq!(render_phase_name(0), "New Moon");
    assert_eq!(render_phase_name(16200000), "Waxing Crescent");
    assert_eq!(render_phase_name(32400000), "First Quarter");
    assert_eq!(render_phase_name(48600000), "Waxing Gibbous");
    assert_eq!(render_phase_name(64800000), "Full Moon");
    assert_eq!(render_phase_name(81000000), "Waning Gibbous");
    assert_eq!(render_phase_name(97200000), "Last Quarter");
    assert_eq!(render_phase_name(113400000), "Waning Crescent");
    assert_eq!(render_phase_name(129599999), "New Moon");
}

#[test]
fn phase_emoji_mirrors_in_the_south() {
    // A waxing crescent in the north is the mirror image in the south.
    assert_eq!(render_phase_emoji(16200000, false), "\u{1f312}");
    assert_eq!(render_phase_emoji(16200000, true), "\u{1f318}");
    // New and full are their own mirror images.
    assert_eq!(render_phase_emoji(0, false), "\u{1f311}");
    assert_eq!(render_phase_emoji(0, true), "\u{1f311}");
    assert_eq!(render_phase_emoji(64800000, false), "\u{1f315}");
    assert_eq!(render_phase_emoji(64800000, true), "\u{1f315}");
}

#[test]
fn phase_views_share_one_stored_angle() {
    let p = 43200000;
    assert_eq!(render_value(&Value::Phase(p, PhaseView::PhaseName)), "Waxing Gibbous");
    assert_eq!(render_value(&Value::Phase(p, PhaseView::PhaseAngle)), "120.00\u{b0}");
    assert_eq!(render_value(&Value::Phase(p, PhaseView::Illumfrac)), "75%");
    assert_eq!(
        render_value(&Value::Phase(p, PhaseView::Default(false))),
        "Waxing Gibbous \u{1f314}"
    );
    assert_eq!(
        render_value(&Value::Phase(p, PhaseView::Emoji(true))),
        "\u{1f316}"
    );
}

#[test]
fn illuminated_fraction_runs_from_new_to_full() {
    assert_eq!(illum_percent(0), 0);
    assert_eq!(illum_percent(32400000), 50);
    assert_eq!(illum_percent(64800000), 100);
}

#[test]
fn instants_render_as_clock_or_never() {
    // The julian fraction of one half is midnight.
    assert_eq!(render_value(&Value::RsTime(Some(Date { jd_milli: 2451545500 }))), "00:00");
    assert_eq!(render_value(&Value::RsTime(Some(Date { jd_milli: 2451545750 }))), "06:00");
    assert_eq!(render_clock(2451545250), "18:00");
    assert_eq!(render_value(&Value::RsTime(None)), "Never");
}

#[test]
fn html_atoms_escape_markup_characters() {
    // The escaping runs through the markup library: significant characters
    // become entities, so content handed back unchanged would fail here.
    let atom = TextAtom { content: String::from("a < b & c > d"), special_formatting: None };
    assert_eq!(render_html_atom(atom), "a &lt; b &amp; c &gt; d");
    let styled = TextAtom {
        content: String::from("<x>"),
        special_formatting: Some(TextFormatting {
            color: Some(Color(ANSIColors::Red, false)),
            bgcolor: None,
            bold: true,
            italic: false,
            underline: false,
        }),
    };
    assert_eq!(
        render_html_atom(styled),
        "<span style=\"font-weight: bold;color: crimson;\">&lt;x&gt;</span>"
    );
}

#[test]
fn ansi_atoms_wrap_content_in_codes() {
    let plain = TextAtom { content: String::from("abc"), special_formatting: None };
    assert_eq!(render_ansi_atom(plain), "abc");
    let styled = TextAtom {
        content: String::from("X"),
        special_formatting: Some(TextFormatting {
            color: Some(Color(ANSIColors::Red, false)),
            bgcolor: Some(Color(ANSIColors::Blue, true)),
            bold: true,
            italic: false,
            underline: true,
        }),
    };
    assert_eq!(render_ansi_atom(styled), "\u{1b}[1;4;31;104mX\u{1b}[0m");
}

#[test]
fn color_codes_match_the_palette() {
    assert_eq!(ansi_color_number(Color(ANSIColors::Black, false), false), 30);
    assert_eq!(ansi_color_number(Color(ANSIColors::White, false), true), 47);
    assert_eq!(ansi_color_number(Color(ANSIColors::Red, true), false), 91);
    assert_eq!(ansi_color_number(Color(ANSIColors::Cyan, true), true), 106);
    assert_eq!(render_html_color(Color(ANSIColors::Green, false)), "DarkGreen");
    assert_eq!(render_html_color(Color(ANSIColors::Blue, false)), "navy");
    assert_eq!(render_html_color(Color(ANSIColors::Yellow, true)), "yellow");
}

#[test]
fn drivers_render_and_terminate_lines() {
    let atom = TextAtom { content: String::from("x<y"), special_formatting: None };
    let plain = Driver { kind: DriverKind::Plain };
    let html = Driver { kind: DriverKind::Html };
    let ansi = Driver { kind: DriverKind::Ansi };
    assert_eq!(plain.render_atom(atom.clone()), "x<y");
    assert_eq!(html.render_atom(atom.clone()), "x&lt;y");
    assert_eq!(ansi.render_atom(atom), "x<y");
    assert_eq!(plain.eol(), "\n");
    assert_eq!(html.eol(), "<br>");
    assert_eq!(ansi.eol(), "\n");
}
