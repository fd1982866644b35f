//! Tests of the tile engine: the fixed row widths, the bracket lookup, the
//! crescent geometry, and the exact content of representative rows.

use skytiles::text::{Driver, DriverKind, TextAtom};
use skytiles::tile::{na_start_tile, na_nostart_tile, bracket_index};
use skytiles::tile::brightness::brightness_tile;
use skytiles::tile::distance::{distance_tile, distance_tile_noangdia};
use skytiles::tile::location::{location_tile, zodiac_of};
use skytiles::tile::phase::{phase_tile, crecent_slice, color_of};
use skytiles::text::{Color, ANSIColors};
use skytiles::value::{CelObj, Coord, PlanetId};

/// The content width of a row: the characters of its atoms, styling aside.
fn content_width(row: &[TextAtom]) -> usize {
    row.iter().map(|a| a.content.chars().count()).sum()
}

/// Renders a row with a driver and strips ANSI escape sequences, leaving
/// the content characters alone.
fn rendered_content(row: Vec<TextAtom>, driver: &Driver) -> String {
    let mut s = String::new();
    for atom in row {
        s.push_str(&driver.render_atom(atom));
    }
    let mut out = String::new();
    let mut chars = s.chars();
    while let Some(c) = chars.next() {
        if c == '\u{1b}' {
            for e in chars.by_ref() {
                if e == 'm' {
                    break;
                }
            }
        } else {
            out.push(c);
        }
    }
    out
}

fn sample_equ() -> Coord {
    Coord { ra: 50000000, dec: 1200000 }
}

fn sample_ecl() -> Coord {
    Coord { ra: 48000000, dec: -300000 }
}

#[test]
fn every_row_of_every_tile_has_its_fixed_width() {
    let plain = Driver { kind: DriverKind::Plain };
    let ansi = Driver { kind: DriverKind::Ansi };
    let cons = String::from("Sagittarius");
    for line in 0..15 {
        // Leading panels: 55 content characters.
        for row in [
            location_tile(&sample_equ(), &sample_ecl(), &cons, line),
            distance_tile(149, Some(185000), line),
            distance_tile(149, None, line),
            distance_tile_noangdia(10755, line),
            na_start_tile(line, String::from(" Distance ")),
        ] {
            assert_eq!(content_width(&row), 55, "line {line}");
            assert_eq!(rendered_content(row.clone(), &plain).chars().count(), 55);
            assert_eq!(rendered_content(row, &ansi).chars().count(), 55);
        }
        // Following panels: 54 content characters, no shared left border.
        for row in [
            phase_tile(43200000, line, &CelObj::Moon),
            phase_tile(0, line, &CelObj::Planet(PlanetId::Venus)),
            brightness_tile(-1267, line),
            na_nostart_tile(line, String::from(" Phase ")),
        ] {
            assert_eq!(content_width(&row), 54, "line {line}");
            assert_eq!(rendered_content(row.clone(), &plain).chars().count(), 54);
            assert_eq!(rendered_content(row, &ansi).chars().count(), 54);
        }
    }
}

#[test]
fn placeholder_tiles_show_na_between_borders() {
    let top = na_start_tile(0, String::from(" Phase "));
    assert_eq!(top[0].content, format!("|{:-^53}+", " Phase "));
    let mid = na_start_tile(7, String::from(" Phase "));
    assert_eq!(mid[0].content, format!("|{:^53}|", "N/A"));
    let bottom = na_start_tile(14, String::from(" Phase "));
    assert_eq!(bottom[0].content, format!("+{}+", "-".repeat(53)));
    let blank = na_start_tile(5, String::from(" Phase "));
    assert_eq!(blank[0].content, format!("|{}|", " ".repeat(53)));

    let top2 = na_nostart_tile(0, String::from(" Phase "));
    assert_eq!(top2[0].content, format!("{:-^53}+", " Phase "));
    let mid2 = na_nostart_tile(7, String::from(" Phase "));
    assert_eq!(mid2[0].content, format!("{:^53}|", "N/A"));
}

#[test]
fn bracket_finds_first_strict_crossing() {
    let asc: Vec<(String, i64)> = vec![
        (String::from("a"), -100),
        (String::from("b"), 0),
        (String::from("c"), 100),
        (String::from("d"), 200),
    ];
    assert_eq!(bracket_index(&asc, -500, true), 0);
    assert_eq!(bracket_index(&asc, 50, true), 2);
    // No threshold crosses: the index stays at zero.
    assert_eq!(bracket_index(&asc, 500, true), 0);

    let desc: Vec<(String, i64)> = vec![
        (String::from("x"), 200),
        (String::from("y"), 100),
        (String::from("z"), 0),
    ];
    assert_eq!(bracket_index(&desc, 150, false), 1);
    assert_eq!(bracket_index(&desc, -5, false), 0);
}

#[test]
fn bracket_tie_resolves_past_the_equal_threshold() {
    // An observed value exactly equal to a threshold does not satisfy the
    // strict crossing test, so the returned index is the first strictly
    // crossing entry, deterministically.
    let asc: Vec<(String, i64)> = vec![
        (String::from("a"), 0),
        (String::from("b"), 100),
        (String::from("c"), 200),
    ];
    assert_eq!(bracket_index(&asc, 100, true), 2);
    let desc: Vec<(String, i64)> = vec![
        (String::from("x"), 200),
        (String::from("y"), 100),
        (String::from("z"), 0),
    ];
    assert_eq!(bracket_index(&desc, 100, false), 2);
}

#[test]
fn crescent_at_new_has_zero_width_spans() {
    // At phase angle zero the left and right columns coincide on every row:
    // the illuminated span has zero width (a single column of terminator).
    for line in 0..10 {
        let s = crecent_slice(0, line, 500, 10);
        assert_eq!(s.matches('@').count(), 1, "line {line}");
    }
}

#[test]
fn crescent_at_full_fills_the_disk() {
    // At half a turn the whole ellipse width is illuminated; at the central
    // rows that is the disk's full twenty columns.
    let s = crecent_slice(64800000, 4, 500, 10);
    assert_eq!(s, format!(" {}", "@".repeat(20)));
    let s5 = crecent_slice(64800000, 5, 500, 10);
    assert_eq!(s5, format!(" {}", "@".repeat(20)));
}

#[test]
fn crescent_width_grows_with_the_illuminated_fraction() {
    // The span waxes through the first half-cycle and wanes through the
    // second.
    for line in 0..10 {
        let w0 = crecent_slice(0, line, 500, 10).matches('@').count();
        let w45 = crecent_slice(16200000, line, 500, 10).matches('@').count();
        let w90 = crecent_slice(32400000, line, 500, 10).matches('@').count();
        let w135 = crecent_slice(48600000, line, 500, 10).matches('@').count();
        let w180 = crecent_slice(64800000, line, 500, 10).matches('@').count();
        assert!(w0 <= w45 && w45 <= w90 && w90 <= w135 && w135 <= w180, "line {line}");
        let w225 = crecent_slice(81000000, line, 500, 10).matches('@').count();
        let w270 = crecent_slice(97200000, line, 500, 10).matches('@').count();
        let w315 = crecent_slice(113400000, line, 500, 10).matches('@').count();
        assert!(w180 >= w225 && w225 >= w270 && w270 >= w315, "line {line}");
    }
}

#[test]
fn phase_tile_titles_and_borders() {
    let top = phase_tile(0, 0, &CelObj::Moon);
    assert_eq!(top[0].content, format!("{:-^53}+", " Phase "));
    let bottom = phase_tile(0, 14, &CelObj::Moon);
    assert_eq!(bottom[0].content, format!("{}+", "-".repeat(53)));
}

#[test]
fn crescent_color_follows_the_body() {
    assert_eq!(color_of(&CelObj::Moon), Color(ANSIColors::White, false));
    assert_eq!(color_of(&CelObj::Planet(PlanetId::Mars)), Color(ANSIColors::Red, false));
    assert_eq!(color_of(&CelObj::Planet(PlanetId::Venus)), Color(ANSIColors::White, true));
    assert_eq!(color_of(&CelObj::Planet(PlanetId::Uranus)), Color(ANSIColors::Cyan, true));
    assert_eq!(color_of(&CelObj::Planet(PlanetId::Neptune)), Color(ANSIColors::Blue, false));
}

#[test]
fn brightness_headline_renders_two_decimals() {
    let row = brightness_tile(-1260, 2);
    assert_eq!(row[0].content, format!("{:^53}", "Brightness: -12.60"));
    let obs = brightness_tile(-1260, 7);
    assert_eq!(obs[0].content, format!("{:^53}", "Current Observation: -12.60"));
}

#[test]
fn brightness_ladder_brackets_the_observation() {
    // For a magnitude of 1.00 the first dimmer threshold is Polaris at
    // 1.98, index 8; the window of rows 4..10 spans three entries either
    // side of that index.
    let row4 = brightness_tile(100, 4);
    assert_eq!(row4[0].content, format!("{:^53}", "Jupiter (max): -2.94"));
    let row6 = brightness_tile(100, 6);
    assert_eq!(row6[0].content, format!("{:^53}", "Vega: 0.03"));
    let row8 = brightness_tile(100, 8);
    assert_eq!(
        row8[0].content,
        format!("{:^53}", "Human Eye Limit (Heavy Pollution): 3")
    );
    // Far off the bright end of the table the window shows dashes.
    let dim = brightness_tile(-999999, 4);
    assert_eq!(dim[0].content, format!("{:^53}", "-"));
}

#[test]
fn distance_tile_shows_ladder_and_observation() {
    let head = distance_tile(10755, Some(185000), 2);
    assert_eq!(head[1].content, format!("{:^53}", "Distance: 107.55"));
    // 1850 arcseconds falls below the Sun's minimum (1887) and above the
    // Moon's minimum (1760): the bracket index is 3.
    let mid = distance_tile(10755, Some(185000), 7);
    assert_eq!(
        mid[1].content,
        format!("{:^53}", "Current Observation: 0\u{b0}30'50\"")
    );
    let row4 = distance_tile(10755, Some(185000), 4);
    assert_eq!(row4[1].content, format!("{:^53}", "Moon (max): 34'6\""));
    let row6 = distance_tile(10755, Some(185000), 6);
    assert_eq!(row6[1].content, format!("{:^53}", "Sun (min): 31'27\""));
}

#[test]
fn distance_tile_without_angular_diameter_says_so() {
    let row = distance_tile(10755, None, 7);
    assert_eq!(row[0].content, format!("|{:^53}|", "No Angular Diameter Available"));
    let same = distance_tile_noangdia(10755, 7);
    assert_eq!(row, same);
}

#[test]
fn zodiac_changes_every_thirty_degrees() {
    assert_eq!(zodiac_of(0), "Aries");
    assert_eq!(zodiac_of(5400000), "Aries");
    assert_eq!(zodiac_of(10800000), "Taurus");
    assert_eq!(zodiac_of(64800000), "Libra");
    assert_eq!(zodiac_of(129599999), "Pisces");
}

#[test]
fn location_tile_shows_constellation_and_zodiac() {
    let cons = String::from("Orion");
    let row3 = location_tile(&sample_equ(), &sample_ecl(), &cons, 3);
    assert_eq!(row3[0].content, format!("|{:>31}", "In the Constellation"));
    assert_eq!(row3[1].content, format!(" {:<21}", "Orion"));
    assert_eq!(row3[2].content, "|");
    // The sample ecliptic longitude is 133.3 degrees: Leo.
    let row4 = location_tile(&sample_equ(), &sample_ecl(), &cons, 4);
    assert_eq!(row4[1].content, format!("{:>25}", "Zodiac:"));
    assert_eq!(row4[2].content, format!(" {:<27}", "Leo"));
}
