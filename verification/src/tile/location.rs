//! The location tile: the constellation and zodiac sign the object stands
//! in, and its equatorial and ecliptic coordinates.
//!
//! The constellation name comes from the caller (it is a catalog lookup over
//! the 1875-epoch position, delegated to the astronomy oracle); the zodiac
//! sign is read off the ecliptic longitude here.

use vstd::prelude::*;
use vstd::string::StringExecFns;
use vstd::arithmetic::div_mod::{lemma_div_pos_is_pos, lemma_multiply_divide_lt};
use crate::strfmt::{char_rep, pad_center, pad_left, pad_right, center_str, pad_left_str,
    pad_right_str, repeat_str};
use crate::render::{value_digits, render_value};
use crate::text::{TextAtom, TextFormatting, Color, ANSIColors};
use crate::tile::{row_text, lemma_row_text1, lemma_row_text3, lemma_row_text4, plain_atom};
use crate::value::{Coord, Value, CrdView, CAS_TURN};

verus! {

/// The twelve zodiac signs, in ecliptic order from the spring equinox.
pub open spec fn zodiac_names() -> Seq<Seq<char>> {
    seq![
        "Aries"@,
        "Taurus"@,
        "Gemini"@,
        "Cancer"@,
        "Leo"@,
        "Virgo"@,
        "Libra"@,
        "Scorpio"@,
        "Sagittarius"@,
        "Capricorn"@,
        "Aquarius"@,
        "Pisces"@,
    ]
}

/// The zodiac sign of an ecliptic longitude: one sign per thirty degrees.
pub open spec fn zodiac_name_of(lon: int) -> Seq<char> {
    zodiac_names()[lon / 10800000]
}

/// Returns the zodiac sign an ecliptic longitude falls in.
pub fn zodiac_of(lon: i64) -> (r: &'static str)
    requires
        0 <= lon < CAS_TURN,
    ensures
        r@ == zodiac_name_of(lon as int),
        r@.len() <= 11,
{
    proof {
        reveal_strlit("Aries");
        reveal_strlit("Taurus");
        reveal_strlit("Gemini");
        reveal_strlit("Cancer");
        reveal_strlit("Leo");
        reveal_strlit("Virgo");
        reveal_strlit("Libra");
        reveal_strlit("Scorpio");
        reveal_strlit("Sagittarius");
        reveal_strlit("Capricorn");
        reveal_strlit("Aquarius");
        reveal_strlit("Pisces");
        lemma_div_pos_is_pos(lon as int, 10800000);
        lemma_multiply_divide_lt(lon as int, 10800000, 12);
    }
    let z = lon / 10800000;
    if z == 0 {
        "Aries"
    } else if z == 1 {
        "Taurus"
    } else if z == 2 {
        "Gemini"
    } else if z == 3 {
        "Cancer"
    } else if z == 4 {
        "Leo"
    } else if z == 5 {
        "Virgo"
    } else if z == 6 {
        "Libra"
    } else if z == 7 {
        "Scorpio"
    } else if z == 8 {
        "Sagittarius"
    } else if z == 9 {
        "Capricorn"
    } else if z == 10 {
        "Aquarius"
    } else {
        "Pisces"
    }
}

/// The text of one row of the location tile. The tile leads a panel row
/// and carries both borders.
pub open spec fn location_line_text(equ: Coord, ecl: Coord, cons: Seq<char>, line: int) -> Seq<
    char,
> {
    if line == 0 {
        seq!['+'] + pad_center(" Location "@, 53, '-') + seq!['+']
    } else if line == 3 {
        seq!['|'] + pad_left("In the Constellation"@, 31, ' ') + seq![' '] + pad_right(
            cons,
            21,
            ' ',
        ) + seq!['|']
    } else if line == 4 {
        seq!['|'] + pad_left("Zodiac:"@, 25, ' ') + seq![' '] + pad_right(
            zodiac_name_of(ecl.ra as int),
            27,
            ' ',
        ) + seq!['|']
    } else if line == 7 {
        seq!['|'] + pad_center("Coordinates (Equatorial):"@, 53, ' ') + seq!['|']
    } else if line == 8 {
        seq!['|'] + pad_center(value_digits(Value::Crd(equ, CrdView::Equatorial)), 53, ' ')
            + seq!['|']
    } else if line == 10 {
        seq!['|'] + pad_center("Coordinates (Ecliptic):"@, 53, ' ') + seq!['|']
    } else if line == 11 {
        seq!['|'] + pad_center(value_digits(Value::Crd(equ, CrdView::Ecliptic(ecl))), 53, ' ')
            + seq!['|']
    } else if line == 14 {
        seq!['+'] + char_rep('-', 53) + seq!['+']
    } else {
        seq!['|'] + char_rep(' ', 53) + seq!['|']
    }
}

/// The styling of the location tile's atoms: the constellation name bold,
/// the zodiac row in bright magenta with its value bold, everything else
/// unstyled.
pub open spec fn location_atoms_ok(atoms: Seq<TextAtom>, line: int) -> bool {
    if line == 3 {
        &&& atoms.len() == 3
        &&& atoms[0].special_formatting is None
        &&& atoms[1].special_formatting == Some(
            TextFormatting {
                bold: true,
                italic: false,
                underline: false,
                color: None,
                bgcolor: None,
            },
        )
        &&& atoms[2].special_formatting is None
    } else if line == 4 {
        &&& atoms.len() == 4
        &&& atoms[0].special_formatting is None
        &&& atoms[1].special_formatting == Some(
            TextFormatting {
                bold: false,
                italic: false,
                underline: false,
                color: Some(Color(ANSIColors::Magenta, true)),
                bgcolor: None,
            },
        )
        &&& atoms[2].special_formatting == Some(
            TextFormatting {
                bold: true,
                italic: false,
                underline: false,
                color: Some(Color(ANSIColors::Magenta, true)),
                bgcolor: None,
            },
        )
        &&& atoms[3].special_formatting is None
    } else {
        atoms.len() == 1 && atoms[0].special_formatting is None
    }
}

/// One row of the location tile for an object at an equatorial position,
/// its ecliptic conversion, and the constellation it stands in.
pub fn location_tile(equ: &Coord, ecl: &Coord, constellation: &String, line: usize) -> (r: Vec<
    TextAtom,
>)
    requires
        equ.wf(),
        ecl.wf(),
        constellation@.len() <= 21,
        line <= 14,
    ensures
        row_text(r@) == location_line_text(*equ, *ecl, constellation@, line as int),
        row_text(r@).len() == 55,
        location_atoms_ok(r@, line as int),
{
    proof {
        reveal_strlit(" Location ");
        reveal_strlit("In the Constellation");
        reveal_strlit("Zodiac:");
        reveal_strlit("Coordinates (Equatorial):");
        reveal_strlit("Coordinates (Ecliptic):");
        reveal_strlit("|");
        reveal_strlit("+");
        reveal_strlit("-");
        reveal_strlit(" ");
    }
    if line == 0 {
        let mut s = String::from_str("+");
        s.append(center_str(" Location ", 53, "-").as_str());
        s.append("+");
        let r: Vec<TextAtom> = vec![plain_atom(s)];
        proof {
            lemma_row_text1(r@);
            assert(row_text(r@) =~= location_line_text(*equ, *ecl, constellation@, line as int));
        }
        r
    } else if line == 3 {
        let mut c0 = String::from_str("|");
        c0.append(pad_left_str("In the Constellation", 31, " ").as_str());
        let a0 = plain_atom(c0);
        let mut c1 = String::from_str(" ");
        c1.append(pad_right_str(constellation.as_str(), 21, " ").as_str());
        let a1 = TextAtom {
            content: c1,
            special_formatting: Some(
                TextFormatting {
                    bold: true,
                    italic: false,
                    underline: false,
                    color: None,
                    bgcolor: None,
                },
            ),
        };
        let a2 = plain_atom(String::from_str("|"));
        let r: Vec<TextAtom> = vec![a0, a1, a2];
        proof {
            lemma_row_text3(r@);
            assert(row_text(r@) =~= location_line_text(*equ, *ecl, constellation@, line as int));
        }
        r
    } else if line == 4 {
        let a0 = plain_atom(String::from_str("|"));
        let a1 = TextAtom {
            content: pad_left_str("Zodiac:", 25, " "),
            special_formatting: Some(
                TextFormatting {
                    bold: false,
                    italic: false,
                    underline: false,
                    color: Some(Color(ANSIColors::Magenta, true)),
                    bgcolor: None,
                },
            ),
        };
        let mut c2 = String::from_str(" ");
        c2.append(pad_right_str(zodiac_of(ecl.ra), 27, " ").as_str());
        let a2 = TextAtom {
            content: c2,
            special_formatting: Some(
                TextFormatting {
                    bold: true,
                    italic: false,
                    underline: false,
                    color: Some(Color(ANSIColors::Magenta, true)),
                    bgcolor: None,
                },
            ),
        };
        let a3 = plain_atom(String::from_str("|"));
        let r: Vec<TextAtom> = vec![a0, a1, a2, a3];
        proof {
            lemma_row_text4(r@);
            assert(row_text(r@) =~= location_line_text(*equ, *ecl, constellation@, line as int));
        }
        r
    } else if line == 7 {
        let mut s = String::from_str("|");
        s.append(center_str("Coordinates (Equatorial):", 53, " ").as_str());
        s.append("|");
        let r: Vec<TextAtom> = vec![plain_atom(s)];
        proof {
            lemma_row_text1(r@);
            assert(row_text(r@) =~= location_line_text(*equ, *ecl, constellation@, line as int));
        }
        r
    } else if line == 8 {
        let v = render_value(&Value::Crd(*equ, CrdView::Equatorial));
        let mut s = String::from_str("|");
        s.append(center_str(v.as_str(), 53, " ").as_str());
        s.append("|");
        let r: Vec<TextAtom> = vec![plain_atom(s)];
        proof {
            lemma_row_text1(r@);
            assert(row_text(r@) =~= location_line_text(*equ, *ecl, constellation@, line as int));
        }
        r
    } else if line == 10 {
        let mut s = String::from_str("|");
        s.append(center_str("Coordinates (Ecliptic):", 53, " ").as_str());
        s.append("|");
        let r: Vec<TextAtom> = vec![plain_atom(s)];
        proof {
            lemma_row_text1(r@);
            assert(row_text(r@) =~= location_line_text(*equ, *ecl, constellation@, line as int));
        }
        r
    } else if line == 11 {
        let v = render_value(&Value::Crd(*equ, CrdView::Ecliptic(*ecl)));
        let mut s = String::from_str("|");
        s.append(center_str(v.as_str(), 53, " ").as_str());
        s.append("|");
        let r: Vec<TextAtom> = vec![plain_atom(s)];
        proof {
            lemma_row_text1(r@);
            assert(row_text(r@) =~= location_line_text(*equ, *ecl, constellation@, line as int));
        }
        r
    } else if line == 14 {
        let mut s = String::from_str("+");
        s.append(repeat_str("-", 53).as_str());
        s.append("+");
        let r: Vec<TextAtom> = vec![plain_atom(s)];
        proof {
            lemma_row_text1(r@);
            assert(row_text(r@) =~= location_line_text(*equ, *ecl, constellation@, line as int));
        }
        r
    } else {
        let mut s = String::from_str("|");
        s.append(repeat_str(" ", 53).as_str());
        s.append("|");
        let r: Vec<TextAtom> = vec![plain_atom(s)];
        proof {
            lemma_row_text1(r@);
            assert(row_text(r@) =~= location_line_text(*equ, *ecl, constellation@, line as int));
        }
        r
    }
}

} // verus!
