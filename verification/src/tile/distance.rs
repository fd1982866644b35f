//! The distance tile: the observed distance beside a comparison ladder of
//! reference angular diameters, bracketed around the observation; or a
//! placeholder ladder when the object has no angular diameter.

use vstd::prelude::*;
use vstd::string::StringExecFns;
use crate::strfmt::{char_rep, pad_center, center_str, repeat_str, centi_digits, centi_to_string};
use crate::render::{dms_digits, render_dms};
use crate::text::{TextAtom, TextFormatting, Color, ANSIColors};
use crate::tile::{row_text, lemma_row_text1, lemma_row_text3, plain_atom, bracket_spec,
    bracket_index, thresholds_of};
use crate::value::CAS_TURN;

verus! {

/// The names of the reference angular diameters, largest first, each with
/// its size spelled out.
pub open spec fn angdia_labels() -> Seq<Seq<char>> {
    seq![
        "Moon (max): 34'6\""@,
        "Sun (max): 32'32\""@,
        "Sun (min): 31'27\""@,
        "Moon (min): 29'20\""@,
        "Venus (max): 1'6\""@,
        "Human Eye Resolution: 1'0\""@,
        "Jupiter (max): 0'50.1\""@,
        "Mars (max): 0'25.1\""@,
        "Uranus (max): 0'4.1\""@,
        "Hubble Resolution: 0'0.1\""@,
    ]
}

/// The reference angular diameters in centi-arcseconds, descending.
pub open spec fn angdia_thresholds() -> Seq<int> {
    seq![204600int, 195200, 188700, 176000, 6600, 6000, 5010, 2510, 410, 10]
}

/// Builds the reference table of the angular-diameter ladder.
fn angdia_table() -> (t: Vec<(String, i64)>)
    ensures
        t@.len() == 10,
        thresholds_of(t@) == angdia_thresholds(),
        forall|i: int| 0 <= i < 10 ==> #[trigger] t@[i].0@ == angdia_labels()[i],
{
    let t: Vec<(String, i64)> = vec![
        (String::from_str("Moon (max): 34'6\""), 204600),
        (String::from_str("Sun (max): 32'32\""), 195200),
        (String::from_str("Sun (min): 31'27\""), 188700),
        (String::from_str("Moon (min): 29'20\""), 176000),
        (String::from_str("Venus (max): 1'6\""), 6600),
        (String::from_str("Human Eye Resolution: 1'0\""), 6000),
        (String::from_str("Jupiter (max): 0'50.1\""), 5010),
        (String::from_str("Mars (max): 0'25.1\""), 2510),
        (String::from_str("Uranus (max): 0'4.1\""), 410),
        (String::from_str("Hubble Resolution: 0'0.1\""), 10),
    ];
    proof {
        assert(thresholds_of(t@) =~= angdia_thresholds());
    }
    t
}

/// The ladder entry shown on one interior row: three entries above and
/// three below the bracket index, a dash where the window runs past the
/// table.
pub open spec fn angdia_item_text(index: int, line: int) -> Seq<char> {
    let ii = index + (line - 4) - 3;
    if index + (line - 4) >= 3 && ii < 10 {
        angdia_labels()[ii]
    } else {
        "-"@
    }
}

/// The text of one row of the distance tile when the object has no angular
/// diameter. The tile leads a panel row and carries both borders.
pub open spec fn dist_noang_line_text(d: int, line: int) -> Seq<char> {
    if line == 0 {
        seq!['+'] + pad_center(" Distance "@, 53, '-') + seq!['+']
    } else if line == 2 {
        seq!['|'] + pad_center("Distance: "@ + centi_digits(d), 53, ' ') + seq!['|']
    } else if line == 7 {
        seq!['|'] + pad_center("No Angular Diameter Available"@, 53, ' ') + seq!['|']
    } else if line == 14 {
        seq!['+'] + char_rep('-', 53) + seq!['+']
    } else {
        seq!['|'] + char_rep(' ', 53) + seq!['|']
    }
}

/// The text of one row of the distance tile when the object has an angular
/// diameter.
pub open spec fn dist_ang_line_text(d: int, a: int, line: int) -> Seq<char> {
    let index = bracket_spec(angdia_thresholds(), a, false);
    if line == 0 {
        seq!['+'] + pad_center(" Distance "@, 53, '-') + seq!['+']
    } else if line == 2 {
        seq!['|'] + pad_center("Distance: "@ + centi_digits(d), 53, ' ') + seq!['|']
    } else if line == 7 {
        seq!['|'] + pad_center("Current Observation: "@ + dms_digits(a), 53, ' ') + seq!['|']
    } else if (4 <= line && line < 7) || (8 <= line && line < 11) {
        seq!['|'] + pad_center(angdia_item_text(index, line), 53, ' ') + seq!['|']
    } else if line == 14 {
        seq!['+'] + char_rep('-', 53) + seq!['+']
    } else {
        seq!['|'] + char_rep(' ', 53) + seq!['|']
    }
}

/// The styling of the distance tile's atoms: the headline bold and blue,
/// the ladder italic and magenta, the current observation bold, everything
/// else unstyled.
pub open spec fn dist_atoms_ok(atoms: Seq<TextAtom>, has_ang: bool, line: int) -> bool {
    if line == 2 {
        &&& atoms.len() == 3
        &&& atoms[0].special_formatting is None
        &&& atoms[1].special_formatting == Some(
            TextFormatting {
                bold: true,
                italic: false,
                underline: false,
                color: Some(Color(ANSIColors::Blue, true)),
                bgcolor: None,
            },
        )
        &&& atoms[2].special_formatting is None
    } else if has_ang && ((4 <= line && line < 7) || (8 <= line && line < 11)) {
        &&& atoms.len() == 3
        &&& atoms[0].special_formatting is None
        &&& atoms[1].special_formatting == Some(
            TextFormatting {
                bold: false,
                italic: true,
                underline: false,
                color: Some(Color(ANSIColors::Magenta, false)),
                bgcolor: None,
            },
        )
        &&& atoms[2].special_formatting is None
    } else if has_ang && line == 7 {
        &&& atoms.len() == 3
        &&& atoms[0].special_formatting is None
        &&& atoms[1].special_formatting == Some(
            TextFormatting {
                bold: true,
                italic: false,
                underline: false,
                color: None,
                bgcolor: None,
            },
        )
        &&& atoms[2].special_formatting is None
    } else {
        atoms.len() == 1 && atoms[0].special_formatting is None
    }
}

/// One row of the distance tile for an object without an angular diameter.
pub fn distance_tile_noangdia(distance: i64, line: usize) -> (r: Vec<TextAtom>)
    requires
        line <= 14,
        -0x2000000000000 <= distance <= 0x2000000000000,
    ensures
        row_text(r@) == dist_noang_line_text(distance as int, line as int),
        row_text(r@).len() == 55,
        dist_atoms_ok(r@, false, line as int),
{
    proof {
        reveal_strlit(" Distance ");
        reveal_strlit("Distance: ");
        reveal_strlit("No Angular Diameter Available");
        reveal_strlit("|");
        reveal_strlit("+");
        reveal_strlit("-");
        reveal_strlit(" ");
        crate::strfmt::lemma_pow10_vals();
        crate::strfmt::lemma_dec_digits_len(
            (crate::strfmt::iabs(distance as int) / 100) as nat,
            14,
        );
    }
    if line == 0 {
        let mut s = String::from_str("+");
        s.append(center_str(" Distance ", 53, "-").as_str());
        s.append("+");
        let r: Vec<TextAtom> = vec![plain_atom(s)];
        proof {
            lemma_row_text1(r@);
            assert(row_text(r@) =~= dist_noang_line_text(distance as int, line as int));
        }
        r
    } else if line == 2 {
        let mut inner = String::from_str("Distance: ");
        inner.append(centi_to_string(distance).as_str());
        let a0 = plain_atom(String::from_str("|"));
        let a1 = TextAtom {
            content: center_str(inner.as_str(), 53, " "),
            special_formatting: Some(
                TextFormatting {
                    bold: true,
                    italic: false,
                    underline: false,
                    color: Some(Color(ANSIColors::Blue, true)),
                    bgcolor: None,
                },
            ),
        };
        let a2 = plain_atom(String::from_str("|"));
        let r: Vec<TextAtom> = vec![a0, a1, a2];
        proof {
            lemma_row_text3(r@);
            assert(row_text(r@) =~= dist_noang_line_text(distance as int, line as int));
        }
        r
    } else if line == 7 {
        let mut s = String::from_str("|");
        s.append(center_str("No Angular Diameter Available", 53, " ").as_str());
        s.append("|");
        let r: Vec<TextAtom> = vec![plain_atom(s)];
        proof {
            lemma_row_text1(r@);
            assert(row_text(r@) =~= dist_noang_line_text(distance as int, line as int));
        }
        r
    } else if line == 14 {
        let mut s = String::from_str("+");
        s.append(repeat_str("-", 53).as_str());
        s.append("+");
        let r: Vec<TextAtom> = vec![plain_atom(s)];
        proof {
            lemma_row_text1(r@);
            assert(row_text(r@) =~= dist_noang_line_text(distance as int, line as int));
        }
        r
    } else {
        let mut s = String::from_str("|");
        s.append(repeat_str(" ", 53).as_str());
        s.append("|");
        let r: Vec<TextAtom> = vec![plain_atom(s)];
        proof {
            lemma_row_text1(r@);
            assert(row_text(r@) =~= dist_noang_line_text(distance as int, line as int));
        }
        r
    }
}

/// One row of the distance tile: the distance headline, and the
/// angular-diameter comparison ladder where the object has one.
#[verifier::rlimit(60)]
pub fn distance_tile(distance: i64, angdia: Option<i64>, line: usize) -> (r: Vec<TextAtom>)
    requires
        line <= 14,
        -0x2000000000000 <= distance <= 0x2000000000000,
        (angdia matches Some(a) ==> 0 <= a < CAS_TURN),
    ensures
        (match angdia {
            None => row_text(r@) == dist_noang_line_text(distance as int, line as int)
                && dist_atoms_ok(r@, false, line as int),
            Some(a) => row_text(r@) == dist_ang_line_text(distance as int, a as int, line as int)
                && dist_atoms_ok(r@, true, line as int),
        }),
        row_text(r@).len() == 55,
{
    let a = match angdia {
        None => {
            return distance_tile_noangdia(distance, line);
        },
        Some(a) => a,
    };
    proof {
        reveal_strlit(" Distance ");
        reveal_strlit("Distance: ");
        reveal_strlit("Current Observation: ");
        reveal_strlit("-");
        reveal_strlit("|");
        reveal_strlit("+");
        reveal_strlit(" ");
        reveal_strlit("Moon (max): 34'6\"");
        reveal_strlit("Sun (max): 32'32\"");
        reveal_strlit("Sun (min): 31'27\"");
        reveal_strlit("Moon (min): 29'20\"");
        reveal_strlit("Venus (max): 1'6\"");
        reveal_strlit("Human Eye Resolution: 1'0\"");
        reveal_strlit("Jupiter (max): 0'50.1\"");
        reveal_strlit("Mars (max): 0'25.1\"");
        reveal_strlit("Uranus (max): 0'4.1\"");
        reveal_strlit("Hubble Resolution: 0'0.1\"");
        crate::strfmt::lemma_pow10_vals();
        crate::strfmt::lemma_dec_digits_len(
            (crate::strfmt::iabs(distance as int) / 100) as nat,
            14,
        );
    }
    let table = angdia_table();
    let index = bracket_index(&table, a, false);
    if line == 0 {
        let mut s = String::from_str("+");
        s.append(center_str(" Distance ", 53, "-").as_str());
        s.append("+");
        let r: Vec<TextAtom> = vec![plain_atom(s)];
        proof {
            lemma_row_text1(r@);
            assert(row_text(r@) =~= dist_ang_line_text(distance as int, a as int, line as int));
        }
        r
    } else if line == 2 {
        let mut inner = String::from_str("Distance: ");
        inner.append(centi_to_string(distance).as_str());
        let a0 = plain_atom(String::from_str("|"));
        let a1 = TextAtom {
            content: center_str(inner.as_str(), 53, " "),
            special_formatting: Some(
                TextFormatting {
                    bold: true,
                    italic: false,
                    underline: false,
                    color: Some(Color(ANSIColors::Blue, true)),
                    bgcolor: None,
                },
            ),
        };
        let a2 = plain_atom(String::from_str("|"));
        let r: Vec<TextAtom> = vec![a0, a1, a2];
        proof {
            lemma_row_text3(r@);
            assert(row_text(r@) =~= dist_ang_line_text(distance as int, a as int, line as int));
        }
        r
    } else if line == 7 {
        let mut inner = String::from_str("Current Observation: ");
        inner.append(render_dms(a).as_str());
        let a0 = plain_atom(String::from_str("|"));
        let a1 = TextAtom {
            content: center_str(inner.as_str(), 53, " "),
            special_formatting: Some(
                TextFormatting {
                    bold: true,
                    italic: false,
                    underline: false,
                    color: None,
                    bgcolor: None,
                },
            ),
        };
        let a2 = plain_atom(String::from_str("|"));
        let r: Vec<TextAtom> = vec![a0, a1, a2];
        proof {
            lemma_row_text3(r@);
            assert(row_text(r@) =~= dist_ang_line_text(distance as int, a as int, line as int));
        }
        r
    } else if (4 <= line && line < 7) || (8 <= line && line < 11) {
        let j = index + (line - 4);
        let inner: String = if j >= 3 && j - 3 < 10 {
            let mut s = String::new();
            s.append(table[j - 3].0.as_str());
            s
        } else {
            String::from_str("-")
        };
        let a0 = plain_atom(String::from_str("|"));
        let a1 = TextAtom {
            content: center_str(inner.as_str(), 53, " "),
            special_formatting: Some(
                TextFormatting {
                    bold: false,
                    italic: true,
                    underline: false,
                    color: Some(Color(ANSIColors::Magenta, false)),
                    bgcolor: None,
                },
            ),
        };
        let a2 = plain_atom(String::from_str("|"));
        let r: Vec<TextAtom> = vec![a0, a1, a2];
        proof {
            lemma_row_text3(r@);
            assert(inner@ == angdia_item_text(index as int, line as int));
            assert(row_text(r@) =~= dist_ang_line_text(distance as int, a as int, line as int));
        }
        r
    } else if line == 14 {
        let mut s = String::from_str("+");
        s.append(repeat_str("-", 53).as_str());
        s.append("+");
        let r: Vec<TextAtom> = vec![plain_atom(s)];
        proof {
            lemma_row_text1(r@);
            assert(row_text(r@) =~= dist_ang_line_text(distance as int, a as int, line as int));
        }
        r
    } else {
        let mut s = String::from_str("|");
        s.append(repeat_str(" ", 53).as_str());
        s.append("|");
        let r: Vec<TextAtom> = vec![plain_atom(s)];
        proof {
            lemma_row_text1(r@);
            assert(row_text(r@) =~= dist_ang_line_text(distance as int, a as int, line as int));
        }
        r
    }
}

} // verus!
