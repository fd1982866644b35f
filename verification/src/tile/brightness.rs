//! The brightness tile: the observed magnitude beside a comparison ladder
//! of reference brightnesses, bracketed around the observation.

use vstd::prelude::*;
use vstd::string::StringExecFns;
use crate::strfmt::{char_rep, pad_center, center_str, repeat_str, centi_digits, centi_trim_digits,
    centi_to_string, centi_to_string_trim, lemma_centi_trim_len_small};
use crate::text::{TextAtom, TextFormatting, Color, ANSIColors};
use crate::tile::{row_text, lemma_row_text1, lemma_row_text2, plain_atom, bracket_spec,
    bracket_index, thresholds_of};

verus! {

/// The names of the reference brightnesses, dimmest last.
pub open spec fn brightness_labels() -> Seq<Seq<char>> {
    seq![
        "Sun (avg)"@,
        "Full Moon"@,
        "ISS"@,
        "Venus (max)"@,
        "Mars (max)"@,
        "Jupiter (max)"@,
        "Sirius"@,
        "Vega"@,
        "Polaris"@,
        "Human Eye Limit (Heavy Pollution)"@,
        "Andromeda Galaxy"@,
        "Human Eye Limit (Medium Pollution)"@,
        "Uranus (max)"@,
        "Human Eye Limit"@,
        "Binoculars Limit"@,
        "Pluto (max)"@,
        "Hubble Limit"@,
    ]
}

/// The reference magnitudes in hundredths, ascending (brightest first).
pub open spec fn brightness_thresholds() -> Seq<int> {
    seq![
        -2683int,
        -1260,
        -590,
        -492,
        -294,
        -294,
        -147,
        3,
        198,
        300,
        344,
        400,
        538,
        650,
        950,
        1365,
        3150,
    ]
}

/// Builds the reference table of the brightness ladder.
fn brightness_table() -> (t: Vec<(String, i64)>)
    ensures
        t@.len() == 17,
        thresholds_of(t@) == brightness_thresholds(),
        forall|i: int| 0 <= i < 17 ==> #[trigger] t@[i].0@ == brightness_labels()[i],
        forall|i: int| 0 <= i < 17 ==> #[trigger] t@[i].1 as int == brightness_thresholds()[i],
{
    let t: Vec<(String, i64)> = vec![
        (String::from_str("Sun (avg)"), -2683),
        (String::from_str("Full Moon"), -1260),
        (String::from_str("ISS"), -590),
        (String::from_str("Venus (max)"), -492),
        (String::from_str("Mars (max)"), -294),
        (String::from_str("Jupiter (max)"), -294),
        (String::from_str("Sirius"), -147),
        (String::from_str("Vega"), 3),
        (String::from_str("Polaris"), 198),
        (String::from_str("Human Eye Limit (Heavy Pollution)"), 300),
        (String::from_str("Andromeda Galaxy"), 344),
        (String::from_str("Human Eye Limit (Medium Pollution)"), 400),
        (String::from_str("Uranus (max)"), 538),
        (String::from_str("Human Eye Limit"), 650),
        (String::from_str("Binoculars Limit"), 950),
        (String::from_str("Pluto (max)"), 1365),
        (String::from_str("Hubble Limit"), 3150),
    ];
    proof {
        assert(thresholds_of(t@) =~= brightness_thresholds());
    }
    t
}

/// The ladder entry shown on one interior row: three entries above and
/// three below the bracket index, a dash where the window runs past the
/// table.
pub open spec fn bright_item_text(index: int, line: int) -> Seq<char> {
    let ii = index + (line - 4) - 3;
    if index + (line - 4) >= 3 && ii < 17 {
        brightness_labels()[ii] + ": "@ + centi_trim_digits(brightness_thresholds()[ii])
    } else {
        "-"@
    }
}

/// The text of one row of the brightness tile. The tile follows another
/// panel and omits the shared left border.
pub open spec fn brightness_line_text(b: int, line: int) -> Seq<char> {
    let index = bracket_spec(brightness_thresholds(), b, true);
    if line == 0 {
        pad_center(" Brightness "@, 53, '-') + seq!['+']
    } else if line == 2 {
        pad_center("Brightness: "@ + centi_digits(b), 53, ' ') + seq!['|']
    } else if line == 7 {
        pad_center("Current Observation: "@ + centi_digits(b), 53, ' ') + seq!['|']
    } else if (4 <= line && line < 7) || (8 <= line && line < 11) {
        pad_center(bright_item_text(index, line), 53, ' ') + seq!['|']
    } else if line == 14 {
        char_rep('-', 53) + seq!['+']
    } else {
        char_rep(' ', 53) + seq!['|']
    }
}

/// The styling of the brightness tile's atoms: the headline bold and blue,
/// the ladder italic and magenta, the current observation bold, borders
/// and filler unstyled.
pub open spec fn brightness_tile_atoms_ok(atoms: Seq<TextAtom>, line: int) -> bool {
    if line == 2 {
        &&& atoms.len() == 2
        &&& atoms[0].special_formatting == Some(
            TextFormatting {
                bold: true,
                italic: false,
                underline: false,
                color: Some(Color(ANSIColors::Blue, true)),
                bgcolor: None,
            },
        )
        &&& atoms[1].special_formatting is None
    } else if (4 <= line && line < 7) || (8 <= line && line < 11) {
        &&& atoms.len() == 2
        &&& atoms[0].special_formatting == Some(
            TextFormatting {
                bold: false,
                italic: true,
                underline: false,
                color: Some(Color(ANSIColors::Magenta, false)),
                bgcolor: None,
            },
        )
        &&& atoms[1].special_formatting is None
    } else if line == 7 {
        &&& atoms.len() == 2
        &&& atoms[0].special_formatting == Some(
            TextFormatting {
                bold: true,
                italic: false,
                underline: false,
                color: None,
                bgcolor: None,
            },
        )
        &&& atoms[1].special_formatting is None
    } else {
        atoms.len() == 1 && atoms[0].special_formatting is None
    }
}

/// One row of the brightness tile for an observed magnitude in hundredths.
#[verifier::rlimit(60)]
pub fn brightness_tile(brightness: i64, line: usize) -> (r: Vec<TextAtom>)
    requires
        line <= 14,
        -0x2000000000000 <= brightness <= 0x2000000000000,
    ensures
        row_text(r@) == brightness_line_text(brightness as int, line as int),
        row_text(r@).len() == 54,
        brightness_tile_atoms_ok(r@, line as int),
{
    proof {
        reveal_strlit(" Brightness ");
        reveal_strlit("Brightness: ");
        reveal_strlit("Current Observation: ");
        reveal_strlit(": ");
        reveal_strlit("-");
        reveal_strlit("|");
        reveal_strlit("+");
        reveal_strlit(" ");
        reveal_strlit("Sun (avg)");
        reveal_strlit("Full Moon");
        reveal_strlit("ISS");
        reveal_strlit("Venus (max)");
        reveal_strlit("Mars (max)");
        reveal_strlit("Jupiter (max)");
        reveal_strlit("Sirius");
        reveal_strlit("Vega");
        reveal_strlit("Polaris");
        reveal_strlit("Human Eye Limit (Heavy Pollution)");
        reveal_strlit("Andromeda Galaxy");
        reveal_strlit("Human Eye Limit (Medium Pollution)");
        reveal_strlit("Uranus (max)");
        reveal_strlit("Human Eye Limit");
        reveal_strlit("Binoculars Limit");
        reveal_strlit("Pluto (max)");
        reveal_strlit("Hubble Limit");
        crate::strfmt::lemma_pow10_vals();
        crate::strfmt::lemma_dec_digits_len(
            (crate::strfmt::iabs(brightness as int) / 100) as nat,
            14,
        );
    }
    let table = brightness_table();
    let index = bracket_index(&table, brightness, true);
    if line == 0 {
        let mut s = center_str(" Brightness ", 53, "-");
        s.append("+");
        let r: Vec<TextAtom> = vec![plain_atom(s)];
        proof {
            lemma_row_text1(r@);
            assert(row_text(r@) =~= brightness_line_text(brightness as int, line as int));
        }
        r
    } else if line == 2 {
        let mut inner = String::from_str("Brightness: ");
        inner.append(centi_to_string(brightness).as_str());
        let a0 = TextAtom {
            content: center_str(inner.as_str(), 53, " "),
            special_formatting: Some(
                TextFormatting {
                    bold: true,
                    italic: false,
                    underline: false,
                    color: Some(Color(ANSIColors::Blue, true)),
                    bgcolor: None,
                },
            ),
        };
        let a1 = plain_atom(String::from_str("|"));
        let r: Vec<TextAtom> = vec![a0, a1];
        proof {
            lemma_row_text2(r@);
            assert(row_text(r@) =~= brightness_line_text(brightness as int, line as int));
        }
        r
    } else if line == 7 {
        let mut inner = String::from_str("Current Observation: ");
        inner.append(centi_to_string(brightness).as_str());
        let a0 = TextAtom {
            content: center_str(inner.as_str(), 53, " "),
            special_formatting: Some(
                TextFormatting {
                    bold: true,
                    italic: false,
                    underline: false,
                    color: None,
                    bgcolor: None,
                },
            ),
        };
        let a1 = plain_atom(String::from_str("|"));
        let r: Vec<TextAtom> = vec![a0, a1];
        proof {
            lemma_row_text2(r@);
            assert(row_text(r@) =~= brightness_line_text(brightness as int, line as int));
        }
        r
    } else if (4 <= line && line < 7) || (8 <= line && line < 11) {
        let j = index + (line - 4);
        let inner: String = if j >= 3 && j - 3 < 17 {
            let mut s = String::new();
            s.append(table[j - 3].0.as_str());
            s.append(": ");
            proof {
                lemma_centi_trim_len_small(table@[j - 3].1 as int);
            }
            s.append(centi_to_string_trim(table[j - 3].1).as_str());
            s
        } else {
            String::from_str("-")
        };
        let a0 = TextAtom {
            content: center_str(inner.as_str(), 53, " "),
            special_formatting: Some(
                TextFormatting {
                    bold: false,
                    italic: true,
                    underline: false,
                    color: Some(Color(ANSIColors::Magenta, false)),
                    bgcolor: None,
                },
            ),
        };
        let a1 = plain_atom(String::from_str("|"));
        let r: Vec<TextAtom> = vec![a0, a1];
        proof {
            lemma_row_text2(r@);
            assert(inner@ == bright_item_text(index as int, line as int));
            assert(row_text(r@) =~= brightness_line_text(brightness as int, line as int));
        }
        r
    } else if line == 14 {
        let mut s = repeat_str("-", 53);
        s.append("+");
        let r: Vec<TextAtom> = vec![plain_atom(s)];
        proof {
            lemma_row_text1(r@);
            assert(row_text(r@) =~= brightness_line_text(brightness as int, line as int));
        }
        r
    } else {
        let mut s = repeat_str(" ", 53);
        s.append("|");
        let r: Vec<TextAtom> = vec![plain_atom(s)];
        proof {
            lemma_row_text1(r@);
            assert(row_text(r@) =~= brightness_line_text(brightness as int, line as int));
        }
        r
    }
}

} // verus!
