//! Formatted text: atoms of content with optional styling descriptors, and
//! the drivers that turn an atom into terminal or markup text.
//!
//! A tile row is a sequence of atoms. The styling descriptor is structural
//! (a palette color, bold, italic, underline); only a driver turns it into
//! escape codes or markup, so a row's content width is the same whatever
//! the driver.

use vstd::prelude::*;
use vstd::string::StringExecFns;
use crate::strfmt::dec_digits;
use crate::strfmt::u64_to_string;

verus! {

/// The terminal palette colors every back end supports.
#[derive(Clone, Copy, Debug, PartialEq, Eq)]
pub enum ANSIColors {
    Black,
    Red,
    Green,
    Yellow,
    Blue,
    Magenta,
    Cyan,
    White,
}

/// A palette color and a brightness flag.
#[derive(Clone, Copy, Debug, PartialEq, Eq)]
pub struct Color(pub ANSIColors, pub bool);

/// A structural styling descriptor for a piece of text.
#[derive(Clone, Copy, Debug, PartialEq, Eq)]
pub struct TextFormatting {
    pub color: Option<Color>,
    pub bgcolor: Option<Color>,
    pub bold: bool,
    pub italic: bool,
    pub underline: bool,
}

/// The basic unit of text: a string with optional styling.
#[derive(Clone, Debug, PartialEq, Eq)]
pub struct TextAtom {
    pub special_formatting: Option<TextFormatting>,
    pub content: String,
}

/// The offset of a palette color within an ANSI color group.
pub open spec fn color_index(c: ANSIColors) -> int {
    match c {
        ANSIColors::Black => 0,
        ANSIColors::Red => 1,
        ANSIColors::Green => 2,
        ANSIColors::Yellow => 3,
        ANSIColors::Blue => 4,
        ANSIColors::Magenta => 5,
        ANSIColors::Cyan => 6,
        ANSIColors::White => 7,
    }
}

/// The ANSI SGR code for a color: the group for normal or bright,
/// foreground or background, plus the color's offset.
pub open spec fn ansi_color_num(color: Color, is_bg: bool) -> int {
    (match (color.1, is_bg) {
        (false, false) => 30int,
        (false, true) => 40int,
        (true, false) => 90int,
        (true, true) => 100int,
    }) + color_index(color.0)
}

/// Computes the ANSI SGR code of a color.
pub fn ansi_color_number(color: Color, is_bg: bool) -> (r: u8)
    ensures
        r == ansi_color_num(color, is_bg),
{
    let base: u8 = match (color.1, is_bg) {
        (false, false) => 30,
        (false, true) => 40,
        (true, false) => 90,
        (true, true) => 100,
    };
    let off: u8 = match color.0 {
        ANSIColors::Black => 0,
        ANSIColors::Red => 1,
        ANSIColors::Green => 2,
        ANSIColors::Yellow => 3,
        ANSIColors::Blue => 4,
        ANSIColors::Magenta => 5,
        ANSIColors::Cyan => 6,
        ANSIColors::White => 7,
    };
    base + off
}

/// The CSS color name a palette color renders as in markup.
pub open spec fn html_color_of(color: Color) -> Seq<char> {
    match (color.0, color.1) {
        (ANSIColors::Black, false) => "black"@,
        (ANSIColors::Black, true) => "grey"@,
        (ANSIColors::Blue, true) => "blue"@,
        (ANSIColors::Blue, false) => "navy"@,
        (ANSIColors::Cyan, true) => "cyan"@,
        (ANSIColors::Cyan, false) => "MediumTurquoise"@,
        (ANSIColors::Green, false) => "DarkGreen"@,
        (ANSIColors::Green, true) => "green"@,
        (ANSIColors::Magenta, false) => "DarkMagenta"@,
        (ANSIColors::Magenta, true) => "Magenta"@,
        (ANSIColors::Red, false) => "crimson"@,
        (ANSIColors::Red, true) => "red"@,
        (ANSIColors::White, _) => "white"@,
        (ANSIColors::Yellow, _) => "yellow"@,
    }
}

/// Returns the CSS color name of a palette color.
pub fn render_html_color(color: Color) -> (r: &'static str)
    ensures
        r@ == html_color_of(color),
{
    match (color.0, color.1) {
        (ANSIColors::Black, false) => "black",
        (ANSIColors::Black, true) => "grey",
        (ANSIColors::Blue, true) => "blue",
        (ANSIColors::Blue, false) => "navy",
        (ANSIColors::Cyan, true) => "cyan",
        (ANSIColors::Cyan, false) => "MediumTurquoise",
        (ANSIColors::Green, false) => "DarkGreen",
        (ANSIColors::Green, true) => "green",
        (ANSIColors::Magenta, false) => "DarkMagenta",
        (ANSIColors::Magenta, true) => "Magenta",
        (ANSIColors::Red, false) => "crimson",
        (ANSIColors::Red, true) => "red",
        (ANSIColors::White, _) => "white",
        (ANSIColors::Yellow, _) => "yellow",
    }
}

/// `code` added to a semicolon-separated list: a separator first unless the
/// list is still empty.
pub open spec fn style_piece(s: Seq<char>, code: Seq<char>) -> Seq<char> {
    if s.len() == 0 {
        code
    } else {
        s + seq![';'] + code
    }
}

/// The semicolon-separated ANSI SGR codes of a styling descriptor, in the
/// order bold, italic, underline, foreground, background.
pub open spec fn ansi_style_digits(f: TextFormatting) -> Seq<char> {
    let s1 = if f.bold {
        "1"@
    } else {
        Seq::<char>::empty()
    };
    let s2 = if f.italic {
        style_piece(s1, "3"@)
    } else {
        s1
    };
    let s3 = if f.underline {
        style_piece(s2, "4"@)
    } else {
        s2
    };
    let s4 = match f.color {
        Some(c) => style_piece(s3, dec_digits(ansi_color_num(c, false) as nat)),
        None => s3,
    };
    match f.bgcolor {
        Some(c) => style_piece(s4, dec_digits(ansi_color_num(c, true) as nat)),
        None => s4,
    }
}

/// An atom as ANSI terminal text: the styled content between one select-
/// graphic-rendition sequence and a reset, or the bare content when the
/// atom has no styling.
pub open spec fn ansi_atom_digits(t: TextAtom) -> Seq<char> {
    match t.special_formatting {
        None => t.content@,
        Some(f) => "\u{1b}["@ + ansi_style_digits(f) + "m"@ + t.content@ + "\u{1b}[0m"@,
    }
}

/// Renders an atom as ANSI terminal text.
#[verifier::rlimit(60)]
pub fn render_ansi_atom(text: TextAtom) -> (r: String)
    ensures
        r@ == ansi_atom_digits(text),
{
    match text.special_formatting {
        None => text.content,
        Some(f) => {
            let mut style = String::new();
            let mut empty = true;
            if f.bold {
                style.append("1");
                empty = false;
            }
            proof {
                reveal_strlit("1");
            }
            if f.italic {
                if !empty {
                    style.append(";");
                }
                style.append("3");
                empty = false;
            }
            proof {
                reveal_strlit("3");
                reveal_strlit(";");
                assert(style@ =~= {
                    let s1 = if f.bold {
                        "1"@
                    } else {
                        Seq::<char>::empty()
                    };
                    if f.italic {
                        style_piece(s1, "3"@)
                    } else {
                        s1
                    }
                });
            }
            if f.underline {
                if !empty {
                    style.append(";");
                }
                style.append("4");
                empty = false;
            }
            proof {
                reveal_strlit("4");
                assert(style@ =~= {
                    let s1 = if f.bold {
                        "1"@
                    } else {
                        Seq::<char>::empty()
                    };
                    let s2 = if f.italic {
                        style_piece(s1, "3"@)
                    } else {
                        s1
                    };
                    if f.underline {
                        style_piece(s2, "4"@)
                    } else {
                        s2
                    }
                });
            }
            if let Some(c) = f.color {
                if !empty {
                    style.append(";");
                }
                style.append(u64_to_string(ansi_color_number(c, false) as u64).as_str());
                empty = false;
            }
            proof {
                assert(style@ =~= {
                    let s1 = if f.bold {
                        "1"@
                    } else {
                        Seq::<char>::empty()
                    };
                    let s2 = if f.italic {
                        style_piece(s1, "3"@)
                    } else {
                        s1
                    };
                    let s3 = if f.underline {
                        style_piece(s2, "4"@)
                    } else {
                        s2
                    };
                    match f.color {
                        Some(c) => style_piece(s3, dec_digits(ansi_color_num(c, false) as nat)),
                        None => s3,
                    }
                });
            }
            if let Some(c) = f.bgcolor {
                if !empty {
                    style.append(";");
                }
                style.append(u64_to_string(ansi_color_number(c, true) as u64).as_str());
                empty = false;
            }
            proof {
                assert(style@ =~= ansi_style_digits(f));
            }
            let mut out = String::from_str("\u{1b}[");
            out.append(style.as_str());
            out.append("m");
            out.append(text.content.as_str());
            out.append("\u{1b}[0m");
            proof {
                reveal_strlit("\u{1b}[");
                reveal_strlit("m");
                reveal_strlit("\u{1b}[0m");
                assert(out@ =~= ansi_atom_digits(text));
            }
            out
        },
    }
}

/// What one character of text becomes inside markup: the three characters
/// with meaning there are replaced by their entities, everything else is
/// kept.
pub open spec fn html_escape_char(c: char) -> Seq<char> {
    if c == '&' {
        "&amp;"@
    } else if c == '<' {
        "&lt;"@
    } else if c == '>' {
        "&gt;"@
    } else {
        seq![c]
    }
}

/// Text with every markup-significant character replaced by its entity.
pub open spec fn html_escaped(s: Seq<char>) -> Seq<char>
    decreases s.len(),
{
    if s.len() == 0 {
        Seq::<char>::empty()
    } else {
        html_escape_char(s[0]) + html_escaped(s.drop_first())
    }
}

/// Relies on html_escape::encode_text: it escapes exactly `&`, `<` and `>`,
/// to `&amp;`, `&lt;` and `&gt;`, and keeps every other character.
#[verifier::external_body]
fn escape_html_text(s: &str) -> (r: String)
    ensures
        r@ == html_escaped(s@),
{
    html_escape::encode_text(s).to_string()
}

/// The CSS declarations of a styling descriptor, in the order bold, italic,
/// underline, background color, foreground color.
pub open spec fn html_style_digits(f: TextFormatting) -> Seq<char> {
    (if f.bold {
        "font-weight: bold;"@
    } else {
        Seq::<char>::empty()
    }) + (if f.italic {
        "font-style: italic;"@
    } else {
        Seq::<char>::empty()
    }) + (if f.underline {
        "text-decoration: underline;"@
    } else {
        Seq::<char>::empty()
    }) + (match f.bgcolor {
        Some(c) => "background-color: "@ + html_color_of(c) + ";"@,
        None => Seq::<char>::empty(),
    }) + (match f.color {
        Some(c) => "color: "@ + html_color_of(c) + ";"@,
        None => Seq::<char>::empty(),
    })
}

/// An atom as markup: a span carrying the style declarations around the
/// escaped content, or the escaped content alone when the atom has no
/// styling.
pub open spec fn html_atom_digits(t: TextAtom) -> Seq<char> {
    match t.special_formatting {
        None => html_escaped(t.content@),
        Some(f) => "<span style=\""@ + html_style_digits(f) + "\">"@ + html_escaped(t.content@)
            + "</span>"@,
    }
}

/// Renders an atom as markup.
#[verifier::rlimit(60)]
pub fn render_html_atom(atom: TextAtom) -> (r: String)
    ensures
        r@ == html_atom_digits(atom),
{
    match atom.special_formatting {
        None => escape_html_text(atom.content.as_str()),
        Some(f) => {
            let mut style = String::new();
            if f.bold {
                style.append("font-weight: bold;");
            }
            if f.italic {
                style.append("font-style: italic;");
            }
            if f.underline {
                style.append("text-decoration: underline;");
            }
            proof {
                assert(style@ =~= (if f.bold {
                    "font-weight: bold;"@
                } else {
                    Seq::<char>::empty()
                }) + (if f.italic {
                    "font-style: italic;"@
                } else {
                    Seq::<char>::empty()
                }) + (if f.underline {
                    "text-decoration: underline;"@
                } else {
                    Seq::<char>::empty()
                }));
            }
            if let Some(c) = f.bgcolor {
                style.append("background-color: ");
                style.append(render_html_color(c));
                style.append(";");
            }
            proof {
                assert(style@ =~= (if f.bold {
                    "font-weight: bold;"@
                } else {
                    Seq::<char>::empty()
                }) + (if f.italic {
                    "font-style: italic;"@
                } else {
                    Seq::<char>::empty()
                }) + (if f.underline {
                    "text-decoration: underline;"@
                } else {
                    Seq::<char>::empty()
                }) + (match f.bgcolor {
                    Some(c) => "background-color: "@ + html_color_of(c) + ";"@,
                    None => Seq::<char>::empty(),
                }));
            }
            if let Some(c) = f.color {
                style.append("color: ");
                style.append(render_html_color(c));
                style.append(";");
            }
            proof {
                assert(style@ =~= html_style_digits(f));
            }
            let mut out = String::from_str("<span style=\"");
            out.append(style.as_str());
            out.append("\">");
            out.append(escape_html_text(atom.content.as_str()).as_str());
            out.append("</span>");
            proof {
                assert(out@ =~= html_atom_digits(atom));
            }
            out
        },
    }
}

/// Which textual back end renders the report.
#[derive(Clone, Copy, Debug, PartialEq, Eq)]
pub enum DriverKind {
    Ansi,
    Html,
    Plain,
}

/// A rendering driver: turns atoms into text for its back end and knows its
/// line ending. Headers and footers are static boilerplate outside this
/// crate.
#[derive(Clone, Copy, Debug, PartialEq, Eq)]
pub struct Driver {
    pub kind: DriverKind,
}

impl Driver {
    /// Renders one atom for this driver's back end. The plain back end
    /// drops styling and keeps the content exactly.
    pub fn render_atom(&self, atom: TextAtom) -> (r: String)
        ensures
            r@ == match self.kind {
                DriverKind::Ansi => ansi_atom_digits(atom),
                DriverKind::Html => html_atom_digits(atom),
                DriverKind::Plain => atom.content@,
            },
    {
        match self.kind {
            DriverKind::Ansi => render_ansi_atom(atom),
            DriverKind::Html => render_html_atom(atom),
            DriverKind::Plain => atom.content,
        }
    }

    /// The line ending of this driver's back end.
    pub fn eol(&self) -> (r: &'static str)
        ensures
            r@ == match self.kind {
                DriverKind::Html => "<br>"@,
                _ => "\n"@,
            },
    {
        match self.kind {
            DriverKind::Html => "<br>",
            _ => "\n",
        }
    }
}

} // verus!
