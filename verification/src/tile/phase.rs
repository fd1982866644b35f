//! The phase tile: a lit-crescent silhouette approximated from the phase
//! angle, drawn over a fixed ellipse, beside the textual phase description.
//!
//! The silhouette is two-dimensional: each row of the disk is the chord of
//! an ellipse, and the illuminated span retreats from one side by the
//! scaled cosine of the phase angle. It is a pure function of its inputs,
//! independent across rows.

use vstd::prelude::*;
use vstd::string::StringExecFns;
use vstd::arithmetic::div_mod::{lemma_div_pos_is_pos, lemma_div_is_ordered,
    lemma_multiply_divide_lt, lemma_multiply_divide_le, lemma_div_multiples_vanish};
use crate::strfmt::{char_rep, pad_center, pad_right, center_str, pad_right_str, repeat_str};
use crate::text::{TextAtom, TextFormatting, Color, ANSIColors};
use crate::tile::{row_text, lemma_row_text1, lemma_row_text2, lemma_row_text3, plain_atom};
use crate::trig::{cos_milli, cos_milli_spec, lemma_cos_milli_range, lemma_cos_milli_zero, lemma_cos_milli_mono,
    lemma_cos_milli_half_turn, tdiv1000, tdiv1000_i64, lemma_tdiv1000_mono, lemma_tdiv1000_bound,
    sqrt_floor, lemma_sqrt_floor, is_isqrt, isqrt64};
use crate::value::{CelObj, PlanetId, Value, PhaseView, CAS_TURN, CAS_HALF};
use crate::render::{value_digits, render_value};

verus! {

/// The color a body's crescent is drawn in.
pub open spec fn color_of_spec(obj: CelObj) -> Color {
    match obj {
        CelObj::Moon => Color(ANSIColors::White, false),
        CelObj::Planet(p) => match p {
            PlanetId::Venus | PlanetId::Pluto => Color(ANSIColors::White, true),
            PlanetId::Mars => Color(ANSIColors::Red, false),
            PlanetId::Jupiter | PlanetId::Saturn => Color(ANSIColors::Yellow, false),
            PlanetId::Uranus => Color(ANSIColors::Cyan, true),
            PlanetId::Neptune => Color(ANSIColors::Blue, false),
            PlanetId::Mercury => Color(ANSIColors::White, false),
        },
        _ => Color(ANSIColors::White, false),
    }
}

/// Returns the color a body's crescent is drawn in. Only bodies that show
/// phases have one.
pub fn color_of(obj: &CelObj) -> (r: Color)
    requires
        obj matches CelObj::Moon || obj matches CelObj::Planet(_),
    ensures
        r == color_of_spec(*obj),
{
    match obj {
        CelObj::Moon => Color(ANSIColors::White, false),
        CelObj::Planet(p) => match p {
            PlanetId::Venus | PlanetId::Pluto => Color(ANSIColors::White, true),
            PlanetId::Mars => Color(ANSIColors::Red, false),
            PlanetId::Jupiter | PlanetId::Saturn => Color(ANSIColors::Yellow, false),
            PlanetId::Uranus => Color(ANSIColors::Cyan, true),
            PlanetId::Neptune => Color(ANSIColors::Blue, false),
            PlanetId::Mercury => Color(ANSIColors::White, false),
        },
        _ => vstd::pervasive::unreached(),
    }
}

/// The ellipse's vertical radius in thousandths of a row.
pub open spec fn cres_yr(numlines: int) -> int {
    numlines * 500
}

/// The ellipse's horizontal radius in thousandths of a column: the vertical
/// radius divided by the aspect ratio (given in thousandths).
pub open spec fn cres_xr(aspect: int, numlines: int) -> int {
    cres_yr(numlines) * 1000 / aspect
}

/// The half-width of the full disk at a row, in thousandths of a column,
/// from the ellipse equation.
pub open spec fn cres_halfwidth(line: int, aspect: int, numlines: int) -> int {
    let yr = cres_yr(numlines);
    let y = line * 1000 + 500 - yr;
    cres_xr(aspect, numlines) * sqrt_floor(yr * yr - y * y) / yr
}

/// The factor, in thousandths, by which the terminator side of the disk is
/// scaled: the negated cosine of the phase angle at the nearest whole
/// degree. Minus one at new, one at full.
pub open spec fn cres_mcap(phase: int) -> int {
    -cos_milli_spec((phase + 180000) / 360000)
}

/// Which half-cycle the phase angle falls into; in the first the left edge
/// retreats, in the second the right.
pub open spec fn cres_waxing(phase: int) -> bool {
    phase < CAS_HALF
}

/// The left edge of the illuminated span, in thousandths of a column from
/// the disk's center.
pub open spec fn cres_xleft(phase: int, line: int, aspect: int, numlines: int) -> int {
    let h = cres_halfwidth(line, aspect, numlines);
    if cres_waxing(phase) {
        tdiv1000(cres_mcap(phase) * -h)
    } else {
        -h
    }
}

/// The right edge of the illuminated span, in thousandths of a column from
/// the disk's center.
pub open spec fn cres_xright(phase: int, line: int, aspect: int, numlines: int) -> int {
    let h = cres_halfwidth(line, aspect, numlines);
    if cres_waxing(phase) {
        h
    } else {
        tdiv1000(cres_mcap(phase) * h)
    }
}

/// The column of the disk's center.
pub open spec fn cres_base(aspect: int, numlines: int) -> int {
    (cres_xr(aspect, numlines) + 500) / 1000
}

/// The first illuminated column of a row.
pub open spec fn cres_col_left(phase: int, line: int, aspect: int, numlines: int) -> int {
    cres_base(aspect, numlines) + tdiv1000(cres_xleft(phase, line, aspect, numlines) + 500)
}

/// The last illuminated column of a row.
pub open spec fn cres_col_right(phase: int, line: int, aspect: int, numlines: int) -> int {
    cres_base(aspect, numlines) + tdiv1000(cres_xright(phase, line, aspect, numlines) + 500)
}

/// One rendered row of the crescent: spaces up to the left edge, then fill
/// characters through the right edge.
pub open spec fn crescent_text(phase: int, line: int, aspect: int, numlines: int) -> Seq<char> {
    char_rep(' ', cres_col_left(phase, line, aspect, numlines) as nat) + char_rep(
        '@',
        (cres_col_right(phase, line, aspect, numlines) - cres_col_left(
            phase,
            line,
            aspect,
            numlines,
        ) + 1) as nat,
    )
}

/// The ranges the crescent's inputs must lie in.
pub open spec fn cres_args_ok(phase: int, line: int, aspect: int, numlines: int) -> bool {
    &&& 0 <= phase < CAS_TURN
    &&& 0 <= line < numlines
    &&& 1 <= numlines <= 1000
    &&& 100 <= aspect <= 100000
}

/// An integer square root exists for every nonnegative value.
proof fn lemma_sqrt_exists(n: int)
    requires
        0 <= n,
    ensures
        exists|r: int| #[trigger] is_isqrt(n, r),
    decreases n,
{
    if n == 0 {
        assert(is_isqrt(0, 0));
    } else {
        lemma_sqrt_exists(n - 1);
        let r = choose|r: int| #[trigger] is_isqrt(n - 1, r);
        if n < (r + 1) * (r + 1) {
            assert(is_isqrt(n, r));
        } else {
            assert(is_isqrt(n, r + 1)) by (nonlinear_arith)
                requires
                    0 <= r && r * r <= n - 1 && n - 1 < (r + 1) * (r + 1) && (r + 1) * (r + 1)
                        <= n,
            ;
        }
    }
}

/// The scaled cosine stays within plus and minus one.
proof fn lemma_mcap_range(phase: int)
    requires
        0 <= phase < CAS_TURN,
    ensures
        -1000 <= cres_mcap(phase) <= 1000,
{
    lemma_div_pos_is_pos(phase + 180000, 360000);
    lemma_multiply_divide_lt(phase + 180000, 360000, 361);
    lemma_cos_milli_range((phase + 180000) / 360000);
}

/// The geometry stays in range: the half-width lies between zero and the
/// horizontal radius, both edges lie within the disk, and the columns lie
/// between zero and the disk's width.
pub proof fn lemma_cres_bounds(phase: int, line: int, aspect: int, numlines: int)
    requires
        cres_args_ok(phase, line, aspect, numlines),
    ensures
        0 <= cres_halfwidth(line, aspect, numlines) <= cres_xr(aspect, numlines),
        -cres_halfwidth(line, aspect, numlines) <= cres_xleft(phase, line, aspect, numlines)
            <= cres_xright(phase, line, aspect, numlines) <= cres_halfwidth(
            line,
            aspect,
            numlines,
        ),
        0 <= cres_col_left(phase, line, aspect, numlines) <= cres_col_right(
            phase,
            line,
            aspect,
            numlines,
        ) <= 2 * cres_base(aspect, numlines),
        0 <= cres_base(aspect, numlines),
{
    let yr = cres_yr(numlines);
    let xr = cres_xr(aspect, numlines);
    let y = line * 1000 + 500 - yr;
    let under = yr * yr - y * y;
    assert(500 <= yr <= 500000);
    assert(0 < under <= yr * yr) by (nonlinear_arith)
        requires
            500 <= yr,
            0 <= line < numlines,
            yr == numlines * 500,
            y == line * 1000 + 500 - yr,
            under == yr * yr - y * y,
    ;
    lemma_sqrt_exists(under);
    let s = sqrt_floor(under);
    assert(is_isqrt(under, s));
    assert(0 <= s <= yr) by (nonlinear_arith)
        requires
            0 <= s && s * s <= under && under <= yr * yr && 0 < yr,
    ;
    lemma_div_pos_is_pos(yr * 1000, aspect);
    assert(xr >= 0);
    lemma_div_pos_is_pos(xr * s, yr);
    assert(xr * s <= yr * xr) by (nonlinear_arith)
        requires
            0 <= s <= yr && 0 <= xr,
    ;
    lemma_multiply_divide_le(xr * s, yr, xr);
    let h = cres_halfwidth(line, aspect, numlines);
    assert(0 <= h <= xr);
    // Both edges lie within [-h, h].
    lemma_mcap_range(phase);
    let m = cres_mcap(phase);
    assert(-(h * 1000) <= m * -h <= h * 1000 && -(h * 1000) <= m * h <= h * 1000)
        by (nonlinear_arith)
        requires
            -1000 <= m <= 1000,
            0 <= h,
    ;
    lemma_tdiv1000_bound(m * -h, h);
    lemma_tdiv1000_bound(m * h, h);
    let xl = cres_xleft(phase, line, aspect, numlines);
    let xrh = cres_xright(phase, line, aspect, numlines);
    assert(-h <= xl <= xrh <= h);
    // The columns follow by the monotonicity of truncating division.
    let base = cres_base(aspect, numlines);
    lemma_div_pos_is_pos(xr + 500, 1000);
    lemma_tdiv1000_mono(xl + 500, xrh + 500);
    lemma_tdiv1000_mono(xrh + 500, xr + 500);
    assert(tdiv1000(xr + 500) == base);
    lemma_tdiv1000_mono(500 - xr, xl + 500);
    if xr >= 500 {
        lemma_div_is_ordered(xr - 500, xr + 500, 1000);
        assert(tdiv1000(500 - xr) == -((xr - 500) / 1000));
    } else {
        lemma_div_pos_is_pos(500 - xr, 1000);
    }
}

/// Draws one row of the crescent: the illuminated span of the disk at a
/// phase angle, as spaces followed by fill characters.
pub fn crecent_slice(phaseangle: i64, line: u64, aspect_milli: i64, numlines: u64) -> (r: String)
    requires
        cres_args_ok(phaseangle as int, line as int, aspect_milli as int, numlines as int),
    ensures
        r@ == crescent_text(phaseangle as int, line as int, aspect_milli as int, numlines as int),
        r@.len() == cres_col_right(
            phaseangle as int,
            line as int,
            aspect_milli as int,
            numlines as int,
        ) + 1,
        r@.len() <= 2 * cres_base(aspect_milli as int, numlines as int) + 1,
{
    proof {
        lemma_cres_bounds(phaseangle as int, line as int, aspect_milli as int, numlines as int);
    }
    let yr: i64 = (numlines as i64) * 500;
    let xr: i64 = yr * 1000 / aspect_milli;
    let y: i64 = (line as i64) * 1000 + 500 - yr;
    proof {
        assert(-yr <= y <= yr) by (nonlinear_arith)
            requires
                0 <= line < numlines,
                yr == numlines * 500,
                y == line * 1000 + 500 - yr,
                numlines >= 1,
        ;
        assert(0 <= yr * yr <= 0x4000000000000 && 0 <= y * y <= yr * yr) by (nonlinear_arith)
            requires
                500 <= yr <= 500000,
                -yr <= y <= yr,
        ;
    }
    let under: i64 = yr * yr - y * y;
    let s: i64 = isqrt64(under as u64) as i64;
    proof {
        assert(s == sqrt_floor(under as int));
        assert(0 <= s <= yr) by (nonlinear_arith)
            requires
                0 <= s && s * s <= yr * yr - y * y && y * y >= 0 && 0 < yr,
        ;
        assert(xr <= 5000000) by {
            lemma_multiply_divide_le(yr as int * 1000, aspect_milli as int, 5000000);
            assert(yr * 1000 <= aspect_milli * 5000000) by (nonlinear_arith)
                requires
                    yr <= 500000 && aspect_milli >= 100,
            ;
        }
        assert(xr * s <= 5000000 * 500000int) by (nonlinear_arith)
            requires
                0 <= xr <= 5000000 && 0 <= s <= 500000,
        ;
    }
    let h: i64 = xr * s / yr;
    let deg: u64 = ((phaseangle + 180000) / 360000) as u64;
    proof {
        lemma_div_pos_is_pos(phaseangle as int + 180000, 360000);
        lemma_multiply_divide_lt(phaseangle as int + 180000, 360000, 361);
    }
    let mcap: i64 = -cos_milli(deg);
    let xleft: i64;
    let xright: i64;
    proof {
        assert(-(h * 1000) <= mcap * -h <= h * 1000 && -(h * 1000) <= mcap * h <= h * 1000)
            by (nonlinear_arith)
            requires
                -1000 <= mcap <= 1000,
                0 <= h,
        ;
    }
    if phaseangle < CAS_HALF {
        xleft = tdiv1000_i64(mcap * -h);
        xright = h;
    } else {
        xleft = -h;
        xright = tdiv1000_i64(mcap * h);
    }
    let base: i64 = (xr + 500) / 1000;
    let colleft: i64 = base + tdiv1000_i64(xleft + 500);
    let colright: i64 = base + tdiv1000_i64(xright + 500);
    proof {
        assert(colleft == cres_col_left(
            phaseangle as int,
            line as int,
            aspect_milli as int,
            numlines as int,
        ));
        assert(colright == cres_col_right(
            phaseangle as int,
            line as int,
            aspect_milli as int,
            numlines as int,
        ));
    }
    proof {
        reveal_strlit(" ");
        reveal_strlit("@");
    }
    let mut out = repeat_str(" ", colleft as usize);
    let fill = repeat_str("@", (colright - colleft + 1) as usize);
    out.append(fill.as_str());
    proof {
        assert(out@ =~= crescent_text(
            phaseangle as int,
            line as int,
            aspect_milli as int,
            numlines as int,
        ));
    }
    out
}

/// Law: at phase angle zero (new) the illuminated span of every row has
/// zero width: its left and right columns coincide.
pub proof fn lemma_crescent_new_zero_width(line: int, aspect: int, numlines: int)
    requires
        cres_args_ok(0, line, aspect, numlines),
    ensures
        cres_col_left(0, line, aspect, numlines) == cres_col_right(0, line, aspect, numlines),
{
    lemma_cos_milli_zero();
    lemma_cres_bounds(0, line, aspect, numlines);
    let h = cres_halfwidth(line, aspect, numlines);
    assert(cres_mcap(0) == -1000);
    assert(cres_mcap(0) * -h == 1000 * h) by (nonlinear_arith);
    lemma_div_multiples_vanish(h, 1000);
    assert(tdiv1000(1000 * h) == h);
    assert(cres_xleft(0, line, aspect, numlines) == h);
    assert(cres_xright(0, line, aspect, numlines) == h);
}

/// Law: at phase angle half a turn (full) the whole disk is illuminated:
/// the span equals the full-ellipse span of the row, the left edge the
/// mirror of the right.
pub proof fn lemma_crescent_full_width(line: int, aspect: int, numlines: int)
    requires
        cres_args_ok(CAS_HALF as int, line, aspect, numlines),
    ensures
        cres_xleft(CAS_HALF as int, line, aspect, numlines) == -cres_halfwidth(
            line,
            aspect,
            numlines,
        ),
        cres_xright(CAS_HALF as int, line, aspect, numlines) == cres_halfwidth(
            line,
            aspect,
            numlines,
        ),
{
    lemma_cos_milli_half_turn();
    lemma_cres_bounds(CAS_HALF as int, line, aspect, numlines);
    let h = cres_halfwidth(line, aspect, numlines);
    assert((CAS_HALF + 180000) / 360000 == 180) by (nonlinear_arith);
    assert(cres_mcap(CAS_HALF as int) == 1000);
    assert(!cres_waxing(CAS_HALF as int));
    assert(cres_mcap(CAS_HALF as int) * h == 1000 * h) by (nonlinear_arith);
    lemma_div_multiples_vanish(h, 1000);
    assert(tdiv1000(1000 * h) == h);
}

/// Law: for a fixed row and a fixed half-cycle, the illuminated width is
/// monotone in the scaled cosine: as the terminator retreats (the scaled
/// cosine of the first phase at most that of the second) the span can only
/// widen.
pub proof fn lemma_crescent_monotone(p1: int, p2: int, line: int, aspect: int, numlines: int)
    requires
        cres_args_ok(p1, line, aspect, numlines),
        cres_args_ok(p2, line, aspect, numlines),
        cres_waxing(p1) == cres_waxing(p2),
        cres_mcap(p1) <= cres_mcap(p2),
    ensures
        cres_col_right(p1, line, aspect, numlines) - cres_col_left(p1, line, aspect, numlines)
            <= cres_col_right(p2, line, aspect, numlines) - cres_col_left(
            p2,
            line,
            aspect,
            numlines,
        ),
{
    lemma_cres_bounds(p1, line, aspect, numlines);
    lemma_cres_bounds(p2, line, aspect, numlines);
    let h = cres_halfwidth(line, aspect, numlines);
    let m1 = cres_mcap(p1);
    let m2 = cres_mcap(p2);
    if cres_waxing(p1) {
        assert(m1 * -h >= m2 * -h) by (nonlinear_arith)
            requires
                m1 <= m2,
                0 <= h,
        ;
        lemma_tdiv1000_mono(m2 * -h, m1 * -h);
        lemma_tdiv1000_mono(cres_xleft(p2, line, aspect, numlines) + 500, cres_xleft(
            p1,
            line,
            aspect,
            numlines,
        ) + 500);
    } else {
        assert(m1 * h <= m2 * h) by (nonlinear_arith)
            requires
                m1 <= m2,
                0 <= h,
        ;
        lemma_tdiv1000_mono(m1 * h, m2 * h);
        lemma_tdiv1000_mono(cres_xright(p1, line, aspect, numlines) + 500, cres_xright(
            p2,
            line,
            aspect,
            numlines,
        ) + 500);
    }
}

/// Law: through the first half-cycle the illuminated width of every row
/// never shrinks as the phase angle grows from new toward full.
pub proof fn lemma_crescent_waxes(p1: int, p2: int, line: int, aspect: int, numlines: int)
    requires
        cres_args_ok(p1, line, aspect, numlines),
        cres_args_ok(p2, line, aspect, numlines),
        p1 <= p2,
        p2 < CAS_HALF,
    ensures
        cres_col_right(p1, line, aspect, numlines) - cres_col_left(p1, line, aspect, numlines)
            <= cres_col_right(p2, line, aspect, numlines) - cres_col_left(
            p2,
            line,
            aspect,
            numlines,
        ),
{
    lemma_div_pos_is_pos(p1 + 180000, 360000);
    lemma_div_is_ordered(p1 + 180000, p2 + 180000, 360000);
    lemma_multiply_divide_lt(p2 + 180000, 360000, 181);
    lemma_cos_milli_mono((p1 + 180000) / 360000, (p2 + 180000) / 360000);
    lemma_crescent_monotone(p1, p2, line, aspect, numlines);
}

/// Law: through the second half-cycle the illuminated width of every row
/// never grows as the phase angle moves on from full back toward new.
pub proof fn lemma_crescent_wanes(p1: int, p2: int, line: int, aspect: int, numlines: int)
    requires
        cres_args_ok(p1, line, aspect, numlines),
        cres_args_ok(p2, line, aspect, numlines),
        CAS_HALF <= p1,
        p1 <= p2,
    ensures
        cres_col_right(p2, line, aspect, numlines) - cres_col_left(p2, line, aspect, numlines)
            <= cres_col_right(p1, line, aspect, numlines) - cres_col_left(
            p1,
            line,
            aspect,
            numlines,
        ),
{
    lemma_div_is_ordered(64980000, p1 + 180000, 360000);
    lemma_div_is_ordered(p1 + 180000, p2 + 180000, 360000);
    lemma_multiply_divide_lt(p2 + 180000, 360000, 361);
    let d1 = (p1 + 180000) / 360000;
    let d2 = (p2 + 180000) / 360000;
    // On the folded side the cosine rises again: compare the mirrors.
    lemma_cos_milli_mono(360 - d2, 360 - d1);
    assert(cos_milli_spec(d1) == cos_milli_spec(360 - (360 - d1)));
    assert(cos_milli_spec(d2) == cos_milli_spec(360 - (360 - d2)));
    lemma_crescent_monotone(p2, p1, line, aspect, numlines);
}

/// The textual phase description shown beside the crescent.
pub open spec fn phase_default_digits(phase: int) -> Seq<char> {
    value_digits(Value::Phase(phase as i64, PhaseView::Default(true)))
}

/// The text of one row of the phase tile: a titled top border, ten rows of
/// crescent art, the middle row of art beside the phase description, a
/// bottom border, and blank filler. The tile follows another panel and
/// omits the shared left border.
pub open spec fn phase_line_text(phase: int, line: int) -> Seq<char> {
    if line == 0 {
        pad_center(" Phase "@, 53, '-') + seq!['+']
    } else if line == 7 {
        pad_right(crescent_text(phase, 5, 500, 10), 23, ' ') + pad_center(
            phase_default_digits(phase),
            30,
            ' ',
        ) + seq!['|']
    } else if 2 <= line < 12 {
        pad_right(crescent_text(phase, line - 2, 500, 10), 53, ' ') + seq!['|']
    } else if line == 14 {
        char_rep('-', 53) + seq!['+']
    } else {
        char_rep(' ', 53) + seq!['|']
    }
}

/// The styling of the phase tile's atoms: crescent art in the body's color
/// and bold, the phase description bold, borders and filler unstyled.
pub open spec fn phase_tile_atoms_ok(atoms: Seq<TextAtom>, obj: CelObj, line: int) -> bool {
    if line == 7 {
        &&& atoms.len() == 3
        &&& atoms[0].special_formatting == Some(
            TextFormatting {
                bold: true,
                italic: false,
                underline: false,
                color: Some(color_of_spec(obj)),
                bgcolor: None,
            },
        )
        &&& atoms[1].special_formatting == Some(
            TextFormatting {
                bold: true,
                italic: false,
                underline: false,
                color: None,
                bgcolor: None,
            },
        )
        &&& atoms[2].special_formatting is None
    } else if 2 <= line < 12 {
        &&& atoms.len() == 2
        &&& atoms[0].special_formatting == Some(
            TextFormatting {
                bold: true,
                italic: false,
                underline: false,
                color: Some(color_of_spec(obj)),
                bgcolor: None,
            },
        )
        &&& atoms[1].special_formatting is None
    } else {
        atoms.len() == 1 && atoms[0].special_formatting is None
    }
}

/// One row of the phase tile for a body at a phase angle.
pub fn phase_tile(phaseangle: i64, line: usize, obj: &CelObj) -> (r: Vec<TextAtom>)
    requires
        0 <= phaseangle < CAS_TURN,
        line <= 14,
        obj matches CelObj::Moon || obj matches CelObj::Planet(_),
    ensures
        row_text(r@) == phase_line_text(phaseangle as int, line as int),
        row_text(r@).len() == 54,
        phase_tile_atoms_ok(r@, *obj, line as int),
{
    proof {
        reveal_strlit(" Phase ");
        reveal_strlit("|");
        reveal_strlit("+");
        reveal_strlit("-");
        reveal_strlit(" ");
    }
    let fmt_art = TextFormatting {
        bold: true,
        italic: false,
        underline: false,
        color: Some(color_of(obj)),
        bgcolor: None,
    };
    if line == 0 {
        let mut s = center_str(" Phase ", 53, "-");
        s.append("+");
        let r: Vec<TextAtom> = vec![plain_atom(s)];
        proof {
            lemma_row_text1(r@);
            assert(row_text(r@) =~= phase_line_text(phaseangle as int, line as int));
        }
        r
    } else if line == 7 {
        proof {
            assert(cres_base(500, 10) == 10);
        }
        let art = crecent_slice(phaseangle, 5, 500, 10);
        let a0 = TextAtom {
            content: pad_right_str(art.as_str(), 23, " "),
            special_formatting: Some(fmt_art),
        };
        let desc = render_value(&Value::Phase(phaseangle, PhaseView::Default(true)));
        let a1 = TextAtom {
            content: center_str(desc.as_str(), 30, " "),
            special_formatting: Some(
                TextFormatting {
                    bold: true,
                    italic: false,
                    underline: false,
                    color: None,
                    bgcolor: None,
                },
            ),
        };
        let a2 = plain_atom(String::from_str("|"));
        let r: Vec<TextAtom> = vec![a0, a1, a2];
        proof {
            lemma_row_text3(r@);
            assert(row_text(r@) =~= phase_line_text(phaseangle as int, line as int));
        }
        r
    } else if 2 <= line && line < 12 {
        proof {
            assert(cres_base(500, 10) == 10);
        }
        let art = crecent_slice(phaseangle, (line - 2) as u64, 500, 10);
        let a0 = TextAtom {
            content: pad_right_str(art.as_str(), 53, " "),
            special_formatting: Some(fmt_art),
        };
        let a1 = plain_atom(String::from_str("|"));
        let r: Vec<TextAtom> = vec![a0, a1];
        proof {
            lemma_row_text2(r@);
            assert(row_text(r@) =~= phase_line_text(phaseangle as int, line as int));
        }
        r
    } else if line == 14 {
        let mut s = repeat_str("-", 53);
        s.append("+");
        let r: Vec<TextAtom> = vec![plain_atom(s)];
        proof {
            lemma_row_text1(r@);
            assert(row_text(r@) =~= phase_line_text(phaseangle as int, line as int));
        }
        r
    } else {
        let mut s = repeat_str(" ", 53);
        s.append("|");
        let r: Vec<TextAtom> = vec![plain_atom(s)];
        proof {
            lemma_row_text1(r@);
            assert(row_text(r@) =~= phase_line_text(phaseangle as int, line as int));
        }
        r
    }
}

} // verus!
