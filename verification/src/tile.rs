//! The tile engine: fixed 15-row panels of styled text.
//!
//! Every row of a tile renders to a fixed number of content characters —
//! 55 for a leading panel with both borders, 54 for a panel that follows
//! another and omits the shared left border — so tiles concatenate
//! losslessly into a multi-panel report. This module holds the row model,
//! the placeholder tiles, and the bracket lookup the brightness and
//! distance panels share.

pub mod brightness;
pub mod distance;
pub mod location;
pub mod phase;

use vstd::prelude::*;
use vstd::string::StringExecFns;
use crate::strfmt::{char_rep, pad_center, center_str, repeat_str};
use crate::text::TextAtom;

verus! {

/// The concatenated content of a row's atoms, without styling.
pub open spec fn row_text(atoms: Seq<TextAtom>) -> Seq<char>
    decreases atoms.len(),
{
    if atoms.len() == 0 {
        Seq::<char>::empty()
    } else {
        atoms[0].content@ + row_text(atoms.drop_first())
    }
}

/// The content of a one-atom row is that atom's content.
pub proof fn lemma_row_text1(atoms: Seq<TextAtom>)
    requires
        atoms.len() == 1,
    ensures
        row_text(atoms) == atoms[0].content@,
{
    assert(atoms.drop_first().len() == 0);
    assert(row_text(atoms.drop_first()) =~= Seq::<char>::empty());
    assert(row_text(atoms) =~= atoms[0].content@);
}

/// The content of a two-atom row is the concatenation of both contents.
pub proof fn lemma_row_text2(atoms: Seq<TextAtom>)
    requires
        atoms.len() == 2,
    ensures
        row_text(atoms) == atoms[0].content@ + atoms[1].content@,
{
    lemma_row_text1(atoms.drop_first());
    assert(atoms.drop_first()[0] == atoms[1]);
}

/// The content of a three-atom row is the concatenation of the three.
pub proof fn lemma_row_text3(atoms: Seq<TextAtom>)
    requires
        atoms.len() == 3,
    ensures
        row_text(atoms) == atoms[0].content@ + (atoms[1].content@ + atoms[2].content@),
{
    lemma_row_text2(atoms.drop_first());
    assert(atoms.drop_first()[0] == atoms[1]);
    assert(atoms.drop_first()[1] == atoms[2]);
}

/// The content of a four-atom row is the concatenation of the four.
pub proof fn lemma_row_text4(atoms: Seq<TextAtom>)
    requires
        atoms.len() == 4,
    ensures
        row_text(atoms) == atoms[0].content@ + (atoms[1].content@ + (atoms[2].content@
            + atoms[3].content@)),
{
    lemma_row_text3(atoms.drop_first());
    assert(atoms.drop_first()[0] == atoms[1]);
    assert(atoms.drop_first()[1] == atoms[2]);
    assert(atoms.drop_first()[2] == atoms[3]);
}

/// An unstyled atom.
pub fn plain_atom(content: String) -> (r: TextAtom)
    ensures
        r.content == content,
        r.special_formatting is None,
{
    TextAtom { content, special_formatting: None }
}

/// The text of one row of a placeholder tile that leads a panel row: a
/// titled top border, a centered "N/A" on the middle row, a bottom border,
/// and bordered blank filler elsewhere.
pub open spec fn na_start_line_text(title: Seq<char>, line: int) -> Seq<char> {
    if line == 0 {
        seq!['|'] + pad_center(title, 53, '-') + seq!['+']
    } else if line == 7 {
        seq!['|'] + pad_center("N/A"@, 53, ' ') + seq!['|']
    } else if line == 14 {
        seq!['+'] + char_rep('-', 53) + seq!['+']
    } else {
        seq!['|'] + char_rep(' ', 53) + seq!['|']
    }
}

/// The text of one row of a placeholder tile that follows another panel and
/// omits the shared left border.
pub open spec fn na_nostart_line_text(title: Seq<char>, line: int) -> Seq<char> {
    if line == 0 {
        pad_center(title, 53, '-') + seq!['+']
    } else if line == 7 {
        pad_center("N/A"@, 53, ' ') + seq!['|']
    } else if line == 14 {
        char_rep('-', 53) + seq!['+']
    } else {
        char_rep(' ', 53) + seq!['|']
    }
}

/// One row of the placeholder tile shown, in the leading panel position,
/// for a category whose prerequisite is unavailable.
pub fn na_start_tile(line: usize, title: String) -> (r: Vec<TextAtom>)
    requires
        line <= 14,
        title@.len() <= 53,
    ensures
        r@.len() == 1,
        r@[0].special_formatting is None,
        row_text(r@) == na_start_line_text(title@, line as int),
        row_text(r@).len() == 55,
{
    proof {
        reveal_strlit("|");
        reveal_strlit("+");
        reveal_strlit("-");
        reveal_strlit(" ");
        reveal_strlit("N/A");
    }
    let content: String = if line == 0 {
        let mut s = String::from_str("|");
        s.append(center_str(title.as_str(), 53, "-").as_str());
        s.append("+");
        s
    } else if line == 7 {
        let mut s = String::from_str("|");
        s.append(center_str("N/A", 53, " ").as_str());
        s.append("|");
        s
    } else if line == 14 {
        let mut s = String::from_str("+");
        s.append(repeat_str("-", 53).as_str());
        s.append("+");
        s
    } else {
        let mut s = String::from_str("|");
        s.append(repeat_str(" ", 53).as_str());
        s.append("|");
        s
    };
    let r: Vec<TextAtom> = vec![plain_atom(content)];
    proof {
        lemma_row_text1(r@);
        assert(row_text(r@) =~= na_start_line_text(title@, line as int));
    }
    r
}

/// One row of the placeholder tile shown, in a following panel position,
/// for a category whose prerequisite is unavailable.
pub fn na_nostart_tile(line: usize, title: String) -> (r: Vec<TextAtom>)
    requires
        line <= 14,
        title@.len() <= 53,
    ensures
        r@.len() == 1,
        r@[0].special_formatting is None,
        row_text(r@) == na_nostart_line_text(title@, line as int),
        row_text(r@).len() == 54,
{
    proof {
        reveal_strlit("|");
        reveal_strlit("+");
        reveal_strlit("-");
        reveal_strlit(" ");
        reveal_strlit("N/A");
    }
    let content: String = if line == 0 {
        let mut s = center_str(title.as_str(), 53, "-");
        s.append("+");
        s
    } else if line == 7 {
        let mut s = center_str("N/A", 53, " ");
        s.append("|");
        s
    } else if line == 14 {
        let mut s = repeat_str("-", 53);
        s.append("+");
        s
    } else {
        let mut s = repeat_str(" ", 53);
        s.append("|");
        s
    };
    let r: Vec<TextAtom> = vec![plain_atom(content)];
    proof {
        lemma_row_text1(r@);
        assert(row_text(r@) =~= na_nostart_line_text(title@, line as int));
    }
    r
}

/// The crossing test of a bracket table: an ascending table (dimmer than)
/// crosses where the threshold strictly exceeds the observed value, a
/// descending table (smaller than) where it strictly falls below it. An
/// observed value exactly equal to a threshold never crosses at it.
pub open spec fn crossing(t: int, obs: int, ascending: bool) -> bool {
    if ascending {
        t > obs
    } else {
        t < obs
    }
}

/// Whether any threshold of the table crosses the observed value.
pub open spec fn has_crossing(ts: Seq<int>, obs: int, ascending: bool) -> bool {
    exists|i: int| 0 <= i < ts.len() && crossing(ts[i], obs, ascending)
}

/// The first index at or after `k` whose threshold crosses the observed
/// value, or zero when none does.
pub open spec fn first_crossing_from(ts: Seq<int>, obs: int, ascending: bool, k: int) -> int
    decreases ts.len() - k,
{
    if k < 0 || k >= ts.len() {
        0
    } else if crossing(ts[k], obs, ascending) {
        k
    } else {
        first_crossing_from(ts, obs, ascending, k + 1)
    }
}

/// The bracket index of an observed value in a table of thresholds: the
/// first index whose threshold crosses it, or zero when none does.
pub open spec fn bracket_spec(ts: Seq<int>, obs: int, ascending: bool) -> int {
    first_crossing_from(ts, obs, ascending, 0)
}

proof fn lemma_first_crossing_props(ts: Seq<int>, obs: int, ascending: bool, k: int)
    requires
        0 <= k <= ts.len(),
    ensures
        (exists|i: int| k <= i < ts.len() && crossing(ts[i], obs, ascending)) ==> {
            let r = first_crossing_from(ts, obs, ascending, k);
            &&& k <= r < ts.len()
            &&& crossing(ts[r], obs, ascending)
            &&& forall|j: int| k <= j < r ==> !crossing(ts[j], obs, ascending)
        },
        !(exists|i: int| k <= i < ts.len() && crossing(ts[i], obs, ascending))
            ==> first_crossing_from(ts, obs, ascending, k) == 0,
    decreases ts.len() - k,
{
    if k < ts.len() && !crossing(ts[k], obs, ascending) {
        lemma_first_crossing_props(ts, obs, ascending, k + 1);
    }
}

/// Law: the bracket index is deterministic in the table, the observed value
/// and the direction alone. Where some threshold crosses the observed
/// value it is the least crossing index; where none does it is zero. A
/// threshold exactly equal to the observed value never satisfies the strict
/// crossing test, so a tie resolves to the first strictly crossing index
/// whatever the tie's position.
pub proof fn lemma_bracket_least(ts: Seq<int>, obs: int, ascending: bool)
    ensures
        has_crossing(ts, obs, ascending) ==> {
            let r = bracket_spec(ts, obs, ascending);
            &&& 0 <= r < ts.len()
            &&& crossing(ts[r], obs, ascending)
            &&& forall|j: int| 0 <= j < r ==> !crossing(ts[j], obs, ascending)
        },
        !has_crossing(ts, obs, ascending) ==> bracket_spec(ts, obs, ascending) == 0,
        forall|j: int| 0 <= j < ts.len() && ts[j] == obs ==> !crossing(ts[j], obs, ascending),
{
    lemma_first_crossing_props(ts, obs, ascending, 0);
}

/// The thresholds of a labeled reference table.
pub open spec fn thresholds_of(table: Seq<(String, i64)>) -> Seq<int> {
    table.map_values(|p: (String, i64)| p.1 as int)
}

/// Locates the first table index whose threshold crosses the observed
/// value: strictly above it for an ascending table, strictly below it for
/// a descending one. Returns zero when no threshold crosses.
pub fn bracket_index(table: &Vec<(String, i64)>, observed: i64, ascending: bool) -> (r: usize)
    ensures
        r as int == bracket_spec(thresholds_of(table@), observed as int, ascending),
        r == 0 || r < table@.len(),
{
    let ghost ts = thresholds_of(table@);
    let mut i: usize = 0;
    while i < table.len()
        invariant
            i <= table@.len(),
            ts == thresholds_of(table@),
            ts.len() == table@.len(),
            forall|j: int| 0 <= j < i ==> !crossing(ts[j], observed as int, ascending),
        decreases table@.len() - i,
    {
        let t = table[i].1;
        let crosses = if ascending {
            t > observed
        } else {
            t < observed
        };
        if crosses {
            proof {
                lemma_first_crossing_props(ts, observed as int, ascending, 0);
                assert(crossing(ts[i as int], observed as int, ascending));
            }
            return i;
        }
        i = i + 1;
    }
    proof {
        lemma_first_crossing_props(ts, observed as int, ascending, 0);
    }
    0
}

} // verus!
