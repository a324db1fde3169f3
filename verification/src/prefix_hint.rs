//! The keybinding panel that prefix mode shows once the prefix key has been held past a delay:
//! groups of `(keys, label)` entries laid out in columns, a long group continuing in the next
//! column, as many whole columns as fit, anchored to the bottom of the pane area.
use vstd::prelude::*;

use crate::commit_box::{columns_u16, display_width};
use crate::panel_view::PanelRect;
use crate::sidebar_layout::min_int;

verus! {

pub const PREFIX_HINT_COLUMN_GAP: u16 = 2;
pub const PREFIX_HINT_MIN_COLUMN_WIDTH: u16 = 14;
/// A group longer than this continues in the next column rather than making the panel tall
/// enough to bury the panes it is supposed to help with.
pub const PREFIX_HINT_MAX_ROWS: usize = 12;
/// Two border rows, one title row, one blank row and one footer row frame the entries.
pub const PREFIX_HINT_CHROME_HEIGHT: u16 = 5;

/// How text is measured: in terminal display columns (the client renderer), or in characters
/// (the server-side terminal UI).
#[derive(Debug, Clone, Copy, PartialEq, Eq, Structural)]
pub enum HintMeasure {
    Columns,
    Chars,
}

pub open spec fn measure(m: HintMeasure, s: Seq<char>) -> int {
    match m {
        HintMeasure::Columns => columns_u16(s),
        HintMeasure::Chars => s.len() as int,
    }
}

fn measure_text(m: HintMeasure, s: &str) -> (r: usize)
    ensures
        r == measure(m, s@),
{
    match m {
        HintMeasure::Columns => display_width(s) as usize,
        HintMeasure::Chars => s.unicode_len(),
    }
}

/// A titled group of `(keys, label)` entries.
#[derive(Debug, Clone)]
pub struct PrefixHintGroup {
    pub title: String,
    pub entries: Vec<(String, String)>,
}

/// One column of the panel: a title (only on the first column of a group), at most the row
/// limit of entries, and the column's width.
#[derive(Debug, Clone)]
pub struct PrefixHintColumn {
    pub title: String,
    pub entries: Vec<(String, String)>,
    pub width: u16,
}

pub open spec fn pair_views(v: Seq<(String, String)>) -> Seq<(Seq<char>, Seq<char>)> {
    v.map_values(|p: (String, String)| (p.0@, p.1@))
}

pub open spec fn group_views(v: Seq<PrefixHintGroup>) -> Seq<(Seq<char>, Seq<(Seq<char>, Seq<char>)>)> {
    v.map_values(|g: PrefixHintGroup| (g.title@, pair_views(g.entries@)))
}

pub open spec fn column_view(c: PrefixHintColumn) -> (Seq<char>, Seq<(Seq<char>, Seq<char>)>, int) {
    (c.title@, pair_views(c.entries@), c.width as int)
}

pub open spec fn column_views(v: Seq<PrefixHintColumn>) -> Seq<(Seq<char>, Seq<(Seq<char>, Seq<char>)>, int)> {
    v.map_values(|c: PrefixHintColumn| column_view(c))
}

pub open spec fn max_int(a: int, b: int) -> int {
    if a < b { b } else { a }
}

pub open spec fn entry_width(m: HintMeasure, e: (Seq<char>, Seq<char>)) -> int {
    measure(m, e.0) + measure(m, e.1) + 2
}

pub open spec fn max_entry_width(m: HintMeasure, es: Seq<(Seq<char>, Seq<char>)>) -> int
    decreases es.len(),
{
    if es.len() == 0 {
        0
    } else {
        max_int(max_entry_width(m, es.drop_last()), entry_width(m, es.last()))
    }
}

/// A column is as wide as its widest entry (keys, two spaces, label) or its group's title,
/// capped at `u16::MAX`, and at least `PREFIX_HINT_MIN_COLUMN_WIDTH`.
pub open spec fn chunk_width(m: HintMeasure, title: Seq<char>, chunk: Seq<(Seq<char>, Seq<char>)>) -> int {
    max_int(min_int(max_int(max_entry_width(m, chunk), measure(m, title)), u16::MAX as int), 14)
}

/// The columns of one group: its entries cut into runs of `rows` (at least one), the first
/// titled with the group's title and the rest untitled.
pub open spec fn group_columns(
    m: HintMeasure,
    title: Seq<char>,
    entries: Seq<(Seq<char>, Seq<char>)>,
    rows: nat,
    first: bool,
) -> Seq<(Seq<char>, Seq<(Seq<char>, Seq<char>)>, int)>
    decreases entries.len(),
{
    if entries.len() == 0 || rows == 0 {
        Seq::empty()
    } else {
        let k = min_int(rows as int, entries.len() as int);
        let chunk = entries.take(k);
        seq![(if first { title } else { Seq::empty() }, chunk, chunk_width(m, title, chunk))]
            + group_columns(m, title, entries.skip(k), rows, false)
    }
}

pub open spec fn hint_columns(
    m: HintMeasure,
    groups: Seq<(Seq<char>, Seq<(Seq<char>, Seq<char>)>)>,
    rows: nat,
) -> Seq<(Seq<char>, Seq<(Seq<char>, Seq<char>)>, int)>
    decreases groups.len(),
{
    if groups.len() == 0 {
        Seq::empty()
    } else {
        hint_columns(m, groups.drop_last(), rows) + group_columns(m, groups.last().0, groups.last().1, rows, true)
    }
}

/// Every entry's width can be added up in a `usize`.
pub open spec fn groups_measurable(m: HintMeasure, groups: Seq<PrefixHintGroup>) -> bool {
    forall|g: int, e: int|
        0 <= g < groups.len() && 0 <= e < groups[g].entries@.len() ==> entry_width(m, #[trigger] pair_views(groups[g].entries@)[e]) <= usize::MAX
}

fn clone_pair(p: &(String, String)) -> (r: (String, String))
    ensures
        r.0@ == p.0@,
        r.1@ == p.1@,
{
    (p.0.clone(), p.1.clone())
}

/// The column for `entries[start..end]` of a group titled `title`.
fn chunk_column(m: HintMeasure, title: &String, entries: &Vec<(String, String)>, start: usize, end: usize, titled: bool) -> (c: PrefixHintColumn)
    requires
        start <= end <= entries@.len(),
        forall|e: int| 0 <= e < entries@.len() ==> entry_width(m, #[trigger] pair_views(entries@)[e]) <= usize::MAX,
    ensures
        column_view(c) == (
            if titled { title@ } else { Seq::<char>::empty() },
            pair_views(entries@).subrange(start as int, end as int),
            chunk_width(m, title@, pair_views(entries@).subrange(start as int, end as int)),
        ),
{
    let ghost all = pair_views(entries@);
    let mut chunk: Vec<(String, String)> = Vec::new();
    let mut widest: usize = 0;
    let mut j = start;
    while j < end
        invariant
            start <= j <= end <= entries@.len(),
            all == pair_views(entries@),
            forall|e: int| 0 <= e < entries@.len() ==> entry_width(m, #[trigger] pair_views(entries@)[e]) <= usize::MAX,
            pair_views(chunk@) == all.subrange(start as int, j as int),
            widest == max_entry_width(m, all.subrange(start as int, j as int)),
        decreases end - j,
    {
        let ghost before = chunk@;
        let e = clone_pair(&entries[j]);
        assert(all[j as int] == (entries@[j as int].0@, entries@[j as int].1@));
        assert(entry_width(m, all[j as int]) <= usize::MAX);
        let w = measure_text(m, e.0.as_str()) + measure_text(m, e.1.as_str()) + 2;
        chunk.push(e);
        if w > widest {
            widest = w;
        }
        assert(all.subrange(start as int, j + 1).drop_last() =~= all.subrange(start as int, j as int));
        assert(pair_views(chunk@) =~= all.subrange(start as int, j + 1));
        j = j + 1;
    }
    let title_width = measure_text(m, title.as_str());
    let mut width: usize = if widest < title_width { title_width } else { widest };
    if width > 65535 {
        width = 65535;
    }
    let width: u16 = width as u16;
    let width: u16 = if width < PREFIX_HINT_MIN_COLUMN_WIDTH { PREFIX_HINT_MIN_COLUMN_WIDTH } else { width };
    let title_text = if titled { title.clone() } else { String::new() };
    PrefixHintColumn { title: title_text, entries: chunk, width }
}

proof fn lemma_skip_skip<T>(s: Seq<T>, i: int, k: int)
    requires
        0 <= i,
        0 <= k,
        i + k <= s.len(),
    ensures
        s.skip(i).skip(k) == s.skip(i + k),
        s.skip(i).take(k) == s.subrange(i, i + k),
{
    assert(s.skip(i).skip(k) =~= s.skip(i + k));
    assert(s.skip(i).take(k) =~= s.subrange(i, i + k));
}

/// The panel's columns for `groups`, at most `max_rows` entries each (at least one).
pub fn prefix_hint_columns(groups: &Vec<PrefixHintGroup>, max_rows: usize, m: HintMeasure) -> (columns: Vec<PrefixHintColumn>)
    requires
        groups_measurable(m, groups@),
    ensures
        column_views(columns@) == hint_columns(m, group_views(groups@), (if max_rows < 1 { 1 } else { max_rows }) as nat),
{
    let rows: usize = if max_rows < 1 { 1 } else { max_rows };
    let ghost gv = group_views(groups@);
    let mut columns: Vec<PrefixHintColumn> = Vec::new();
    assert(column_views(columns@) =~= Seq::empty());
    let mut g: usize = 0;
    while g < groups.len()
        invariant
            g <= groups@.len(),
            rows >= 1,
            rows == (if max_rows < 1 { 1 } else { max_rows }),
            gv == group_views(groups@),
            groups_measurable(m, groups@),
            column_views(columns@) == hint_columns(m, gv.take(g as int), rows as nat),
        decreases groups@.len() - g,
    {
        let group = &groups[g];
        let ghost entries = pair_views(group.entries@);
        let ghost prefix = column_views(columns@);
        assert forall|e: int| 0 <= e < group.entries@.len() implies entry_width(m, #[trigger] pair_views(group.entries@)[e]) <= usize::MAX by {
            assert(groups[g as int] == *group);
        }
        let n = group.entries.len();
        let mut i: usize = 0;
        assert(entries.skip(0) =~= entries);
        while i < n
            invariant
                i <= n,
                n == group.entries@.len(),
                rows >= 1,
                entries == pair_views(group.entries@),
                forall|e: int| 0 <= e < group.entries@.len() ==> entry_width(m, #[trigger] pair_views(group.entries@)[e]) <= usize::MAX,
                column_views(columns@) + group_columns(m, group.title@, entries.skip(i as int), rows as nat, i == 0)
                    == prefix + group_columns(m, group.title@, entries, rows as nat, true),
            decreases n - i,
        {
            let end: usize = if n - i < rows { n } else { i + rows };
            let c = chunk_column(m, &group.title, &group.entries, i, end, i == 0);
            let ghost before = column_views(columns@);
            proof {
                lemma_skip_skip(entries, i as int, (end - i) as int);
                assert(min_int(rows as int, entries.skip(i as int).len() as int) == end - i);
            }
            columns.push(c);
            assert(column_views(columns@) =~= before.push(column_view(c)));
            assert(group_columns(m, group.title@, entries.skip(i as int), rows as nat, i == 0)
                == seq![column_view(c)] + group_columns(m, group.title@, entries.skip(end as int), rows as nat, false));
            assert(before.push(column_view(c)) + group_columns(m, group.title@, entries.skip(end as int), rows as nat, false)
                =~= before + (seq![column_view(c)] + group_columns(m, group.title@, entries.skip(end as int), rows as nat, false)));
            i = end;
        }
        proof {
            assert(entries.skip(n as int) =~= Seq::empty());
            assert(gv.take(g + 1).drop_last() =~= gv.take(g as int));
            assert(gv[g as int] == (group.title@, entries));
            assert(column_views(columns@) =~= prefix + group_columns(m, group.title@, entries, rows as nat, true));
        }
        g = g + 1;
    }
    assert(gv.take(groups@.len() as int) =~= gv);
    columns
}

pub open spec fn sat_u16(v: int) -> int {
    min_int(v, u16::MAX as int)
}

/// The columns a column takes up: its width, plus the gap before it after the first.
pub open spec fn column_needed(cols: Seq<(Seq<char>, Seq<(Seq<char>, Seq<char>)>, int)>, k: int) -> int {
    if k == 0 {
        cols[0].2
    } else {
        sat_u16(cols[k].2 + PREFIX_HINT_COLUMN_GAP)
    }
}

/// How many of `cols`, from `k` on with `used` columns taken, fit whole into `available`:
/// columns are taken in order until the first that does not fit.
pub open spec fn fit_from(cols: Seq<(Seq<char>, Seq<(Seq<char>, Seq<char>)>, int)>, k: int, used: int, available: int) -> int
    decreases cols.len() - k,
{
    if k < 0 || k >= cols.len() {
        k
    } else if sat_u16(used + column_needed(cols, k)) > available {
        k
    } else {
        fit_from(cols, k + 1, sat_u16(used + column_needed(cols, k)), available)
    }
}

pub open spec fn fit_count(cols: Seq<(Seq<char>, Seq<(Seq<char>, Seq<char>)>, int)>, available: int) -> int {
    fit_from(cols, 0, 0, available)
}

proof fn lemma_fit_from_range(cols: Seq<(Seq<char>, Seq<(Seq<char>, Seq<char>)>, int)>, k: int, used: int, available: int)
    requires
        0 <= k <= cols.len(),
    ensures
        k <= fit_from(cols, k, used, available) <= cols.len(),
    decreases cols.len() - k,
{
    if k < cols.len() && sat_u16(used + column_needed(cols, k)) <= available {
        lemma_fit_from_range(cols, k + 1, sat_u16(used + column_needed(cols, k)), available);
    }
}

/// As many whole columns as `available` columns hold, in order (two columns of gap between
/// neighbours).
pub fn fit_prefix_hint_columns(columns: Vec<PrefixHintColumn>, available: u16) -> (fitted: Vec<PrefixHintColumn>)
    ensures
        fitted@.len() == fit_count(column_views(columns@), available as int),
        column_views(fitted@) == column_views(columns@).take(fitted@.len() as int),
{
    let ghost cols = column_views(columns@);
    let mut used: u16 = 0;
    let mut k: usize = 0;
    proof {
        lemma_fit_from_range(cols, 0, 0, available as int);
    }
    while k < columns.len()
        invariant_except_break
            k <= columns@.len(),
            cols == column_views(columns@),
            fit_from(cols, k as int, used as int, available as int) == fit_count(cols, available as int),
        ensures
            k as int == fit_count(cols, available as int),
        decreases columns@.len() - k,
    {
        let width = columns[k].width;
        let needed: u16 = if k == 0 {
            width
        } else if width <= u16::MAX - PREFIX_HINT_COLUMN_GAP {
            width + PREFIX_HINT_COLUMN_GAP
        } else {
            u16::MAX
        };
        let total: u16 = if used <= u16::MAX - needed { used + needed } else { u16::MAX };
        assert(total == sat_u16(used + column_needed(cols, k as int)));
        if total > available {
            break;
        }
        used = total;
        k = k + 1;
    }
    let mut fitted = columns;
    fitted.truncate(k);
    proof {
        assert(column_views(fitted@) =~= cols.take(k as int));
    }
    fitted
}

/// The deepest column's entry count.
pub open spec fn max_entries(cols: Seq<(Seq<char>, Seq<(Seq<char>, Seq<char>)>, int)>) -> int
    decreases cols.len(),
{
    if cols.len() == 0 {
        0
    } else {
        max_int(max_entries(cols.drop_last()), cols.last().1.len() as int)
    }
}

proof fn lemma_max_entries(cols: Seq<(Seq<char>, Seq<(Seq<char>, Seq<char>)>, int)>)
    ensures
        forall|j: int| 0 <= j < cols.len() ==> (#[trigger] cols[j]).1.len() <= max_entries(cols),
        max_entries(cols) >= 0,
    decreases cols.len(),
{
    if cols.len() > 0 {
        lemma_max_entries(cols.drop_last());
        assert forall|j: int| 0 <= j < cols.len() implies (#[trigger] cols[j]).1.len() <= max_entries(cols) by {
            if j < cols.len() - 1 {
                assert(cols.drop_last()[j] == cols[j]);
            }
        }
    }
}

/// Where each column starts, counted from the first: the widths and gaps before it.
pub open spec fn column_offset(cols: Seq<(Seq<char>, Seq<(Seq<char>, Seq<char>)>, int)>, c: int) -> int
    decreases c,
{
    if c <= 0 {
        0
    } else {
        column_offset(cols, c - 1) + cols[c - 1].2 + PREFIX_HINT_COLUMN_GAP
    }
}

proof fn lemma_column_offset_prefix(cols: Seq<(Seq<char>, Seq<(Seq<char>, Seq<char>)>, int)>, k: int, c: int)
    requires
        0 <= c <= k <= cols.len(),
    ensures
        column_offset(cols.take(k), c) == column_offset(cols, c),
    decreases c,
{
    if c > 0 {
        lemma_column_offset_prefix(cols, k, c - 1);
    }
}

/// Within `available < u16::MAX`, every fitted column ends inside it.
proof fn lemma_fit_bounds(cols: Seq<(Seq<char>, Seq<(Seq<char>, Seq<char>)>, int)>, k: int, used: int, available: int)
    requires
        0 <= k <= cols.len(),
        available < u16::MAX,
        0 <= used <= available,
        k == 0 ==> used == 0,
        k > 0 ==> used == column_offset(cols, k) - PREFIX_HINT_COLUMN_GAP,
        forall|j: int| 0 <= j < cols.len() ==> #[trigger] cols[j].2 >= 0,
    ensures
        forall|j: int| k <= j < fit_from(cols, k, used, available) ==> #[trigger] column_offset(cols, j) + cols[j].2 <= available,
    decreases cols.len() - k,
{
    if k < cols.len() && sat_u16(used + column_needed(cols, k)) <= available {
        let next = sat_u16(used + column_needed(cols, k));
        assert(column_offset(cols, k + 1) == column_offset(cols, k) + cols[k].2 + PREFIX_HINT_COLUMN_GAP);
        if k > 0 {
            assert(column_offset(cols, k) >= 0) by {
                lemma_column_offset_nonneg(cols, k);
            }
        }
        lemma_fit_bounds(cols, k + 1, next, available);
    }
}

/// Whole columns only: every column the panel keeps ends within the width it was fitted to.
pub proof fn lemma_fitted_columns_fit(cols: Seq<(Seq<char>, Seq<(Seq<char>, Seq<char>)>, int)>, available: int)
    requires
        0 <= available < u16::MAX,
        forall|j: int| 0 <= j < cols.len() ==> #[trigger] cols[j].2 >= 0,
    ensures
        forall|j: int| 0 <= j < fit_count(cols, available) ==> #[trigger] column_offset(cols, j) + cols[j].2 <= available,
        fit_count(cols, available) <= cols.len(),
{
    lemma_fit_from_range(cols, 0, 0, available);
    lemma_fit_bounds(cols, 0, 0, available);
}

proof fn lemma_column_offset_nonneg(cols: Seq<(Seq<char>, Seq<(Seq<char>, Seq<char>)>, int)>, c: int)
    requires
        forall|j: int| 0 <= j < cols.len() ==> #[trigger] cols[j].2 >= 0,
        c <= cols.len(),
    ensures
        column_offset(cols, c) >= 0,
    decreases c,
{
    if c > 0 {
        lemma_column_offset_nonneg(cols, c - 1);
    }
}

/// A column whose every entry's keys fit in its width, in display columns.
pub open spec fn keys_fit(col: (Seq<char>, Seq<(Seq<char>, Seq<char>)>, int)) -> bool {
    &&& col.2 >= PREFIX_HINT_MIN_COLUMN_WIDTH
    &&& col.2 <= u16::MAX
    &&& forall|r: int| 0 <= r < col.1.len() ==> columns_u16(#[trigger] col.1[r].0) <= col.2
}

proof fn lemma_max_entry_width(m: HintMeasure, es: Seq<(Seq<char>, Seq<char>)>)
    ensures
        forall|r: int| 0 <= r < es.len() ==> entry_width(m, #[trigger] es[r]) <= max_entry_width(m, es),
    decreases es.len(),
{
    if es.len() > 0 {
        lemma_max_entry_width(m, es.drop_last());
        assert forall|r: int| 0 <= r < es.len() implies entry_width(m, #[trigger] es[r]) <= max_entry_width(m, es) by {
            if r < es.len() - 1 {
                assert(es.drop_last()[r] == es[r]);
            }
        }
    }
}

proof fn lemma_group_columns_fit(title: Seq<char>, entries: Seq<(Seq<char>, Seq<char>)>, rows: nat, first: bool)
    ensures
        forall|i: int| 0 <= i < group_columns(HintMeasure::Columns, title, entries, rows, first).len()
            ==> keys_fit(#[trigger] group_columns(HintMeasure::Columns, title, entries, rows, first)[i])
                && group_columns(HintMeasure::Columns, title, entries, rows, first)[i].1.len() <= rows,
    decreases entries.len(),
{
    let m = HintMeasure::Columns;
    if entries.len() > 0 && rows > 0 {
        let k = min_int(rows as int, entries.len() as int);
        let chunk = entries.take(k);
        lemma_max_entry_width(m, chunk);
        lemma_group_columns_fit(title, entries.skip(k), rows, false);
        let head = (if first { title } else { Seq::empty() }, chunk, chunk_width(m, title, chunk));
        assert(keys_fit(head)) by {
            assert forall|r: int| 0 <= r < chunk.len() implies columns_u16(#[trigger] chunk[r].0) <= chunk_width(m, title, chunk) by {
                assert(entry_width(m, chunk[r]) <= max_entry_width(m, chunk));
            }
        }
        let rest = group_columns(m, title, entries.skip(k), rows, false);
        assert(group_columns(m, title, entries, rows, first) == seq![head] + rest);
        assert forall|i: int| 0 <= i < (seq![head] + rest).len() implies keys_fit(#[trigger] (seq![head] + rest)[i]) && (seq![head] + rest)[i].1.len() <= rows by {
            if i > 0 {
                assert((seq![head] + rest)[i] == rest[i - 1]);
            }
        }
    }
}

proof fn lemma_hint_columns_fit(groups: Seq<(Seq<char>, Seq<(Seq<char>, Seq<char>)>)>, rows: nat)
    ensures
        forall|i: int| 0 <= i < hint_columns(HintMeasure::Columns, groups, rows).len()
            ==> keys_fit(#[trigger] hint_columns(HintMeasure::Columns, groups, rows)[i])
                && hint_columns(HintMeasure::Columns, groups, rows)[i].1.len() <= rows,
    decreases groups.len(),
{
    if groups.len() > 0 {
        let m = HintMeasure::Columns;
        lemma_hint_columns_fit(groups.drop_last(), rows);
        lemma_group_columns_fit(groups.last().0, groups.last().1, rows, true);
        let a = hint_columns(m, groups.drop_last(), rows);
        let b = group_columns(m, groups.last().0, groups.last().1, rows, true);
        assert forall|i: int| 0 <= i < (a + b).len() implies keys_fit(#[trigger] (a + b)[i]) && (a + b)[i].1.len() <= rows by {
            if i < a.len() {
                assert((a + b)[i] == a[i]);
            } else {
                assert((a + b)[i] == b[i - a.len()]);
            }
        }
    }
}

/// How a piece of panel text is drawn.
#[derive(Debug, Clone, Copy, PartialEq, Eq, Structural)]
pub enum HintStyle {
    Title,
    Key,
    Dim,
    /// Unstyled padding.
    Plain,
}

/// Text drawn at `(x, y)`, clipped to `width` columns.
#[derive(Debug, Clone)]
pub struct HintText {
    pub x: u16,
    pub y: u16,
    pub width: u16,
    pub text: String,
    pub style: HintStyle,
}

pub open spec fn hint_text(x: int, y: int, width: int, text: Seq<char>, style: HintStyle) -> (int, int, int, Seq<char>, HintStyle) {
    (x, y, width, text, style)
}

pub open spec fn text_views(v: Seq<HintText>) -> Seq<(int, int, int, Seq<char>, HintStyle)> {
    v.map_values(|t: HintText| hint_text(t.x as int, t.y as int, t.width as int, t.text@, t.style))
}

/// Each entry on its own row from `y0`: the keys, then two spaces and the label in what is
/// left of the column.
pub open spec fn entry_texts(entries: Seq<(Seq<char>, Seq<char>)>, x: int, y0: int, w: int) -> Seq<(int, int, int, Seq<char>, HintStyle)>
    decreases entries.len(),
{
    if entries.len() == 0 {
        Seq::empty()
    } else {
        let r = entries.len() - 1;
        let e = entries.last();
        let kw = columns_u16(e.0);
        entry_texts(entries.drop_last(), x, y0, w) + seq![
            hint_text(x, y0 + r, kw, e.0, HintStyle::Key),
            hint_text(x + kw, y0 + r, max_int(w - kw, 0), "  "@ + e.1, HintStyle::Dim),
        ]
    }
}

pub open spec fn column_texts(col: (Seq<char>, Seq<(Seq<char>, Seq<char>)>, int), x: int, y: int) -> Seq<(int, int, int, Seq<char>, HintStyle)> {
    seq![hint_text(x, y, col.2, col.0, HintStyle::Title)] + entry_texts(col.1, x, y + 1, col.2)
}

pub open spec fn columns_texts(cols: Seq<(Seq<char>, Seq<(Seq<char>, Seq<char>)>, int)>, x0: int, y: int) -> Seq<(int, int, int, Seq<char>, HintStyle)>
    decreases cols.len(),
{
    if cols.len() == 0 {
        Seq::empty()
    } else {
        columns_texts(cols.drop_last(), x0, y) + column_texts(cols.last(), x0 + column_offset(cols, cols.len() - 1), y)
    }
}

/// The footer's pieces, each as wide as its text, clipped to what is left before `right`.
pub open spec fn footer_texts(items: Seq<(Seq<char>, HintStyle)>, x: int, y: int, right: int) -> Seq<(int, int, int, Seq<char>, HintStyle)>
    decreases items.len(),
{
    if items.len() == 0 {
        Seq::empty()
    } else {
        let w = min_int(columns_u16(items[0].0), max_int(right - x, 0));
        seq![hint_text(x, y, w, items[0].0, items[0].1)] + footer_texts(items.drop_first(), x + w, y, right)
    }
}

pub open spec fn footer_items(prefix: Seq<char>) -> Seq<(Seq<char>, HintStyle)> {
    seq![("esc"@, HintStyle::Key), (" cancel   "@, HintStyle::Dim), (prefix, HintStyle::Key), (" send prefix"@, HintStyle::Dim)]
}

/// Everything the panel draws inside its border: " PREFIX " on the top border, the columns
/// (titles on the first inner row, entries below), and the footer on the last inner row.
pub open spec fn panel_texts(
    rect: PanelRect,
    inner: PanelRect,
    cols: Seq<(Seq<char>, Seq<(Seq<char>, Seq<char>)>, int)>,
    prefix: Seq<char>,
) -> Seq<(int, int, int, Seq<char>, HintStyle)> {
    (if rect.width > 10 {
        seq![hint_text(rect.x + 2, rect.y as int, rect.width - 4, " PREFIX "@, HintStyle::Key)]
    } else {
        Seq::empty()
    }) + columns_texts(cols, inner.x as int, inner.y as int)
        + footer_texts(footer_items(prefix), inner.x as int, inner.y + inner.height - 1, inner.x + inner.width)
}

/// The panel: its rectangle (bordered), the area inside the border, the columns shown and the
/// text drawn.
#[derive(Debug, Clone)]
pub struct PrefixHintPanel {
    pub rect: PanelRect,
    pub inner: PanelRect,
    pub columns: Vec<PrefixHintColumn>,
    pub texts: Vec<HintText>,
}

fn push_text(texts: &mut Vec<HintText>, x: u16, y: u16, width: u16, text: String, style: HintStyle)
    ensures
        text_views(final(texts)@) == text_views(old(texts)@).push(hint_text(x as int, y as int, width as int, text@, style)),
{
    let ghost before = texts@;
    texts.push(HintText { x, y, width, text, style });
    assert(text_views(texts@) =~= text_views(before).push(hint_text(x as int, y as int, width as int, text@, style)));
}

fn push_footer(texts: &mut Vec<HintText>, x: u16, y: u16, right: u16, text: &str, style: HintStyle) -> (nx: u16)
    requires
        x <= right,
    ensures
        nx == x + min_int(columns_u16(text@), right - x),
        nx <= right,
        text_views(final(texts)@) == text_views(old(texts)@) + seq![hint_text(x as int, y as int, min_int(columns_u16(text@), right - x), text@, style)],
{
    let w = display_width(text);
    let room = right - x;
    let w = if w < room { w } else { room };
    push_text(texts, x, y, w, text.to_owned(), style);
    assert(seq![hint_text(x as int, y as int, w as int, text@, style)] =~= Seq::empty().push(hint_text(x as int, y as int, w as int, text@, style)));
    x + w
}

/// One column's title and entries, drawn from column `x`.
fn push_column_texts(texts: &mut Vec<HintText>, col: &PrefixHintColumn, x: u16, y: u16, rows: usize)
    requires
        keys_fit(column_view(*col)),
        x + col.width <= u16::MAX,
        col.entries@.len() <= rows,
        y + 1 + rows <= u16::MAX,
    ensures
        text_views(final(texts)@) == text_views(old(texts)@) + column_texts(column_view(*col), x as int, y as int),
{
    let ghost base = text_views(texts@);
    let ghost entries = pair_views(col.entries@);
    push_text(texts, x, y, col.width, col.title.clone(), HintStyle::Title);
    let ghost head = base.push(hint_text(x as int, y as int, col.width as int, col.title@, HintStyle::Title));
    assert(entries.take(0) =~= Seq::empty());
    let mut r: usize = 0;
    while r < col.entries.len()
        invariant
            r <= col.entries@.len() <= rows,
            y + 1 + rows <= u16::MAX,
            x + col.width <= u16::MAX,
            keys_fit(column_view(*col)),
            entries == pair_views(col.entries@),
            text_views(texts@) == head + entry_texts(entries.take(r as int), x as int, y + 1, col.width as int),
        decreases col.entries@.len() - r,
    {
        let ghost prev = text_views(texts@);
        let keys = &col.entries[r].0;
        let label = &col.entries[r].1;
        assert(entries[r as int] == (keys@, label@));
        assert(column_view(*col).1 == entries);
        assert(columns_u16(column_view(*col).1[r as int].0) <= col.width);
        let row_y: u16 = y + 1 + r as u16;
        let key_width = display_width(keys.as_str());
        push_text(texts, x, row_y, key_width, keys.clone(), HintStyle::Key);
        let mut dim = "  ".to_owned();
        dim.append(label.as_str());
        let label_width: u16 = col.width - key_width;
        push_text(texts, x + key_width, row_y, label_width, dim, HintStyle::Dim);
        proof {
            let t = entries.take(r + 1);
            assert(t.drop_last() =~= entries.take(r as int));
            assert(t.last() == entries[r as int]);
            assert(text_views(texts@) =~= prev + seq![
                hint_text(x as int, row_y as int, key_width as int, keys@, HintStyle::Key),
                hint_text(x + key_width, row_y as int, label_width as int, "  "@ + label@, HintStyle::Dim),
            ]);
        }
        r = r + 1;
    }
    proof {
        assert(entries.take(col.entries@.len() as int) =~= entries);
        assert(head =~= base + seq![hint_text(x as int, y as int, col.width as int, col.title@, HintStyle::Title)]);
    }
}

/// The keybinding panel for `area`, listing `groups` and quoting `prefix` in its footer:
/// nothing when the area has no room for the frame and one column, or no column fits; else
/// the panel is anchored to the bottom of the area, as tall as its deepest column (at most
/// `PREFIX_HINT_MAX_ROWS` entries) plus the frame.
pub fn render_prefix_hint_panel(area: PanelRect, groups: &Vec<PrefixHintGroup>, prefix: &str) -> (r: Option<PrefixHintPanel>)
    requires
        area.wf(),
    ensures
        ({
            let max_rows = min_int(area.height - PREFIX_HINT_CHROME_HEIGHT, PREFIX_HINT_MAX_ROWS as int);
            let all = hint_columns(HintMeasure::Columns, group_views(groups@), max_int(max_rows, 1) as nat);
            let cols = all.take(fit_count(all, area.width - 2));
            let rows = min_int(max_entries(cols), max_rows);
            &&& r is None <==> (area.height <= PREFIX_HINT_CHROME_HEIGHT || area.width < PREFIX_HINT_MIN_COLUMN_WIDTH + 2
                || cols.len() == 0 || rows == 0)
            &&& r matches Some(p) ==> {
                &&& p.rect == (PanelRect { x: area.x, y: (area.y + area.height - (rows + 5)) as u16, width: area.width, height: (rows + 5) as u16 })
                &&& p.inner == (PanelRect { x: (area.x + 1) as u16, y: (area.y + area.height - (rows + 4)) as u16, width: (area.width - 2) as u16, height: (rows + 3) as u16 })
                &&& column_views(p.columns@) == cols
                &&& text_views(p.texts@) == panel_texts(p.rect, p.inner, cols, prefix@)
            }
        }),
{
    if area.height <= PREFIX_HINT_CHROME_HEIGHT || area.width < PREFIX_HINT_MIN_COLUMN_WIDTH + 2 {
        return None;
    }
    let rows_available: usize = (area.height - PREFIX_HINT_CHROME_HEIGHT) as usize;
    let max_rows: usize = if rows_available < PREFIX_HINT_MAX_ROWS { rows_available } else { PREFIX_HINT_MAX_ROWS };
    assert forall|g: int, e: int| 0 <= g < groups@.len() && 0 <= e < groups@[g].entries@.len()
        implies entry_width(HintMeasure::Columns, #[trigger] pair_views(groups@[g].entries@)[e]) <= usize::MAX by {}
    let all = prefix_hint_columns(groups, max_rows, HintMeasure::Columns);
    let available: u16 = area.width - 2;
    let ghost allv = column_views(all@);
    assert(allv == hint_columns(HintMeasure::Columns, group_views(groups@), max_rows as nat));
    let columns = fit_prefix_hint_columns(all, available);
    let ghost cols = column_views(columns@);
    assert(cols == allv.take(cols.len() as int));
    proof {
        lemma_hint_columns_fit(group_views(groups@), max_rows as nat);
        assert forall|j: int| 0 <= j < allv.len() implies #[trigger] allv[j].2 >= 0 by {
            assert(keys_fit(allv[j]));
        }
        lemma_fit_bounds(allv, 0, 0, available as int);
        lemma_fit_from_range(allv, 0, 0, available as int);
        assert forall|j: int| 0 <= j < cols.len() implies keys_fit(#[trigger] cols[j]) && cols[j].1.len() <= max_rows by {
            assert(cols[j] == allv[j]);
            assert(keys_fit(allv[j]));
        }
        lemma_max_entries(cols);
    }
    if columns.len() == 0 {
        return None;
    }
    let mut deepest: usize = 0;
    let mut c: usize = 0;
    while c < columns.len()
        invariant
            c <= columns@.len(),
            cols == column_views(columns@),
            deepest == max_entries(cols.take(c as int)),
        decreases columns@.len() - c,
    {
        assert(cols.take(c + 1).drop_last() =~= cols.take(c as int));
        assert(cols[c as int].1.len() == columns@[c as int].entries@.len());
        let n = columns[c].entries.len();
        if n > deepest {
            deepest = n;
        }
        c = c + 1;
    }
    assert(cols.take(cols.len() as int) =~= cols);
    let rows_needed: usize = if deepest < max_rows { deepest } else { max_rows };
    if rows_needed == 0 {
        return None;
    }
    let height: u16 = rows_needed as u16 + PREFIX_HINT_CHROME_HEIGHT;
    let rect = PanelRect::new(area.x, area.y + area.height - height, area.width, height);
    let inner = PanelRect::new(rect.x + 1, rect.y + 1, rect.width - 2, rect.height - 2);

    let mut texts: Vec<HintText> = Vec::new();
    assert(text_views(texts@) =~= Seq::empty());
    if rect.width > 10 {
        push_text(&mut texts, rect.x + 2, rect.y, rect.width - 4, " PREFIX ".to_owned(), HintStyle::Key);
    }
    let ghost head = text_views(texts@);
    assert(head =~= (if rect.width > 10 {
        seq![hint_text(rect.x + 2, rect.y as int, rect.width - 4, " PREFIX "@, HintStyle::Key)]
    } else {
        Seq::empty()
    }));

    let mut x: u16 = inner.x;
    let mut c: usize = 0;
    assert(cols.take(0) =~= Seq::empty());
    while c < columns.len()
        invariant
            c <= columns@.len(),
            cols == column_views(columns@),
            forall|j: int| 0 <= j < cols.len() ==> keys_fit(#[trigger] cols[j]),
            forall|j: int| 0 <= j < cols.len() ==> #[trigger] column_offset(allv, j) + allv[j].2 <= available,
            forall|j: int| 0 <= j < cols.len() ==> #[trigger] cols[j] == allv[j],
            cols.len() <= allv.len(),
            cols == allv.take(cols.len() as int),
            c < columns@.len() ==> x == inner.x + column_offset(cols, c as int),
            available == inner.width,
            inner.x + inner.width <= u16::MAX,
            inner.y + 1 + rows_needed <= u16::MAX,
            rows_needed == min_int(max_entries(cols), max_rows as int),
            max_rows <= PREFIX_HINT_MAX_ROWS,
            forall|j: int| 0 <= j < cols.len() ==> (#[trigger] cols[j]).1.len() <= rows_needed,
            text_views(texts@) == head + columns_texts(cols.take(c as int), inner.x as int, inner.y as int),
        decreases columns@.len() - c,
    {
        let ghost prev = text_views(texts@);
        let col = &columns[c];
        proof {
            lemma_column_offset_prefix(cols, c as int, c as int);
            lemma_column_offset_prefix(allv, cols.len() as int, c as int);
            lemma_column_offset_prefix(allv, cols.len() as int, c + 1);
            assert(column_offset(allv, c as int) + allv[c as int].2 <= available);
            if c + 1 < cols.len() {
                assert(column_offset(allv, c + 1) + allv[c + 1].2 <= available);
                assert(allv[c + 1].2 >= 0) by {
                    assert(keys_fit(cols[c + 1]));
                }
            }
            assert(column_view(*col) == cols[c as int]);
            assert(keys_fit(cols[c as int]));
        }
        push_column_texts(&mut texts, col, x, inner.y, rows_needed);
        proof {
            let t = cols.take(c + 1);
            assert(t.drop_last() =~= cols.take(c as int));
            lemma_column_offset_prefix(cols, c + 1, c as int);
        }
        if c + 1 < columns.len() {
            x = x + col.width + PREFIX_HINT_COLUMN_GAP;
        }
        c = c + 1;
    }
    assert(cols.take(cols.len() as int) =~= cols);

    let footer_y = inner.y + inner.height - 1;
    let right = inner.x + inner.width;
    let ghost mid = text_views(texts@);
    let x0 = inner.x;
    let x1 = push_footer(&mut texts, x0, footer_y, right, "esc", HintStyle::Key);
    let x2 = push_footer(&mut texts, x1, footer_y, right, " cancel   ", HintStyle::Dim);
    let x3 = push_footer(&mut texts, x2, footer_y, right, prefix, HintStyle::Key);
    let _x4 = push_footer(&mut texts, x3, footer_y, right, " send prefix", HintStyle::Dim);
    proof {
        let items = footer_items(prefix@);
        reveal_with_fuel(footer_texts, 5);
        assert(items.drop_first() =~= seq![(" cancel   "@, HintStyle::Dim), (prefix@, HintStyle::Key), (" send prefix"@, HintStyle::Dim)]);
        assert(items.drop_first().drop_first() =~= seq![(prefix@, HintStyle::Key), (" send prefix"@, HintStyle::Dim)]);
        assert(items.drop_first().drop_first().drop_first() =~= seq![(" send prefix"@, HintStyle::Dim)]);
        assert(items.drop_first().drop_first().drop_first().drop_first() =~= Seq::empty());
        assert(text_views(texts@) =~= mid + footer_texts(items, x0 as int, footer_y as int, right as int));
    }
    Some(PrefixHintPanel { rect, inner, columns, texts })
}

pub open spec fn spaces(n: int) -> Seq<char> {
    Seq::new(if n < 0 { 0 } else { n as nat }, |i: int| ' ')
}

/// `text` padded with spaces, or cut, to exactly `width` characters.
pub open spec fn pad_cell(text: Seq<char>, width: int) -> Seq<char> {
    if text.len() >= width { text.take(width) } else { text + spaces(width - text.len()) }
}

/// `text` padded with spaces, or cut, to exactly `width` characters.
pub fn pad_prefix_hint_cell(text: &str, width: usize) -> (r: String)
    ensures
        r@ == pad_cell(text@, width as int),
{
    let len = text.unicode_len();
    if len >= width {
        let chars = crate::text::str_chars(text);
        let r = crate::text::range_to_string(&chars, 0, width);
        assert(chars@.subrange(0, width as int) =~= text@.take(width as int));
        return r;
    }
    let mut padded = text.to_owned();
    let mut k: usize = len;
    while k < width
        invariant
            len == text@.len(),
            len <= k <= width,
            padded@ == text@ + spaces(k - len),
        decreases width - k,
    {
        crate::text::string_push(&mut padded, ' ');
        assert(padded@ =~= text@ + spaces(k + 1 - len));
        k = k + 1;
    }
    padded
}

/// A column's share of a line: its width plus the gap, except for the last column, which must
/// not pad past the panel edge and wrap the line.
pub open spec fn cell_width(cols: Seq<(Seq<char>, Seq<(Seq<char>, Seq<char>)>, int)>, c: int) -> int {
    cols[c].2 + (if c == cols.len() - 1 { 0int } else { PREFIX_HINT_COLUMN_GAP as int })
}

pub fn prefix_hint_cell_width(column_width: u16, is_last: bool) -> (r: usize)
    ensures
        r == column_width + (if is_last { 0int } else { PREFIX_HINT_COLUMN_GAP as int }),
{
    let gap: u16 = if is_last { 0 } else { PREFIX_HINT_COLUMN_GAP };
    column_width as usize + gap as usize
}

/// A column's spans on entry row `r`: the keys, two spaces and the label, padded to the cell;
/// past the column's entries, a blank cell (nothing for the last column).
pub open spec fn cell_spans(col: (Seq<char>, Seq<(Seq<char>, Seq<char>)>, int), r: int, cw: int, last: bool) -> Seq<(Seq<char>, HintStyle)> {
    if r < col.1.len() {
        let e = col.1[r];
        let used = e.0.len() + 2 + e.1.len();
        seq![(e.0, HintStyle::Key), ("  "@ + e.1, HintStyle::Dim)]
            + (if cw > used { seq![(spaces(cw - used), HintStyle::Plain)] } else { Seq::empty() })
    } else if !last {
        seq![(spaces(cw), HintStyle::Plain)]
    } else {
        Seq::empty()
    }
}

pub open spec fn row_spans(cols: Seq<(Seq<char>, Seq<(Seq<char>, Seq<char>)>, int)>, r: int, k: int) -> Seq<(Seq<char>, HintStyle)>
    decreases k,
{
    if k <= 0 {
        Seq::empty()
    } else {
        row_spans(cols, r, k - 1) + cell_spans(cols[k - 1], r, cell_width(cols, k - 1), k - 1 == cols.len() - 1)
    }
}

pub open spec fn title_spans(cols: Seq<(Seq<char>, Seq<(Seq<char>, Seq<char>)>, int)>) -> Seq<(Seq<char>, HintStyle)> {
    Seq::new(cols.len(), |c: int| (pad_cell(cols[c].0, cell_width(cols, c)), HintStyle::Title))
}

pub open spec fn span_views(v: Seq<(String, HintStyle)>) -> Seq<(Seq<char>, HintStyle)> {
    v.map_values(|p: (String, HintStyle)| (p.0@, p.1))
}

pub open spec fn line_views(v: Seq<Vec<(String, HintStyle)>>) -> Seq<Seq<(Seq<char>, HintStyle)>> {
    v.map_values(|l: Vec<(String, HintStyle)>| span_views(l@))
}

/// Every entry's keys, label and two spaces can be counted in a `usize`.
pub open spec fn columns_measurable(cols: Seq<(Seq<char>, Seq<(Seq<char>, Seq<char>)>, int)>) -> bool {
    forall|c: int, r: int| 0 <= c < cols.len() && 0 <= r < cols[c].1.len() ==>
        entry_width(HintMeasure::Chars, #[trigger] cols[c].1[r]) <= usize::MAX
}

/// The footer line: the cancel and send-prefix keys, and the key for the full keybinding help.
pub open spec fn footer_line(prefix: Seq<char>, help: Seq<char>) -> Seq<(Seq<char>, HintStyle)> {
    seq![
        ("esc"@, HintStyle::Key),
        (" cancel   "@, HintStyle::Dim),
        (prefix, HintStyle::Key),
        (" send prefix   "@, HintStyle::Dim),
        (help, HintStyle::Key),
        (" all keybinds"@, HintStyle::Dim),
    ]
}

/// The lines the server-side keybinding panel writes inside its border: the column titles,
/// `rows` entry rows, a blank line and the footer.
pub open spec fn panel_lines(cols: Seq<(Seq<char>, Seq<(Seq<char>, Seq<char>)>, int)>, rows: int, prefix: Seq<char>, help: Seq<char>) -> Seq<Seq<(Seq<char>, HintStyle)>> {
    seq![title_spans(cols)] + Seq::new(if rows < 0 { 0 } else { rows as nat }, |r: int| row_spans(cols, r, cols.len() as int))
        + seq![Seq::empty(), footer_line(prefix, help)]
}

fn push_span(line: &mut Vec<(String, HintStyle)>, text: String, style: HintStyle)
    ensures
        span_views(final(line)@) == span_views(old(line)@).push((text@, style)),
{
    let ghost before = line@;
    line.push((text, style));
    assert(span_views(line@) =~= span_views(before).push((text@, style)));
}

fn spaces_string(n: usize) -> (s: String)
    ensures
        s@ == spaces(n as int),
{
    let mut s = String::new();
    let mut k: usize = 0;
    while k < n
        invariant
            k <= n,
            s@ == spaces(k as int),
        decreases n - k,
    {
        crate::text::string_push(&mut s, ' ');
        assert(s@ =~= spaces(k + 1));
        k = k + 1;
    }
    s
}

/// The spans of entry row `r`, column by column.
fn entry_row_spans(columns: &Vec<PrefixHintColumn>, r: usize) -> (line: Vec<(String, HintStyle)>)
    requires
        columns@.len() > 0,
        columns_measurable(column_views(columns@)),
    ensures
        span_views(line@) == row_spans(column_views(columns@), r as int, columns@.len() as int),
{
    let ghost cols = column_views(columns@);
    let mut line: Vec<(String, HintStyle)> = Vec::new();
    assert(span_views(line@) =~= Seq::empty());
    let last = columns.len() - 1;
    let mut c: usize = 0;
    while c < columns.len()
        invariant
            c <= columns@.len(),
            last == columns@.len() - 1,
            cols == column_views(columns@),
            columns_measurable(cols),
            span_views(line@) == row_spans(cols, r as int, c as int),
        decreases columns@.len() - c,
    {
        let ghost before = span_views(line@);
        let column = &columns[c];
        let cw = prefix_hint_cell_width(column.width, c == last);
        assert(cols[c as int] == column_view(*column));
        if r < column.entries.len() {
            let keys = &column.entries[r].0;
            let label = &column.entries[r].1;
            assert(cols[c as int].1[r as int] == (keys@, label@));
            assert(entry_width(HintMeasure::Chars, cols[c as int].1[r as int]) <= usize::MAX);
            push_span(&mut line, keys.clone(), HintStyle::Key);
            let mut dim = "  ".to_owned();
            dim.append(label.as_str());
            push_span(&mut line, dim, HintStyle::Dim);
            let used = keys.unicode_len() + 2 + label.unicode_len();
            if cw > used {
                push_span(&mut line, spaces_string(cw - used), HintStyle::Plain);
            }
        } else if c != last {
            push_span(&mut line, spaces_string(cw), HintStyle::Plain);
        }
        assert(span_views(line@) =~= before + cell_spans(cols[c as int], r as int, cell_width(cols, c as int), c == last));
        c = c + 1;
    }
    line
}

/// The server-side keybinding panel's lines (see `panel_lines`).
pub fn prefix_hint_panel_lines(columns: &Vec<PrefixHintColumn>, rows: usize, prefix: &str, help: &str) -> (lines: Vec<Vec<(String, HintStyle)>>)
    requires
        columns@.len() > 0,
        columns_measurable(column_views(columns@)),
    ensures
        line_views(lines@) == panel_lines(column_views(columns@), rows as int, prefix@, help@),
{
    let ghost cols = column_views(columns@);
    let mut lines: Vec<Vec<(String, HintStyle)>> = Vec::new();
    let mut titles: Vec<(String, HintStyle)> = Vec::new();
    let last = columns.len() - 1;
    let mut c: usize = 0;
    while c < columns.len()
        invariant
            c <= columns@.len(),
            last == columns@.len() - 1,
            cols == column_views(columns@),
            span_views(titles@) == title_spans(cols).take(c as int),
        decreases columns@.len() - c,
    {
        let ghost before = span_views(titles@);
        let cw = prefix_hint_cell_width(columns[c].width, c == last);
        assert(cols[c as int] == column_view(columns@[c as int]));
        push_span(&mut titles, pad_prefix_hint_cell(columns[c].title.as_str(), cw), HintStyle::Title);
        assert(title_spans(cols).take(c + 1) =~= before.push((pad_cell(cols[c as int].0, cell_width(cols, c as int)), HintStyle::Title)));
        c = c + 1;
    }
    assert(title_spans(cols).take(cols.len() as int) =~= title_spans(cols));
    lines.push(titles);
    let ghost rows_seq = Seq::new(rows as nat, |r: int| row_spans(cols, r, cols.len() as int));
    let mut r: usize = 0;
    while r < rows
        invariant
            r <= rows,
            cols == column_views(columns@),
            columns@.len() > 0,
            columns_measurable(cols),
            rows_seq == Seq::new(rows as nat, |r: int| row_spans(cols, r, cols.len() as int)),
            line_views(lines@) == seq![title_spans(cols)] + rows_seq.take(r as int),
        decreases rows - r,
    {
        let ghost before = line_views(lines@);
        let line = entry_row_spans(columns, r);
        lines.push(line);
        assert(line_views(lines@) =~= before.push(span_views(line@)));
        assert(rows_seq.take(r + 1) =~= rows_seq.take(r as int).push(rows_seq[r as int]));
        r = r + 1;
    }
    assert(rows_seq.take(rows as int) =~= rows_seq);
    let ghost body = line_views(lines@);
    let blank: Vec<(String, HintStyle)> = Vec::new();
    assert(span_views(blank@) =~= Seq::empty());
    lines.push(blank);
    let mut footer: Vec<(String, HintStyle)> = Vec::new();
    assert(span_views(footer@) =~= Seq::empty());
    push_span(&mut footer, "esc".to_owned(), HintStyle::Key);
    push_span(&mut footer, " cancel   ".to_owned(), HintStyle::Dim);
    push_span(&mut footer, prefix.to_owned(), HintStyle::Key);
    push_span(&mut footer, " send prefix   ".to_owned(), HintStyle::Dim);
    push_span(&mut footer, help.to_owned(), HintStyle::Key);
    push_span(&mut footer, " all keybinds".to_owned(), HintStyle::Dim);
    assert(span_views(footer@) =~= footer_line(prefix@, help@));
    lines.push(footer);
    assert(line_views(lines@) =~= panel_lines(cols, rows as int, prefix@, help@));
    lines
}

pub open spec fn entries_measurable(es: Seq<(Seq<char>, Seq<char>)>) -> bool {
    forall|i: int| 0 <= i < es.len() ==> entry_width(HintMeasure::Chars, #[trigger] es[i]) <= usize::MAX
}

proof fn lemma_group_columns_measurable(m: HintMeasure, title: Seq<char>, entries: Seq<(Seq<char>, Seq<char>)>, rows: nat, first: bool)
    requires
        entries_measurable(entries),
    ensures
        forall|c: int| 0 <= c < group_columns(m, title, entries, rows, first).len()
            ==> entries_measurable(#[trigger] group_columns(m, title, entries, rows, first)[c].1),
    decreases entries.len(),
{
    if entries.len() > 0 && rows > 0 {
        let k = min_int(rows as int, entries.len() as int);
        let chunk = entries.take(k);
        let rest_entries = entries.skip(k);
        assert(entries_measurable(chunk)) by {
            assert forall|i: int| 0 <= i < chunk.len() implies entry_width(HintMeasure::Chars, #[trigger] chunk[i]) <= usize::MAX by {
                assert(chunk[i] == entries[i]);
            }
        }
        assert(entries_measurable(rest_entries)) by {
            assert forall|i: int| 0 <= i < rest_entries.len() implies entry_width(HintMeasure::Chars, #[trigger] rest_entries[i]) <= usize::MAX by {
                assert(rest_entries[i] == entries[i + k]);
            }
        }
        lemma_group_columns_measurable(m, title, rest_entries, rows, false);
        let head = (if first { title } else { Seq::empty() }, chunk, chunk_width(m, title, chunk));
        let rest = group_columns(m, title, rest_entries, rows, false);
        assert(group_columns(m, title, entries, rows, first) == seq![head] + rest);
        assert forall|c: int| 0 <= c < (seq![head] + rest).len() implies entries_measurable(#[trigger] (seq![head] + rest)[c].1) by {
            if c > 0 {
                assert((seq![head] + rest)[c] == rest[c - 1]);
            }
        }
    }
}

proof fn lemma_hint_columns_measurable(m: HintMeasure, groups: Seq<(Seq<char>, Seq<(Seq<char>, Seq<char>)>)>, rows: nat)
    requires
        forall|g: int| 0 <= g < groups.len() ==> entries_measurable(#[trigger] groups[g].1),
    ensures
        forall|c: int| 0 <= c < hint_columns(m, groups, rows).len() ==> entries_measurable(#[trigger] hint_columns(m, groups, rows)[c].1),
    decreases groups.len(),
{
    if groups.len() > 0 {
        let a = hint_columns(m, groups.drop_last(), rows);
        let b = group_columns(m, groups.last().0, groups.last().1, rows, true);
        assert forall|g: int| 0 <= g < groups.drop_last().len() implies entries_measurable(#[trigger] groups.drop_last()[g].1) by {
            assert(groups.drop_last()[g] == groups[g]);
        }
        lemma_hint_columns_measurable(m, groups.drop_last(), rows);
        assert(entries_measurable(groups[groups.len() - 1].1));
        lemma_group_columns_measurable(m, groups.last().0, groups.last().1, rows, true);
        assert forall|c: int| 0 <= c < (a + b).len() implies entries_measurable(#[trigger] (a + b)[c].1) by {
            if c < a.len() {
                assert((a + b)[c] == a[c]);
            } else {
                assert((a + b)[c] == b[c - a.len()]);
            }
        }
    }
}

/// Where the server-side keybinding panel goes and what it lists: nothing when the area has no
/// room for the frame and one column, or no column fits; else the panel anchored to the bottom
/// of the area, as tall as its deepest column (at most `PREFIX_HINT_MAX_ROWS` entries) plus the
/// frame, with the columns shown and the entry row count.
pub fn layout_prefix_hint_panel(area: PanelRect, groups: &Vec<PrefixHintGroup>, m: HintMeasure) -> (r: Option<(PanelRect, Vec<PrefixHintColumn>, usize)>)
    requires
        area.wf(),
        groups_measurable(m, groups@),
    ensures
        ({
            let max_rows = min_int(area.height - PREFIX_HINT_CHROME_HEIGHT, PREFIX_HINT_MAX_ROWS as int);
            let all = hint_columns(m, group_views(groups@), max_int(max_rows, 1) as nat);
            let cols = all.take(fit_count(all, area.width - 2));
            let rows = min_int(max_entries(cols), max_rows);
            &&& r is None <==> (area.height <= PREFIX_HINT_CHROME_HEIGHT || area.width < PREFIX_HINT_MIN_COLUMN_WIDTH + 2
                || cols.len() == 0 || rows == 0)
            &&& r matches Some((rect, columns, n)) ==> {
                &&& rect == (PanelRect { x: area.x, y: (area.y + area.height - (rows + 5)) as u16, width: area.width, height: (rows + 5) as u16 })
                &&& column_views(columns@) == cols
                &&& n == rows
            }
        }),
{
    if area.height <= PREFIX_HINT_CHROME_HEIGHT || area.width < PREFIX_HINT_MIN_COLUMN_WIDTH + 2 {
        return None;
    }
    let rows_available: usize = (area.height - PREFIX_HINT_CHROME_HEIGHT) as usize;
    let max_rows: usize = if rows_available < PREFIX_HINT_MAX_ROWS { rows_available } else { PREFIX_HINT_MAX_ROWS };
    let all = prefix_hint_columns(groups, max_rows, m);
    let columns = fit_prefix_hint_columns(all, area.width - 2);
    let ghost cols = column_views(columns@);
    if columns.len() == 0 {
        return None;
    }
    let mut deepest: usize = 0;
    let mut c: usize = 0;
    while c < columns.len()
        invariant
            c <= columns@.len(),
            cols == column_views(columns@),
            deepest == max_entries(cols.take(c as int)),
        decreases columns@.len() - c,
    {
        assert(cols.take(c + 1).drop_last() =~= cols.take(c as int));
        assert(cols[c as int].1.len() == columns@[c as int].entries@.len());
        let n = columns[c].entries.len();
        if n > deepest {
            deepest = n;
        }
        c = c + 1;
    }
    assert(cols.take(cols.len() as int) =~= cols);
    let rows_needed: usize = if deepest < max_rows { deepest } else { max_rows };
    if rows_needed == 0 {
        return None;
    }
    let height: u16 = rows_needed as u16 + PREFIX_HINT_CHROME_HEIGHT;
    let rect = PanelRect::new(area.x, area.y + area.height - height, area.width, height);
    Some((rect, columns, rows_needed))
}

/// The server-side terminal UI's keybinding panel: where it goes, the " PREFIX " name on its
/// top border (where the panel is wider than ten columns), and the lines written inside its
/// border (see `panel_lines`), entries counted in characters.
#[derive(Debug, Clone)]
pub struct PrefixHintLines {
    pub rect: PanelRect,
    pub name_rect: Option<PanelRect>,
    pub lines: Vec<Vec<(String, HintStyle)>>,
}

pub fn render_prefix_hint_lines(area: PanelRect, groups: &Vec<PrefixHintGroup>, prefix: &str, help: &str) -> (r: Option<PrefixHintLines>)
    requires
        area.wf(),
        groups_measurable(HintMeasure::Chars, groups@),
    ensures
        ({
            let max_rows = min_int(area.height - PREFIX_HINT_CHROME_HEIGHT, PREFIX_HINT_MAX_ROWS as int);
            let all = hint_columns(HintMeasure::Chars, group_views(groups@), max_int(max_rows, 1) as nat);
            let cols = all.take(fit_count(all, area.width - 2));
            let rows = min_int(max_entries(cols), max_rows);
            &&& r is None <==> (area.height <= PREFIX_HINT_CHROME_HEIGHT || area.width < PREFIX_HINT_MIN_COLUMN_WIDTH + 2
                || cols.len() == 0 || rows == 0)
            &&& r matches Some(p) ==> {
                &&& p.rect == (PanelRect { x: area.x, y: (area.y + area.height - (rows + 5)) as u16, width: area.width, height: (rows + 5) as u16 })
                &&& p.name_rect == (if p.rect.width > 10 {
                    Some(PanelRect { x: (p.rect.x + 2) as u16, y: p.rect.y, width: (p.rect.width - 4) as u16, height: 1 })
                } else {
                    None
                })
                &&& line_views(p.lines@) == panel_lines(cols, rows, prefix@, help@)
            }
        }),
{
    let laid = layout_prefix_hint_panel(area, groups, HintMeasure::Chars);
    let (rect, columns, rows) = match laid {
        None => return None,
        Some(l) => l,
    };
    proof {
        let gv = group_views(groups@);
        let max_rows = min_int(area.height - PREFIX_HINT_CHROME_HEIGHT, PREFIX_HINT_MAX_ROWS as int);
        let all = hint_columns(HintMeasure::Chars, gv, max_int(max_rows, 1) as nat);
        assert forall|g: int| 0 <= g < gv.len() implies entries_measurable(#[trigger] gv[g].1) by {
            assert forall|i: int| 0 <= i < gv[g].1.len() implies entry_width(HintMeasure::Chars, #[trigger] gv[g].1[i]) <= usize::MAX by {
                assert(gv[g].1 == pair_views(groups@[g].entries@));
            }
        }
        lemma_hint_columns_measurable(HintMeasure::Chars, gv, max_int(max_rows, 1) as nat);
        lemma_fit_from_range(all, 0, 0, area.width - 2);
        let cols = column_views(columns@);
        assert forall|c: int, i: int| 0 <= c < cols.len() && 0 <= i < cols[c].1.len()
            implies entry_width(HintMeasure::Chars, #[trigger] cols[c].1[i]) <= usize::MAX by {
            assert(cols[c] == all[c]);
            assert(entries_measurable(all[c].1));
        }
    }
    let name_rect = if rect.width > 10 { Some(PanelRect::new(rect.x + 2, rect.y, rect.width - 4, 1)) } else { None };
    let lines = prefix_hint_panel_lines(&columns, rows, prefix, help);
    Some(PrefixHintLines { rect, name_rect, lines })
}

/// When the keybinding panel shows: once prefix mode has been held for `delay_ms` (never when
/// the delay is unset), until prefix mode is left. Times are milliseconds on a monotonic clock.
#[derive(Debug, Clone, Copy, PartialEq, Eq)]
pub struct PrefixHintTimer {
    pub delay_ms: Option<u64>,
    pub visible: bool,
    pub deadline: Option<u64>,
}

pub open spec fn sat_add(a: u64, b: u64) -> u64 {
    if a + b > u64::MAX { u64::MAX } else { (a + b) as u64 }
}

impl PrefixHintTimer {
    pub fn new(delay_ms: Option<u64>) -> (r: Self)
        ensures
            r.delay_ms == delay_ms,
            !r.visible,
            r.deadline is None,
    {
        PrefixHintTimer { delay_ms, visible: false, deadline: None }
    }

    /// Advances the timer to `now_ms`. In prefix mode with a delay set, the first tick arms the
    /// deadline (`now + delay`), later ticks before it change nothing, and the tick that
    /// reaches it shows the panel; outside prefix mode (or without a delay) the panel is hidden
    /// and the deadline dropped, so re-entering prefix mode starts the delay over. Returns
    /// whether the panel's visibility changed (the screen needs redrawing).
    pub fn tick_prefix_hint(&mut self, in_prefix_mode: bool, now_ms: u64) -> (changed: bool)
        ensures
            final(self).delay_ms == old(self).delay_ms,
            !in_prefix_mode || old(self).delay_ms is None ==> !final(self).visible && final(self).deadline is None
                && changed == old(self).visible,
            in_prefix_mode && old(self).delay_ms is Some ==> {
                let delay = old(self).delay_ms->0;
                if old(self).visible {
                    !changed && *final(self) == *old(self)
                } else {
                    match old(self).deadline {
                        None => !changed && !final(self).visible && final(self).deadline == Some(sat_add(now_ms, delay)),
                        Some(d) => if now_ms >= d {
                            changed && final(self).visible && final(self).deadline is None
                        } else {
                            !changed && *final(self) == *old(self)
                        },
                    }
                }
            },
    {
        let delay = match self.delay_ms {
            Some(d) => d,
            None => {
                let was = self.visible;
                self.visible = false;
                self.deadline = None;
                return was;
            },
        };
        if !in_prefix_mode {
            let was = self.visible;
            self.visible = false;
            self.deadline = None;
            return was;
        }
        if self.visible {
            return false;
        }
        match self.deadline {
            None => {
                self.deadline = Some(now_ms.saturating_add(delay));
                false
            },
            Some(d) => {
                if now_ms >= d {
                    self.visible = true;
                    self.deadline = None;
                    true
                } else {
                    false
                }
            },
        }
    }

    /// How long the event loop may sleep before the panel is due (`None`: no deadline is armed).
    pub fn wake_delay(&self, now_ms: u64) -> (r: Option<u64>)
        ensures
            match self.deadline {
                None => r is None,
                Some(d) => r == Some(if d > now_ms { (d - now_ms) as u64 } else { 0u64 }),
            },
    {
        match self.deadline {
            None => None,
            Some(d) => Some(if d > now_ms { d - now_ms } else { 0 }),
        }
    }
}

/// The border glyph the keybinding panel's frame draws at `(x, y)`: corners, horizontal edges
/// along the top and bottom rows, vertical edges down the sides; `None` inside (the frame's
/// background only).
pub open spec fn frame_glyph(area: PanelRect, x: int, y: int) -> Option<char> {
    let right = area.x + area.width - 1;
    let bottom = area.y + area.height - 1;
    if y == area.y {
        Some(if x == area.x { '\u{250c}' } else if x == right { '\u{2510}' } else { '\u{2500}' })
    } else if y == bottom {
        Some(if x == area.x { '\u{2514}' } else if x == right { '\u{2518}' } else { '\u{2500}' })
    } else if x == area.x || x == right {
        Some('\u{2502}')
    } else {
        None
    }
}

/// The frame of the keybinding panel: nothing under two columns or two rows; else the area
/// inside the border.
pub fn prefix_hint_panel_shell(area: PanelRect) -> (inner: Option<PanelRect>)
    requires
        area.wf(),
    ensures
        inner is None <==> (area.width < 2 || area.height < 2),
        inner matches Some(r) ==> r == (PanelRect { x: (area.x + 1) as u16, y: (area.y + 1) as u16, width: (area.width - 2) as u16, height: (area.height - 2) as u16 }),
{
    if area.width < 2 || area.height < 2 {
        return None;
    }
    Some(PanelRect::new(area.x + 1, area.y + 1, area.width - 2, area.height - 2))
}

/// The glyph at one cell of the frame (see `frame_glyph`), for a cell inside `area`.
pub fn panel_frame_glyph(area: PanelRect, x: u16, y: u16) -> (g: Option<char>)
    requires
        area.wf(),
        area.x <= x < area.x + area.width,
        area.y <= y < area.y + area.height,
    ensures
        g == frame_glyph(area, x as int, y as int),
{
    let right = area.x + area.width - 1;
    let bottom = area.y + area.height - 1;
    if y == area.y {
        Some(if x == area.x { '\u{250c}' } else if x == right { '\u{2510}' } else { '\u{2500}' })
    } else if y == bottom {
        Some(if x == area.x { '\u{2514}' } else if x == right { '\u{2518}' } else { '\u{2500}' })
    } else if x == area.x || x == right {
        Some('\u{2502}')
    } else {
        None
    }
}

} // verus!
