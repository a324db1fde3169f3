//! The Git panel's commit message box: word-wrapping the draft for display, and locating the
//! insertion point within the wrapped rows.
use unicode_width::UnicodeWidthStr;
use vstd::prelude::*;

use crate::text::{
    first_word, first_word_in, is_ws, lemma_leading_count_bound, lemma_leading_count_skip,
    leading_count, range_to_string, split_on, str_chars, string_push,
};

verus! {

/// How many terminal columns `UnicodeWidthStr::width` gives a string. It is a function of the
/// characters alone (Unicode East Asian Width, with ligature and emoji-sequence rules), too
/// long to state here.
pub uninterp spec fn text_columns(s: Seq<char>) -> nat;

/// Whether every character of `s` is printable ASCII (space to `~`).
pub open spec fn printable_ascii(s: Seq<char>) -> bool {
    forall|i: int| 0 <= i < s.len() ==> ' ' <= #[trigger] s[i] <= '~'
}

/// `UnicodeWidthStr::width` of unicode-width: the displayed width of `s` in columns. Stated
/// here: it is `text_columns` of the characters; an empty string is zero columns wide; and
/// printable ASCII text is one column per character (the crate sums one column for each
/// character below U+00A1 other than a `\r` before `\n`, and its ligature and emoji-sequence
/// rules all involve characters outside ASCII).
#[verifier::external_body]
fn unicode_columns(s: &str) -> (r: usize)
    ensures
        r == text_columns(s@),
        s@.len() == 0 ==> r == 0,
        printable_ascii(s@) ==> r == s@.len(),
{
    UnicodeWidthStr::width(s)
}

/// A display width as the panel counts it: `text_columns`, saturating at `u16::MAX`.
pub open spec fn columns_u16(s: Seq<char>) -> int {
    if text_columns(s) > u16::MAX {
        u16::MAX as int
    } else {
        text_columns(s) as int
    }
}

/// The displayed width of `text` in columns, saturating at `u16::MAX`.
pub fn display_width(text: &str) -> (r: u16)
    ensures
        r == columns_u16(text@),
        printable_ascii(text@) && text@.len() <= u16::MAX ==> r == text@.len(),
{
    let w = unicode_columns(text);
    if w > 65535 {
        65535
    } else {
        w as u16
    }
}

/// The whitespace-separated words of `s`, in order (`str::split_whitespace`).
pub open spec fn words(s: Seq<char>) -> Seq<Seq<char>>
    decreases s.len(),
{
    match first_word(s) {
        None => Seq::empty(),
        Some((w, rest)) => {
            proof {
                lemma_first_word_shrinks(s);
            }
            seq![w] + words(rest)
        },
    }
}

pub proof fn lemma_first_word_shrinks(s: Seq<char>)
    ensures
        first_word(s) matches Some((w, rest)) ==> rest.len() < s.len() && w.len() > 0,
{
    lemma_leading_count_bound(s, true);
    let t = s.skip(leading_count(s, true) as int);
    if t.len() > 0 {
        assert(t[0] == s[leading_count(s, true) as int]);
        lemma_leading_count_bound(t, false);
        assert(leading_count(t, false) >= 1);
    }
}

/// One word added to a paragraph being packed: `(done, current)` holds the finished lines and
/// the line being filled. A word starts the line when it is empty, joins it after one space
/// when the widths (as counted separately) still fit, and otherwise starts a new line.
pub open spec fn pack_step(state: (Seq<Seq<char>>, Seq<char>), word: Seq<char>, width: int) -> (Seq<Seq<char>>, Seq<char>) {
    let (done, current) = state;
    if current.len() == 0 {
        (done, word)
    } else if columns_u16(current) + 1 + columns_u16(word) <= width {
        (done, current + seq![' '] + word)
    } else {
        (done.push(current), word)
    }
}

/// Greedy packing of `ws`, in order.
pub open spec fn pack(ws: Seq<Seq<char>>, width: int) -> (Seq<Seq<char>>, Seq<char>)
    decreases ws.len(),
{
    if ws.len() == 0 {
        (Seq::empty(), Seq::empty())
    } else {
        pack_step(pack(ws.drop_last(), width), ws.last(), width)
    }
}

/// The pieces of `g` joined with `sep` between neighbours (`slice::join`).
pub open spec fn join_with(g: Seq<Seq<char>>, sep: char) -> Seq<char>
    decreases g.len(),
{
    if g.len() == 0 {
        Seq::empty()
    } else if g.len() == 1 {
        g[0]
    } else {
        join_with(g.drop_last(), sep) + seq![sep] + g.last()
    }
}

/// Words joined by single spaces.
pub open spec fn join_words(g: Seq<Seq<char>>) -> Seq<char> {
    join_with(g, ' ')
}

/// A word as `split_whitespace` gives it: not empty, and no whitespace in it.
pub open spec fn is_word(w: Seq<char>) -> bool {
    w.len() > 0 && forall|i: int| 0 <= i < w.len() ==> !is_ws(#[trigger] w[i])
}

/// The whitespace-separated words of each of `ls`, one after another.
pub open spec fn words_of_lines(ls: Seq<Seq<char>>) -> Seq<Seq<char>>
    decreases ls.len(),
{
    if ls.len() == 0 {
        Seq::empty()
    } else {
        words_of_lines(ls.drop_last()) + words(ls.last())
    }
}

/// Every word that joined a line after the first fitted, by the widths counted separately:
/// the line so far, one space, and the word take at most `width` columns.
pub open spec fn joins_fit(g: Seq<Seq<char>>, width: int) -> bool {
    forall|j: int| 1 <= j < g.len() ==> columns_u16(join_words(#[trigger] g.take(j))) + 1 + columns_u16(g[j]) <= width
}

/// The words of each group, in order.
pub open spec fn flatten_groups(gs: Seq<Seq<Seq<char>>>) -> Seq<Seq<char>>
    decreases gs.len(),
{
    if gs.len() == 0 {
        Seq::empty()
    } else {
        flatten_groups(gs.drop_last()) + gs.last()
    }
}

/// `pack_step` on the words of each line rather than on the line's text.
pub open spec fn pack_groups_step(state: (Seq<Seq<Seq<char>>>, Seq<Seq<char>>), word: Seq<char>, width: int) -> (Seq<Seq<Seq<char>>>, Seq<Seq<char>>) {
    let (done, current) = state;
    if current.len() == 0 {
        (done, seq![word])
    } else if columns_u16(join_words(current)) + 1 + columns_u16(word) <= width {
        (done, current.push(word))
    } else {
        (done.push(current), seq![word])
    }
}

/// Greedy packing of `ws` into groups of words, one group per line.
pub open spec fn pack_groups(ws: Seq<Seq<char>>, width: int) -> (Seq<Seq<Seq<char>>>, Seq<Seq<char>>)
    decreases ws.len(),
{
    if ws.len() == 0 {
        (Seq::empty(), Seq::empty())
    } else {
        pack_groups_step(pack_groups(ws.drop_last(), width), ws.last(), width)
    }
}

/// The words on each display line of one paragraph.
pub open spec fn paragraph_groups(p: Seq<char>, width: int) -> Seq<Seq<Seq<char>>> {
    let (done, current) = pack_groups(words(p), width);
    done.push(current)
}

/// The display lines of one paragraph: always at least one, possibly empty.
pub open spec fn paragraph_lines(p: Seq<char>, width: int) -> Seq<Seq<char>> {
    let (done, current) = pack(words(p), width);
    done.push(current)
}

pub open spec fn paragraph_lines_all(ps: Seq<Seq<char>>, width: int) -> Seq<Seq<char>>
    decreases ps.len(),
{
    if ps.len() == 0 {
        Seq::empty()
    } else {
        paragraph_lines_all(ps.drop_last(), width) + paragraph_lines(ps.last(), width)
    }
}

/// `text` word-wrapped to `width` columns (at least one): each manual newline starts a new
/// paragraph; words within a paragraph are packed greedily, and a single word wider than the
/// line is placed alone on its line (display clipping trims it, there is no break inside a
/// word).
pub open spec fn wrapped(text: Seq<char>, width: int) -> Seq<Seq<char>> {
    paragraph_lines_all(split_on(text, '\n'), if width < 1 {
        1
    } else {
        width
    })
}

pub open spec fn string_views(v: Seq<String>) -> Seq<Seq<char>> {
    v.map_values(|s: String| s@)
}

/// The display lines of the paragraph `p[lo..hi]`.
fn wrap_paragraph(p: &Vec<char>, lo: usize, hi: usize, width: u16) -> (lines: Vec<String>)
    requires
        lo <= hi <= p@.len(),
        width >= 1,
    ensures
        string_views(lines@) == paragraph_lines(p@.subrange(lo as int, hi as int), width as int),
{
    let ghost para = p@.subrange(lo as int, hi as int);
    let mut done: Vec<String> = Vec::new();
    let mut current = String::new();
    let ghost mut consumed: Seq<Seq<char>> = Seq::empty();
    let mut pos = lo;
    while pos < hi
        invariant
            lo <= pos <= hi,
            hi <= p@.len(),
            para == p@.subrange(lo as int, hi as int),
            words(para) == consumed + words(p@.subrange(pos as int, hi as int)),
            (string_views(done@), current@) == pack(consumed, width as int),
        decreases hi - pos,
    {
        match first_word_in(p, pos, hi) {
            None => {
                assert(words(p@.subrange(pos as int, hi as int)) =~= Seq::empty());
                pos = hi;
            },
            Some((a, b)) => {
                let ghost sub = p@.subrange(pos as int, hi as int);
                let ghost w = p@.subrange(a as int, b as int);
                proof {
                    lemma_first_word_shrinks(sub);
                    assert(words(sub) == seq![w] + words(p@.subrange(b as int, hi as int)));
                }
                let word = range_to_string(p, a, b);
                let ghost prev = (string_views(done@), current@);
                if current.as_str().is_empty() {
                    current = word;
                } else {
                    let cw = display_width(current.as_str()) as u32;
                    let ww = display_width(word.as_str()) as u32;
                    if cw + 1 + ww <= width as u32 {
                        string_push(&mut current, ' ');
                        current.append(word.as_str());
                    } else {
                        let finished = current;
                        done.push(finished);
                        current = word;
                        assert(string_views(done@) =~= prev.0.push(prev.1));
                    }
                }
                proof {
                    let c2 = consumed.push(w);
                    assert(c2.drop_last() =~= consumed);
                    assert(c2 + words(p@.subrange(b as int, hi as int)) =~= consumed + (seq![w]
                        + words(p@.subrange(b as int, hi as int))));
                    consumed = c2;
                    assert((string_views(done@), current@) == pack_step(prev, w, width as int));
                }
                pos = b;
            },
        }
    }
    assert(consumed =~= words(para)) by {
        assert(p@.subrange(pos as int, hi as int) =~= Seq::<char>::empty());
        assert(first_word(Seq::<char>::empty()) is None);
        assert(consumed + Seq::<Seq<char>>::empty() =~= consumed);
    }
    let ghost before = string_views(done@);
    done.push(current);
    assert(string_views(done@) =~= before.push(pack(consumed, width as int).1));
    done
}

/// `text` word-wrapped to `width` columns for display only: the stored draft keeps its own
/// spacing and newlines. Each manual newline starts a new paragraph; words within a paragraph
/// are packed greedily, and a single word wider than `width` is placed alone on its line.
/// Always returns at least one (possibly empty) line.
pub fn wrap_commit_message(text: &str, width: u16) -> (lines: Vec<String>)
    ensures
        string_views(lines@) == wrapped(text@, width as int),
{
    let w: u16 = if width < 1 {
        1
    } else {
        width
    };
    let cs = str_chars(text);
    let mut out: Vec<String> = Vec::new();
    let mut start: usize = 0;
    let mut i: usize = 0;
    while i < cs.len()
        invariant
            start <= i <= cs@.len(),
            w >= 1,
            w as int == (if width < 1 {
                1
            } else {
                width as int
            }),
            split_on(cs@.take(i as int), '\n').len() >= 1,
            split_on(cs@.take(i as int), '\n').last() == cs@.subrange(start as int, i as int),
            string_views(out@) == paragraph_lines_all(
                split_on(cs@.take(i as int), '\n').drop_last(),
                w as int,
            ),
        decreases cs@.len() - i,
    {
        let ghost pieces = split_on(cs@.take(i as int), '\n');
        assert(cs@.take(i + 1).drop_last() =~= cs@.take(i as int));
        if cs[i] == '\n' {
            let para = wrap_paragraph(&cs, start, i, w);
            let ghost before = string_views(out@);
            let mut k: usize = 0;
            while k < para.len()
                invariant
                    k <= para@.len(),
                    string_views(out@) == before + string_views(para@).take(k as int),
                decreases para@.len() - k,
            {
                let line = para[k].clone();
                let ghost prev = out@;
                out.push(line);
                assert(string_views(out@) =~= string_views(prev).push(para@[k as int]@));
                assert(string_views(para@).take(k + 1) =~= string_views(para@).take(k as int).push(para@[k as int]@));
                assert(string_views(out@) =~= before + string_views(para@).take(k + 1));
                k = k + 1;
            }
            assert(string_views(para@).take(k as int) =~= string_views(para@));
            start = i + 1;
            proof {
                let next = split_on(cs@.take(i + 1), '\n');
                assert(next == pieces.push(Seq::empty()));
                assert(next.drop_last() =~= pieces);
                assert(pieces =~= pieces.drop_last().push(pieces.last()));
            }
        } else {
            proof {
                let next = split_on(cs@.take(i + 1), '\n');
                assert(next == pieces.update(pieces.len() - 1, pieces.last().push(cs@[i as int])));
                assert(next.drop_last() =~= pieces.drop_last());
                assert(cs@.subrange(start as int, i + 1) =~= cs@.subrange(start as int, i as int).push(cs@[i as int]));
            }
        }
        i = i + 1;
    }
    let last = wrap_paragraph(&cs, start, cs.len(), w);
    let ghost before = string_views(out@);
    let mut k: usize = 0;
    while k < last.len()
        invariant
            k <= last@.len(),
            string_views(out@) == before + string_views(last@).take(k as int),
        decreases last@.len() - k,
    {
        let line = last[k].clone();
        let ghost prev = out@;
        out.push(line);
        assert(string_views(out@) =~= string_views(prev).push(last@[k as int]@));
        assert(string_views(last@).take(k + 1) =~= string_views(last@).take(k as int).push(last@[k as int]@));
        assert(string_views(out@) =~= before + string_views(last@).take(k + 1));
        k = k + 1;
    }
    proof {
        assert(string_views(last@).take(k as int) =~= string_views(last@));
        let pieces = split_on(cs@.take(i as int), '\n');
        assert(cs@.take(i as int) =~= text@);
        assert(pieces =~= pieces.drop_last().push(pieces.last()));
    }
    out
}

proof fn lemma_join_words_nonempty(g: Seq<Seq<char>>)
    requires
        g.len() > 0,
        g[0].len() > 0,
    ensures
        join_words(g).len() > 0,
    decreases g.len(),
{
    if g.len() > 1 {
        lemma_join_words_nonempty(g.drop_last());
    }
}

proof fn lemma_first_word_is_word(s: Seq<char>)
    ensures
        first_word(s) matches Some((w, rest)) ==> is_word(w),
{
    lemma_first_word_shrinks(s);
    let t = s.skip(leading_count(s, true) as int);
    if t.len() > 0 {
        lemma_leading_count_bound(t, false);
        let n = leading_count(t, false) as int;
        assert forall|i: int| 0 <= i < t.take(n).len() implies !is_ws(#[trigger] t.take(n)[i]) by {
            assert(t.take(n)[i] == t[i]);
        }
    }
}

proof fn lemma_words_are_words(s: Seq<char>)
    ensures
        forall|i: int| 0 <= i < words(s).len() ==> is_word(#[trigger] words(s)[i]),
    decreases s.len(),
{
    lemma_first_word_shrinks(s);
    lemma_first_word_is_word(s);
    match first_word(s) {
        None => {},
        Some((w, rest)) => {
            lemma_words_are_words(rest);
            assert forall|i: int| 0 <= i < words(s).len() implies is_word(#[trigger] words(s)[i]) by {
                if i > 0 {
                    assert(words(s)[i] == words(rest)[i - 1]);
                }
            }
        },
    }
}

/// Packing words and packing groups of words agree: each line is the words of its group
/// joined by single spaces, the groups hold the words in order, and every word that joined a
/// line fitted.
proof fn lemma_pack_groups(ws: Seq<Seq<char>>, width: int)
    requires
        forall|i: int| 0 <= i < ws.len() ==> is_word(#[trigger] ws[i]),
    ensures
        pack(ws, width).0 == pack_groups(ws, width).0.map_values(|g: Seq<Seq<char>>| join_words(g)),
        pack(ws, width).1 == join_words(pack_groups(ws, width).1),
        flatten_groups(pack_groups(ws, width).0) + pack_groups(ws, width).1 == ws,
        pack_groups(ws, width).1.len() == 0 <==> ws.len() == 0,
        forall|j: int| 0 <= j < pack_groups(ws, width).1.len() ==> is_word(#[trigger] pack_groups(ws, width).1[j]),
        forall|k: int| 0 <= k < pack_groups(ws, width).0.len() ==> joins_fit(#[trigger] pack_groups(ws, width).0[k], width)
            && pack_groups(ws, width).0[k].len() > 0,
        forall|k: int, j: int|
            0 <= k < pack_groups(ws, width).0.len() && 0 <= j < pack_groups(ws, width).0[k].len() ==> is_word(
                #[trigger] pack_groups(ws, width).0[k][j],
            ),
        joins_fit(pack_groups(ws, width).1, width),
    decreases ws.len(),
{
    if ws.len() == 0 {
        assert(pack_groups(ws, width).0.map_values(|g: Seq<Seq<char>>| join_words(g)) =~= Seq::<Seq<char>>::empty());
        assert(flatten_groups(Seq::<Seq<Seq<char>>>::empty()) + Seq::<Seq<char>>::empty() =~= ws);
    } else {
        let prev = ws.drop_last();
        let w = ws.last();
        assert forall|i: int| 0 <= i < prev.len() implies is_word(#[trigger] prev[i]) by {
            assert(prev[i] == ws[i]);
        }
        lemma_pack_groups(prev, width);
        let (d0, c0) = pack_groups(prev, width);
        let (ld0, lc0) = pack(prev, width);
        let dm = d0.map_values(|g: Seq<Seq<char>>| join_words(g));
        assert(is_word(ws[ws.len() - 1]));
        assert(w.len() > 0);
        assert(ws == prev.push(w));
        if c0.len() == 0 {
            assert(prev.len() == 0);
            assert(lc0.len() == 0);
            assert(flatten_groups(d0) + seq![w] =~= (flatten_groups(d0) + c0).push(w));
        } else {
            lemma_join_words_nonempty(c0);
            assert(lc0.len() > 0);
            if columns_u16(lc0) + 1 + columns_u16(w) <= width {
                let c1 = c0.push(w);
                assert(c1.drop_last() =~= c0);
                assert(join_words(c1) == join_words(c0) + seq![' '] + w);
                assert(flatten_groups(d0) + c1 =~= (flatten_groups(d0) + c0).push(w));
                assert forall|j: int| 1 <= j < c1.len() implies columns_u16(join_words(#[trigger] c1.take(j))) + 1 + columns_u16(c1[j]) <= width by {
                    if j < c0.len() {
                        assert(c1.take(j) =~= c0.take(j));
                        assert(c1[j] == c0[j]);
                    } else {
                        assert(c1.take(j) =~= c0);
                    }
                }
                assert forall|j: int| 0 <= j < c1.len() implies is_word(#[trigger] c1[j]) by {
                    if j < c0.len() {
                        assert(c1[j] == c0[j]);
                    }
                }
            } else {
                let d1 = d0.push(c0);
                assert(d1.map_values(|g: Seq<Seq<char>>| join_words(g)) =~= dm.push(join_words(c0)));
                assert(d1.drop_last() =~= d0);
                assert(flatten_groups(d1) == flatten_groups(d0) + c0);
                assert(flatten_groups(d1) + seq![w] =~= (flatten_groups(d0) + c0).push(w));
                assert forall|k: int| 0 <= k < d1.len() implies joins_fit(#[trigger] d1[k], width) && d1[k].len() > 0 by {
                    if k < d0.len() {
                        assert(d1[k] == d0[k]);
                    }
                }
                assert forall|k: int, j: int| 0 <= k < d1.len() && 0 <= j < d1[k].len() implies is_word(#[trigger] d1[k][j]) by {
                    if k < d0.len() {
                        assert(d1[k] == d0[k]);
                    } else {
                        assert(c0[j] == d1[k][j]);
                    }
                }
            }
        }
        assert(joins_fit(seq![w], width));
    }
}

/// The wrap of one paragraph, line by line: there is at least one line; line `k` is the words
/// of group `k` joined by single spaces, and its whitespace-separated words are exactly that
/// group; the groups hold the paragraph's whitespace-separated words, in order, each once;
/// only the last line may be empty (when the paragraph has no words); and every word that
/// joined a line after its first word fitted: the line so far, one space and the word take at
/// most `width` columns, each counted as `display_width` counts it.
pub proof fn lemma_paragraph_wrap(p: Seq<char>, width: int)
    ensures
        paragraph_lines(p, width).len() >= 1,
        paragraph_groups(p, width).len() == paragraph_lines(p, width).len(),
        flatten_groups(paragraph_groups(p, width)) == words(p),
        forall|k: int| 0 <= k < paragraph_lines(p, width).len() ==> #[trigger] paragraph_lines(p, width)[k] == join_words(paragraph_groups(p, width)[k]),
        forall|k: int| 0 <= k < paragraph_groups(p, width).len() - 1 ==> #[trigger] paragraph_groups(p, width)[k].len() > 0,
        forall|k: int| 0 <= k < paragraph_groups(p, width).len() ==> joins_fit(#[trigger] paragraph_groups(p, width)[k], width),
        forall|k: int, j: int|
            0 <= k < paragraph_groups(p, width).len() && 0 <= j < paragraph_groups(p, width)[k].len() ==> is_word(
                #[trigger] paragraph_groups(p, width)[k][j],
            ),
        forall|k: int| 0 <= k < paragraph_lines(p, width).len() ==> words(#[trigger] paragraph_lines(p, width)[k]) == paragraph_groups(p, width)[k],
{
    let ws = words(p);
    lemma_words_are_words(p);
    lemma_pack_groups(ws, width);
    let (d, c) = pack_groups(ws, width);
    let g = d.push(c);
    assert(g.drop_last() =~= d);
    assert(flatten_groups(g) == flatten_groups(d) + c);
    assert forall|k: int| 0 <= k < paragraph_lines(p, width).len() implies #[trigger] paragraph_lines(p, width)[k] == join_words(g[k]) by {
        if k < d.len() {
            assert(g[k] == d[k]);
        }
    }
    assert forall|k: int| 0 <= k < g.len() - 1 implies #[trigger] g[k].len() > 0 by {
        assert(g[k] == d[k]);
        assert(d[k].len() > 0);
    }
    assert forall|k: int| 0 <= k < g.len() implies joins_fit(#[trigger] g[k], width) by {
        if k < d.len() {
            assert(g[k] == d[k]);
        }
    }
    assert forall|k: int, j: int| 0 <= k < g.len() && 0 <= j < g[k].len() implies is_word(#[trigger] g[k][j]) by {
        if k < d.len() {
            assert(g[k] == d[k]);
        }
    }
    assert forall|k: int| 0 <= k < paragraph_lines(p, width).len() implies words(#[trigger] paragraph_lines(p, width)[k]) == g[k] by {
        assert forall|j: int| 0 <= j < g[k].len() implies is_word(#[trigger] g[k][j]) by {}
        lemma_words_of_join(g[k], ' ');
        lemma_words_of_words(g[k]);
    }
}

/// A whitespace character splits the words: the words of `x`, then those of `y`.
proof fn lemma_words_around_ws(x: Seq<char>, c: char, y: Seq<char>)
    requires
        is_ws(c),
    ensures
        words(x + seq![c] + y) == words(x) + words(y),
    decreases x.len(),
{
    let s = x + seq![c] + y;
    lemma_leading_count_bound(x, true);
    let p = leading_count(x, true) as int;
    assert forall|k: int| 0 <= k < p implies is_ws(#[trigger] s[k]) == true by {
        assert(s[k] == x[k]);
    }
    lemma_leading_count_skip(s, true, p);
    lemma_first_word_shrinks(s);
    lemma_first_word_shrinks(x);
    if p == x.len() {
        let t = s.skip(p);
        assert(t =~= seq![c] + y);
        assert(t.drop_first() =~= y);
        assert(leading_count(t, true) == 1 + leading_count(y, true));
        lemma_leading_count_bound(y, true);
        let k = leading_count(y, true) as int;
        assert(leading_count(s, true) == p + 1 + k);
        assert(s.skip(p + 1 + k) =~= y.skip(k));
        assert(first_word(s) == first_word(y));
        assert(x.skip(p) =~= Seq::<char>::empty());
        assert(first_word(x) is None);
        assert(words(x) =~= Seq::<Seq<char>>::empty());
        assert(words(x) + words(y) =~= words(y));
    } else {
        let xs = x.skip(p);
        lemma_leading_count_bound(xs, false);
        let n = leading_count(xs, false) as int;
        assert(xs[0] == x[p]);
        assert(n >= 1);
        let t = s.skip(p);
        assert(t =~= xs + seq![c] + y);
        assert forall|k: int| 0 <= k < n implies is_ws(#[trigger] t[k]) == false by {
            assert(t[k] == xs[k]);
        }
        lemma_leading_count_skip(t, false, n);
        let tn = t.skip(n);
        assert(tn =~= xs.skip(n) + seq![c] + y);
        if n < xs.len() {
            assert(tn[0] == xs[n]);
        } else {
            assert(tn[0] == c);
        }
        assert(leading_count(tn, false) == 0);
        assert(first_word(s) == Some((t.take(n), tn)));
        assert(t.take(n) =~= xs.take(n));
        assert(first_word(x) == Some((xs.take(n), xs.skip(n))));
        lemma_words_around_ws(xs.skip(n), c, y);
        assert(words(s) == seq![xs.take(n)] + words(tn));
        assert(words(x) == seq![xs.take(n)] + words(xs.skip(n)));
        assert(words(s) =~= words(x) + words(y));
    }
}

/// The words of pieces joined with a whitespace separator are the words of each piece.
proof fn lemma_words_of_join(ls: Seq<Seq<char>>, sep: char)
    requires
        is_ws(sep),
    ensures
        words(join_with(ls, sep)) == words_of_lines(ls),
    decreases ls.len(),
{
    if ls.len() == 0 {
        assert(words(Seq::<char>::empty()) =~= Seq::<Seq<char>>::empty());
    } else if ls.len() == 1 {
        assert(ls.drop_last() =~= Seq::<Seq<char>>::empty());
        assert(words_of_lines(ls.drop_last()) =~= Seq::<Seq<char>>::empty());
        assert(words_of_lines(ls) == words_of_lines(ls.drop_last()) + words(ls.last()));
        assert(words_of_lines(ls) =~= words(ls[0]));
    } else {
        lemma_words_of_join(ls.drop_last(), sep);
        lemma_words_around_ws(join_with(ls.drop_last(), sep), sep, ls.last());
    }
}

/// A word is its own only word.
proof fn lemma_words_of_word(w: Seq<char>)
    requires
        is_word(w),
    ensures
        words(w) == seq![w],
{
    assert(leading_count(w, true) == 0);
    assert(w.skip(0) =~= w);
    lemma_leading_count_skip(w, false, w.len() as int);
    assert(w.skip(w.len() as int) =~= Seq::<char>::empty());
    assert(leading_count(Seq::<char>::empty(), false) == 0);
    assert(w.take(w.len() as int) =~= w);
    assert(first_word(w) == Some((w, Seq::<char>::empty())));
    lemma_first_word_shrinks(w);
    assert(first_word(Seq::<char>::empty()) is None);
    assert(words(Seq::<char>::empty()) =~= Seq::<Seq<char>>::empty());
    assert(words(w) == seq![w] + words(Seq::<char>::empty()));
    assert(words(w) =~= seq![w]);
}

proof fn lemma_words_of_words(g: Seq<Seq<char>>)
    requires
        forall|j: int| 0 <= j < g.len() ==> is_word(#[trigger] g[j]),
    ensures
        words_of_lines(g) == g,
    decreases g.len(),
{
    if g.len() > 0 {
        assert forall|j: int| 0 <= j < g.drop_last().len() implies is_word(#[trigger] g.drop_last()[j]) by {
            assert(g.drop_last()[j] == g[j]);
        }
        lemma_words_of_words(g.drop_last());
        lemma_words_of_word(g.last());
        assert(g.drop_last().push(g.last()) =~= g);
    }
}

proof fn lemma_words_of_lines_append(a: Seq<Seq<char>>, b: Seq<Seq<char>>)
    ensures
        words_of_lines(a + b) == words_of_lines(a) + words_of_lines(b),
    decreases b.len(),
{
    if b.len() == 0 {
        assert(a + b =~= a);
        assert(words_of_lines(a) + words_of_lines(b) =~= words_of_lines(a));
    } else {
        lemma_words_of_lines_append(a, b.drop_last());
        assert((a + b).drop_last() =~= a + b.drop_last());
        assert((a + b).last() == b.last());
        assert(words_of_lines(a + b) =~= words_of_lines(a) + words_of_lines(b));
    }
}

/// The words of a paragraph's display lines are the paragraph's words.
proof fn lemma_paragraph_words(p: Seq<char>, width: int)
    ensures
        words_of_lines(paragraph_lines(p, width)) == words(p),
{
    lemma_paragraph_wrap(p, width);
    let gs = paragraph_groups(p, width);
    let ls = paragraph_lines(p, width);
    lemma_words_are_words(p);
    lemma_pack_groups(words(p), width);
    lemma_groups_words(gs, ls);
}

proof fn lemma_groups_words(gs: Seq<Seq<Seq<char>>>, ls: Seq<Seq<char>>)
    requires
        gs.len() == ls.len(),
        forall|k: int| 0 <= k < ls.len() ==> #[trigger] ls[k] == join_words(gs[k]),
        forall|k: int, j: int| 0 <= k < gs.len() && 0 <= j < gs[k].len() ==> is_word(#[trigger] gs[k][j]),
    ensures
        words_of_lines(ls) == flatten_groups(gs),
    decreases gs.len(),
{
    if gs.len() > 0 {
        let n = gs.len() - 1;
        assert forall|k: int| 0 <= k < ls.drop_last().len() implies #[trigger] ls.drop_last()[k] == join_words(gs.drop_last()[k]) by {
            assert(ls.drop_last()[k] == ls[k]);
            assert(gs.drop_last()[k] == gs[k]);
        }
        assert forall|k: int, j: int| 0 <= k < gs.drop_last().len() && 0 <= j < gs.drop_last()[k].len() implies is_word(#[trigger] gs.drop_last()[k][j]) by {
            assert(gs.drop_last()[k] == gs[k]);
        }
        lemma_groups_words(gs.drop_last(), ls.drop_last());
        assert(ls[n] == join_words(gs[n]));
        lemma_words_of_join(gs[n], ' ');
        assert forall|j: int| 0 <= j < gs[n].len() implies is_word(#[trigger] gs[n][j]) by {}
        lemma_words_of_words(gs[n]);
    }
}

proof fn lemma_join_extend_last(ps: Seq<Seq<char>>, c: char, sep: char)
    requires
        ps.len() >= 1,
    ensures
        join_with(ps.update(ps.len() - 1, ps.last().push(c)), sep) == join_with(ps, sep).push(c),
{
    let qs = ps.update(ps.len() - 1, ps.last().push(c));
    if ps.len() == 1 {
        assert(join_with(qs, sep) == qs[0]);
    } else {
        assert(qs.drop_last() =~= ps.drop_last());
        assert(qs.last() == ps.last().push(c));
        assert(join_with(qs, sep) =~= join_with(ps, sep).push(c));
    }
}

/// Joining the pieces of `split_on` with the separator gives the text back.
proof fn lemma_split_join(text: Seq<char>, sep: char)
    ensures
        join_with(split_on(text, sep), sep) == text,
    decreases text.len(),
{
    if text.len() == 0 {
        assert(split_on(text, sep)[0] =~= text);
    } else {
        let init = split_on(text.drop_last(), sep);
        lemma_split_join(text.drop_last(), sep);
        crate::text::lemma_split_on_nonempty(text.drop_last(), sep);
        assert(text.drop_last().push(text.last()) =~= text);
        if text.last() == sep {
            let out = init.push(Seq::empty());
            assert(out.drop_last() =~= init);
            assert(join_with(out, sep) =~= text);
        } else {
            lemma_join_extend_last(init, text.last(), sep);
        }
    }
}

proof fn lemma_lines_all_words(ps: Seq<Seq<char>>, width: int)
    ensures
        words_of_lines(paragraph_lines_all(ps, width)) == words_of_lines(ps),
    decreases ps.len(),
{
    if ps.len() > 0 {
        lemma_lines_all_words(ps.drop_last(), width);
        lemma_words_of_lines_append(paragraph_lines_all(ps.drop_last(), width), paragraph_lines(ps.last(), width));
        lemma_paragraph_words(ps.last(), width);
    }
}

/// Wrapping keeps the words: the wrapped lines joined by single spaces have exactly the
/// whitespace-separated words of the draft, in order.
pub proof fn lemma_wrap_keeps_words(text: Seq<char>, width: int)
    ensures
        words(join_words(wrapped(text, width))) == words(text),
        words_of_lines(wrapped(text, width)) == words(text),
{
    let w = if width < 1 {
        1
    } else {
        width
    };
    let ps = split_on(text, '\n');
    lemma_words_of_join(wrapped(text, width), ' ');
    lemma_lines_all_words(ps, w);
    lemma_split_join(text, '\n');
    lemma_words_of_join(ps, '\n');
}

/// The words on each display line of the paragraphs `ps`, one paragraph after another.
pub open spec fn groups_all(ps: Seq<Seq<char>>, width: int) -> Seq<Seq<Seq<char>>>
    decreases ps.len(),
{
    if ps.len() == 0 {
        Seq::empty()
    } else {
        groups_all(ps.drop_last(), width) + paragraph_groups(ps.last(), width)
    }
}

/// The words on each line of `wrapped(text, width)`.
pub open spec fn wrapped_groups(text: Seq<char>, width: int) -> Seq<Seq<Seq<char>>> {
    groups_all(split_on(text, '\n'), if width < 1 {
        1
    } else {
        width
    })
}

proof fn lemma_groups_all(ps: Seq<Seq<char>>, width: int)
    ensures
        groups_all(ps, width).len() == paragraph_lines_all(ps, width).len(),
        forall|k: int|
            0 <= k < paragraph_lines_all(ps, width).len() ==> {
                let line = #[trigger] paragraph_lines_all(ps, width)[k];
                let g = groups_all(ps, width)[k];
                &&& line == join_words(g)
                &&& words(line) == g
                &&& joins_fit(g, width)
            },
    decreases ps.len(),
{
    if ps.len() > 0 {
        let q = ps.drop_last();
        let p = ps.last();
        lemma_groups_all(q, width);
        lemma_paragraph_wrap(p, width);
        let la = paragraph_lines_all(q, width);
        let ga = groups_all(q, width);
        let lb = paragraph_lines(p, width);
        let gb = paragraph_groups(p, width);
        assert forall|k: int| 0 <= k < paragraph_lines_all(ps, width).len() implies {
            let line = #[trigger] paragraph_lines_all(ps, width)[k];
            let g = groups_all(ps, width)[k];
            &&& line == join_words(g)
            &&& words(line) == g
            &&& joins_fit(g, width)
        } by {
            if k < la.len() {
                assert(paragraph_lines_all(ps, width)[k] == la[k]);
                assert(groups_all(ps, width)[k] == ga[k]);
            } else {
                let i = k - la.len();
                assert(paragraph_lines_all(ps, width)[k] == lb[i]);
                assert(groups_all(ps, width)[k] == gb[i]);
            }
        }
    }
}

/// Every line of the wrapped draft fits as the packing measures it: line `k` is the words of
/// group `k` joined by single spaces (its whitespace-separated words are that group), and each
/// word after the first joined the line only because the line so far, one space and the word
/// took at most `max(width, 1)` columns, each counted as `display_width` counts it. In
/// particular a line of two or more words had its first two words fit together.
pub proof fn lemma_wrapped_lines_fit(text: Seq<char>, width: int)
    ensures
        wrapped_groups(text, width).len() == wrapped(text, width).len(),
        forall|k: int|
            0 <= k < wrapped(text, width).len() ==> {
                let line = #[trigger] wrapped(text, width)[k];
                let g = wrapped_groups(text, width)[k];
                let w = if width < 1 {
                    1
                } else {
                    width
                };
                &&& line == join_words(g)
                &&& words(line) == g
                &&& joins_fit(g, w)
                &&& g.len() >= 2 ==> columns_u16(g[0]) + 1 + columns_u16(g[1]) <= w
            },
{
    let w = if width < 1 {
        1
    } else {
        width
    };
    lemma_groups_all(split_on(text, '\n'), w);
    assert forall|k: int| 0 <= k < wrapped(text, width).len() implies {
        let line = #[trigger] wrapped(text, width)[k];
        let g = wrapped_groups(text, width)[k];
        &&& line == join_words(g)
        &&& words(line) == g
        &&& joins_fit(g, w)
        &&& g.len() >= 2 ==> columns_u16(g[0]) + 1 + columns_u16(g[1]) <= w
    } by {
        let g = wrapped_groups(text, width)[k];
        if g.len() >= 2 {
            assert(g.take(1) =~= seq![g[0]]);
            assert(join_words(g.take(1)) == g[0]);
        }
    }
}

/// The wraps of the pieces of `ps`, one after another.
pub open spec fn wrap_each(ps: Seq<Seq<char>>, width: int) -> Seq<Seq<char>>
    decreases ps.len(),
{
    if ps.len() == 0 {
        Seq::empty()
    } else {
        wrap_each(ps.drop_last(), width) + wrapped(ps.last(), width)
    }
}

proof fn lemma_wrap_each(ps: Seq<Seq<char>>, width: int)
    requires
        width >= 1,
        forall|k: int, i: int| 0 <= k < ps.len() && 0 <= i < ps[k].len() ==> #[trigger] ps[k][i] != '\n',
    ensures
        wrap_each(ps, width) == paragraph_lines_all(ps, width),
    decreases ps.len(),
{
    if ps.len() > 0 {
        let q = ps.drop_last();
        assert forall|k: int, i: int| 0 <= k < q.len() && 0 <= i < q[k].len() implies #[trigger] q[k][i] != '\n' by {
            assert(q[k] == ps[k]);
        }
        lemma_wrap_each(q, width);
        let p = ps.last();
        assert forall|i: int| 0 <= i < p.len() implies p[i] != '\n' by {
            assert(ps[ps.len() - 1][i] != '\n');
        }
        crate::text::lemma_split_on_without_sep(p, '\n');
        assert(seq![p].drop_last() =~= Seq::<Seq<char>>::empty());
        let one = seq![p];
        assert(one.last() == p);
        assert(paragraph_lines_all(one, width) == paragraph_lines_all(one.drop_last(), width) + paragraph_lines(p, width));
        assert(paragraph_lines_all(one, width) =~= paragraph_lines(p, width));
    }
}

/// How the whole draft wraps: at least one line; the newlines split it into paragraphs, and
/// its lines are the lines of each paragraph wrapped on its own, one paragraph after another,
/// each paragraph giving at least one line.
pub proof fn lemma_wrap_by_paragraph(text: Seq<char>, width: int)
    ensures
        wrapped(text, width).len() >= 1,
        wrapped(text, width) == wrap_each(split_on(text, '\n'), width),
        forall|k: int| 0 <= k < split_on(text, '\n').len() ==> (#[trigger] wrapped(split_on(text, '\n')[k], width)).len() >= 1,
{
    let w = if width < 1 {
        1
    } else {
        width
    };
    let ps = split_on(text, '\n');
    crate::text::lemma_split_on_pieces_without_sep(text, '\n');
    crate::text::lemma_split_on_nonempty(text, '\n');
    assert forall|k: int, i: int| 0 <= k < ps.len() && 0 <= i < ps[k].len() implies #[trigger] ps[k][i] != '\n' by {}
    lemma_wrap_each(ps, w);
    assert forall|q: Seq<Seq<char>>| q.len() >= 1 implies #[trigger] paragraph_lines_all(q, w).len() >= 1 by {
        assert(paragraph_lines(q.last(), w).len() >= 1);
    }
    assert(ps =~= ps.drop_last().push(ps.last()));
    assert forall|k: int| 0 <= k < ps.len() implies (#[trigger] wrapped(ps[k], width)).len() >= 1 by {
        crate::text::lemma_split_on_nonempty(ps[k], '\n');
    }
    assert(wrap_each(ps, width) == wrap_each(ps, w)) by {
        lemma_wrap_each_width(ps, width);
    }
}

proof fn lemma_wrap_each_width(ps: Seq<Seq<char>>, width: int)
    ensures
        wrap_each(ps, width) == wrap_each(ps, if width < 1 {
            1
        } else {
            width
        }),
    decreases ps.len(),
{
    if ps.len() > 0 {
        lemma_wrap_each_width(ps.drop_last(), width);
    }
}

/// Where the insertion point sits among the wrapped rows, given `before`, the draft's text in
/// front of it: its row is the number of rows the complete paragraphs before its own paragraph
/// wrap to, plus the row it reaches within its own paragraph (the part of that paragraph in
/// front of it, wrapped the same way); its column is the display width of that last row.
pub open spec fn cursor_position(before: Seq<char>, width: int) -> (int, int) {
    let w = if width < 1 {
        1
    } else {
        width
    };
    let pieces = split_on(before, '\n');
    let partial = paragraph_lines(pieces.last(), w);
    (paragraph_lines_all(pieces.drop_last(), w).len() + partial.len() - 1, columns_u16(partial.last()))
}

/// The text in front of byte offset `cursor` of `message`.
pub open spec fn text_before(message: Seq<char>, cursor: int) -> Seq<char> {
    vstd::utf8::decode_utf8(vstd::utf8::encode_utf8(message).take(cursor))
}

/// The wrapped-row index and display column of `cursor` (a byte offset into the un-wrapped
/// commit message, on a character boundary) within `wrap_commit_message`'s output for the same
/// text and width, so the row and column always agree with what is actually rendered.
pub fn commit_cursor_position(commit_message: &str, cursor: usize, wrap_width: u16) -> (r: (usize, u16))
    requires
        vstd::utf8::is_char_boundary(vstd::utf8::encode_utf8(commit_message@), cursor as int),
    ensures
        (r.0 as int, r.1 as int) == cursor_position(text_before(commit_message@, cursor as int), wrap_width as int),
{
    proof {
        vstd::utf8::encode_utf8_valid_utf8(commit_message@);
    }
    let (head, _tail) = commit_message.split_at(cursor);
    proof {
        vstd::utf8::encode_utf8_decode_utf8(head@);
        assert(head@ == text_before(commit_message@, cursor as int)) by {
            assert(vstd::utf8::encode_utf8(head@) =~= vstd::utf8::encode_utf8(commit_message@).take(cursor as int));
        }
    }
    let lines = wrap_commit_message(head, wrap_width);
    let ghost w: int = if wrap_width < 1 {
        1
    } else {
        wrap_width as int
    };
    proof {
        let pieces = split_on(head@, '\n');
        crate::text::lemma_split_on_nonempty(head@, '\n');
        assert(pieces =~= pieces.drop_last().push(pieces.last()));
        assert(paragraph_lines_all(pieces, w) == paragraph_lines_all(pieces.drop_last(), w) + paragraph_lines(pieces.last(), w));
        let partial = paragraph_lines(pieces.last(), w);
        assert(partial.len() >= 1);
        assert(string_views(lines@).last() == partial.last());
    }
    let n = lines.len();
    let column = display_width(lines[n - 1].as_str());
    (n - 1, column)
}

} // verus!
