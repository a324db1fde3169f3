use vstd::prelude::*;

verus! {

/// Appends one character to a `String` (`String::push`).
#[verifier::external_body]
pub(crate) fn string_push(s: &mut String, c: char)
    ensures
        final(s)@ == old(s)@.push(c),
{
    s.push(c);
}

/// Removes the last character of a `String` and returns it (`String::pop`); an empty string
/// stays empty and gives `None`.
#[verifier::external_body]
pub(crate) fn string_pop(s: &mut String) -> (r: Option<char>)
    ensures
        old(s)@.len() == 0 ==> r is None && final(s)@ == old(s)@,
        old(s)@.len() > 0 ==> r == Some(old(s)@.last()) && final(s)@ == old(s)@.drop_last(),
{
    s.pop()
}

/// The characters of `s`, in order.
pub fn str_chars(s: &str) -> (out: Vec<char>)
    ensures
        out@ == s@,
{
    let mut out: Vec<char> = Vec::new();
    for c in it: s.chars()
        invariant
            out@ == it.seq().take(it.index() as int),
            it.seq() == s@,
    {
        out.push(c);
    }
    out
}

/// A `String` holding exactly the characters of `cs`.
pub fn chars_to_string(cs: &[char]) -> (out: String)
    ensures
        out@ == cs@,
{
    let mut out = String::new();
    let mut i: usize = 0;
    while i < cs.len()
        invariant
            i <= cs@.len(),
            out@ == cs@.take(i as int),
        decreases cs@.len() - i,
    {
        string_push(&mut out, cs[i]);
        i = i + 1;
        assert(cs@.take(i as int) == cs@.take(i - 1).push(cs@[i - 1]));
    }
    assert(cs@.take(cs@.len() as int) == cs@);
    out
}

} // verus!

verus! {

/// What `String::from_utf8_lossy` makes of a byte sequence: the decoded text, with every
/// invalid sequence replaced by U+FFFD.
pub uninterp spec fn lossy_utf8(bytes: Seq<u8>) -> Seq<char>;

/// `String::from_utf8_lossy(bytes).into_owned()`. Its result is named `lossy_utf8(bytes)`;
/// the one further fact stated is the documented one: valid UTF-8 comes back unchanged.
#[verifier::external_body]
pub(crate) fn utf8_lossy(bytes: &[u8]) -> (s: String)
    ensures
        s@ == lossy_utf8(bytes@),
        vstd::utf8::valid_utf8(bytes@) ==> s@ == vstd::utf8::decode_utf8(bytes@),
{
    String::from_utf8_lossy(bytes).into_owned()
}

/// Index of the first occurrence of `x` in `s`.
pub open spec fn first_index<T>(s: Seq<T>, x: T) -> Option<int>
    decreases s.len(),
{
    if s.len() == 0 {
        None
    } else if s[0] == x {
        Some(0)
    } else {
        match first_index(s.drop_first(), x) {
            Some(i) => Some(i + 1),
            None => None,
        }
    }
}

/// The text before the first `sep` (all of `s` when there is none): the first piece that
/// `str::split`/`str::splitn` yield.
pub open spec fn first_field(s: Seq<char>, sep: char) -> Seq<char> {
    match first_index(s, sep) {
        Some(i) => s.take(i),
        None => s,
    }
}

/// What is left of `s` after its first `k` separators, or `None` when it has fewer: the last
/// piece of `s.splitn(k + 1, sep)` when that call yields `k + 1` pieces.
pub open spec fn skip_fields(s: Seq<char>, sep: char, k: nat) -> Option<Seq<char>>
    decreases k,
{
    if k == 0 {
        Some(s)
    } else {
        match first_index(s, sep) {
            Some(i) => skip_fields(s.skip(i + 1), sep, (k - 1) as nat),
            None => None,
        }
    }
}

/// The pieces of `s` between occurrences of `sep`, as `slice::split`/`str::split` give them:
/// `n` separators give `n + 1` pieces, the empty sequence gives one empty piece.
pub open spec fn split_on<T>(s: Seq<T>, sep: T) -> Seq<Seq<T>>
    decreases s.len(),
{
    if s.len() == 0 {
        seq![Seq::empty()]
    } else {
        let init = split_on(s.drop_last(), sep);
        if s.last() == sep {
            init.push(Seq::empty())
        } else {
            init.update(init.len() - 1, init.last().push(s.last()))
        }
    }
}

pub proof fn lemma_split_on_nonempty<T>(s: Seq<T>, sep: T)
    ensures
        split_on(s, sep).len() >= 1,
    decreases s.len(),
{
    if s.len() > 0 {
        lemma_split_on_nonempty(s.drop_last(), sep);
    }
}

/// A sequence without the separator is one piece.
pub proof fn lemma_split_on_without_sep<T>(s: Seq<T>, sep: T)
    requires
        forall|i: int| 0 <= i < s.len() ==> s[i] != sep,
    ensures
        split_on(s, sep) == seq![s],
    decreases s.len(),
{
    if s.len() == 0 {
        assert(s =~= Seq::<T>::empty());
    } else {
        lemma_split_on_without_sep(s.drop_last(), sep);
        assert(s.drop_last().push(s.last()) =~= s);
        assert(seq![s.drop_last()].update(0, s.drop_last().push(s.last())) =~= seq![s]);
    }
}

/// No piece holds the separator.
pub proof fn lemma_split_on_pieces_without_sep<T>(s: Seq<T>, sep: T)
    ensures
        forall|k: int, i: int|
            0 <= k < split_on(s, sep).len() && 0 <= i < split_on(s, sep)[k].len() ==> #[trigger] split_on(s, sep)[k][i] != sep,
    decreases s.len(),
{
    if s.len() > 0 {
        lemma_split_on_pieces_without_sep(s.drop_last(), sep);
        lemma_split_on_nonempty(s.drop_last(), sep);
        let init = split_on(s.drop_last(), sep);
        if s.last() != sep {
            let out = init.update(init.len() - 1, init.last().push(s.last()));
            assert forall|k: int, i: int| 0 <= k < out.len() && 0 <= i < out[k].len() implies #[trigger] out[k][i] != sep by {
                if k == init.len() - 1 {
                    if i < init.last().len() {
                        assert(out[k][i] == init[k][i]);
                    }
                } else {
                    assert(out[k] == init[k]);
                }
            }
        } else {
            let out = init.push(Seq::empty());
            assert forall|k: int, i: int| 0 <= k < out.len() && 0 <= i < out[k].len() implies #[trigger] out[k][i] != sep by {
                assert(out[k] == init[k]);
            }
        }
    }
}

pub proof fn lemma_first_index_skip<T>(s: Seq<T>, x: T, j: int)
    requires
        0 <= j < s.len(),
        forall|k: int| 0 <= k < j ==> s[k] != x,
    ensures
        first_index(s, x) == (if s[j] == x {
            Some(j)
        } else {
            match first_index(s.skip(j + 1), x) {
                Some(i) => Some(i + j + 1),
                None => None,
            }
        }),
    decreases j,
{
    if j > 0 {
        lemma_first_index_skip(s.drop_first(), x, j - 1);
        assert(s.drop_first().skip(j) =~= s.skip(j + 1));
    } else {
        assert(s.drop_first() =~= s.skip(1));
    }
}

pub proof fn lemma_first_index_props<T>(s: Seq<T>, x: T)
    ensures
        first_index(s, x) matches Some(i) ==> 0 <= i < s.len() && s[i] == x && forall|k: int|
            0 <= k < i ==> s[k] != x,
        first_index(s, x) is None ==> forall|k: int| 0 <= k < s.len() ==> s[k] != x,
    decreases s.len(),
{
    if s.len() > 0 {
        lemma_first_index_props(s.drop_first(), x);
        if s[0] != x {
            assert forall|k: int| 0 <= k < s.len() && first_index(s, x) is None implies s[k] != x by {
                if k > 0 {
                    assert(s[k] == s.drop_first()[k - 1]);
                }
            }
            if let Some(i) = first_index(s, x) {
                assert forall|k: int| 0 <= k < i implies s[k] != x by {
                    if k > 0 {
                        assert(s[k] == s.drop_first()[k - 1]);
                    }
                }
            }
        }
    }
}

pub proof fn lemma_first_index_none<T>(s: Seq<T>, x: T)
    requires
        forall|k: int| 0 <= k < s.len() ==> s[k] != x,
    ensures
        first_index(s, x) is None,
    decreases s.len(),
{
    if s.len() > 0 {
        lemma_first_index_none(s.drop_first(), x);
    }
}

/// Position of the first `c` at or after `start`.
pub fn find_char_from(s: &Vec<char>, start: usize, c: char) -> (r: Option<usize>)
    requires
        start <= s@.len(),
    ensures
        r is None <==> first_index(s@.skip(start as int), c) is None,
        r matches Some(i) ==> start <= i < s@.len() && s@[i as int] == c && first_index(
            s@.skip(start as int),
            c,
        ) == Some(i - start),
{
    let mut j = start;
    while j < s.len()
        invariant
            start <= j <= s@.len(),
            forall|k: int| start <= k < j ==> s@[k] != c,
        decreases s@.len() - j,
    {
        if s[j] == c {
            proof {
                lemma_first_index_skip(s@.skip(start as int), c, j - start);
            }
            return Some(j);
        }
        j = j + 1;
    }
    proof {
        lemma_first_index_none(s@.skip(start as int), c);
    }
    None
}

/// Start of what follows the first `k` separators at or after `start`.
pub fn skip_fields_from(s: &Vec<char>, start: usize, sep: char, k: usize) -> (r: Option<usize>)
    requires
        start <= s@.len(),
    ensures
        match skip_fields(s@.skip(start as int), sep, k as nat) {
            Some(rest) => r matches Some(p) && p <= s@.len() && s@.skip(p as int) == rest,
            None => r is None,
        },
    decreases k,
{
    if k == 0 {
        return Some(start);
    }
    let found = find_char_from(s, start, sep);
    match found {
        Some(i) => {
            assert(s@.skip(start as int).skip(i - start + 1) =~= s@.skip(i + 1));
            assert(i < s.len());
            skip_fields_from(s, i + 1, sep, k - 1)
        },
        None => None,
    }
}

/// End of the first field at or after `start`: the next `sep`, or the end of `s`.
pub fn first_field_end(s: &Vec<char>, start: usize, sep: char) -> (r: usize)
    requires
        start <= s@.len(),
    ensures
        start <= r <= s@.len(),
        s@.subrange(start as int, r as int) == first_field(s@.skip(start as int), sep),
{
    let found = find_char_from(s, start, sep);
    match found {
        Some(i) => {
            assert(s@.subrange(start as int, i as int) =~= s@.skip(start as int).take(i - start));
            i
        },
        None => {
            assert(s@.subrange(start as int, s@.len() as int) =~= s@.skip(start as int));
            s.len()
        },
    }
}

/// A `String` holding `s[lo..hi]`.
pub fn range_to_string(s: &Vec<char>, lo: usize, hi: usize) -> (out: String)
    requires
        lo <= hi <= s@.len(),
    ensures
        out@ == s@.subrange(lo as int, hi as int),
{
    let mut out = String::new();
    let mut i: usize = lo;
    while i < hi
        invariant
            lo <= i <= hi,
            hi <= s@.len(),
            out@ == s@.subrange(lo as int, i as int),
        decreases hi - i,
    {
        string_push(&mut out, s[i]);
        i = i + 1;
        assert(s@.subrange(lo as int, i as int) =~= s@.subrange(lo as int, i - 1).push(s@[i - 1]));
    }
    out
}

/// Whether `s[lo..hi]` is exactly the one character `c`.
pub fn range_is_char(s: &Vec<char>, lo: usize, hi: usize, c: char) -> (r: bool)
    requires
        lo <= hi <= s@.len(),
    ensures
        r == (s@.subrange(lo as int, hi as int) == seq![c]),
{
    let ghost sub = s@.subrange(lo as int, hi as int);
    let ghost one = seq![c];
    assert(one.len() == 1 && one[0] == c);
    if hi - lo == 1 && s[lo] == c {
        assert(sub =~= one);
        true
    } else {
        if hi - lo == 1 {
            assert(sub[0] == s@[lo as int]);
            assert(sub[0] != one[0]);
        } else {
            assert(sub.len() != one.len());
        }
        false
    }
}

} // verus!

verus! {

/// The pieces of `raw` between `sep` bytes (`raw.split(|&b| b == sep)`).
pub fn split_bytes(raw: &[u8], sep: u8) -> (out: Vec<Vec<u8>>)
    ensures
        out@.map_values(|t: Vec<u8>| t@) == split_on(raw@, sep),
{
    let mut pieces: Vec<Vec<u8>> = Vec::new();
    let mut cur: Vec<u8> = Vec::new();
    let mut i: usize = 0;
    while i < raw.len()
        invariant
            i <= raw@.len(),
            pieces@.map_values(|t: Vec<u8>| t@).push(cur@) == split_on(raw@.take(i as int), sep),
        decreases raw@.len() - i,
    {
        let ghost prev = raw@.take(i as int);
        let b = raw[i];
        assert(raw@.take(i + 1).drop_last() =~= prev);
        assert(raw@.take(i + 1).last() == b);
        proof {
            lemma_split_on_nonempty(prev, sep);
        }
        if b == sep {
            let done = cur;
            pieces.push(done);
            cur = Vec::new();
            assert(pieces@.map_values(|t: Vec<u8>| t@) =~= split_on(prev, sep));
        } else {
            let ghost old_pieces = pieces@.map_values(|t: Vec<u8>| t@);
            cur.push(b);
            assert(old_pieces.push(cur@) =~= split_on(prev, sep).update(
                split_on(prev, sep).len() - 1,
                split_on(prev, sep).last().push(b),
            ));
        }
        i = i + 1;
        assert(pieces@.map_values(|t: Vec<u8>| t@).push(cur@) == split_on(raw@.take(i as int), sep));
    }
    assert(raw@.take(raw@.len() as int) =~= raw@);
    pieces.push(cur);
    assert(pieces@.map_values(|t: Vec<u8>| t@) =~= split_on(raw@, sep));
    pieces
}

} // verus!

verus! {

/// Whether `s` begins with `p`.
pub open spec fn has_prefix(s: Seq<char>, p: Seq<char>) -> bool {
    p.len() <= s.len() && s.take(p.len() as int) == p
}

/// Whether `p` occurs in `s` at position `i`.
pub open spec fn occurs_at(s: Seq<char>, p: Seq<char>, i: int) -> bool {
    0 <= i && i + p.len() <= s.len() && s.subrange(i, i + p.len()) == p
}

/// Whether `p` occurs anywhere in `s` (`str::contains`).
pub open spec fn contains_seq(s: Seq<char>, p: Seq<char>) -> bool {
    exists|i: int| occurs_at(s, p, i)
}

/// Whether `s[start..]` begins with `p`.
pub fn has_prefix_at(s: &Vec<char>, start: usize, p: &Vec<char>) -> (r: bool)
    requires
        start <= s@.len(),
    ensures
        r == has_prefix(s@.skip(start as int), p@),
        r == occurs_at(s@, p@, start as int),
{
    if p.len() > s.len() - start {
        return false;
    }
    let mut k: usize = 0;
    while k < p.len()
        invariant
            k <= p@.len(),
            start + p@.len() <= s.len(),
            s@.len() == s.len(),
            forall|j: int| 0 <= j < k ==> s@[start + j] == p@[j],
        decreases p@.len() - k,
    {
        if s[start + k] != p[k] {
            assert(s@.skip(start as int).take(p@.len() as int)[k as int] != p@[k as int]);
            assert(s@.subrange(start as int, start + p@.len())[k as int] != p@[k as int]);
            return false;
        }
        k = k + 1;
    }
    assert(s@.skip(start as int).take(p@.len() as int) =~= p@);
    assert(s@.subrange(start as int, start + p@.len()) =~= p@);
    true
}

/// `str::contains` on character sequences.
pub fn contains_chars(s: &Vec<char>, p: &Vec<char>) -> (r: bool)
    ensures
        r == contains_seq(s@, p@),
{
    let mut i: usize = 0;
    while i < s.len()
        invariant
            i <= s@.len(),
            forall|j: int| 0 <= j < i ==> !occurs_at(s@, p@, j),
        decreases s@.len() - i,
    {
        if has_prefix_at(s, i, p) {
            return true;
        }
        i = i + 1;
    }
    if has_prefix_at(s, i, p) {
        return true;
    }
    assert forall|j: int| !occurs_at(s@, p@, j) by {
        if 0 <= j && j + p@.len() <= s@.len() {
            assert(j <= i);
        }
    }
    false
}

/// The lines of `s` as `str::lines` yields them: split at `\n`, a `\r` right before a `\n`
/// dropped, and no final empty line after a trailing `\n` (so `""` has no lines).
pub open spec fn spec_lines(s: Seq<char>) -> Seq<Seq<char>> {
    let pieces = split_on(s, '\n');
    let ended = pieces.drop_last().map_values(|l: Seq<char>| strip_cr(l));
    if pieces.last().len() == 0 {
        ended
    } else {
        ended.push(pieces.last())
    }
}

/// `l` without one trailing `\r`.
pub open spec fn strip_cr(l: Seq<char>) -> Seq<char> {
    if l.len() > 0 && l.last() == '\r' {
        l.drop_last()
    } else {
        l
    }
}

pub proof fn lemma_split_on_chars_nonempty(s: Seq<char>)
    ensures
        split_on(s, '\n').len() >= 1,
{
    lemma_split_on_nonempty(s, '\n');
}

/// `s[lo..hi]` without one trailing `\r`, as a new vector.
fn copy_line(s: &Vec<char>, lo: usize, hi: usize, strip: bool) -> (out: Vec<char>)
    requires
        lo <= hi <= s@.len(),
    ensures
        out@ == (if strip {
            strip_cr(s@.subrange(lo as int, hi as int))
        } else {
            s@.subrange(lo as int, hi as int)
        }),
{
    let end = if strip && hi > lo && s[hi - 1] == '\r' {
        hi - 1
    } else {
        hi
    };
    let mut out: Vec<char> = Vec::new();
    let mut i = lo;
    while i < end
        invariant
            lo <= i <= end,
            end <= hi <= s@.len(),
            out@ == s@.subrange(lo as int, i as int),
        decreases end - i,
    {
        out.push(s[i]);
        i = i + 1;
        assert(s@.subrange(lo as int, i as int) =~= s@.subrange(lo as int, i - 1).push(s@[i - 1]));
    }
    if hi > lo {
        assert(s@.subrange(lo as int, hi as int).drop_last() =~= s@.subrange(lo as int, hi - 1));
    }
    out
}

/// `str::lines` on a character sequence.
pub fn lines_of(s: &Vec<char>) -> (out: Vec<Vec<char>>)
    ensures
        out@.map_values(|l: Vec<char>| l@) == spec_lines(s@),
{
    let mut out: Vec<Vec<char>> = Vec::new();
    let mut start: usize = 0;
    let mut i: usize = 0;
    while i < s.len()
        invariant
            start <= i <= s@.len(),
            split_on(s@.take(i as int), '\n').len() >= 1,
            split_on(s@.take(i as int), '\n').last() == s@.subrange(start as int, i as int),
            out@.map_values(|l: Vec<char>| l@) == split_on(s@.take(i as int), '\n').drop_last().map_values(
                |l: Seq<char>| strip_cr(l),
            ),
        decreases s@.len() - i,
    {
        let ghost prev = s@.take(i as int);
        assert(s@.take(i + 1).drop_last() =~= prev);
        proof {
            lemma_split_on_nonempty(prev, '\n');
        }
        if s[i] == '\n' {
            let line = copy_line(s, start, i, true);
            let ghost before = out@.map_values(|l: Vec<char>| l@);
            out.push(line);
            assert(out@.map_values(|l: Vec<char>| l@) =~= before.push(line@));
            assert(split_on(s@.take(i + 1), '\n') == split_on(prev, '\n').push(Seq::empty()));
            assert(split_on(s@.take(i + 1), '\n').drop_last() =~= split_on(prev, '\n'));
            assert(split_on(prev, '\n') =~= split_on(prev, '\n').drop_last().push(
                split_on(prev, '\n').last(),
            ));
            assert(split_on(prev, '\n').drop_last().push(split_on(prev, '\n').last()).map_values(
                |l: Seq<char>| strip_cr(l),
            ) =~= split_on(prev, '\n').drop_last().map_values(|l: Seq<char>| strip_cr(l)).push(
                strip_cr(split_on(prev, '\n').last()),
            ));
            start = i + 1;
            i = i + 1;
            assert(s@.subrange(start as int, i as int) =~= Seq::<char>::empty());
        } else {
            let ghost p = split_on(prev, '\n');
            assert(split_on(s@.take(i + 1), '\n') == p.update(p.len() - 1, p.last().push(s@[i as int])));
            assert(split_on(s@.take(i + 1), '\n').drop_last() =~= p.drop_last());
            i = i + 1;
            assert(s@.subrange(start as int, i as int) =~= s@.subrange(start as int, i - 1).push(
                s@[i - 1],
            ));
        }
    }
    assert(s@.take(i as int) =~= s@);
    if start < s.len() {
        let line = copy_line(s, start, s.len(), false);
        let ghost before = out@.map_values(|l: Vec<char>| l@);
        out.push(line);
        assert(out@.map_values(|l: Vec<char>| l@) =~= before.push(line@));
    } else {
        assert(s@.subrange(start as int, i as int).len() == 0);
    }
    out
}

} // verus!

verus! {

/// `char::is_whitespace`: the Unicode `White_Space` property.
pub open spec fn is_ws(c: char) -> bool {
    let u = c as u32;
    (0x9 <= u <= 0xd) || u == 0x20 || u == 0x85 || u == 0xa0 || u == 0x1680 || (0x2000 <= u
        <= 0x200a) || u == 0x2028 || u == 0x2029 || u == 0x202f || u == 0x205f || u == 0x3000
}

/// `char::is_whitespace`.
pub fn char_is_whitespace(c: char) -> (r: bool)
    ensures
        r == is_ws(c),
{
    let u = c as u32;
    (0x9 <= u && u <= 0xd) || u == 0x20 || u == 0x85 || u == 0xa0 || u == 0x1680 || (0x2000 <= u
        && u <= 0x200a) || u == 0x2028 || u == 0x2029 || u == 0x202f || u == 0x205f || u == 0x3000
}

/// Number of leading characters of `s` whose whitespace-ness is `ws`.
pub open spec fn leading_count(s: Seq<char>, ws: bool) -> nat
    decreases s.len(),
{
    if s.len() > 0 && is_ws(s[0]) == ws {
        1 + leading_count(s.drop_first(), ws)
    } else {
        0
    }
}

/// Number of trailing whitespace characters of `s`.
pub open spec fn trailing_ws(s: Seq<char>) -> nat
    decreases s.len(),
{
    if s.len() > 0 && is_ws(s.last()) {
        1 + trailing_ws(s.drop_last())
    } else {
        0
    }
}

/// `str::trim`: `s` without leading and trailing whitespace.
pub open spec fn spec_trim(s: Seq<char>) -> Seq<char> {
    let t = s.skip(leading_count(s, true) as int);
    t.take(t.len() - trailing_ws(t))
}

/// The first whitespace-separated word of `s` and what follows it, as the first `next()` of
/// `str::split_whitespace` sees them; `None` when `s` is all whitespace.
pub open spec fn first_word(s: Seq<char>) -> Option<(Seq<char>, Seq<char>)> {
    let t = s.skip(leading_count(s, true) as int);
    if t.len() == 0 {
        None
    } else {
        let n = leading_count(t, false) as int;
        Some((t.take(n), t.skip(n)))
    }
}

pub proof fn lemma_leading_count_bound(s: Seq<char>, ws: bool)
    ensures
        leading_count(s, ws) <= s.len(),
        leading_count(s, ws) < s.len() ==> is_ws(s[leading_count(s, ws) as int]) != ws,
        forall|k: int| 0 <= k < leading_count(s, ws) ==> is_ws(#[trigger] s[k]) == ws,
    decreases s.len(),
{
    if s.len() > 0 && is_ws(s[0]) == ws {
        lemma_leading_count_bound(s.drop_first(), ws);
        assert forall|k: int| 0 <= k < leading_count(s, ws) implies is_ws(#[trigger] s[k]) == ws by {
            if k > 0 {
                assert(s[k] == s.drop_first()[k - 1]);
            }
        }
    }
}

pub proof fn lemma_leading_count_skip(s: Seq<char>, ws: bool, j: int)
    requires
        0 <= j <= s.len(),
        forall|k: int| 0 <= k < j ==> is_ws(#[trigger] s[k]) == ws,
    ensures
        leading_count(s, ws) == j + leading_count(s.skip(j), ws),
    decreases j,
{
    if j > 0 {
        lemma_leading_count_skip(s.drop_first(), ws, j - 1);
        assert(s.drop_first().skip(j - 1) =~= s.skip(j));
    } else {
        assert(s.skip(0) =~= s);
    }
}

/// Index after the run of characters from `start` on whose whitespace-ness is `ws`.
pub fn scan_run(s: &Vec<char>, start: usize, ws: bool) -> (r: usize)
    requires
        start <= s@.len(),
    ensures
        r == start + leading_count(s@.skip(start as int), ws),
        r <= s@.len(),
{
    let mut j = start;
    while j < s.len() && char_is_whitespace(s[j]) == ws
        invariant
            start <= j <= s@.len(),
            forall|k: int| start <= k < j ==> is_ws(#[trigger] s@[k]) == ws,
        decreases s@.len() - j,
    {
        j = j + 1;
    }
    proof {
        let t = s@.skip(start as int);
        assert forall|k: int| 0 <= k < j - start implies is_ws(#[trigger] t[k]) == ws by {
            assert(t[k] == s@[start + k]);
        }
        lemma_leading_count_skip(t, ws, j - start);
        assert(t.skip(j - start) =~= s@.skip(j as int));
        if j < s@.len() {
            assert(s@.skip(j as int)[0] == s@[j as int]);
        }
    }
    j
}

/// The first whitespace-separated word of `s[lo..hi]`: its bounds, or `None`.
pub fn first_word_in(s: &Vec<char>, lo: usize, hi: usize) -> (r: Option<(usize, usize)>)
    requires
        lo <= hi <= s@.len(),
    ensures
        match first_word(s@.subrange(lo as int, hi as int)) {
            None => r is None,
            Some((w, rest)) => r matches Some((a, b)) && lo <= a <= b <= hi && w == s@.subrange(
                a as int,
                b as int,
            ) && rest == s@.subrange(b as int, hi as int),
        },
{
    let ghost sub = s@.subrange(lo as int, hi as int);
    let mut j = lo;
    while j < hi && char_is_whitespace(s[j])
        invariant
            lo <= j <= hi,
            hi <= s@.len(),
            forall|k: int| lo <= k < j ==> is_ws(#[trigger] s@[k]),
        decreases hi - j,
    {
        j = j + 1;
    }
    proof {
        assert forall|k: int| 0 <= k < j - lo implies is_ws(#[trigger] sub[k]) == true by {
            assert(sub[k] == s@[lo + k]);
        }
        lemma_leading_count_skip(sub, true, j - lo);
        assert(sub.skip(j - lo) =~= s@.subrange(j as int, hi as int));
        if j < hi {
            assert(s@.subrange(j as int, hi as int)[0] == s@[j as int]);
        }
    }
    if j == hi {
        return None;
    }
    let a = j;
    let ghost t = s@.subrange(a as int, hi as int);
    while j < hi && !char_is_whitespace(s[j])
        invariant
            a <= j <= hi,
            hi <= s@.len(),
            forall|k: int| a <= k < j ==> !is_ws(#[trigger] s@[k]),
        decreases hi - j,
    {
        j = j + 1;
    }
    proof {
        assert forall|k: int| 0 <= k < j - a implies is_ws(#[trigger] t[k]) == false by {
            assert(t[k] == s@[a + k]);
        }
        lemma_leading_count_skip(t, false, j - a);
        assert(t.skip(j - a) =~= s@.subrange(j as int, hi as int));
        if j < hi {
            assert(s@.subrange(j as int, hi as int)[0] == s@[j as int]);
        }
        assert(t.take(j - a) =~= s@.subrange(a as int, j as int));
    }
    Some((a, j))
}

/// Whether `c` is an ASCII digit.
pub open spec fn is_digit(c: char) -> bool {
    '0' <= c <= '9'
}

/// The decimal value of a string of digits.
pub open spec fn digits_value(d: Seq<char>) -> int
    decreases d.len(),
{
    if d.len() == 0 {
        0
    } else {
        digits_value(d.drop_last()) * 10 + (d.last() as int - '0' as int)
    }
}

/// Whether every character of `d` is an ASCII digit.
pub open spec fn all_digits(d: Seq<char>) -> bool {
    forall|i: int| 0 <= i < d.len() ==> is_digit(#[trigger] d[i])
}

/// `s` without one leading `+`.
pub open spec fn unsigned_digits(s: Seq<char>) -> Seq<char> {
    if s.len() > 0 && s[0] == '+' {
        s.drop_first()
    } else {
        s
    }
}

/// `str::parse::<u32>()`: an optional `+`, then at least one ASCII digit and nothing else, with
/// a value that fits in a `u32`.
pub open spec fn spec_parse_u32(s: Seq<char>) -> Option<u32> {
    let d = unsigned_digits(s);
    if d.len() > 0 && all_digits(d) && digits_value(d) <= u32::MAX {
        Some(digits_value(d) as u32)
    } else {
        None
    }
}

pub proof fn lemma_digits_value_monotone(d: Seq<char>, k: int)
    requires
        0 <= k <= d.len(),
        forall|i: int| 0 <= i < d.len() ==> is_digit(#[trigger] d[i]),
    ensures
        0 <= digits_value(d.take(k)) <= digits_value(d),
    decreases d.len(),
{
    if d.len() > 0 {
        if k == d.len() {
            assert(d.take(k) =~= d);
            lemma_digits_value_monotone(d.drop_last(), k - 1);
            assert(d.drop_last().take(k - 1) =~= d.drop_last());
        } else {
            lemma_digits_value_monotone(d.drop_last(), k);
            assert(d.drop_last().take(k) =~= d.take(k));
            assert(is_digit(d[d.len() - 1]));
            lemma_digits_value_monotone(d.drop_last(), d.len() - 1);
            assert(d.drop_last().take(d.len() - 1) =~= d.drop_last());
        }
    } else {
        assert(d.take(k) =~= d);
    }
}

/// `s[lo..hi].parse::<u32>()`.
pub fn parse_u32_in(s: &Vec<char>, lo: usize, hi: usize) -> (r: Option<u32>)
    requires
        lo <= hi <= s@.len(),
    ensures
        r == spec_parse_u32(s@.subrange(lo as int, hi as int)),
{
    let ghost sub = s@.subrange(lo as int, hi as int);
    let start = if hi > lo && s[lo] == '+' {
        lo + 1
    } else {
        lo
    };
    let ghost d = s@.subrange(start as int, hi as int);
    assert(d =~= unsigned_digits(sub));
    if start == hi {
        return None;
    }
    let mut acc: u64 = 0;
    let mut i = start;
    while i < hi
        invariant
            start <= i <= hi,
            hi <= s@.len(),
            d == s@.subrange(start as int, hi as int),
            sub == s@.subrange(lo as int, hi as int),
            d == unsigned_digits(sub),
            d.len() > 0,
            forall|k: int| start <= k < i ==> is_digit(#[trigger] s@[k]),
            acc == digits_value(d.take(i - start)),
            acc <= u32::MAX,
        decreases hi - i,
    {
        let c = s[i];
        if !('0' <= c && c <= '9') {
            assert(d[i - start] == c);
            assert(!is_digit(d[i - start]));
            assert(!all_digits(d));
            assert(spec_parse_u32(sub) is None);
            return None;
        }
        let digit = (c as u32 - '0' as u32) as u64;
        acc = acc * 10 + digit;
        i = i + 1;
        assert(d.take(i - start).drop_last() =~= d.take(i - 1 - start));
        assert(d.take(i - start).last() == c);
        if acc > 0xffff_ffff {
            proof {
                if all_digits(d) {
                    lemma_digits_value_monotone(d, i - start);
                    assert(digits_value(d) > u32::MAX);
                }
                assert(spec_parse_u32(sub) is None);
            }
            return None;
        }
    }
    assert(d.take(i - start) =~= d);
    assert forall|k: int| 0 <= k < d.len() implies is_digit(#[trigger] d[k]) by {
        assert(d[k] == s@[start + k]);
    }
    Some(acc as u32)
}

} // verus!

verus! {

/// Index of the first occurrence of `p` in `s` (`str::find` with a string pattern, counted in
/// characters).
pub open spec fn find_seq(s: Seq<char>, p: Seq<char>) -> Option<int>
    decreases s.len(),
{
    if has_prefix(s, p) {
        Some(0)
    } else if s.len() == 0 {
        None
    } else {
        match find_seq(s.drop_first(), p) {
            Some(i) => Some(i + 1),
            None => None,
        }
    }
}

pub proof fn lemma_find_seq_bound(s: Seq<char>, p: Seq<char>)
    ensures
        find_seq(s, p) matches Some(i) ==> 0 <= i && i + p.len() <= s.len(),
    decreases s.len(),
{
    if !has_prefix(s, p) && s.len() > 0 {
        lemma_find_seq_bound(s.drop_first(), p);
    }
}

/// First occurrence of `p` in `s[lo..hi]`, as an index into `s`.
pub fn find_in(s: &Vec<char>, lo: usize, hi: usize, p: &Vec<char>) -> (r: Option<usize>)
    requires
        lo <= hi <= s@.len(),
    ensures
        r is None <==> find_seq(s@.subrange(lo as int, hi as int), p@) is None,
        r matches Some(e) ==> lo <= e && e + p@.len() <= hi && find_seq(
            s@.subrange(lo as int, hi as int),
            p@,
        ) == Some(e - lo),
{
    let ghost sub = s@.subrange(lo as int, hi as int);
    let mut i = lo;
    assert(sub.skip(0) =~= sub);
    loop
        invariant
            lo <= i <= hi,
            hi <= s@.len(),
            s@.len() == s.len(),
            sub == s@.subrange(lo as int, hi as int),
            find_seq(sub, p@) == match find_seq(sub.skip(i - lo), p@) {
                Some(j) => Some(j + (i - lo)),
                None => None,
            },
        decreases hi - i,
    {
        let ghost t = sub.skip(i - lo);
        assert(t =~= s@.subrange(i as int, hi as int));
        proof {
            lemma_find_seq_bound(t, p@);
        }
        if p.len() <= hi - i {
            let mut k: usize = 0;
            let mut ok = true;
            while k < p.len()
                invariant
                    k <= p@.len(),
                    i + p@.len() <= hi,
                    hi <= s@.len(),
                    s@.len() == s.len(),
                    ok ==> forall|m: int| 0 <= m < k ==> s@[i + m] == p@[m],
                    !ok ==> !has_prefix(t, p@),
                    t == s@.subrange(i as int, hi as int),
                decreases p@.len() - k,
            {
                if s[i + k] != p[k] {
                    assert(t.take(p@.len() as int)[k as int] == s@[i + k]);
                    ok = false;
                }
                k = k + 1;
            }
            if ok {
                assert(t.take(p@.len() as int) =~= p@);
                return Some(i);
            }
        } else {
            assert(!has_prefix(t, p@));
        }
        if i == hi {
            assert(t.len() == 0);
            return None;
        }
        assert(t.drop_first() =~= sub.skip(i + 1 - lo));
        i = i + 1;
    }
}

} // verus!

verus! {

/// A new vector holding `s[lo..hi]`.
pub fn sub_vec(s: &Vec<char>, lo: usize, hi: usize) -> (out: Vec<char>)
    requires
        lo <= hi <= s@.len(),
    ensures
        out@ == s@.subrange(lo as int, hi as int),
{
    let mut out: Vec<char> = Vec::new();
    let mut i = lo;
    while i < hi
        invariant
            lo <= i <= hi,
            hi <= s@.len(),
            out@ == s@.subrange(lo as int, i as int),
        decreases hi - i,
    {
        out.push(s[i]);
        i = i + 1;
        assert(s@.subrange(lo as int, i as int) =~= s@.subrange(lo as int, i - 1).push(s@[i - 1]));
    }
    out
}

} // verus!

verus! {

pub proof fn lemma_split_on_count<T>(s: Seq<T>, sep: T)
    ensures
        split_on(s, sep).len() <= s.len() + 1,
    decreases s.len(),
{
    if s.len() > 0 {
        lemma_split_on_count(s.drop_last(), sep);
        lemma_split_on_nonempty(s.drop_last(), sep);
    }
}

/// Decoding UTF-8 never yields more characters than there are bytes.
pub proof fn lemma_decode_len_bound(bytes: Seq<u8>)
    requires
        vstd::utf8::valid_utf8(bytes),
    ensures
        vstd::utf8::decode_utf8(bytes).len() <= bytes.len(),
    decreases bytes.len(),
{
    if bytes.len() > 0 {
        let rest = vstd::utf8::pop_first_scalar(bytes);
        assert(vstd::utf8::length_of_first_scalar(bytes) <= bytes.len());
        assert(rest.len() == bytes.len() - vstd::utf8::length_of_first_scalar(bytes));
        lemma_decode_len_bound(rest);
    }
}

} // verus!

verus! {

pub proof fn lemma_trailing_ws_bound(s: Seq<char>)
    ensures
        trailing_ws(s) <= s.len(),
    decreases s.len(),
{
    if s.len() > 0 && is_ws(s.last()) {
        lemma_trailing_ws_bound(s.drop_last());
    }
}

pub proof fn lemma_trailing_ws_exact(s: Seq<char>, j: int)
    requires
        0 <= j <= s.len(),
        forall|m: int| j <= m < s.len() ==> is_ws(#[trigger] s[m]),
        j > 0 ==> !is_ws(s[j - 1]),
    ensures
        trailing_ws(s) == s.len() - j,
    decreases s.len() - j,
{
    if j < s.len() {
        assert forall|m: int| j <= m < s.drop_last().len() implies is_ws(#[trigger] s.drop_last()[m]) by {
            assert(s.drop_last()[m] == s[m]);
        }
        if j > 0 {
            assert(s.drop_last()[j - 1] == s[j - 1]);
        }
        lemma_trailing_ws_exact(s.drop_last(), j);
    }
}

/// Bounds of `str::trim` applied to `s[lo..hi]`.
pub fn trim_range(s: &Vec<char>, lo: usize, hi: usize) -> (r: (usize, usize))
    requires
        lo <= hi <= s@.len(),
    ensures
        lo <= r.0 <= r.1 <= hi,
        s@.subrange(r.0 as int, r.1 as int) == spec_trim(s@.subrange(lo as int, hi as int)),
{
    let ghost sub = s@.subrange(lo as int, hi as int);
    let mut a = lo;
    while a < hi && char_is_whitespace(s[a])
        invariant
            lo <= a <= hi,
            hi <= s@.len(),
            forall|k: int| lo <= k < a ==> is_ws(#[trigger] s@[k]),
        decreases hi - a,
    {
        a = a + 1;
    }
    proof {
        assert forall|k: int| 0 <= k < a - lo implies is_ws(#[trigger] sub[k]) == true by {
            assert(sub[k] == s@[lo + k]);
        }
        lemma_leading_count_skip(sub, true, a - lo);
        assert(sub.skip(a - lo) =~= s@.subrange(a as int, hi as int));
        if a < hi {
            assert(s@.subrange(a as int, hi as int)[0] == s@[a as int]);
        }
    }
    let ghost t = s@.subrange(a as int, hi as int);
    assert(t == sub.skip(leading_count(sub, true) as int));
    let mut b = hi;
    while b > a && char_is_whitespace(s[b - 1])
        invariant
            a <= b <= hi,
            hi <= s@.len(),
            forall|k: int| b <= k < hi ==> is_ws(#[trigger] s@[k]),
        decreases b - a,
    {
        b = b - 1;
    }
    proof {
        assert forall|m: int| b - a <= m < t.len() implies is_ws(#[trigger] t[m]) by {
            assert(t[m] == s@[a + m]);
        }
        if b > a {
            assert(t[b - a - 1] == s@[b - 1]);
        }
        lemma_trailing_ws_exact(t, b - a);
        assert(t.take(b - a) =~= s@.subrange(a as int, b as int));
    }
    (a, b)
}

/// `str::trim`: a copy of `s` without leading and trailing whitespace.
pub fn trimmed(s: &str) -> (r: String)
    ensures
        r@ == spec_trim(s@),
{
    let cs = str_chars(s);
    let (a, b) = trim_range(&cs, 0, cs.len());
    assert(cs@.subrange(0, cs@.len() as int) =~= cs@);
    range_to_string(&cs, a, b)
}

/// Whether two strings hold the same characters.
pub fn str_eq(a: &str, b: &str) -> (r: bool)
    ensures
        r == (a@ == b@),
{
    let x = str_chars(a);
    let y = str_chars(b);
    if x.len() != y.len() {
        return false;
    }
    let mut i: usize = 0;
    while i < x.len()
        invariant
            i <= x@.len(),
            x@.len() == y@.len(),
            x@ == a@,
            y@ == b@,
            forall|k: int| 0 <= k < i ==> x@[k] == y@[k],
        decreases x@.len() - i,
    {
        if x[i] != y[i] {
            return false;
        }
        i = i + 1;
    }
    assert(x@ =~= y@);
    true
}

/// The decimal digit character for `d < 10`.
pub open spec fn digit_char(d: nat) -> char {
    if d == 0 {
        '0'
    } else if d == 1 {
        '1'
    } else if d == 2 {
        '2'
    } else if d == 3 {
        '3'
    } else if d == 4 {
        '4'
    } else if d == 5 {
        '5'
    } else if d == 6 {
        '6'
    } else if d == 7 {
        '7'
    } else if d == 8 {
        '8'
    } else {
        '9'
    }
}

/// `n` written in decimal, without leading zeros (`"0"` for zero), as `{}` formats it.
pub open spec fn decimal(n: nat) -> Seq<char>
    decreases n,
{
    if n < 10 {
        seq![digit_char(n)]
    } else {
        decimal(n / 10).push(digit_char(n % 10))
    }
}

fn digit_of(d: u32) -> (c: char)
    requires
        d < 10,
    ensures
        c == digit_char(d as nat),
{
    if d == 0 {
        '0'
    } else if d == 1 {
        '1'
    } else if d == 2 {
        '2'
    } else if d == 3 {
        '3'
    } else if d == 4 {
        '4'
    } else if d == 5 {
        '5'
    } else if d == 6 {
        '6'
    } else if d == 7 {
        '7'
    } else if d == 8 {
        '8'
    } else {
        '9'
    }
}

/// `n` written in decimal (`format!("{n}")`).
pub fn u32_decimal(n: u32) -> (s: String)
    ensures
        s@ == decimal(n as nat),
    decreases n,
{
    if n < 10 {
        let mut s = String::new();
        string_push(&mut s, digit_of(n));
        s
    } else {
        let mut s = u32_decimal(n / 10);
        string_push(&mut s, digit_of(n % 10));
        s
    }
}

/// `n` written in decimal (`format!("{n}")`).
pub fn usize_decimal(n: usize) -> (s: String)
    ensures
        s@ == decimal(n as nat),
    decreases n,
{
    if n < 10 {
        let mut s = String::new();
        string_push(&mut s, digit_of((n % 10) as u32));
        s
    } else {
        let mut s = usize_decimal(n / 10);
        string_push(&mut s, digit_of((n % 10) as u32));
        s
    }
}

/// `n` written in decimal (`format!("{n}")`).
pub fn u64_decimal(n: u64) -> (s: String)
    ensures
        s@ == decimal(n as nat),
    decreases n,
{
    if n < 10 {
        let mut s = String::new();
        string_push(&mut s, digit_of((n % 10) as u32));
        s
    } else {
        let mut s = u64_decimal(n / 10);
        string_push(&mut s, digit_of((n % 10) as u32));
        s
    }
}

} // verus!
