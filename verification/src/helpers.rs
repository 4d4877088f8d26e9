//! Small text helpers: integer fields typed by the user, and bounded logs.

use vstd::prelude::*;
use crate::text::{chars_of, parse_i32, parse_i32_chars, string_of, sub_chars, trim, trim_chars};

verus! {

/// Separator between history entries: the invisible PARAGRAPH SEPARATOR (U+2029),
/// which AI answers do not contain (unlike a blank line).
pub const ENTRY_SEP: char = '\u{2029}';

/// The integer that `value` spells once trimmed, or `default` when it spells none.
pub fn to_int(value: &str, default: i32) -> (r: i32)
    ensures
        r == match parse_i32(trim(value@)) {
            Some(v) => v,
            None => default,
        },
{
    let chars = chars_of(value);
    let t = trim_chars(chars.as_slice());
    match parse_i32_chars(t.as_slice()) {
        Some(v) => v,
        None => default,
    }
}

/// How many times `c` occurs in `s`.
pub open spec fn count_char(s: Seq<char>, c: char) -> nat
    decreases s.len(),
{
    if s.len() == 0 {
        0
    } else {
        count_char(s.drop_last(), c) + if s.last() == c { 1nat } else { 0nat }
    }
}

/// The first index at or after `from` that holds `c`.
pub open spec fn char_pos_from(s: Seq<char>, c: char, from: int) -> Option<int>
    decreases s.len() - from,
{
    if from < 0 || from >= s.len() {
        None
    } else if s[from] == c {
        Some(from)
    } else {
        char_pos_from(s, c, from + 1)
    }
}

/// Where the text is cut when `d` pieces are dropped from its front, starting at `pos`:
/// each dropped piece ends just after the next `c`; with no `c` left, all is dropped.
pub open spec fn cut_index(s: Seq<char>, c: char, pos: int, d: nat) -> int
    decreases d,
{
    if d == 0 {
        pos
    } else {
        match char_pos_from(s, c, pos) {
            None => s.len() as int,
            Some(i) => cut_index(s, c, i + 1, (d - 1) as nat),
        }
    }
}

/// `s`, split into pieces at `c`, keeping only its last `max` pieces; the text is kept
/// whole when it has no more than `max` pieces, and emptied when `max` is 0.
pub open spec fn keep_last_pieces(s: Seq<char>, c: char, max: nat) -> Seq<char> {
    if count_char(s, c) < max {
        s
    } else {
        s.subrange(cut_index(s, c, 0, (count_char(s, c) + 1 - max) as nat), s.len() as int)
    }
}

/// Cuts the oldest pieces of `s`, separated by `sep`, so that at most `max` remain.
fn keep_last(s: &mut String, sep: char, max: usize)
    ensures
        final(s)@ == keep_last_pieces(old(s)@, sep, max as nat),
{
    let v = chars_of(s.as_str());
    let mut count: usize = 0;
    let mut k: usize = 0;
    while k < v.len()
        invariant
            k <= v.len(),
            count <= k,
            count == count_char(v@.subrange(0, k as int), sep),
        decreases v.len() - k,
    {
        assert(v@.subrange(0, k + 1).drop_last() =~= v@.subrange(0, k as int));
        if v[k] == sep {
            count = count + 1;
        }
        k = k + 1;
    }
    assert(v@.subrange(0, v.len() as int) =~= v@);
    if count < max {
        return;
    }
    if max == 0 {
        proof {
            lemma_cut_index_bounds(v@, sep, 0, (count + 1) as nat);
            lemma_cut_past_count(v@, sep, 0, (count + 1) as nat);
        }
        assert(v@.subrange(v.len() as int, v.len() as int) =~= Seq::<char>::empty());
        *s = String::new();
        return;
    }
    let drop = count - max + 1;
    let mut pos: usize = 0;
    let mut done: usize = 0;
    while done < drop
        invariant
            pos <= v.len(),
            done <= drop,
            cut_index(v@, sep, 0, drop as nat) == cut_index(v@, sep, pos as int, (drop - done) as nat),
        decreases drop - done,
    {
        proof {
            lemma_char_pos_from(v@, sep, pos as int);
        }
        match find_char_from(v.as_slice(), sep, pos) {
            None => {
                pos = v.len();
                done = drop;
            },
            Some(i) => {
                pos = i + 1;
                done = done + 1;
            },
        }
    }
    let kept = sub_chars(v.as_slice(), pos, v.len());
    *s = string_of(kept.as_slice());
}

/// `cut_index` with nothing left to drop, or with no separator left, ends where the text ends.
proof fn lemma_cut_past_count(s: Seq<char>, c: char, pos: int, d: nat)
    requires
        0 <= pos <= s.len(),
        d > count_char(s.subrange(pos, s.len() as int), c),
    ensures
        cut_index(s, c, pos, d) == s.len(),
    decreases d,
{
    lemma_char_pos_from(s, c, pos);
    match char_pos_from(s, c, pos) {
        None => {},
        Some(i) => {
            lemma_count_split_at_first(s, c, pos, i);
            lemma_cut_past_count(s, c, i + 1, (d - 1) as nat);
        },
    }
}

/// `cut_index` stays within the text.
proof fn lemma_cut_index_bounds(s: Seq<char>, c: char, pos: int, d: nat)
    requires
        0 <= pos <= s.len(),
    ensures
        pos <= cut_index(s, c, pos, d) <= s.len(),
    decreases d,
{
    if d > 0 {
        lemma_char_pos_from(s, c, pos);
        match char_pos_from(s, c, pos) {
            None => {},
            Some(i) => lemma_cut_index_bounds(s, c, i + 1, (d - 1) as nat),
        }
    }
}

/// `char_pos_from` finds the first `c` at or after `from`.
pub proof fn lemma_char_pos_from(s: Seq<char>, c: char, from: int)
    requires
        0 <= from,
    ensures
        char_pos_from(s, c, from) matches Some(i) ==> {
            &&& from <= i < s.len()
            &&& s[i] == c
            &&& forall|k: int| from <= k < i ==> s[k] != c
        },
        char_pos_from(s, c, from) is None ==> forall|k: int| from <= k < s.len() ==> s[k] != c,
    decreases s.len() - from,
{
    if from < s.len() && s[from] != c {
        lemma_char_pos_from(s, c, from + 1);
    }
}

/// Counting is additive over concatenation.
pub proof fn lemma_count_concat(a: Seq<char>, b: Seq<char>, c: char)
    ensures
        count_char(a + b, c) == count_char(a, c) + count_char(b, c),
    decreases b.len(),
{
    if b.len() == 0 {
        assert(a + b =~= a);
    } else {
        assert((a + b).drop_last() =~= a + b.drop_last());
        lemma_count_concat(a, b.drop_last(), c);
    }
}

/// A text without `c` counts no `c`.
pub proof fn lemma_count_none(s: Seq<char>, c: char)
    requires
        forall|k: int| 0 <= k < s.len() ==> s[k] != c,
    ensures
        count_char(s, c) == 0,
    decreases s.len(),
{
    if s.len() > 0 {
        lemma_count_none(s.drop_last(), c);
    }
}

/// Splitting the tail from `pos` at the first `c` (at `i`) moves exactly one `c` out.
proof fn lemma_count_split_at_first(s: Seq<char>, c: char, pos: int, i: int)
    requires
        0 <= pos <= i < s.len(),
        s[i] == c,
        forall|k: int| pos <= k < i ==> s[k] != c,
    ensures
        count_char(s.subrange(pos, s.len() as int), c) == 1 + count_char(
            s.subrange(i + 1, s.len() as int),
            c,
        ),
{
    let head = s.subrange(pos, i);
    let tail = s.subrange(i + 1, s.len() as int);
    assert(s.subrange(pos, s.len() as int) =~= head + seq![c] + tail);
    lemma_count_concat(head + seq![c], tail, c);
    lemma_count_concat(head, seq![c], c);
    lemma_count_none(head, c);
    assert(seq![c].drop_last() =~= Seq::<char>::empty());
    assert(count_char(Seq::<char>::empty(), c) == 0);
    assert(seq![c].last() == c);
    assert(count_char(seq![c], c) == 1);
}

/// Finds the first index at or after `from` that holds `c`.
pub fn find_char_from(v: &[char], c: char, from: usize) -> (r: Option<usize>)
    ensures
        r matches Some(i) ==> char_pos_from(v@, c, from as int) == Some(i as int),
        r is None ==> char_pos_from(v@, c, from as int) is None,
{
    let mut i = from;
    while i < v.len()
        invariant
            from <= i,
            char_pos_from(v@, c, from as int) == char_pos_from(v@, c, i as int),
        decreases v.len() - i,
    {
        if v[i] == c {
            return Some(i);
        }
        i = i + 1;
    }
    None
}

/// Dropping `d` pieces, no more than the separators left, removes exactly `d` separators,
/// and the dropped part ends with a separator.
proof fn lemma_cut_drops(s: Seq<char>, c: char, pos: int, d: nat)
    requires
        0 <= pos <= s.len(),
        d <= count_char(s.subrange(pos, s.len() as int), c),
    ensures
        pos <= cut_index(s, c, pos, d) <= s.len(),
        count_char(s.subrange(cut_index(s, c, pos, d), s.len() as int), c) + d == count_char(
            s.subrange(pos, s.len() as int),
            c,
        ),
        d > 0 ==> s[cut_index(s, c, pos, d) - 1] == c,
    decreases d,
{
    if d > 0 {
        lemma_char_pos_from(s, c, pos);
        match char_pos_from(s, c, pos) {
            None => {
                lemma_count_none(s.subrange(pos, s.len() as int), c);
            },
            Some(i) => {
                lemma_count_split_at_first(s, c, pos, i);
                lemma_cut_drops(s, c, i + 1, (d - 1) as nat);
            },
        }
    }
}

/// What is kept is a suffix of the text: only the oldest part is ever removed.
pub proof fn lemma_keep_last_is_suffix(s: Seq<char>, c: char, max: nat)
    ensures
        keep_last_pieces(s, c, max).len() <= s.len(),
        keep_last_pieces(s, c, max) == s.subrange(
            s.len() - keep_last_pieces(s, c, max).len(),
            s.len() as int,
        ),
{
    assert(s.subrange(0, s.len() as int) =~= s);
    if count_char(s, c) >= max {
        lemma_cut_index_bounds(s, c, 0, (count_char(s, c) + 1 - max) as nat);
    }
}

/// With `max` at least 1, at most `max` pieces remain; when pieces were dropped,
/// exactly `max` remain and the removed part ends at a separator, so only whole
/// pieces are dropped. With `max` 0 nothing remains.
pub proof fn lemma_keep_last_bounded(s: Seq<char>, c: char, max: nat)
    ensures
        max >= 1 ==> count_char(keep_last_pieces(s, c, max), c) < max,
        max >= 1 && count_char(s, c) >= max ==> {
            &&& count_char(keep_last_pieces(s, c, max), c) + 1 == max
            &&& s[s.len() - keep_last_pieces(s, c, max).len() - 1] == c
        },
        max == 0 ==> keep_last_pieces(s, c, max).len() == 0,
{
    assert(s.subrange(0, s.len() as int) =~= s);
    let n = count_char(s, c);
    if n >= max {
        if max >= 1 {
            lemma_cut_drops(s, c, 0, (n + 1 - max) as nat);
        } else {
            lemma_cut_index_bounds(s, c, 0, (n + 1) as nat);
            lemma_cut_past_count(s, c, 0, (n + 1) as nat);
        }
    }
}

/// A text with fewer than `max` separators is left as it is.
pub proof fn lemma_keep_last_short_unchanged(s: Seq<char>, c: char, max: nat)
    requires
        count_char(s, c) < max,
    ensures
        keep_last_pieces(s, c, max) == s,
{
}

/// Trimming twice to the same bound gives what trimming once gives.
pub proof fn lemma_keep_last_idempotent(s: Seq<char>, c: char, max: nat)
    ensures
        keep_last_pieces(keep_last_pieces(s, c, max), c, max) == keep_last_pieces(s, c, max),
{
    let t = keep_last_pieces(s, c, max);
    lemma_keep_last_bounded(s, c, max);
    if max == 0 {
        assert(t =~= Seq::<char>::empty());
        assert(count_char(t, c) == 0);
        lemma_keep_last_bounded(t, c, max);
    }
}

/// Keeps the last `max_lines` lines of `s` (lines end at `\n`), dropping the oldest;
/// a text with no more lines than that is left as it is.
pub fn trim_lines(s: &mut String, max_lines: usize)
    ensures
        final(s)@ == keep_last_pieces(old(s)@, '\n', max_lines as nat),
{
    keep_last(s, '\n', max_lines);
}

/// Keeps the last `max_entries` history entries of `s` (separated by `ENTRY_SEP`),
/// dropping the oldest; a text with no more entries than that is left as it is.
pub fn trim_entries(s: &mut String, max_entries: usize)
    ensures
        final(s)@ == keep_last_pieces(old(s)@, ENTRY_SEP, max_entries as nat),
{
    keep_last(s, ENTRY_SEP, max_entries);
}

} // verus!
