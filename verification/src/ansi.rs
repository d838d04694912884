//! Visible width of text that may carry colour escape sequences.
//!
//! An escape sequence is the escape character, `[`, any number of characters
//! out of `0-9;`, and one ASCII letter. Such a sequence occupies no cell on
//! the terminal. An escape character that does not begin a whole sequence is
//! ordinary text and is counted.

use vstd::prelude::*;
use crate::text::chars_of;

verus! {

/// The escape character that opens a sequence.
pub const ESC: char = '\x1B';

/// A character that may stand between `[` and the closing letter.
pub open spec fn is_parameter(c: char) -> bool {
    ('0' <= c && c <= '9') || c == ';'
}

/// A character that closes a sequence: an ASCII letter.
pub open spec fn is_final(c: char) -> bool {
    ('a' <= c && c <= 'z') || ('A' <= c && c <= 'Z')
}

/// The first position at or after `i` that holds no parameter character,
/// or the length of `s` if the parameters run to the end.
pub open spec fn parameters_end(s: Seq<char>, i: int) -> int
    decreases s.len() - i,
{
    if 0 <= i < s.len() && is_parameter(s[i]) {
        parameters_end(s, i + 1)
    } else {
        i
    }
}

/// The length of the escape sequence that begins at `i`, or 0 if none
/// begins there.
pub open spec fn sequence_len(s: Seq<char>, i: int) -> int {
    if 0 <= i && i + 1 < s.len() && s[i] == ESC && s[i + 1] == '[' {
        let j = parameters_end(s, i + 2);
        if j < s.len() && is_final(s[j]) {
            j + 1 - i
        } else {
            0
        }
    } else {
        0
    }
}

/// What is left of `s` from position `i` on once every escape sequence is
/// taken out, scanning from the left.
pub open spec fn visible_from(s: Seq<char>, i: int) -> Seq<char>
    decreases s.len() - i,
{
    if i < 0 || i >= s.len() {
        Seq::empty()
    } else if sequence_len(s, i) > 0 {
        visible_from(s, i + sequence_len(s, i))
    } else {
        seq![s[i]] + visible_from(s, i + 1)
    }
}

/// The text of `s` without its escape sequences.
pub open spec fn visible_text(s: Seq<char>) -> Seq<char> {
    visible_from(s, 0)
}

/// The number of cells that `s` occupies: its characters, escape sequences
/// left out.
pub open spec fn visual_width(s: Seq<char>) -> nat {
    visible_text(s).len()
}

/// Parameters end within the text, at or after the starting position, and
/// everything in between is a parameter character.
pub proof fn lemma_parameters_end(s: Seq<char>, i: int)
    requires
        0 <= i <= s.len(),
    ensures
        i <= parameters_end(s, i) <= s.len(),
        forall|k: int| i <= k < parameters_end(s, i) ==> is_parameter(#[trigger] s[k]),
        parameters_end(s, i) < s.len() ==> !is_parameter(s[parameters_end(s, i)]),
    decreases s.len() - i,
{
    if i < s.len() && is_parameter(s[i]) {
        lemma_parameters_end(s, i + 1);
    }
}

/// A sequence never reaches past the end of the text.
pub proof fn lemma_sequence_len_bound(s: Seq<char>, i: int)
    ensures
        0 <= sequence_len(s, i),
        sequence_len(s, i) > 0 ==> 0 <= i && 3 <= sequence_len(s, i) && i + sequence_len(s, i)
            <= s.len(),
{
    if 0 <= i && i + 1 < s.len() {
        lemma_parameters_end(s, i + 2);
    }
}

/// A whole escape sequence: the escape character, `[`, parameter characters
/// or none, and a letter.
pub open spec fn is_escape_sequence(t: Seq<char>) -> bool {
    &&& t.len() >= 3
    &&& t[0] == ESC
    &&& t[1] == '['
    &&& forall|k: int| 2 <= k < t.len() - 1 ==> is_parameter(#[trigger] t[k])
    &&& is_final(t.last())
}

/// Parameters that fill `s` from `from` up to `to`, where another character
/// stands, end at `to`.
proof fn lemma_parameters_run(s: Seq<char>, from: int, to: int)
    requires
        0 <= from <= to < s.len(),
        forall|k: int| from <= k < to ==> is_parameter(#[trigger] s[k]),
        !is_parameter(s[to]),
    ensures
        parameters_end(s, from) == to,
    decreases to - from,
{
    if from < to {
        assert(is_parameter(s[from]));
        lemma_parameters_run(s, from + 1, to);
    }
}

/// The sequence that begins at a position is the one stretch of text from
/// there on that is a whole escape sequence: no sequence is the beginning of
/// a longer one.
pub proof fn lemma_sequence_len_is_match(s: Seq<char>, i: int, n: int)
    requires
        0 <= i,
        0 < n,
        i + n <= s.len(),
    ensures
        sequence_len(s, i) == n <==> is_escape_sequence(s.subrange(i, i + n)),
{
    let t = s.subrange(i, i + n);
    if sequence_len(s, i) == n {
        lemma_parameters_end(s, i + 2);
        assert(t[0] == s[i] && t[1] == s[i + 1]);
        assert(t.last() == s[i + n - 1]);
        assert forall|k: int| 2 <= k < t.len() - 1 implies is_parameter(#[trigger] t[k]) by {
            assert(t[k] == s[i + k]);
        }
    }
    if is_escape_sequence(t) {
        assert(t[0] == s[i] && t[1] == s[i + 1]);
        assert(t.last() == s[i + n - 1]);
        assert forall|k: int| i + 2 <= k < i + n - 1 implies is_parameter(#[trigger] s[k]) by {
            assert(t[k - i] == s[k]);
        }
        lemma_parameters_run(s, i + 2, i + n - 1);
    }
}

/// The visible text from `i` on is no longer than what is left of `s`.
pub proof fn lemma_visible_from_len(s: Seq<char>, i: int)
    requires
        0 <= i <= s.len(),
    ensures
        visible_from(s, i).len() <= s.len() - i,
    decreases s.len() - i,
{
    if i < s.len() {
        lemma_sequence_len_bound(s, i);
        if sequence_len(s, i) > 0 {
            lemma_visible_from_len(s, i + sequence_len(s, i));
        } else {
            lemma_visible_from_len(s, i + 1);
        }
    }
}

/// Every escape character of `s` begins a whole escape sequence.
pub open spec fn complete_sequences_only(s: Seq<char>) -> bool {
    forall|i: int| 0 <= i < s.len() && s[i] == ESC ==> sequence_len(s, i) > 0
}

/// `s` holds no escape character.
pub open spec fn is_plain(s: Seq<char>) -> bool {
    forall|i: int| 0 <= i < s.len() ==> s[i] != ESC
}

/// A character after which no sequence is left open: it is neither the
/// escape character nor `[` nor a parameter character.
pub open spec fn ends_sequences(c: char) -> bool {
    c != ESC && c != '[' && !is_parameter(c)
}

/// A character that cannot continue a sequence left open before it: it is
/// neither `[` nor a parameter character nor a letter.
pub open spec fn breaks_sequences(c: char) -> bool {
    c != '[' && !is_parameter(c) && !is_final(c)
}

/// The sequences of `a + b` that begin inside `a` are those of `a`.
pub open spec fn joins_cleanly(a: Seq<char>, b: Seq<char>) -> bool {
    forall|i: int| 0 <= i < a.len() ==> #[trigger] sequence_len(a + b, i) == sequence_len(a, i)
}

/// Parameters that begin inside `b` end in `a + b` where they end in `b`.
proof fn lemma_parameters_end_shift(a: Seq<char>, b: Seq<char>, j: int)
    requires
        0 <= j <= b.len(),
    ensures
        parameters_end(a + b, a.len() + j) == a.len() + parameters_end(b, j),
    decreases b.len() - j,
{
    if j < b.len() {
        assert((a + b)[a.len() + j] == b[j]);
        if is_parameter(b[j]) {
            lemma_parameters_end_shift(a, b, j + 1);
        }
    }
}

/// Parameters that begin inside `a` end in `a + b` where they end in `a`,
/// unless they run to the end of `a`: then they go on into `b`.
proof fn lemma_parameters_end_concat(a: Seq<char>, b: Seq<char>, k: int)
    requires
        0 <= k <= a.len(),
    ensures
        parameters_end(a + b, k) == if parameters_end(a, k) < a.len() {
            parameters_end(a, k)
        } else {
            a.len() + parameters_end(b, 0)
        },
    decreases a.len() - k,
{
    lemma_parameters_end(a, k);
    if k < a.len() {
        assert((a + b)[k] == a[k]);
        if is_parameter(a[k]) {
            lemma_parameters_end_concat(a, b, k + 1);
        }
    } else {
        lemma_parameters_end_shift(a, b, 0);
    }
}

/// The sequences of `a + b` that begin inside `b` are those of `b`.
proof fn lemma_sequence_len_shift(a: Seq<char>, b: Seq<char>, j: int)
    requires
        0 <= j < b.len(),
    ensures
        sequence_len(a + b, a.len() + j) == sequence_len(b, j),
{
    assert((a + b)[a.len() + j] == b[j]);
    if j + 1 < b.len() {
        assert((a + b)[a.len() + j + 1] == b[j + 1]);
        lemma_parameters_end_shift(a, b, j + 2);
        lemma_parameters_end(b, j + 2);
        let e = parameters_end(b, j + 2);
        if e < b.len() {
            assert((a + b)[a.len() + e] == b[e]);
        }
    }
}

/// From a position inside `b` on, `a + b` shows what `b` shows.
proof fn lemma_visible_from_shift(a: Seq<char>, b: Seq<char>, j: int)
    requires
        0 <= j <= b.len(),
    ensures
        visible_from(a + b, a.len() + j) == visible_from(b, j),
    decreases b.len() - j,
{
    if j < b.len() {
        lemma_sequence_len_shift(a, b, j);
        lemma_sequence_len_bound(b, j);
        assert((a + b)[a.len() + j] == b[j]);
        if sequence_len(b, j) > 0 {
            lemma_visible_from_shift(a, b, j + sequence_len(b, j));
        } else {
            lemma_visible_from_shift(a, b, j + 1);
        }
    }
}

/// Where the two join cleanly, `a + b` shows from `i` on what `a` shows
/// from there, and then what `b` shows.
proof fn lemma_visible_from_concat(a: Seq<char>, b: Seq<char>, i: int)
    requires
        joins_cleanly(a, b),
        0 <= i <= a.len(),
    ensures
        visible_from(a + b, i) == visible_from(a, i) + visible_text(b),
    decreases a.len() - i,
{
    if i == a.len() {
        lemma_visible_from_shift(a, b, 0);
        assert(visible_from(a, i) + visible_text(b) =~= visible_text(b));
    } else {
        lemma_sequence_len_bound(a, i);
        assert(sequence_len(a + b, i) == sequence_len(a, i));
        assert((a + b)[i] == a[i]);
        if sequence_len(a, i) > 0 {
            lemma_visible_from_concat(a, b, i + sequence_len(a, i));
        } else {
            lemma_visible_from_concat(a, b, i + 1);
            assert(seq![a[i]] + (visible_from(a, i + 1) + visible_text(b)) =~= (seq![a[i]]
                + visible_from(a, i + 1)) + visible_text(b));
        }
    }
}

/// Two texts that join cleanly show, put together, what each shows alone.
pub proof fn lemma_visible_text_of_clean_join(a: Seq<char>, b: Seq<char>)
    requires
        joins_cleanly(a, b),
    ensures
        visible_text(a + b) == visible_text(a) + visible_text(b),
        visual_width(a + b) == visual_width(a) + visual_width(b),
{
    lemma_visible_from_concat(a, b, 0);
}

/// A text whose escape characters all begin whole sequences joins cleanly
/// with whatever follows it.
pub proof fn lemma_complete_joins_cleanly(a: Seq<char>, b: Seq<char>)
    requires
        complete_sequences_only(a),
    ensures
        joins_cleanly(a, b),
{
    assert forall|i: int| 0 <= i < a.len() implies #[trigger] sequence_len(a + b, i)
        == sequence_len(a, i) by {
        assert((a + b)[i] == a[i]);
        if a[i] == ESC {
            assert((a + b)[i + 1] == a[i + 1]);
            lemma_parameters_end_concat(a, b, i + 2);
            let e = parameters_end(a, i + 2);
            assert((a + b)[e] == a[e]);
        }
    }
}

/// A text that ends in a character which leaves no sequence open joins
/// cleanly with whatever follows it.
pub proof fn lemma_closed_joins_cleanly(a: Seq<char>, b: Seq<char>)
    requires
        a.len() > 0,
        ends_sequences(a.last()),
    ensures
        joins_cleanly(a, b),
{
    assert forall|i: int| 0 <= i < a.len() implies #[trigger] sequence_len(a + b, i)
        == sequence_len(a, i) by {
        assert((a + b)[i] == a[i]);
        if a[i] == ESC {
            assert(i + 1 < a.len());
            assert((a + b)[i + 1] == a[i + 1]);
            if a[i + 1] == '[' {
                assert(i + 2 < a.len());
                lemma_parameters_end(a, i + 2);
                lemma_parameters_end_concat(a, b, i + 2);
                let e = parameters_end(a, i + 2);
                if e == a.len() {
                    assert(is_parameter(a[a.len() - 1]));
                }
                assert((a + b)[e] == a[e]);
            }
        }
    }
}

/// A text joins cleanly with one that begins with a character which cannot
/// continue a sequence.
pub proof fn lemma_broken_joins_cleanly(a: Seq<char>, b: Seq<char>)
    requires
        b.len() > 0,
        breaks_sequences(b[0]),
    ensures
        joins_cleanly(a, b),
{
    assert forall|i: int| 0 <= i < a.len() implies #[trigger] sequence_len(a + b, i)
        == sequence_len(a, i) by {
        assert((a + b)[i] == a[i]);
        assert((a + b)[a.len() as int] == b[0]);
        if a[i] == ESC && i + 1 < a.len() {
            assert((a + b)[i + 1] == a[i + 1]);
            if a[i + 1] == '[' {
                lemma_parameters_end(a, i + 2);
                lemma_parameters_end_concat(a, b, i + 2);
                let e = parameters_end(a, i + 2);
                if e < a.len() {
                    assert((a + b)[e] == a[e]);
                }
            }
        }
    }
}

/// The visual width of two texts put together is the sum of their visual
/// widths, provided that every escape character of the first begins a whole
/// sequence. The second text may be any text.
pub proof fn lemma_width_is_additive(a: Seq<char>, b: Seq<char>)
    requires
        complete_sequences_only(a),
    ensures
        visible_text(a + b) == visible_text(a) + visible_text(b),
        visual_width(a + b) == visual_width(a) + visual_width(b),
{
    lemma_complete_joins_cleanly(a, b);
    lemma_visible_text_of_clean_join(a, b);
}

/// A text without escape characters shows from `i` on all that it holds.
proof fn lemma_plain_visible_from(s: Seq<char>, i: int)
    requires
        is_plain(s),
        0 <= i <= s.len(),
    ensures
        visible_from(s, i) == s.subrange(i, s.len() as int),
    decreases s.len() - i,
{
    if i < s.len() {
        lemma_plain_visible_from(s, i + 1);
        assert(seq![s[i]] + s.subrange(i + 1, s.len() as int) =~= s.subrange(i, s.len() as int));
    } else {
        assert(s.subrange(i, s.len() as int) =~= Seq::<char>::empty());
    }
}

/// A text without escape characters is all visible.
pub proof fn lemma_plain_is_visible(s: Seq<char>)
    requires
        is_plain(s),
    ensures
        visible_text(s) == s,
        visual_width(s) == s.len(),
{
    lemma_plain_visible_from(s, 0);
    assert(s.subrange(0, s.len() as int) =~= s);
}

/// The visual width of a text is at most the number of its characters.
pub proof fn lemma_width_at_most_len(s: Seq<char>)
    ensures
        visual_width(s) <= s.len(),
{
    lemma_visible_from_len(s, 0);
}

fn is_parameter_char(c: char) -> (b: bool)
    ensures
        b == is_parameter(c),
{
    ('0' <= c && c <= '9') || c == ';'
}

fn is_final_char(c: char) -> (b: bool)
    ensures
        b == is_final(c),
{
    ('a' <= c && c <= 'z') || ('A' <= c && c <= 'Z')
}

/// The length of the escape sequence that begins at `i`, 0 if none does.
fn sequence_len_at(chars: &Vec<char>, i: usize) -> (n: usize)
    requires
        i < chars.len(),
    ensures
        n == sequence_len(chars@, i as int),
{
    let len: usize = chars.len();
    if chars[i] != ESC || len - i < 2 || chars[i + 1] != '[' {
        return 0;
    }
    let mut j: usize = i + 2;
    while j < len && is_parameter_char(chars[j])
        invariant
            i + 2 <= j <= len,
            len == chars.len(),
            parameters_end(chars@, i + 2) == parameters_end(chars@, j as int),
        decreases len - j,
    {
        j = j + 1;
    }
    if j < len && is_final_char(chars[j]) {
        j + 1 - i
    } else {
        0
    }
}

/// The visible width of `s`: the number of its characters once every escape
/// sequence is taken out.
pub fn strip_ansi_length(s: &str) -> (width: usize)
    ensures
        width == visual_width(s@),
{
    let chars = chars_of(s);
    let len: usize = chars.len();
    let mut width: usize = 0;
    let mut i: usize = 0;
    while i < len
        invariant
            i <= len,
            len == chars.len(),
            width <= i,
            width + visible_from(chars@, i as int).len() == visual_width(chars@),
        decreases len - i,
    {
        let n: usize = sequence_len_at(&chars, i);
        proof {
            lemma_sequence_len_bound(chars@, i as int);
        }
        if n > 0 {
            i = i + n;
        } else {
            width = width + 1;
            i = i + 1;
        }
    }
    width
}

} // verus!
