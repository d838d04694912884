//! Coloured text.
//!
//! The colouring itself is the work of the `colored` crate, which decides
//! from the environment whether to colour at all. Whatever it decides, the
//! text it hands back is the text as it was given, or that text between one
//! graphic-rendition sequence and the reset sequence. This module states
//! that, and proves from it that colouring never changes what is visible.

use vstd::prelude::*;
use colored::Colorize;
use crate::ansi::{
    ESC, breaks_sequences, complete_sequences_only, ends_sequences, is_escape_sequence,
    is_parameter, is_plain, lemma_broken_joins_cleanly, lemma_complete_joins_cleanly,
    lemma_plain_is_visible, lemma_sequence_len_is_match, lemma_visible_text_of_clean_join,
    sequence_len, visible_from, visible_text,
};

verus! {

/// Every character of `params` is a parameter character.
pub open spec fn all_parameters(params: Seq<char>) -> bool {
    forall|i: int| 0 <= i < params.len() ==> is_parameter(#[trigger] params[i])
}

/// The graphic-rendition sequence with the given parameters.
pub open spec fn rendition(params: Seq<char>) -> Seq<char> {
    seq![ESC, '['] + params + seq!['m']
}

/// The sequence that ends all colour and style.
pub open spec fn reset() -> Seq<char> {
    rendition(seq!['0'])
}

/// The reset sequence stands somewhere in `text`.
pub open spec fn holds_reset(text: Seq<char>) -> bool {
    exists|i: int|
        0 <= i && i + reset().len() <= text.len() && #[trigger] text.subrange(
            i,
            i + reset().len(),
        ) == reset()
}

/// The parameter with which `colored` sets the foreground to the colour
/// named `color`: what `Color::to_fg_str` gives for the colour that
/// `Color::from` makes of the name.
pub uninterp spec fn foreground_code(color: Seq<char>) -> Seq<char>;

/// The parameters of bold text in the colour whose parameter is `code`.
pub open spec fn bold_in(code: Seq<char>) -> Seq<char> {
    seq!['1', ';'] + code
}

/// `out` is `text` as a terminal is given it: bare, or after the
/// graphic-rendition sequence of `params` and before the reset sequence.
pub open spec fn styled_with(out: Seq<char>, text: Seq<char>, params: Seq<char>) -> bool {
    out == text || (all_parameters(params) && out == rendition(params) + text + reset())
}

/// `out` is `text` as a terminal is given it, in some colour or style or in
/// none.
pub open spec fn styled(out: Seq<char>, text: Seq<char>) -> bool {
    out == text || exists|params: Seq<char>|
        all_parameters(params) && out == #[trigger] rendition(params) + text + reset()
}

/// Calls `Colorize::color` of the crate `colored` on `text` with the colour
/// named `color`, and formats the result with `Display`.
///
/// Where `text` does not hold the reset sequence, the result is `text`
/// itself if `colored` does not colour, and else `text` between the
/// graphic-rendition sequence of the colour's parameter, which is made of
/// digits and semicolons, and the reset sequence. Which of the two depends
/// on the environment.
#[verifier::external_body]
pub(crate) fn paint(text: &str, color: &str) -> (out: String)
    ensures
        !holds_reset(text@) ==> styled_with(out@, text@, foreground_code(color@)),
{
    format!("{}", text.color(color))
}

/// Calls `Colorize::color` and `Colorize::bold` of the crate `colored` on
/// `text`, and formats the result with `Display`.
///
/// Where `text` does not hold the reset sequence, the result is `text`
/// itself if `colored` does not colour, and else `text` between the
/// graphic-rendition sequence of `1`, a semicolon and the colour's
/// parameter, which is made of digits and semicolons, and the reset
/// sequence. Which of the two depends on the environment.
#[verifier::external_body]
pub(crate) fn paint_bold(text: &str, color: &str) -> (out: String)
    ensures
        !holds_reset(text@) ==> styled_with(out@, text@, bold_in(foreground_code(color@))),
{
    format!("{}", text.color(color).bold())
}

/// A text without escape characters does not hold the reset sequence.
pub proof fn lemma_plain_holds_no_reset(text: Seq<char>)
    requires
        is_plain(text),
    ensures
        !holds_reset(text),
{
    if holds_reset(text) {
        let i = choose|i: int|
            0 <= i && i + reset().len() <= text.len() && #[trigger] text.subrange(
                i,
                i + reset().len(),
            ) == reset();
        assert(text.subrange(i, i + reset().len())[0] == text[i]);
        assert(reset()[0] == ESC);
    }
}

/// A text styled with given parameters is a styled text.
pub proof fn lemma_styled_with_is_styled(out: Seq<char>, text: Seq<char>, params: Seq<char>)
    requires
        styled_with(out, text, params),
    ensures
        styled(out, text),
{
    if out != text {
        assert(out == rendition(params) + text + reset());
    }
}

/// A graphic-rendition sequence is one whole escape sequence, and shows
/// nothing.
pub proof fn lemma_rendition_is_a_sequence(params: Seq<char>)
    requires
        all_parameters(params),
    ensures
        is_escape_sequence(rendition(params)),
        sequence_len(rendition(params), 0) == rendition(params).len(),
        visible_text(rendition(params)) == Seq::<char>::empty(),
        complete_sequences_only(rendition(params)),
{
    let r = rendition(params);
    assert(r.len() == params.len() + 3);
    assert(r[0] == ESC && r[1] == '[');
    assert(r.last() == 'm');
    assert forall|k: int| 2 <= k < r.len() - 1 implies is_parameter(#[trigger] r[k]) by {
        assert(r[k] == params[k - 2]);
    }
    assert(r.subrange(0, r.len() as int) =~= r);
    lemma_sequence_len_is_match(r, 0, r.len() as int);
    assert(visible_from(r, r.len() as int) =~= Seq::<char>::empty());
    assert forall|i: int| 0 <= i < r.len() && r[i] == ESC implies sequence_len(r, i) > 0 by {
        if i >= 2 && i < r.len() - 1 {
            assert(is_parameter(r[i]));
        }
    }
}

/// Colouring changes nothing that is visible: a styled text shows what the
/// text itself shows.
pub proof fn lemma_styled_shows_text(out: Seq<char>, text: Seq<char>)
    requires
        styled(out, text),
    ensures
        visible_text(out) == visible_text(text),
{
    if out != text {
        let params = choose|params: Seq<char>|
            all_parameters(params) && out == #[trigger] rendition(params) + text + reset();
        let open = rendition(params);
        assert(all_parameters(seq!['0']));
        lemma_rendition_is_a_sequence(params);
        lemma_rendition_is_a_sequence(seq!['0']);
        assert(reset()[0] == ESC);
        assert(breaks_sequences(reset()[0]));
        lemma_broken_joins_cleanly(text, reset());
        lemma_visible_text_of_clean_join(text, reset());
        assert(visible_text(text + reset()) =~= visible_text(text));
        lemma_complete_joins_cleanly(open, text + reset());
        lemma_visible_text_of_clean_join(open, text + reset());
        assert(out =~= open + (text + reset()));
        assert(visible_text(out) =~= visible_text(text));
    }
}

/// A styled text without escape characters of its own shows exactly that
/// text.
pub proof fn lemma_styled_plain_shows_text(out: Seq<char>, text: Seq<char>)
    requires
        styled(out, text),
        is_plain(text),
    ensures
        visible_text(out) == text,
{
    lemma_styled_shows_text(out, text);
    lemma_plain_is_visible(text);
}

/// A styled text ends with a character that leaves no sequence open, where
/// the text itself does or is empty.
pub proof fn lemma_styled_is_closed(out: Seq<char>, text: Seq<char>)
    requires
        styled(out, text),
        text.len() > 0 ==> ends_sequences(text.last()),
    ensures
        out.len() > 0 ==> ends_sequences(out.last()),
{
    if out != text {
        let params = choose|params: Seq<char>|
            all_parameters(params) && out == #[trigger] rendition(params) + text + reset();
        assert(out.last() == 'm');
    }
}

} // verus!
