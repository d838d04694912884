//! Two blocks of text side by side.
//!
//! Row `i` holds line `i` of the left block, then padding, then line `i` of
//! the right block. The padding brings every left line up to the widest one
//! and adds a gutter, so the right block starts in one column on every row.
//! A block that is shorter than the other stands as empty lines.

use vstd::prelude::*;
use vstd::string::StringExecFns;
use crate::ansi::{
    breaks_sequences, ends_sequences, is_plain, lemma_broken_joins_cleanly,
    lemma_closed_joins_cleanly, lemma_plain_is_visible, lemma_visible_text_of_clean_join,
    strip_ansi_length, visible_text, visual_width,
};
use crate::text::{push_spaces, spaces, texts};

verus! {

/// The spaces that part the two blocks, beyond the padding.
pub const GUTTER: usize = 4;

/// The greatest visual width among `lines`; 0 for no lines.
pub open spec fn block_width(lines: Seq<Seq<char>>) -> nat
    decreases lines.len(),
{
    if lines.len() == 0 {
        0
    } else {
        let rest = block_width(lines.drop_last());
        let last = visual_width(lines.last());
        if last > rest {
            last
        } else {
            rest
        }
    }
}

/// Line `i` of a block, the empty line where the block has none.
pub open spec fn line_at(lines: Seq<Seq<char>>, i: int) -> Seq<char> {
    if 0 <= i < lines.len() {
        lines[i]
    } else {
        Seq::empty()
    }
}

/// The number of spaces between line `i` of the left block and the right
/// block: what the line lacks of the block's width, and the gutter.
pub open spec fn padding(left: Seq<Seq<char>>, i: int) -> nat {
    (GUTTER + block_width(left) - visual_width(line_at(left, i))) as nat
}

/// Row `i` of two blocks laid side by side.
pub open spec fn row(left: Seq<Seq<char>>, right: Seq<Seq<char>>, i: int) -> Seq<char> {
    line_at(left, i) + spaces(padding(left, i)) + line_at(right, i)
}

/// The number of rows: the line count of the longer block.
pub open spec fn row_count(art: Seq<Seq<char>>, info: Seq<Seq<char>>) -> nat {
    if art.len() > info.len() {
        art.len()
    } else {
        info.len()
    }
}

/// The rows of the art block and the info block, the info on the side that
/// `info_on_left` names.
pub open spec fn rows(art: Seq<Seq<char>>, info: Seq<Seq<char>>, info_on_left: bool) -> Seq<
    Seq<char>,
> {
    Seq::new(
        row_count(art, info),
        |i: int|
            if info_on_left {
                row(info, art, i)
            } else {
                row(art, info, i)
            },
    )
}

/// No line of a block is wider than the block; a missing line has width 0.
pub proof fn lemma_block_width_bounds(lines: Seq<Seq<char>>, i: int)
    ensures
        visual_width(line_at(lines, i)) <= block_width(lines),
    decreases lines.len(),
{
    if 0 <= i < lines.len() {
        if i < lines.len() - 1 {
            lemma_block_width_bounds(lines.drop_last(), i);
        }
    }
}

/// A block that has lines holds one as wide as the block.
pub proof fn lemma_block_width_attained(lines: Seq<Seq<char>>)
    requires
        lines.len() > 0,
    ensures
        exists|i: int| 0 <= i < lines.len() && visual_width(#[trigger] lines[i]) == block_width(lines),
    decreases lines.len(),
{
    let rest = lines.drop_last();
    if visual_width(lines.last()) > block_width(rest) || rest.len() == 0 {
        assert(visual_width(lines[lines.len() - 1]) == block_width(lines));
    } else {
        lemma_block_width_attained(rest);
        let i = choose|i: int| 0 <= i < rest.len() && visual_width(#[trigger] rest[i]) == block_width(rest);
        assert(lines[i] == rest[i]);
    }
}

/// The left block and its padding, up to where the right block begins.
pub open spec fn left_part(left: Seq<Seq<char>>, i: int) -> Seq<char> {
    line_at(left, i) + spaces(padding(left, i))
}

/// On every row the left line and its padding fill the width of the left
/// block and the gutter: the right block begins in the same column on all
/// rows, whatever the left lines hold.
pub proof fn lemma_right_block_column(left: Seq<Seq<char>>, i: int)
    ensures
        padding(left, i) >= GUTTER,
        visual_width(line_at(left, i)) + padding(left, i) == block_width(left) + GUTTER,
        visible_text(left_part(left, i)) == visible_text(line_at(left, i)) + spaces(
            padding(left, i),
        ),
        visual_width(left_part(left, i)) == block_width(left) + GUTTER,
{
    lemma_block_width_bounds(left, i);
    let pad = spaces(padding(left, i));
    assert(pad.len() >= GUTTER);
    assert(pad[0] == ' ');
    assert(breaks_sequences(pad[0]));
    assert(is_plain(pad));
    lemma_plain_is_visible(pad);
    lemma_broken_joins_cleanly(line_at(left, i), pad);
    lemma_visible_text_of_clean_join(line_at(left, i), pad);
}

/// A row shows what its left line shows, the padding, and what its right
/// line shows: no escape sequence forms across the padding.
pub proof fn lemma_row_visible_text(left: Seq<Seq<char>>, right: Seq<Seq<char>>, i: int)
    ensures
        row(left, right, i) == left_part(left, i) + line_at(right, i),
        visible_text(row(left, right, i)) == visible_text(line_at(left, i)) + spaces(
            padding(left, i),
        ) + visible_text(line_at(right, i)),
        visual_width(row(left, right, i)) == block_width(left) + GUTTER + visual_width(
            line_at(right, i),
        ),
{
    lemma_right_block_column(left, i);
    let head = left_part(left, i);
    let pad = spaces(padding(left, i));
    assert(pad.len() >= GUTTER);
    assert(head.last() == pad[pad.len() - 1]);
    assert(ends_sequences(head.last()));
    lemma_closed_joins_cleanly(head, line_at(right, i));
    lemma_visible_text_of_clean_join(head, line_at(right, i));
}

/// The rows of a banner are as many as the longer block has lines, and in
/// each the block on the far side begins in the same column: the width of
/// the near block and the gutter.
pub proof fn lemma_rows_are_aligned(
    art: Seq<Seq<char>>,
    info: Seq<Seq<char>>,
    info_on_left: bool,
    i: int,
)
    requires
        0 <= i < row_count(art, info),
    ensures
        rows(art, info, info_on_left).len() == row_count(art, info),
        info_on_left ==> rows(art, info, info_on_left)[i] == left_part(info, i) + line_at(art, i)
            && visual_width(left_part(info, i)) == block_width(info) + GUTTER,
        !info_on_left ==> rows(art, info, info_on_left)[i] == left_part(art, i) + line_at(info, i)
            && visual_width(left_part(art, i)) == block_width(art) + GUTTER,
{
    lemma_right_block_column(info, i);
    lemma_right_block_column(art, i);
    let all = rows(art, info, info_on_left);
    assert(all[i] == if info_on_left {
        row(info, art, i)
    } else {
        row(art, info, i)
    });
}

/// What a block shows: the visible text of each of its lines.
pub open spec fn shown(lines: Seq<Seq<char>>) -> Seq<Seq<char>> {
    Seq::new(lines.len(), |k: int| visible_text(lines[k]))
}

/// No line of the block holds an escape character.
pub open spec fn all_plain(lines: Seq<Seq<char>>) -> bool {
    forall|k: int| 0 <= k < lines.len() ==> is_plain(#[trigger] lines[k])
}

/// A block whose lines show plain text is as wide as what it shows.
proof fn lemma_block_width_of_shown(lines: Seq<Seq<char>>)
    requires
        all_plain(shown(lines)),
    ensures
        block_width(shown(lines)) == block_width(lines),
    decreases lines.len(),
{
    if lines.len() > 0 {
        let rest = lines.drop_last();
        assert(shown(lines).drop_last() =~= shown(rest));
        assert forall|k: int| 0 <= k < shown(rest).len() implies is_plain(
            #[trigger] shown(rest)[k],
        ) by {
            assert(shown(rest)[k] == shown(lines)[k]);
        }
        lemma_block_width_of_shown(rest);
        assert(shown(lines).last() == visible_text(lines.last()));
        lemma_plain_is_visible(shown(lines).last());
    }
}

/// Laying out and taking the colour away can be done in either order:
/// where both blocks show plain text, their rows show the rows of what the
/// blocks show. So colour moves nothing on the screen.
pub proof fn lemma_rows_show(art: Seq<Seq<char>>, info: Seq<Seq<char>>, info_on_left: bool)
    requires
        all_plain(shown(art)),
        all_plain(shown(info)),
    ensures
        shown(rows(art, info, info_on_left)) == rows(shown(art), shown(info), info_on_left),
{
    let left = if info_on_left {
        info
    } else {
        art
    };
    let right = if info_on_left {
        art
    } else {
        info
    };
    let coloured = rows(art, info, info_on_left);
    let bare = rows(shown(art), shown(info), info_on_left);
    lemma_block_width_of_shown(left);
    assert forall|k: int| 0 <= k < coloured.len() implies #[trigger] shown(coloured)[k]
        == bare[k] by {
        lemma_row_visible_text(left, right, k);
        assert(coloured[k] == row(left, right, k));
        assert(bare[k] == row(shown(left), shown(right), k));
        assert(line_at(shown(left), k) == visible_text(line_at(left, k)));
        assert(line_at(shown(right), k) == visible_text(line_at(right, k)));
        assert(is_plain(line_at(shown(left), k)));
        lemma_plain_is_visible(line_at(shown(left), k));
    }
    assert(shown(coloured) =~= bare);
}

/// The visual width of the widest of `lines`.
pub fn widest(lines: &Vec<String>) -> (width: usize)
    ensures
        width == block_width(texts(lines@)),
{
    let mut width: usize = 0;
    let mut i: usize = 0;
    while i < lines.len()
        invariant
            i <= lines.len(),
            width == block_width(texts(lines@).take(i as int)),
        decreases lines.len() - i,
    {
        let w: usize = strip_ansi_length(lines[i].as_str());
        proof {
            let upto = texts(lines@).take(i + 1);
            assert(upto.drop_last() =~= texts(lines@).take(i as int));
            assert(upto.last() == lines[i as int]@);
        }
        if w > width {
            width = w;
        }
        i = i + 1;
    }
    proof {
        assert(texts(lines@).take(i as int) =~= texts(lines@));
    }
    width
}

/// Line `i` of `lines` as a fresh string, the empty string past the end.
fn line_or_empty(lines: &Vec<String>, i: usize) -> (line: String)
    ensures
        line@ == line_at(texts(lines@), i as int),
{
    if i < lines.len() {
        lines[i].clone()
    } else {
        String::new()
    }
}

/// One row: line `i` of `left`, padded to `left_width` and the gutter, then
/// line `i` of `right`.
fn build_row(left: &Vec<String>, right: &Vec<String>, left_width: usize, i: usize) -> (out: String)
    requires
        left_width == block_width(texts(left@)),
    ensures
        out@ == row(texts(left@), texts(right@), i as int),
{
    let mut out = line_or_empty(left, i);
    let width: usize = strip_ansi_length(out.as_str());
    proof {
        lemma_block_width_bounds(texts(left@), i as int);
    }
    let ghost start = out@;
    push_spaces(&mut out, left_width - width);
    push_spaces(&mut out, GUTTER);
    let tail = line_or_empty(right, i);
    out.append(tail.as_str());
    proof {
        assert(spaces((left_width - width) as nat) + spaces(GUTTER as nat) =~= spaces(
            padding(texts(left@), i as int),
        ));
        assert(out@ =~= start + (spaces((left_width - width) as nat) + spaces(GUTTER as nat))
            + tail@);
    }
    out
}

/// Lays the art block and the info block side by side, the info block on the
/// left if `info_on_left` says so and on the right if not.
pub fn interleave(art: &Vec<String>, info: &Vec<String>, info_on_left: bool) -> (out: Vec<String>)
    ensures
        texts(out@) == rows(texts(art@), texts(info@), info_on_left),
        out.len() == row_count(texts(art@), texts(info@)),
{
    let count: usize = if art.len() > info.len() {
        art.len()
    } else {
        info.len()
    };
    let left_width: usize = if info_on_left {
        widest(info)
    } else {
        widest(art)
    };
    let mut out: Vec<String> = Vec::new();
    let mut i: usize = 0;
    while i < count
        invariant
            i <= count,
            count == row_count(texts(art@), texts(info@)),
            left_width == if info_on_left {
                block_width(texts(info@))
            } else {
                block_width(texts(art@))
            },
            out.len() == i,
            forall|k: int|
                0 <= k < i ==> (#[trigger] out[k])@ == rows(texts(art@), texts(info@), info_on_left)[k],
        decreases count - i,
    {
        let line = if info_on_left {
            build_row(info, art, left_width, i)
        } else {
            build_row(art, info, left_width, i)
        };
        out.push(line);
        i = i + 1;
    }
    proof {
        assert(texts(out@) =~= rows(texts(art@), texts(info@), info_on_left));
    }
    out
}

} // verus!
