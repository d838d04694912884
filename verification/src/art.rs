//! The pieces of ASCII art and the choice among them.

use vstd::prelude::*;
use vstd::string::StringExecFns;
use crate::ansi::{
    ends_sequences, is_plain, lemma_closed_joins_cleanly, lemma_visible_text_of_clean_join,
};
use crate::layout::{all_plain, shown};
use crate::style::{
    foreground_code, lemma_plain_holds_no_reset, lemma_styled_is_closed,
    lemma_styled_plain_shows_text, lemma_styled_with_is_styled, paint, styled_with,
};
use crate::text::texts;

verus! {

/// What the user asks for: one of the pieces by name, or a random one.
#[derive(Clone, Copy, Debug, PartialEq, Eq, Structural)]
pub enum ArtSelector {
    Primary,
    Alternate,
    Random,
}

/// One piece of art.
#[derive(Clone, Copy, Debug, PartialEq, Eq, Structural)]
pub enum Art {
    /// The dog on his kennel.
    Primary,
    /// The tree.
    Alternate,
}

/// Why a configuration is refused.
#[derive(Clone, Copy, Debug, PartialEq, Eq, Structural)]
pub enum ConfigError {
    /// The art was asked for by a name that is none of "primary",
    /// "alternate" and "random".
    UnknownArt,
}

/// The name of the art that is shown where none is asked for.
pub const DEFAULT_ART: &'static str = "primary";

/// The number of lines of each piece.
pub const ART_LINES: usize = 8;

/// The colour of the primary piece and of the trunk of the alternate one.
pub const PALE: &'static str = "white";

/// The colour of the leaves of the alternate piece.
pub const LEAF: &'static str = "green";

/// The selector that `name` names, if it names one.
pub open spec fn selector_named(name: Seq<char>) -> Option<ArtSelector> {
    if name == "primary"@ {
        Some(ArtSelector::Primary)
    } else if name == "alternate"@ {
        Some(ArtSelector::Alternate)
    } else if name == "random"@ {
        Some(ArtSelector::Random)
    } else {
        None
    }
}

/// The piece that a selector stands for, `coin` deciding where the selector
/// leaves it open: heads is the primary piece.
pub open spec fn resolved(selector: ArtSelector, coin: bool) -> Art {
    match selector {
        ArtSelector::Primary => Art::Primary,
        ArtSelector::Alternate => Art::Alternate,
        ArtSelector::Random => if coin {
            Art::Primary
        } else {
            Art::Alternate
        },
    }
}

/// The selector of the name given on the command line. Any name but
/// "primary", "alternate" and "random" is refused.
pub fn parse_art_selector(name: &str) -> (res: Result<ArtSelector, ConfigError>)
    ensures
        res == match selector_named(name@) {
            Some(selector) => Ok::<ArtSelector, ConfigError>(selector),
            None => Err::<ArtSelector, ConfigError>(ConfigError::UnknownArt),
        },
{
    let given: String = String::from_str(name);
    if given == String::from_str("primary") {
        Ok(ArtSelector::Primary)
    } else if given == String::from_str("alternate") {
        Ok(ArtSelector::Alternate)
    } else if given == String::from_str("random") {
        Ok(ArtSelector::Random)
    } else {
        Err(ConfigError::UnknownArt)
    }
}

/// The piece that `selector` stands for, given the toss of a coin.
pub fn resolve_art(selector: ArtSelector, coin: bool) -> (art: Art)
    ensures
        art == resolved(selector, coin),
{
    match selector {
        ArtSelector::Primary => Art::Primary,
        ArtSelector::Alternate => Art::Alternate,
        ArtSelector::Random => if coin {
            Art::Primary
        } else {
            Art::Alternate
        },
    }
}

/// Calls `rand::random::<bool>()`. Nothing is known of the result.
#[verifier::external_body]
pub(crate) fn toss_coin() -> (coin: bool) {
    rand::random::<bool>()
}

/// The piece that `selector` stands for. A coin is tossed only where the
/// selector asks for a random piece, and once.
pub fn choose_art(selector: ArtSelector) -> (art: Art)
    ensures
        art == resolved(selector, true) || art == resolved(selector, false),
        selector == ArtSelector::Primary ==> art == Art::Primary,
        selector == ArtSelector::Alternate ==> art == Art::Alternate,
{
    match selector {
        ArtSelector::Random => resolve_art(selector, toss_coin()),
        _ => resolve_art(selector, true),
    }
}

/// The lines of the primary piece, uncoloured.
pub open spec fn snoopy_text() -> Seq<Seq<char>> {
    seq![
        "⠀⠀    ⠀⠀⠀⠀⠀⠀⠀⠀⠀⠀⠀⠀⠀⠀⠀⠀⠀⠀⠀⠀⠀⠀⠀⠀"@,
        "⠀⠀⠠⠄⠀⠁⠀⠀⠀⠀⠀⠀⠀⠀⠀⠀⠀⠀⠀⠀⠀⠀⠀⠀⠀⠀⠀⠀⠀⠀"@,
        "⠀⠀⠀⠀⠀⠀⠁⠀⠀⢀⡠⠤⢀⡀⠀⠀⠀⠀⠀⠀⠀⠀⣀⣠⠤⠤⠀⠀⠀⠀"@,
        "⠀⠀⠘⠃⠀⠀⣀⡠⠔⠁⠀⠀⠀⠈⢦⠀⠀⠀⠀⢠⡖⠋⠉⠉⠻⡒⠈⠁⠀⠀"@,
        "⠀⠀⢠⠔⠉⠁⠀⠀⠄⠀⠀⠀⠠⣴⣦⣧⠀⠀⢠⣿⠃⢀⠀⠀⠀⠸⠈⢂⠀⠀"@,
        "⠀⢠⠁⠀⠀⠀⠀⠀⠀⠀⠀⢠⢳⣿⣿⣿⣄⠄⠉⠁⡔⠞⠢⡀⠀⠀⠀⠀⢄⡀"@,
        "⣐⣺⡀⠀⠀⠀⠀⠀⠀⠀⠀⡆⣼⣿⣿⡿⠀⠤⠤⠤⠏⠀⠀⠁⠀⠀⢆⠀⠀⡡"@,
        "⠈⠋⠈⠒⠦⠤⠤⠒⠒⠒⠒⠧⣻⡿⠟⠳⠤⠤⠤⠤⠤⠤⠔⠑⠒⠊⠀⠁⠂⠁"@,
    ]
}

/// The fork of the trunk of the alternate piece, which stands left of a
/// bough on one line.
pub open spec fn tree_fork() -> Seq<char> {
    "         \\\\//  /"@
}

/// The bough beside the fork.
pub open spec fn tree_bough() -> Seq<char> {
    "douUP"@
}

/// The lines of the alternate piece, uncoloured.
pub open spec fn tree_text() -> Seq<Seq<char>> {
    seq![
        "        ccc8OE88oo"@,
        "   dB69QO8PdUOpugoO9bD"@,
        " CggbU8OU qOp qOdoUOdcb"@,
        "      6OuU  /p u gcoUodpP"@,
        tree_fork() + tree_bough(),
        "          ||  ||"@,
        "          ||  ||"@,
        "    _____//   \\\\____"@,
    ]
}

/// `line` is the fork of the tree in the pale colour and the bough in the
/// colour of leaves, each styled by itself, side by side.
pub open spec fn is_fork_line(line: Seq<char>) -> bool {
    exists|a: Seq<char>, b: Seq<char>|
        #![trigger styled_with(a, tree_fork(), foreground_code(PALE@)), styled_with(b, tree_bough(), foreground_code(LEAF@))]
        styled_with(a, tree_fork(), foreground_code(PALE@)) && styled_with(
            b,
            tree_bough(),
            foreground_code(LEAF@),
        ) && line == a + b
}

/// `lines` are the primary piece, each line styled as a whole in the pale
/// colour.
pub open spec fn is_snoopy(lines: Seq<Seq<char>>) -> bool {
    &&& lines.len() == ART_LINES
    &&& forall|k: int|
        0 <= k < ART_LINES ==> styled_with(
            #[trigger] lines[k],
            snoopy_text()[k],
            foreground_code(PALE@),
        )
}

/// The line of the alternate piece that holds two colours.
pub const FORK_LINE: usize = 4;

/// The name of the colour of line `k` of the alternate piece: the leaves
/// stand above the fork and have the colour of leaves, the trunk reaches
/// from the fork down and is pale. On the line of the fork this is the
/// colour of the fork; the bough beside it has the colour of leaves.
pub open spec fn tree_color_name(k: int) -> Seq<char> {
    if k < FORK_LINE {
        LEAF@
    } else {
        PALE@
    }
}

/// `lines` are the alternate piece, each line styled as a whole in its
/// colour but for the line of the fork, whose two parts are styled each by
/// itself.
pub open spec fn is_tree(lines: Seq<Seq<char>>) -> bool {
    &&& lines.len() == ART_LINES
    &&& forall|k: int|
        0 <= k < ART_LINES && k != FORK_LINE ==> styled_with(
            #[trigger] lines[k],
            tree_text()[k],
            foreground_code(tree_color_name(k)),
        )
    &&& is_fork_line(lines[FORK_LINE as int])
}

/// `lines` are the piece `art` as it is shown.
pub open spec fn is_art_block(lines: Seq<Seq<char>>, art: Art) -> bool {
    match art {
        Art::Primary => is_snoopy(lines),
        Art::Alternate => is_tree(lines),
    }
}

/// The lines of the piece `art`, uncoloured.
pub open spec fn art_text(art: Art) -> Seq<Seq<char>> {
    match art {
        Art::Primary => snoopy_text(),
        Art::Alternate => tree_text(),
    }
}

/// No line of either piece holds an escape character, and the fork of the
/// tree ends with a character that leaves no sequence open.
proof fn lemma_art_is_plain()
    ensures
        snoopy_text().len() == ART_LINES,
        tree_text().len() == ART_LINES,
        all_plain(snoopy_text()),
        all_plain(tree_text()),
        is_plain(tree_fork()),
        is_plain(tree_bough()),
        tree_fork().len() > 0 && ends_sequences(tree_fork().last()),
{
    reveal_strlit("⠀⠀    ⠀⠀⠀⠀⠀⠀⠀⠀⠀⠀⠀⠀⠀⠀⠀⠀⠀⠀⠀⠀⠀⠀⠀⠀");
    reveal_strlit("⠀⠀⠠⠄⠀⠁⠀⠀⠀⠀⠀⠀⠀⠀⠀⠀⠀⠀⠀⠀⠀⠀⠀⠀⠀⠀⠀⠀⠀⠀");
    reveal_strlit("⠀⠀⠀⠀⠀⠀⠁⠀⠀⢀⡠⠤⢀⡀⠀⠀⠀⠀⠀⠀⠀⠀⣀⣠⠤⠤⠀⠀⠀⠀");
    reveal_strlit("⠀⠀⠘⠃⠀⠀⣀⡠⠔⠁⠀⠀⠀⠈⢦⠀⠀⠀⠀⢠⡖⠋⠉⠉⠻⡒⠈⠁⠀⠀");
    reveal_strlit("⠀⠀⢠⠔⠉⠁⠀⠀⠄⠀⠀⠀⠠⣴⣦⣧⠀⠀⢠⣿⠃⢀⠀⠀⠀⠸⠈⢂⠀⠀");
    reveal_strlit("⠀⢠⠁⠀⠀⠀⠀⠀⠀⠀⠀⢠⢳⣿⣿⣿⣄⠄⠉⠁⡔⠞⠢⡀⠀⠀⠀⠀⢄⡀");
    reveal_strlit("⣐⣺⡀⠀⠀⠀⠀⠀⠀⠀⠀⡆⣼⣿⣿⡿⠀⠤⠤⠤⠏⠀⠀⠁⠀⠀⢆⠀⠀⡡");
    reveal_strlit("⠈⠋⠈⠒⠦⠤⠤⠒⠒⠒⠒⠧⣻⡿⠟⠳⠤⠤⠤⠤⠤⠤⠔⠑⠒⠊⠀⠁⠂⠁");
    reveal_strlit("        ccc8OE88oo");
    reveal_strlit("   dB69QO8PdUOpugoO9bD");
    reveal_strlit(" CggbU8OU qOp qOdoUOdcb");
    reveal_strlit("      6OuU  /p u gcoUodpP");
    reveal_strlit("         \\\\//  /");
    reveal_strlit("douUP");
    reveal_strlit("          ||  ||");
    reveal_strlit("    _____//   \\\\____");
    assert(tree_fork().last() == '/');
}

/// Without its colour, a piece of art is its plain lines.
pub proof fn lemma_art_block_shows(lines: Seq<Seq<char>>, art: Art)
    requires
        is_art_block(lines, art),
    ensures
        shown(lines) == art_text(art),
        all_plain(shown(lines)),
{
    lemma_art_is_plain();
    let plain = art_text(art);
    assert forall|k: int| 0 <= k < lines.len() implies #[trigger] shown(lines)[k] == plain[k]
        && is_plain(plain[k]) by {
        if art == Art::Alternate && k == FORK_LINE {
            let (a, b) = choose|a: Seq<char>, b: Seq<char>|
                #![trigger styled_with(a, tree_fork(), foreground_code(PALE@)), styled_with(b, tree_bough(), foreground_code(LEAF@))]
                styled_with(a, tree_fork(), foreground_code(PALE@)) && styled_with(
                    b,
                    tree_bough(),
                    foreground_code(LEAF@),
                ) && lines[k] == a + b;
            lemma_styled_with_is_styled(a, tree_fork(), foreground_code(PALE@));
            lemma_styled_with_is_styled(b, tree_bough(), foreground_code(LEAF@));
            lemma_styled_plain_shows_text(a, tree_fork());
            lemma_styled_plain_shows_text(b, tree_bough());
            lemma_styled_is_closed(a, tree_fork());
            lemma_closed_joins_cleanly(a, b);
            lemma_visible_text_of_clean_join(a, b);
        } else {
            if art == Art::Primary {
                lemma_styled_with_is_styled(lines[k], plain[k], foreground_code(PALE@));
            } else {
                lemma_styled_with_is_styled(
                    lines[k],
                    plain[k],
                    foreground_code(tree_color_name(k)),
                );
            }
            lemma_styled_plain_shows_text(lines[k], plain[k]);
        }
    }
    assert(shown(lines) =~= plain);
}

/// One line of art in the colour named `color`.
fn art_line(text: &str, color: &str) -> (out: String)
    requires
        is_plain(text@),
    ensures
        styled_with(out@, text@, foreground_code(color@)),
{
    proof {
        lemma_plain_holds_no_reset(text@);
    }
    paint(text, color)
}

/// Line `k` of the primary piece, uncoloured.
fn snoopy_line(k: usize) -> (text: &'static str)
    requires
        k < ART_LINES,
    ensures
        text@ == snoopy_text()[k as int],
{
    if k == 0 {
        "⠀⠀    ⠀⠀⠀⠀⠀⠀⠀⠀⠀⠀⠀⠀⠀⠀⠀⠀⠀⠀⠀⠀⠀⠀⠀⠀"
    } else if k == 1 {
        "⠀⠀⠠⠄⠀⠁⠀⠀⠀⠀⠀⠀⠀⠀⠀⠀⠀⠀⠀⠀⠀⠀⠀⠀⠀⠀⠀⠀⠀⠀"
    } else if k == 2 {
        "⠀⠀⠀⠀⠀⠀⠁⠀⠀⢀⡠⠤⢀⡀⠀⠀⠀⠀⠀⠀⠀⠀⣀⣠⠤⠤⠀⠀⠀⠀"
    } else if k == 3 {
        "⠀⠀⠘⠃⠀⠀⣀⡠⠔⠁⠀⠀⠀⠈⢦⠀⠀⠀⠀⢠⡖⠋⠉⠉⠻⡒⠈⠁⠀⠀"
    } else if k == 4 {
        "⠀⠀⢠⠔⠉⠁⠀⠀⠄⠀⠀⠀⠠⣴⣦⣧⠀⠀⢠⣿⠃⢀⠀⠀⠀⠸⠈⢂⠀⠀"
    } else if k == 5 {
        "⠀⢠⠁⠀⠀⠀⠀⠀⠀⠀⠀⢠⢳⣿⣿⣿⣄⠄⠉⠁⡔⠞⠢⡀⠀⠀⠀⠀⢄⡀"
    } else if k == 6 {
        "⣐⣺⡀⠀⠀⠀⠀⠀⠀⠀⠀⡆⣼⣿⣿⡿⠀⠤⠤⠤⠏⠀⠀⠁⠀⠀⢆⠀⠀⡡"
    } else {
        "⠈⠋⠈⠒⠦⠤⠤⠒⠒⠒⠒⠧⣻⡿⠟⠳⠤⠤⠤⠤⠤⠤⠔⠑⠒⠊⠀⠁⠂⠁"
    }
}

/// Line `k` of the alternate piece, uncoloured; of the line of the fork,
/// the fork alone.
fn tree_line(k: usize) -> (text: &'static str)
    requires
        k < ART_LINES,
    ensures
        k != FORK_LINE ==> text@ == tree_text()[k as int],
        k == FORK_LINE ==> text@ == tree_fork(),
{
    if k == 0 {
        "        ccc8OE88oo"
    } else if k == 1 {
        "   dB69QO8PdUOpugoO9bD"
    } else if k == 2 {
        " CggbU8OU qOp qOdoUOdcb"
    } else if k == 3 {
        "      6OuU  /p u gcoUodpP"
    } else if k == 4 {
        "         \\\\//  /"
    } else if k == 5 {
        "          ||  ||"
    } else if k == 6 {
        "          ||  ||"
    } else {
        "    _____//   \\\\____"
    }
}

/// The colour of line `k` of the alternate piece: the leaves above the
/// fork, the trunk from the fork down.
fn tree_color(k: usize) -> (color: &'static str)
    ensures
        color@ == tree_color_name(k as int),
{
    if k < FORK_LINE {
        LEAF
    } else {
        PALE
    }
}

/// The primary piece, line by line.
pub fn get_ascii_logo_snoopy() -> (lines: Vec<String>)
    ensures
        is_snoopy(texts(lines@)),
{
    proof {
        lemma_art_is_plain();
    }
    let mut lines: Vec<String> = Vec::new();
    let mut k: usize = 0;
    while k < ART_LINES
        invariant
            k <= ART_LINES,
            lines.len() == k,
            all_plain(snoopy_text()),
            snoopy_text().len() == ART_LINES,
            forall|j: int|
                0 <= j < k ==> styled_with(
                    (#[trigger] lines[j])@,
                    snoopy_text()[j],
                    foreground_code(PALE@),
                ),
        decreases ART_LINES - k,
    {
        let text = snoopy_line(k);
        assert(is_plain(snoopy_text()[k as int]));
        lines.push(art_line(text, PALE));
        k = k + 1;
    }
    proof {
        let shown = texts(lines@);
        assert forall|j: int| 0 <= j < ART_LINES implies styled_with(
            #[trigger] shown[j],
            snoopy_text()[j],
            foreground_code(PALE@),
        ) by {
            assert(shown[j] == lines@[j]@);
        }
    }
    lines
}

/// The alternate piece, line by line.
pub fn get_ascii_logo_tree() -> (lines: Vec<String>)
    ensures
        is_tree(texts(lines@)),
{
    proof {
        lemma_art_is_plain();
    }
    let mut lines: Vec<String> = Vec::new();
    let mut k: usize = 0;
    while k < ART_LINES
        invariant
            k <= ART_LINES,
            lines.len() == k,
            all_plain(tree_text()),
            is_plain(tree_fork()),
            is_plain(tree_bough()),
            tree_text().len() == ART_LINES,
            forall|j: int|
                0 <= j < k && j != FORK_LINE ==> styled_with(
                    (#[trigger] lines[j])@,
                    tree_text()[j],
                    foreground_code(tree_color_name(j)),
                ),
            k > FORK_LINE ==> is_fork_line(lines[FORK_LINE as int]@),
        decreases ART_LINES - k,
    {
        let text = tree_line(k);
        if k == FORK_LINE {
            let mut line: String = art_line(text, PALE);
            let bough: String = art_line("douUP", LEAF);
            let ghost fork = line@;
            line.append(bough.as_str());
            assert(styled_with(fork, tree_fork(), foreground_code(PALE@)) && styled_with(
                bough@,
                tree_bough(),
                foreground_code(LEAF@),
            ));
            lines.push(line);
        } else {
            assert(is_plain(tree_text()[k as int]));
            lines.push(art_line(text, tree_color(k)));
        }
        k = k + 1;
    }
    proof {
        let shown = texts(lines@);
        assert forall|j: int| 0 <= j < ART_LINES && j != FORK_LINE implies styled_with(
            #[trigger] shown[j],
            tree_text()[j],
            foreground_code(tree_color_name(j)),
        ) by {
            assert(shown[j] == lines@[j]@);
        }
        assert(shown[FORK_LINE as int] == lines@[FORK_LINE as int]@);
    }
    lines
}

/// The lines of the piece `art`.
pub fn art_lines(art: Art) -> (lines: Vec<String>)
    ensures
        is_art_block(texts(lines@), art),
        lines.len() == ART_LINES,
{
    match art {
        Art::Primary => get_ascii_logo_snoopy(),
        Art::Alternate => get_ascii_logo_tree(),
    }
}

} // verus!
