//! The banner: the art and the facts side by side.

use vstd::prelude::*;
use crate::ansi::is_plain;
use crate::art::{ART_LINES, art_lines, art_text, is_art_block, lemma_art_block_shows};
use crate::config::DisplayConfig;
use crate::info::{
    FIELDS, HEADER_COLOR, info_lines, is_info_block, lemma_info_block_shows,
    lemma_shown_fields_count, plain_facts, plain_info_block,
};
use crate::layout::{interleave, lemma_rows_show, rows, shown};
use crate::system_info::SystemInfo;
use crate::text::texts;

verus! {

/// `banner` is the art `art` and the facts `lines` side by side, where
/// `art` is the piece that `config` names and `lines` are the facts of
/// `info` that `config` shows, for the user `user` and with the labels in
/// the colour named `header_color`.
pub open spec fn is_banner_of(
    banner: Seq<Seq<char>>,
    art: Seq<Seq<char>>,
    lines: Seq<Seq<char>>,
    user: Seq<char>,
    header_color: Seq<char>,
    info: SystemInfo,
    config: DisplayConfig,
) -> bool {
    &&& is_art_block(art, config.art)
    &&& is_info_block(lines, info, config, user, header_color)
    &&& banner == rows(art, lines, config.info_on_left)
}

/// `banner` is the banner of `info` under `config` for the user `user`,
/// with the labels in the colour named `header_color`, whether the terminal
/// was given colours or not.
pub open spec fn is_banner_for(
    banner: Seq<Seq<char>>,
    user: Seq<char>,
    header_color: Seq<char>,
    info: SystemInfo,
    config: DisplayConfig,
) -> bool {
    exists|art: Seq<Seq<char>>, lines: Seq<Seq<char>>|
        is_banner_of(banner, art, lines, user, header_color, info, config)
}

/// `banner` is the banner of `info` under `config` with the labels in
/// their usual colour, whoever the user is.
pub open spec fn is_banner(banner: Seq<Seq<char>>, info: SystemInfo, config: DisplayConfig) -> bool {
    exists|user: Seq<char>| is_banner_for(banner, user, HEADER_COLOR@, info, config)
}

/// A banner has as many rows as the art has lines: the facts never need
/// more.
pub proof fn lemma_banner_rows(banner: Seq<Seq<char>>, info: SystemInfo, config: DisplayConfig)
    requires
        is_banner(banner, info, config),
    ensures
        banner.len() == ART_LINES,
{
    let user = choose|user: Seq<char>| is_banner_for(banner, user, HEADER_COLOR@, info, config);
    let (art, lines) = choose|art: Seq<Seq<char>>, lines: Seq<Seq<char>>|
        is_banner_of(banner, art, lines, user, HEADER_COLOR@, info, config);
    lemma_shown_fields_count(config);
    assert(art.len() == ART_LINES);
    assert(lines.len() <= FIELDS);
}

/// What the banner of `info` under `config` shows for the user `user`: the
/// plain art and the plain facts side by side.
pub open spec fn shown_banner(info: SystemInfo, config: DisplayConfig, user: Seq<char>) -> Seq<
    Seq<char>,
> {
    rows(art_text(config.art), plain_info_block(info, config, user), config.info_on_left)
}

/// Whatever colours a banner was given, it shows the same: the plain art and
/// the plain facts side by side, every row aligned as if there were no
/// colour. This holds where the facts and the user's name hold no escape
/// character.
pub proof fn lemma_banner_shows(
    banner: Seq<Seq<char>>,
    user: Seq<char>,
    header_color: Seq<char>,
    info: SystemInfo,
    config: DisplayConfig,
)
    requires
        is_banner_for(banner, user, header_color, info, config),
        plain_facts(info),
        is_plain(user),
    ensures
        shown(banner) == shown_banner(info, config, user),
{
    let (art, lines) = choose|art: Seq<Seq<char>>, lines: Seq<Seq<char>>|
        is_banner_of(banner, art, lines, user, header_color, info, config);
    lemma_art_block_shows(art, config.art);
    lemma_info_block_shows(lines, info, config, user, header_color);
    lemma_rows_show(art, lines, config.info_on_left);
}

/// Calls `whoami::username()`: the name of the user who runs the process,
/// as the operating system gives it. Nothing is known of the result.
#[verifier::external_body]
pub(crate) fn current_username() -> (name: String) {
    whoami::username()
}

/// The banner of `info` under `config` for the user `user`, row by row,
/// the labels in the colour named `header_color`.
pub fn banner(info: &SystemInfo, config: &DisplayConfig, user: &str, header_color: &str) -> (out:
    Vec<String>)
    ensures
        is_banner_for(texts(out@), user@, header_color@, *info, *config),
        out.len() == ART_LINES,
{
    let art = art_lines(config.art);
    let lines = info_lines(info, config, user, header_color);
    let out = interleave(&art, &lines, config.info_on_left);
    proof {
        assert(is_banner_of(
            texts(out@),
            texts(art@),
            texts(lines@),
            user@,
            header_color@,
            *info,
            *config,
        ));
    }
    out
}

/// The banner that is printed for `info` under `config`: its rows from
/// the top, each to be written out as one line. The user's name is asked of
/// the operating system, and only where the first line is shown.
pub fn print_system_info(info: &SystemInfo, config: &DisplayConfig) -> (out: Vec<String>)
    ensures
        is_banner(texts(out@), *info, *config),
        out.len() == ART_LINES,
{
    let user: String = if config.show_hostname {
        current_username()
    } else {
        String::new()
    };
    let out = banner(info, config, user.as_str(), HEADER_COLOR);
    proof {
        assert(is_banner_for(texts(out@), user@, HEADER_COLOR@, *info, *config));
    }
    out
}

} // verus!
