//! The block of facts: one line for each fact that is shown.
//!
//! The lines come in a fixed order: who and where, then the operating
//! system, the kernel, the architecture, memory, uptime, shell and packages.
//! A fact that is switched off leaves no line, not an empty one. All lines
//! but the first are a label, left-justified in eight columns, a space, and
//! the value.

use vstd::prelude::*;
use vstd::string::StringExecFns;
use crate::ansi::{
    breaks_sequences, ends_sequences, is_plain, lemma_broken_joins_cleanly,
    lemma_closed_joins_cleanly, lemma_plain_is_visible, lemma_visible_text_of_clean_join,
    visible_text,
};
use crate::config::DisplayConfig;
use crate::style::{
    bold_in, foreground_code, holds_reset, lemma_plain_holds_no_reset,
    lemma_styled_plain_shows_text, lemma_styled_shows_text, lemma_styled_with_is_styled,
    paint_bold, styled_with,
};
use crate::system_info::SystemInfo;
use crate::layout::{all_plain, shown};
use crate::text::{
    decimal, left_justified, left_justify, lemma_decimal_digits, push_decimal, texts,
};
use crate::uptime::{format_uptime, lemma_uptime_shows_no_seconds, uptime_text};

verus! {

/// A fact that has a line of its own.
#[derive(Clone, Copy, Debug, PartialEq, Eq, Structural)]
pub enum Field {
    Hostname,
    Os,
    Kernel,
    Arch,
    Memory,
    Uptime,
    Shell,
    Packages,
}

/// The number of fields.
pub const FIELDS: usize = 8;

/// The columns that a label fills.
pub const LABEL_WIDTH: usize = 8;

/// The KiB in one MiB.
pub const KIB_PER_MIB: u64 = 1024;

/// The name of the colour of the labels where the caller names none.
pub const HEADER_COLOR: &'static str = "blue";

/// The name of the colour of the user's and the host's name.
pub const IDENTITY_COLOR: &'static str = "green";

/// The fields in the order of their lines.
pub open spec fn field_order() -> Seq<Field> {
    seq![
        Field::Hostname,
        Field::Os,
        Field::Kernel,
        Field::Arch,
        Field::Memory,
        Field::Uptime,
        Field::Shell,
        Field::Packages,
    ]
}

/// Whether the configuration shows the field.
pub open spec fn shows(config: DisplayConfig, field: Field) -> bool {
    match field {
        Field::Hostname => config.show_hostname,
        Field::Os => config.show_os,
        Field::Kernel => config.show_kernel,
        Field::Arch => config.show_cpu,
        Field::Memory => config.show_memory,
        Field::Uptime => config.show_uptime,
        Field::Shell => config.show_shell,
        Field::Packages => config.show_packages,
    }
}

/// The fields among the first `n` that the configuration shows, in order.
pub open spec fn shown_among(config: DisplayConfig, n: nat) -> Seq<Field>
    decreases n,
{
    if n == 0 {
        Seq::empty()
    } else {
        let before = shown_among(config, (n - 1) as nat);
        let field = field_order()[n - 1];
        if shows(config, field) {
            before.push(field)
        } else {
            before
        }
    }
}

/// The fields that the configuration shows, in the order of their lines.
pub open spec fn shown_fields(config: DisplayConfig) -> Seq<Field> {
    shown_among(config, FIELDS as nat)
}

/// The label of a field. The first line has none.
pub open spec fn label_of(field: Field) -> Seq<char> {
    match field {
        Field::Hostname => Seq::empty(),
        Field::Os => "OS"@,
        Field::Kernel => "Kernel"@,
        Field::Arch => "Arch"@,
        Field::Memory => "Memory"@,
        Field::Uptime => "Uptime"@,
        Field::Shell => "Shell"@,
        Field::Packages => "Packages"@,
    }
}

/// Memory as it is shown: MiB in use, "MB / ", MiB in all, "MB", each a
/// whole number, the rest of the division dropped.
pub open spec fn memory_text(used_kib: u64, total_kib: u64) -> Seq<char> {
    decimal((used_kib / KIB_PER_MIB) as nat) + "MB / "@ + decimal((total_kib / KIB_PER_MIB) as nat)
        + "MB"@
}

/// The packages as they are shown: "(brew) " and their number.
pub open spec fn packages_text(count: usize) -> Seq<char> {
    "(brew) "@ + decimal(count as nat)
}

/// The value that stands after the label of a field. The first line has
/// none: it holds the host's name.
pub open spec fn value_of(field: Field, info: SystemInfo) -> Seq<char> {
    match field {
        Field::Hostname => info.hostname@,
        Field::Os => info.os_name@,
        Field::Kernel => info.kernel_version@,
        Field::Arch => info.cpu_arch@,
        Field::Memory => memory_text(info.memory_used, info.memory_total),
        Field::Uptime => uptime_text(info.uptime as nat),
        Field::Shell => info.shell@,
        Field::Packages => packages_text(info.brew_packages),
    }
}

/// `line` is a label, left-justified in its columns and then styled bold in
/// the colour named `color`, a space, and `value`.
pub open spec fn is_labeled_line(
    line: Seq<char>,
    label: Seq<char>,
    value: Seq<char>,
    color: Seq<char>,
) -> bool {
    exists|head: Seq<char>|
        #[trigger] styled_with(
            head,
            left_justified(label, LABEL_WIDTH as nat),
            bold_in(foreground_code(color)),
        ) && line == head + seq![' '] + value
}

/// `out` is a name as the first line holds it: styled bold in the colour of
/// names. Of a name that holds the reset sequence this says nothing.
pub open spec fn is_styled_name(out: Seq<char>, name: Seq<char>) -> bool {
    !holds_reset(name) ==> styled_with(out, name, bold_in(foreground_code(IDENTITY_COLOR@)))
}

/// `line` is the user's name, `@` and the host's name, each name styled by
/// itself.
pub open spec fn is_identity_line(line: Seq<char>, user: Seq<char>, host: Seq<char>) -> bool {
    exists|a: Seq<char>, b: Seq<char>|
        #![trigger is_styled_name(a, user), is_styled_name(b, host)]
        is_styled_name(a, user) && is_styled_name(b, host) && line == a + seq!['@'] + b
}

/// `line` is the line of `field`, the labels in the colour named
/// `header_color`.
pub open spec fn is_line_of(
    line: Seq<char>,
    field: Field,
    info: SystemInfo,
    user: Seq<char>,
    header_color: Seq<char>,
) -> bool {
    match field {
        Field::Hostname => is_identity_line(line, user, info.hostname@),
        _ => is_labeled_line(line, label_of(field), value_of(field, info), header_color),
    }
}

/// `lines` are the block of facts of `info` under `config`, for the user
/// `user` and with the labels in the colour named `header_color`: one line
/// for each field that is shown, in order.
pub open spec fn is_info_block(
    lines: Seq<Seq<char>>,
    info: SystemInfo,
    config: DisplayConfig,
    user: Seq<char>,
    header_color: Seq<char>,
) -> bool {
    &&& lines.len() == shown_fields(config).len()
    &&& forall|k: int|
        0 <= k < lines.len() ==> is_line_of(
            #[trigger] lines[k],
            shown_fields(config)[k],
            info,
            user,
            header_color,
        )
}

/// 1 for a switch that is on, 0 for one that is off.
pub open spec fn one_if(on: bool) -> nat {
    if on {
        1
    } else {
        0
    }
}

/// The number of fields that the configuration shows.
pub open spec fn shown_count(config: DisplayConfig) -> nat {
    one_if(config.show_hostname) + one_if(config.show_os) + one_if(config.show_kernel) + one_if(
        config.show_cpu,
    ) + one_if(config.show_memory) + one_if(config.show_uptime) + one_if(config.show_shell)
        + one_if(config.show_packages)
}

/// The block has as many lines as fields are switched on: a field that is
/// switched off leaves no line. With all fields on, the lines are those of
/// all fields in their order.
pub proof fn lemma_shown_fields_count(config: DisplayConfig)
    ensures
        shown_fields(config).len() == shown_count(config),
        shown_count(config) == FIELDS ==> shown_fields(config) == field_order(),
        shown_count(config) == 0 ==> shown_fields(config) == Seq::<Field>::empty(),
{
    reveal_with_fuel(shown_among, 9);
    if shown_count(config) == FIELDS {
        assert(shown_fields(config) =~= field_order());
    }
}

/// A labelled line shows its label, filled up to eight columns, a space,
/// and what its value shows: the colour of the label takes no room.
pub proof fn lemma_labeled_line_shows(
    line: Seq<char>,
    label: Seq<char>,
    value: Seq<char>,
    color: Seq<char>,
)
    requires
        is_labeled_line(line, label, value, color),
        is_plain(label),
    ensures
        visible_text(line) == left_justified(label, LABEL_WIDTH as nat) + seq![' '] + visible_text(
            value,
        ),
{
    let padded = left_justified(label, LABEL_WIDTH as nat);
    let params = bold_in(foreground_code(color));
    let head = choose|head: Seq<char>|
        #[trigger] styled_with(head, padded, params) && line == head + seq![' '] + value;
    lemma_styled_with_is_styled(head, padded, params);
    assert(is_plain(padded));
    lemma_styled_plain_shows_text(head, padded);
    let gap = seq![' '];
    assert(breaks_sequences(gap[0]));
    lemma_broken_joins_cleanly(head, gap);
    lemma_visible_text_of_clean_join(head, gap);
    assert(is_plain(gap));
    lemma_plain_is_visible(gap);
    assert((head + gap).last() == ' ');
    assert(ends_sequences((head + gap).last()));
    lemma_closed_joins_cleanly(head + gap, value);
    lemma_visible_text_of_clean_join(head + gap, value);
}

/// The first line shows what the user's name shows, `@`, and what the
/// host's name shows, where neither name holds the reset sequence.
pub proof fn lemma_identity_line_shows(line: Seq<char>, user: Seq<char>, host: Seq<char>)
    requires
        is_identity_line(line, user, host),
        !holds_reset(user),
        !holds_reset(host),
    ensures
        visible_text(line) == visible_text(user) + seq!['@'] + visible_text(host),
{
    let (a, b) = choose|a: Seq<char>, b: Seq<char>|
        #![trigger is_styled_name(a, user), is_styled_name(b, host)]
        is_styled_name(a, user) && is_styled_name(b, host) && line == a + seq!['@'] + b;
    let params = bold_in(foreground_code(IDENTITY_COLOR@));
    lemma_styled_with_is_styled(a, user, params);
    lemma_styled_with_is_styled(b, host, params);
    lemma_styled_shows_text(a, user);
    lemma_styled_shows_text(b, host);
    let at = seq!['@'];
    assert(breaks_sequences(at[0]));
    lemma_broken_joins_cleanly(a, at);
    lemma_visible_text_of_clean_join(a, at);
    assert(is_plain(at));
    lemma_plain_is_visible(at);
    assert((a + at).last() == '@');
    assert(ends_sequences((a + at).last()));
    lemma_closed_joins_cleanly(a + at, b);
    lemma_visible_text_of_clean_join(a + at, b);
}

/// The texts among the facts hold no escape character.
pub open spec fn plain_facts(info: SystemInfo) -> bool {
    &&& is_plain(info.hostname@)
    &&& is_plain(info.os_name@)
    &&& is_plain(info.kernel_version@)
    &&& is_plain(info.cpu_arch@)
    &&& is_plain(info.shell@)
}

/// The line of a field without colour.
pub open spec fn plain_line_of(field: Field, info: SystemInfo, user: Seq<char>) -> Seq<char> {
    match field {
        Field::Hostname => user + seq!['@'] + info.hostname@,
        _ => left_justified(label_of(field), LABEL_WIDTH as nat) + seq![' '] + value_of(field, info),
    }
}

/// The block of facts without colour.
pub open spec fn plain_info_block(info: SystemInfo, config: DisplayConfig, user: Seq<char>) -> Seq<
    Seq<char>,
> {
    Seq::new(
        shown_fields(config).len(),
        |k: int| plain_line_of(shown_fields(config)[k], info, user),
    )
}

/// A number in base 10 holds no escape character.
proof fn lemma_decimal_is_plain(n: nat)
    ensures
        is_plain(decimal(n)),
{
    lemma_decimal_digits(n);
}

/// The value of a field holds no escape character where the facts hold
/// none, and neither does its label.
proof fn lemma_plain_field(field: Field, info: SystemInfo)
    requires
        plain_facts(info),
    ensures
        is_plain(value_of(field, info)),
        is_plain(label_of(field)),
        is_plain(left_justified(label_of(field), LABEL_WIDTH as nat)),
{
    reveal_strlit("OS");
    reveal_strlit("Kernel");
    reveal_strlit("Arch");
    reveal_strlit("Memory");
    reveal_strlit("Uptime");
    reveal_strlit("Shell");
    reveal_strlit("Packages");
    reveal_strlit("MB / ");
    reveal_strlit("MB");
    reveal_strlit("(brew) ");
    match field {
        Field::Memory => {
            lemma_decimal_is_plain((info.memory_used / KIB_PER_MIB) as nat);
            lemma_decimal_is_plain((info.memory_total / KIB_PER_MIB) as nat);
        },
        Field::Uptime => {
            lemma_uptime_shows_no_seconds(info.uptime as nat);
        },
        Field::Packages => {
            lemma_decimal_is_plain(info.brew_packages as nat);
        },
        _ => {},
    }
}

/// Every label fills exactly its eight columns: none is longer, and a
/// shorter one is filled up with spaces.
pub proof fn lemma_label_fills_its_columns(field: Field)
    requires
        field != Field::Hostname,
    ensures
        0 < label_of(field).len() <= LABEL_WIDTH,
        left_justified(label_of(field), LABEL_WIDTH as nat).len() == LABEL_WIDTH,
{
    reveal_strlit("OS");
    reveal_strlit("Kernel");
    reveal_strlit("Arch");
    reveal_strlit("Memory");
    reveal_strlit("Uptime");
    reveal_strlit("Shell");
    reveal_strlit("Packages");
}

/// Without its colour, a block of facts is the plain block: each line is
/// the label in its eight columns, a space and the value, and the first is
/// the user's name, `@` and the host's name. This holds where the facts and
/// the user's name hold no escape character.
pub proof fn lemma_info_block_shows(
    lines: Seq<Seq<char>>,
    info: SystemInfo,
    config: DisplayConfig,
    user: Seq<char>,
    header_color: Seq<char>,
)
    requires
        is_info_block(lines, info, config, user, header_color),
        plain_facts(info),
        is_plain(user),
    ensures
        shown(lines) == plain_info_block(info, config, user),
        all_plain(shown(lines)),
{
    let plain = plain_info_block(info, config, user);
    assert forall|k: int| 0 <= k < lines.len() implies #[trigger] shown(lines)[k] == plain[k]
        && is_plain(plain[k]) by {
        let field = shown_fields(config)[k];
        assert(is_line_of(lines[k], field, info, user, header_color));
        lemma_plain_field(field, info);
        match field {
            Field::Hostname => {
                lemma_plain_holds_no_reset(user);
                lemma_plain_holds_no_reset(info.hostname@);
                lemma_identity_line_shows(lines[k], user, info.hostname@);
                lemma_plain_is_visible(user);
                lemma_plain_is_visible(info.hostname@);
            },
            _ => {
                lemma_labeled_line_shows(
                    lines[k],
                    label_of(field),
                    value_of(field, info),
                    header_color,
                );
                lemma_plain_is_visible(value_of(field, info));
            },
        }
    }
    assert(shown(lines) =~= plain);
}

/// The field at place `i` of the order.
pub fn field_at(i: usize) -> (field: Field)
    requires
        i < FIELDS,
    ensures
        field == field_order()[i as int],
{
    if i == 0 {
        Field::Hostname
    } else if i == 1 {
        Field::Os
    } else if i == 2 {
        Field::Kernel
    } else if i == 3 {
        Field::Arch
    } else if i == 4 {
        Field::Memory
    } else if i == 5 {
        Field::Uptime
    } else if i == 6 {
        Field::Shell
    } else {
        Field::Packages
    }
}

impl DisplayConfig {
    /// Whether the field has a line.
    pub fn shows(&self, field: Field) -> (shown: bool)
        ensures
            shown == shows(*self, field),
    {
        match field {
            Field::Hostname => self.show_hostname,
            Field::Os => self.show_os,
            Field::Kernel => self.show_kernel,
            Field::Arch => self.show_cpu,
            Field::Memory => self.show_memory,
            Field::Uptime => self.show_uptime,
            Field::Shell => self.show_shell,
            Field::Packages => self.show_packages,
        }
    }
}

/// The label of a field as it is written.
fn label_str(field: Field) -> (label: &'static str)
    ensures
        label@ == label_of(field),
        is_plain(label@),
{
    proof {
        reveal_strlit("");
        reveal_strlit("OS");
        reveal_strlit("Kernel");
        reveal_strlit("Arch");
        reveal_strlit("Memory");
        reveal_strlit("Uptime");
        reveal_strlit("Shell");
        reveal_strlit("Packages");
    }
    let label = match field {
        Field::Hostname => "",
        Field::Os => "OS",
        Field::Kernel => "Kernel",
        Field::Arch => "Arch",
        Field::Memory => "Memory",
        Field::Uptime => "Uptime",
        Field::Shell => "Shell",
        Field::Packages => "Packages",
    };
    assert(""@ =~= Seq::<char>::empty());
    label
}

/// The value of a field as text.
pub fn value_string(field: Field, info: &SystemInfo) -> (value: String)
    ensures
        value@ == value_of(field, *info),
{
    match field {
        Field::Hostname => info.hostname.clone(),
        Field::Os => info.os_name.clone(),
        Field::Kernel => info.kernel_version.clone(),
        Field::Arch => info.cpu_arch.clone(),
        Field::Memory => {
            let mut value = String::new();
            push_decimal(&mut value, info.memory_used / KIB_PER_MIB);
            value.append("MB / ");
            push_decimal(&mut value, info.memory_total / KIB_PER_MIB);
            value.append("MB");
            assert(value@ =~= memory_text(info.memory_used, info.memory_total));
            value
        },
        Field::Uptime => format_uptime(info.uptime),
        Field::Shell => info.shell.clone(),
        Field::Packages => {
            let mut value = String::from_str("(brew) ");
            push_decimal(&mut value, info.brew_packages as u64);
            value
        },
    }
}

/// A label already styled, a space, and the value.
pub fn labeled_line(styled_label: &str, value: &str) -> (line: String)
    ensures
        line@ == styled_label@ + seq![' '] + value@,
{
    proof {
        reveal_strlit(" ");
    }
    let mut line = String::from_str(styled_label);
    line.append(" ");
    line.append(value);
    assert(" "@ =~= seq![' ']);
    line
}

/// The user's and the host's name, both already styled, with `@` between.
pub fn identity_line(styled_user: &str, styled_host: &str) -> (line: String)
    ensures
        line@ == styled_user@ + seq!['@'] + styled_host@,
{
    proof {
        reveal_strlit("@");
    }
    let mut line = String::from_str(styled_user);
    line.append("@");
    line.append(styled_host);
    assert("@"@ =~= seq!['@']);
    line
}

/// The line of one field, the labels in the colour named `header_color`.
pub fn field_line(field: Field, info: &SystemInfo, user: &str, header_color: &str) -> (line: String)
    ensures
        is_line_of(line@, field, *info, user@, header_color@),
{
    match field {
        Field::Hostname => {
            let name = paint_bold(user, IDENTITY_COLOR);
            let host = paint_bold(info.hostname.as_str(), IDENTITY_COLOR);
            let line = identity_line(name.as_str(), host.as_str());
            proof {
                assert(is_styled_name(name@, user@) && is_styled_name(host@, info.hostname@));
            }
            line
        },
        _ => {
            let padded = left_justify(label_str(field), LABEL_WIDTH);
            proof {
                assert(is_plain(padded@));
                lemma_plain_holds_no_reset(padded@);
            }
            let label = paint_bold(padded.as_str(), header_color);
            let value = value_string(field, info);
            let line = labeled_line(label.as_str(), value.as_str());
            proof {
                assert(styled_with(
                    label@,
                    left_justified(label_of(field), LABEL_WIDTH as nat),
                    bold_in(foreground_code(header_color@)),
                ));
            }
            line
        },
    }
}

/// The block of facts: the lines of the fields that `config` shows, in
/// order, for the user `user`, the labels in the colour named
/// `header_color`.
pub fn info_lines(info: &SystemInfo, config: &DisplayConfig, user: &str, header_color: &str) -> (lines:
    Vec<String>)
    ensures
        is_info_block(texts(lines@), *info, *config, user@, header_color@),
        lines.len() <= FIELDS,
{
    let mut lines: Vec<String> = Vec::new();
    let mut i: usize = 0;
    while i < FIELDS
        invariant
            i <= FIELDS,
            lines.len() == shown_among(*config, i as nat).len(),
            lines.len() <= i,
            forall|k: int|
                0 <= k < lines.len() ==> is_line_of(
                    (#[trigger] lines[k])@,
                    shown_among(*config, i as nat)[k],
                    *info,
                    user@,
                    header_color@,
                ),
        decreases FIELDS - i,
    {
        let field = field_at(i);
        if config.shows(field) {
            lines.push(field_line(field, info, user, header_color));
        }
        i = i + 1;
    }
    proof {
        let shown = texts(lines@);
        assert forall|k: int| 0 <= k < shown.len() implies is_line_of(
            #[trigger] shown[k],
            shown_fields(*config)[k],
            *info,
            user@,
            header_color@,
        ) by {
            assert(shown[k] == lines[k]@);
        }
    }
    lines
}

} // verus!
