use sysbanner::ansi::strip_ansi_length;

#[test]
fn empty_text_has_no_width() {
    assert_eq!(strip_ansi_length(""), 0);
}

#[test]
fn plain_text_is_counted_by_character() {
    assert_eq!(strip_ansi_length("OS"), 2);
    assert_eq!(strip_ansi_length("Memory   2048MB / 8192MB"), 24);
}

#[test]
fn colour_sequences_are_not_counted() {
    assert_eq!(strip_ansi_length("\x1B[34mOS\x1B[0m"), 2);
    assert_eq!(strip_ansi_length("\x1B[1;34mKernel  \x1B[0m 23.0.0"), 15);
    assert_eq!(strip_ansi_length("\x1B[0m"), 0);
    assert_eq!(strip_ansi_length("\x1B[m"), 0);
    assert_eq!(strip_ansi_length("\x1B[38;2;255;0;10mx"), 1);
}

#[test]
fn any_letter_ends_a_sequence() {
    assert_eq!(strip_ansi_length("\x1B[2Jab"), 2);
    assert_eq!(strip_ansi_length("\x1B[10;20Hab"), 2);
    assert_eq!(strip_ansi_length("\x1B[zab"), 2);
    assert_eq!(strip_ansi_length("\x1B[Aab"), 2);
}

#[test]
fn characters_of_several_bytes_count_once() {
    assert_eq!(strip_ansi_length("⠀⠀⠠⠄⠀⠁"), 6);
    assert_eq!(strip_ansi_length("\x1B[37m⣐⣺⡀\x1B[0m"), 3);
    assert_eq!(strip_ansi_length("é"), 1);
}

#[test]
fn a_sequence_without_its_letter_is_counted() {
    assert_eq!(strip_ansi_length("\x1B"), 1);
    assert_eq!(strip_ansi_length("\x1B["), 2);
    assert_eq!(strip_ansi_length("\x1B[34"), 4);
    assert_eq!(strip_ansi_length("\x1B[3;4 m"), 7);
    assert_eq!(strip_ansi_length("\x1B[1\x1B[0mx"), 4);
    assert_eq!(strip_ansi_length("\x1Bm"), 2);
}

#[test]
fn characters_outside_the_pattern_end_nothing() {
    assert_eq!(strip_ansi_length("\x1B[3@"), 4);
    assert_eq!(strip_ansi_length("\x1B[3["), 4);
    assert_eq!(strip_ansi_length("\x1B[3é"), 4);
    assert_eq!(strip_ansi_length("\x1B[:m"), 4);
}

#[test]
fn widths_add_up_after_whole_sequences() {
    let styled = "\x1B[1;34mOS\x1B[0m";
    let plain = " macOS 14.0";
    let both = format!("{}{}", styled, plain);
    assert_eq!(strip_ansi_length(styled), 2);
    assert_eq!(strip_ansi_length(plain), 11);
    assert_eq!(strip_ansi_length(&both), 13);
    let twice = format!("{}{}", styled, styled);
    assert_eq!(strip_ansi_length(&twice), 4);
}

#[test]
fn widths_need_not_add_up_after_a_broken_sequence() {
    let head = "\x1B[3";
    let tail = "4mX";
    assert_eq!(strip_ansi_length(head), 3);
    assert_eq!(strip_ansi_length(tail), 3);
    assert_eq!(strip_ansi_length(&format!("{}{}", head, tail)), 1);
}
