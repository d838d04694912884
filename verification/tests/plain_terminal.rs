use sysbanner::art::{art_lines, get_ascii_logo_snoopy, get_ascii_logo_tree, Art};
use sysbanner::display::{banner, print_system_info};
use sysbanner::info::{field_line, info_lines, Field, HEADER_COLOR};
use sysbanner::system_info::SystemInfo;
use sysbanner::DisplayConfig;

fn facts() -> SystemInfo {
    SystemInfo {
        hostname: String::from("box"),
        os_name: String::from("macOS 14.0"),
        kernel_version: String::from("23.0.0"),
        cpu_model: String::from("8 x CPU"),
        cpu_arch: String::from("arm64"),
        memory_total: 8_388_608,
        memory_used: 2_097_152,
        uptime: 3700,
        shell: String::from("/bin/zsh"),
        brew_packages: 42,
    }
}

fn everything(info_on_left: bool, art: Art) -> DisplayConfig {
    DisplayConfig {
        info_on_left,
        show_hostname: true,
        show_os: true,
        show_kernel: true,
        show_cpu: true,
        show_memory: true,
        show_uptime: true,
        show_shell: true,
        show_packages: true,
        art,
    }
}

fn nothing(art: Art) -> DisplayConfig {
    DisplayConfig {
        info_on_left: true,
        show_hostname: false,
        show_os: false,
        show_kernel: false,
        show_cpu: false,
        show_memory: false,
        show_uptime: false,
        show_shell: false,
        show_packages: false,
        art,
    }
}

const SNOOPY: [&str; 8] = [
    "⠀⠀    ⠀⠀⠀⠀⠀⠀⠀⠀⠀⠀⠀⠀⠀⠀⠀⠀⠀⠀⠀⠀⠀⠀⠀⠀",
    "⠀⠀⠠⠄⠀⠁⠀⠀⠀⠀⠀⠀⠀⠀⠀⠀⠀⠀⠀⠀⠀⠀⠀⠀⠀⠀⠀⠀⠀⠀",
    "⠀⠀⠀⠀⠀⠀⠁⠀⠀⢀⡠⠤⢀⡀⠀⠀⠀⠀⠀⠀⠀⠀⣀⣠⠤⠤⠀⠀⠀⠀",
    "⠀⠀⠘⠃⠀⠀⣀⡠⠔⠁⠀⠀⠀⠈⢦⠀⠀⠀⠀⢠⡖⠋⠉⠉⠻⡒⠈⠁⠀⠀",
    "⠀⠀⢠⠔⠉⠁⠀⠀⠄⠀⠀⠀⠠⣴⣦⣧⠀⠀⢠⣿⠃⢀⠀⠀⠀⠸⠈⢂⠀⠀",
    "⠀⢠⠁⠀⠀⠀⠀⠀⠀⠀⠀⢠⢳⣿⣿⣿⣄⠄⠉⠁⡔⠞⠢⡀⠀⠀⠀⠀⢄⡀",
    "⣐⣺⡀⠀⠀⠀⠀⠀⠀⠀⠀⡆⣼⣿⣿⡿⠀⠤⠤⠤⠏⠀⠀⠁⠀⠀⢆⠀⠀⡡",
    "⠈⠋⠈⠒⠦⠤⠤⠒⠒⠒⠒⠧⣻⡿⠟⠳⠤⠤⠤⠤⠤⠤⠔⠑⠒⠊⠀⠁⠂⠁",
];

const TREE: [&str; 8] = [
    "        ccc8OE88oo",
    "   dB69QO8PdUOpugoO9bD",
    " CggbU8OU qOp qOdoUOdcb",
    "      6OuU  /p u gcoUodpP",
    "         \\\\//  /douUP",
    "          ||  ||",
    "          ||  ||",
    "    _____//   \\\\____",
];

#[test]
fn without_colour_the_primary_art_is_its_plain_lines() {
    colored::control::set_override(false);
    assert_eq!(get_ascii_logo_snoopy(), SNOOPY);
    assert_eq!(art_lines(Art::Primary), SNOOPY);
}

#[test]
fn without_colour_the_alternate_art_is_its_plain_lines() {
    colored::control::set_override(false);
    assert_eq!(get_ascii_logo_tree(), TREE);
    assert_eq!(art_lines(Art::Alternate), TREE);
}

#[test]
fn without_colour_the_facts_are_label_and_value() {
    colored::control::set_override(false);
    let lines = info_lines(&facts(), &everything(true, Art::Primary), "me", HEADER_COLOR);
    assert_eq!(
        lines,
        [
            "me@box",
            "OS       macOS 14.0",
            "Kernel   23.0.0",
            "Arch     arm64",
            "Memory   2048MB / 8192MB",
            "Uptime   1h 1m",
            "Shell    /bin/zsh",
            "Packages (brew) 42",
        ]
    );
}

#[test]
fn a_fact_that_is_switched_off_leaves_no_line() {
    colored::control::set_override(false);
    let mut config = everything(true, Art::Primary);
    config.show_hostname = false;
    config.show_kernel = false;
    config.show_packages = false;
    let lines = info_lines(&facts(), &config, "me", HEADER_COLOR);
    assert_eq!(
        lines,
        [
            "OS       macOS 14.0",
            "Arch     arm64",
            "Memory   2048MB / 8192MB",
            "Uptime   1h 1m",
            "Shell    /bin/zsh",
        ]
    );
    assert_eq!(
        info_lines(&facts(), &nothing(Art::Primary), "me", HEADER_COLOR),
        Vec::<String>::new()
    );
}

#[test]
fn memory_is_shown_in_whole_mebibytes() {
    colored::control::set_override(false);
    let mut info = facts();
    info.memory_used = 1023;
    info.memory_total = 1025;
    assert_eq!(field_line(Field::Memory, &info, "me", HEADER_COLOR), "Memory   0MB / 1MB");
    info.memory_used = 9_000_000;
    info.memory_total = 1_048_576;
    assert_eq!(field_line(Field::Memory, &info, "me", HEADER_COLOR), "Memory   8789MB / 1024MB");
    info.memory_used = u64::MAX;
    info.memory_total = 0;
    assert_eq!(
        field_line(Field::Memory, &info, "me", HEADER_COLOR),
        "Memory   18014398509481983MB / 0MB"
    );
}

#[test]
fn values_are_shown_as_they_are() {
    colored::control::set_override(false);
    let mut info = facts();
    info.os_name = String::new();
    info.shell = String::from("Unknown");
    info.brew_packages = 0;
    info.uptime = 0;
    assert_eq!(field_line(Field::Os, &info, "me", HEADER_COLOR), "OS       ");
    assert_eq!(field_line(Field::Shell, &info, "me", HEADER_COLOR), "Shell    Unknown");
    assert_eq!(field_line(Field::Packages, &info, "me", HEADER_COLOR), "Packages (brew) 0");
    assert_eq!(field_line(Field::Uptime, &info, "me", HEADER_COLOR), "Uptime   0m");
    assert_eq!(field_line(Field::Hostname, &info, "", HEADER_COLOR), "@box");
}

#[test]
fn facts_stand_left_of_the_primary_art() {
    colored::control::set_override(false);
    let rows = banner(&facts(), &everything(true, Art::Primary), "me", HEADER_COLOR);
    assert_eq!(rows.len(), 8);
    assert_eq!(rows[0], format!("me@box{}{}", " ".repeat(22), SNOOPY[0]));
    assert_eq!(rows[1], format!("OS       macOS 14.0{}{}", " ".repeat(9), SNOOPY[1]));
    assert_eq!(rows[4], format!("Memory   2048MB / 8192MB    {}", SNOOPY[4]));
    assert_eq!(rows[5], format!("Uptime   1h 1m{}{}", " ".repeat(14), SNOOPY[5]));
    assert_eq!(rows[7], format!("Packages (brew) 42{}{}", " ".repeat(10), SNOOPY[7]));
    assert!(rows.iter().any(|row| row.starts_with("Memory   2048MB / 8192MB")));
    assert!(rows.iter().any(|row| row.starts_with("Uptime   1h 1m")));
}

#[test]
fn facts_stand_right_of_the_alternate_art() {
    colored::control::set_override(false);
    let rows = banner(&facts(), &everything(false, Art::Alternate), "me", HEADER_COLOR);
    assert_eq!(rows.len(), 8);
    assert_eq!(rows[0], format!("{}{}me@box", TREE[0], " ".repeat(11)));
    assert_eq!(rows[3], format!("{}    Arch     arm64", TREE[3]));
    assert_eq!(rows[4], format!("{}{}Memory   2048MB / 8192MB", TREE[4], " ".repeat(8)));
    assert_eq!(rows[5], format!("{}{}Uptime   1h 1m", TREE[5], " ".repeat(13)));
}

#[test]
fn the_art_stands_alone_where_no_fact_is_shown() {
    colored::control::set_override(false);
    let rows = banner(&facts(), &nothing(Art::Primary), "me", HEADER_COLOR);
    assert_eq!(rows.len(), 8);
    for (row, art) in rows.iter().zip(SNOOPY) {
        assert_eq!(*row, format!("    {}", art));
    }
    let mut config = nothing(Art::Alternate);
    config.info_on_left = false;
    let rows = banner(&facts(), &config, "me", HEADER_COLOR);
    assert_eq!(rows[0], format!("{}{}", TREE[0], " ".repeat(11)));
    assert_eq!(rows[3], format!("{}    ", TREE[3]));
}

#[test]
fn the_printed_banner_names_the_user_of_the_process() {
    colored::control::set_override(false);
    let rows = print_system_info(&facts(), &everything(true, Art::Primary));
    assert_eq!(rows.len(), 8);
    let user = whoami::username();
    let identity = format!("{}@box", user);
    assert!(rows[0].starts_with(&identity));
    assert!(rows[0].ends_with(SNOOPY[0]));
    let width = identity.chars().count().max(24);
    assert_eq!(rows[4], format!("Memory   2048MB / 8192MB{}{}", " ".repeat(width - 24 + 4), SNOOPY[4]));
    let rows = print_system_info(&facts(), &nothing(Art::Alternate));
    assert_eq!(rows[7], format!("    {}", TREE[7]));
}

#[test]
fn without_colour_a_name_with_escape_characters_stands_as_it_is() {
    colored::control::set_override(false);
    let mut info = facts();
    info.hostname = String::from("b\x1B[0mox");
    assert_eq!(
        field_line(Field::Hostname, &info, "\x1B[4mme", HEADER_COLOR),
        "\x1B[4mme@b\x1B[0mox"
    );
}
