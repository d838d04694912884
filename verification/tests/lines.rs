use sysbanner::art::Art;
use sysbanner::config::Flags;
use sysbanner::info::{field_at, identity_line, labeled_line, value_string, Field};
use sysbanner::system_info::SystemInfo;
use sysbanner::DisplayConfig;

fn sample() -> SystemInfo {
    SystemInfo {
        hostname: String::from("box"),
        os_name: String::from("macOS 14.0"),
        kernel_version: String::from("23.0.0"),
        cpu_model: String::from("8 x CPU"),
        cpu_arch: String::from("arm64"),
        memory_total: 8_388_608,
        memory_used: 2_097_152,
        uptime: 3700,
        shell: String::from("/bin/zsh"),
        brew_packages: 42,
    }
}

#[test]
fn the_fields_have_a_fixed_order() {
    let order = [
        Field::Hostname,
        Field::Os,
        Field::Kernel,
        Field::Arch,
        Field::Memory,
        Field::Uptime,
        Field::Shell,
        Field::Packages,
    ];
    for (i, field) in order.iter().enumerate() {
        assert_eq!(field_at(i), *field);
    }
}

#[test]
fn each_field_has_its_value() {
    let info = sample();
    assert_eq!(value_string(Field::Hostname, &info), "box");
    assert_eq!(value_string(Field::Os, &info), "macOS 14.0");
    assert_eq!(value_string(Field::Kernel, &info), "23.0.0");
    assert_eq!(value_string(Field::Arch, &info), "arm64");
    assert_eq!(value_string(Field::Memory, &info), "2048MB / 8192MB");
    assert_eq!(value_string(Field::Uptime, &info), "1h 1m");
    assert_eq!(value_string(Field::Shell, &info), "/bin/zsh");
    assert_eq!(value_string(Field::Packages, &info), "(brew) 42");
}

#[test]
fn a_labelled_line_is_label_space_value() {
    assert_eq!(labeled_line("OS      ", "macOS"), "OS       macOS");
    assert_eq!(labeled_line("\x1B[1;34mOS      \x1B[0m", "macOS"), "\x1B[1;34mOS      \x1B[0m macOS");
    assert_eq!(labeled_line("", ""), " ");
    assert_eq!(labeled_line("Packages", "(brew) 1"), "Packages (brew) 1");
}

#[test]
fn the_first_line_joins_user_and_host() {
    assert_eq!(identity_line("me", "box"), "me@box");
    assert_eq!(identity_line("", ""), "@");
    assert_eq!(identity_line("\x1B[1;32mme\x1B[0m", "box"), "\x1B[1;32mme\x1B[0m@box");
}

#[test]
fn a_configuration_shows_the_fields_that_are_on() {
    let config = DisplayConfig {
        info_on_left: false,
        show_hostname: true,
        show_os: false,
        show_kernel: true,
        show_cpu: false,
        show_memory: true,
        show_uptime: false,
        show_shell: true,
        show_packages: false,
        art: Art::Alternate,
    };
    assert!(config.shows(Field::Hostname));
    assert!(!config.shows(Field::Os));
    assert!(config.shows(Field::Kernel));
    assert!(!config.shows(Field::Arch));
    assert!(config.shows(Field::Memory));
    assert!(!config.shows(Field::Uptime));
    assert!(config.shows(Field::Shell));
    assert!(!config.shows(Field::Packages));
}

#[test]
fn a_configuration_follows_the_switches() {
    let flags = Flags {
        no_hostname: true,
        no_os: false,
        no_kernel: true,
        no_cpu: false,
        no_memory: true,
        no_uptime: false,
        no_shell: true,
        no_packages: false,
        right: true,
        art: String::from("ignored here"),
    };
    assert_eq!(
        DisplayConfig::from_flags(&flags, Art::Alternate),
        DisplayConfig {
            info_on_left: false,
            show_hostname: false,
            show_os: true,
            show_kernel: false,
            show_cpu: true,
            show_memory: false,
            show_uptime: true,
            show_shell: false,
            show_packages: true,
            art: Art::Alternate,
        }
    );
}
