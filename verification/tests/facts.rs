use sysbanner::system_info::{
    collect_system_info, get_brew_packages, get_cpu_arch, get_cpu_info, get_hostname,
    get_kernel_version, get_memory_total, get_memory_used, get_os_name, get_shell, get_uptime,
    MemoryReading, Readings,
};

fn all_read() -> Readings {
    Readings {
        hostname: Some(String::from("box")),
        os_release: Some(String::from("23.0.0")),
        cpu_count: Some(8),
        memory: Some(MemoryReading { total: 8_388_608, avail: 6_291_456 }),
        boot_time: Some(1_700_000_000),
        now: 1_700_003_700,
        shell: Some(String::from("/bin/zsh")),
        arch: String::from("aarch64"),
        package_list: Some(String::from("git\nripgrep\nwget\n")),
    }
}

fn nothing_read() -> Readings {
    Readings {
        hostname: None,
        os_release: None,
        cpu_count: None,
        memory: None,
        boot_time: None,
        now: 1_700_003_700,
        shell: None,
        arch: String::from("riscv64"),
        package_list: None,
    }
}

#[test]
fn facts_follow_the_readings() {
    let info = collect_system_info(&all_read());
    assert_eq!(info.hostname, "box");
    assert_eq!(info.os_name, "macOS 23.0.0");
    assert_eq!(info.kernel_version, "23.0.0");
    assert_eq!(info.cpu_model, "8 x CPU");
    assert_eq!(info.cpu_arch, "arm64");
    assert_eq!(info.memory_total, 8_388_608);
    assert_eq!(info.memory_used, 2_097_152);
    assert_eq!(info.uptime, 3700);
    assert_eq!(info.shell, "/bin/zsh");
    assert_eq!(info.brew_packages, 3);
}

#[test]
fn missing_readings_fall_back() {
    let info = collect_system_info(&nothing_read());
    assert_eq!(info.hostname, "Unknown");
    assert_eq!(info.os_name, "Unknown");
    assert_eq!(info.kernel_version, "Unknown");
    assert_eq!(info.cpu_model, "Unknown CPU");
    assert_eq!(info.cpu_arch, "riscv64");
    assert_eq!(info.memory_total, 0);
    assert_eq!(info.memory_used, 0);
    assert_eq!(info.uptime, 0);
    assert_eq!(info.shell, "Unknown");
    assert_eq!(info.brew_packages, 0);
}

#[test]
fn one_missing_reading_touches_no_other_fact() {
    let mut readings = all_read();
    readings.hostname = None;
    readings.memory = None;
    let info = collect_system_info(&readings);
    assert_eq!(info.hostname, "Unknown");
    assert_eq!(info.memory_total, 0);
    assert_eq!(info.memory_used, 0);
    assert_eq!(info.os_name, "macOS 23.0.0");
    assert_eq!(info.uptime, 3700);
    assert_eq!(info.shell, "/bin/zsh");
    assert_eq!(info.brew_packages, 3);
}

#[test]
fn texts_fall_back_to_unknown() {
    assert_eq!(get_hostname(&Some(String::from("box"))), "box");
    assert_eq!(get_hostname(&Some(String::new())), "");
    assert_eq!(get_hostname(&None), "Unknown");
    assert_eq!(get_kernel_version(&Some(String::from("6.1"))), "6.1");
    assert_eq!(get_kernel_version(&None), "Unknown");
    assert_eq!(get_shell(&Some(String::from("/bin/sh"))), "/bin/sh");
    assert_eq!(get_shell(&None), "Unknown");
    assert_eq!(get_os_name(&Some(String::from("14.0"))), "macOS 14.0");
    assert_eq!(get_os_name(&None), "Unknown");
}

#[test]
fn processors_are_counted_in_decimal() {
    assert_eq!(get_cpu_info(Some(0)), "0 x CPU");
    assert_eq!(get_cpu_info(Some(12)), "12 x CPU");
    assert_eq!(get_cpu_info(Some(u32::MAX)), "4294967295 x CPU");
    assert_eq!(get_cpu_info(None), "Unknown CPU");
}

#[test]
fn only_aarch64_is_renamed() {
    assert_eq!(get_cpu_arch(&String::from("aarch64")), "arm64");
    assert_eq!(get_cpu_arch(&String::from("x86_64")), "x86_64");
    assert_eq!(get_cpu_arch(&String::from("arm")), "arm");
    assert_eq!(get_cpu_arch(&String::from("AARCH64")), "AARCH64");
    assert_eq!(get_cpu_arch(&String::new()), "");
}

#[test]
fn used_memory_never_falls_below_zero() {
    let more_avail = Some(MemoryReading { total: 10, avail: 11 });
    assert_eq!(get_memory_used(&more_avail), 0);
    assert_eq!(get_memory_total(&more_avail), 10);
    let usual = Some(MemoryReading { total: 16_777_216, avail: 1 });
    assert_eq!(get_memory_used(&usual), 16_777_215);
    assert_eq!(get_memory_used(&Some(MemoryReading { total: u64::MAX, avail: 0 })), u64::MAX);
    assert_eq!(get_memory_used(&None), 0);
    assert_eq!(get_memory_total(&None), 0);
}

#[test]
fn uptime_is_the_time_since_the_start() {
    assert_eq!(get_uptime(1000, Some(400)), 600);
    assert_eq!(get_uptime(1000, Some(1000)), 0);
    assert_eq!(get_uptime(1000, Some(0)), 1000);
    assert_eq!(get_uptime(1000, None), 0);
    assert_eq!(get_uptime(u64::MAX, Some(i64::MAX)), u64::MAX - i64::MAX as u64);
}

#[test]
fn a_start_after_now_gives_no_uptime() {
    assert_eq!(get_uptime(1000, Some(1001)), 0);
    assert_eq!(get_uptime(0, Some(i64::MAX)), 0);
}

#[test]
fn a_negative_start_wraps_round() {
    assert_eq!(get_uptime(1000, Some(-1)), 0);
    assert_eq!(get_uptime(u64::MAX, Some(-1)), 0);
    assert_eq!(get_uptime(u64::MAX, Some(-2)), 1);
    assert_eq!(get_uptime(u64::MAX, Some(i64::MIN)), u64::MAX - (1u64 << 63));
    assert_eq!(get_uptime(1u64 << 63, Some(i64::MIN)), 0);
}

#[test]
fn packages_are_the_lines_of_the_list() {
    let count = |text: &str| get_brew_packages(&Some(String::from(text)));
    assert_eq!(count(""), 0);
    assert_eq!(count("git"), 1);
    assert_eq!(count("git\n"), 1);
    assert_eq!(count("git\nwget"), 2);
    assert_eq!(count("git\nwget\n"), 2);
    assert_eq!(count("\n"), 1);
    assert_eq!(count("\n\n"), 2);
    assert_eq!(count("a\n\nb"), 3);
    assert_eq!(count("a\r\nb\r\n"), 2);
    assert_eq!(count("a\rb"), 1);
    assert_eq!(get_brew_packages(&None), 0);
}

#[test]
fn the_line_count_is_that_of_the_standard_library() {
    let texts = ["", "a", "a\n", "\n", "\n\na", "a\r\n", "a\r\nb", "é\n⠀\n", "x\n\n\n", "\r"];
    for text in texts {
        assert_eq!(get_brew_packages(&Some(String::from(text))), text.lines().count(), "{:?}", text);
    }
}
