//! The facts about the host, and how they are made of what was read.
//!
//! Reading the host is the caller's part: each reading arrives as a plain
//! value, `None` where it could not be had. A reading that is missing never
//! stops the others: the fact that rests on it falls back, a text to
//! "Unknown" (the processors to "Unknown CPU"), a number to 0.

use vstd::prelude::*;
use vstd::string::StringExecFns;
use crate::text::{chars_of, decimal, push_decimal};

verus! {

/// The facts that the banner shows. Memory is in KiB, the uptime in seconds.
#[derive(Debug)]
pub struct SystemInfo {
    pub hostname: String,
    pub os_name: String,
    pub kernel_version: String,
    pub cpu_model: String,
    pub cpu_arch: String,
    pub memory_total: u64,
    pub memory_used: u64,
    pub uptime: u64,
    pub shell: String,
    pub brew_packages: usize,
}

/// Memory as the host reports it, in KiB.
#[derive(Debug)]
pub struct MemoryReading {
    pub total: u64,
    pub avail: u64,
}

/// What was read from the host, `None` where a reading failed.
#[derive(Debug)]
pub struct Readings {
    /// The host's name.
    pub hostname: Option<String>,
    /// The release of the operating system's kernel.
    pub os_release: Option<String>,
    /// The number of processors.
    pub cpu_count: Option<u32>,
    /// Total and available memory.
    pub memory: Option<MemoryReading>,
    /// When the host was started, in seconds since the epoch.
    pub boot_time: Option<i64>,
    /// The present time, in seconds since the epoch.
    pub now: u64,
    /// The path of the user's shell.
    pub shell: Option<String>,
    /// The name of the processor architecture as the compiler knows it.
    pub arch: String,
    /// What the package manager lists, one package per line.
    pub package_list: Option<String>,
}

/// The reading, or "Unknown" where there is none.
pub open spec fn text_or_unknown(reading: Option<String>) -> Seq<char> {
    match reading {
        Some(text) => text@,
        None => "Unknown"@,
    }
}

/// The name of the operating system: "macOS", a space and the release, or
/// "Unknown" where the release was not read.
pub open spec fn os_name_text(release: Option<String>) -> Seq<char> {
    match release {
        Some(version) => "macOS "@ + version@,
        None => "Unknown"@,
    }
}

/// The processors as text: their number and " x CPU", or "Unknown CPU".
pub open spec fn cpu_model_text(count: Option<u32>) -> Seq<char> {
    match count {
        Some(n) => decimal(n as nat) + " x CPU"@,
        None => "Unknown CPU"@,
    }
}

/// The architecture under the name that the banner uses: "arm64" for
/// "aarch64", every other name as it is.
pub open spec fn arch_label(arch: Seq<char>) -> Seq<char> {
    if arch == "aarch64"@ {
        "arm64"@
    } else {
        arch
    }
}

/// Total memory, 0 where it is not known.
pub open spec fn memory_total_of(memory: Option<MemoryReading>) -> int {
    match memory {
        Some(m) => m.total as int,
        None => 0,
    }
}

/// Memory in use: the total less what is available, never below 0, and 0
/// where memory is not known.
pub open spec fn memory_used_of(memory: Option<MemoryReading>) -> int {
    match memory {
        Some(m) => if m.total >= m.avail {
            m.total - m.avail
        } else {
            0
        },
        None => 0,
    }
}

/// A time of start taken as an unsigned number of 64 bits, as the host's
/// clock type is read: a negative one wraps round.
pub open spec fn unsigned_seconds(boot: i64) -> int {
    if boot >= 0 {
        boot as int
    } else {
        boot + 0x1_0000_0000_0000_0000
    }
}

/// The seconds from the start of the host to `now`: 0 where the start is
/// not known or lies after `now`.
pub open spec fn uptime_since(now: u64, boot_time: Option<i64>) -> int {
    match boot_time {
        Some(boot) => if now >= unsigned_seconds(boot) {
            now - unsigned_seconds(boot)
        } else {
            0
        },
        None => 0,
    }
}

/// The number of line feeds in `text`.
pub open spec fn line_feeds(text: Seq<char>) -> nat
    decreases text.len(),
{
    if text.len() == 0 {
        0
    } else if text.last() == '\n' {
        line_feeds(text.drop_last()) + 1
    } else {
        line_feeds(text.drop_last())
    }
}

/// The number of lines of `text`: each line feed ends a line, and what
/// follows the last line feed is a line if it is not empty.
pub open spec fn line_count(text: Seq<char>) -> nat {
    if text.len() > 0 && text.last() != '\n' {
        line_feeds(text) + 1
    } else {
        line_feeds(text)
    }
}

/// The number of packages: the lines of the package manager's list, 0 where
/// there is no list.
pub open spec fn package_count(list: Option<String>) -> nat {
    match list {
        Some(text) => line_count(text@),
        None => 0,
    }
}

/// The facts that follow from `readings`.
pub open spec fn facts_of(info: SystemInfo, readings: Readings) -> bool {
    &&& info.hostname@ == text_or_unknown(readings.hostname)
    &&& info.os_name@ == os_name_text(readings.os_release)
    &&& info.kernel_version@ == text_or_unknown(readings.os_release)
    &&& info.cpu_model@ == cpu_model_text(readings.cpu_count)
    &&& info.cpu_arch@ == arch_label(readings.arch@)
    &&& info.memory_total == memory_total_of(readings.memory)
    &&& info.memory_used == memory_used_of(readings.memory)
    &&& info.uptime == uptime_since(readings.now, readings.boot_time)
    &&& info.shell@ == text_or_unknown(readings.shell)
    &&& info.brew_packages == package_count(readings.package_list)
}

/// A text has at most as many line feeds as characters.
proof fn lemma_line_feeds_bound(text: Seq<char>)
    ensures
        line_feeds(text) <= text.len(),
    decreases text.len(),
{
    if text.len() > 0 {
        lemma_line_feeds_bound(text.drop_last());
    }
}

fn text_or(reading: &Option<String>, fallback: &str) -> (out: String)
    ensures
        out@ == match *reading {
            Some(text) => text@,
            None => fallback@,
        },
{
    match reading {
        Some(text) => text.clone(),
        None => String::from_str(fallback),
    }
}

/// The host's name, "Unknown" where it was not read.
pub fn get_hostname(reading: &Option<String>) -> (out: String)
    ensures
        out@ == text_or_unknown(*reading),
{
    text_or(reading, "Unknown")
}

/// The name of the operating system with its release, "Unknown" where the
/// release was not read.
pub fn get_os_name(release: &Option<String>) -> (out: String)
    ensures
        out@ == os_name_text(*release),
{
    match release {
        Some(version) => String::from_str("macOS ").concat(version.as_str()),
        None => String::from_str("Unknown"),
    }
}

/// The release of the kernel, "Unknown" where it was not read.
pub fn get_kernel_version(release: &Option<String>) -> (out: String)
    ensures
        out@ == text_or_unknown(*release),
{
    text_or(release, "Unknown")
}

/// The processors as text, "Unknown CPU" where their number was not read.
pub fn get_cpu_info(count: Option<u32>) -> (out: String)
    ensures
        out@ == cpu_model_text(count),
{
    match count {
        Some(n) => {
            let mut out = String::new();
            push_decimal(&mut out, n as u64);
            out.append(" x CPU");
            assert(out@ =~= decimal(n as nat) + " x CPU"@);
            out
        },
        None => String::from_str("Unknown CPU"),
    }
}

/// Total memory in KiB, 0 where it was not read.
pub fn get_memory_total(memory: &Option<MemoryReading>) -> (total: u64)
    ensures
        total == memory_total_of(*memory),
{
    match memory {
        Some(m) => m.total,
        None => 0,
    }
}

/// Memory in use in KiB: the total less what is available.
pub fn get_memory_used(memory: &Option<MemoryReading>) -> (used: u64)
    ensures
        used == memory_used_of(*memory),
{
    match memory {
        Some(m) => m.total.saturating_sub(m.avail),
        None => 0,
    }
}

/// The architecture under the name that the banner uses.
pub fn get_cpu_arch(arch: &String) -> (out: String)
    ensures
        out@ == arch_label(arch@),
{
    let arm: String = String::from_str("aarch64");
    if *arch == arm {
        String::from_str("arm64")
    } else {
        arch.clone()
    }
}

/// The seconds since the host was started.
pub fn get_uptime(now: u64, boot_time: Option<i64>) -> (seconds: u64)
    ensures
        seconds == uptime_since(now, boot_time),
{
    match boot_time {
        Some(boot) => {
            let started: u64 = if boot >= 0 {
                boot as u64
            } else {
                u64::MAX - ((-(boot + 1)) as u64)
            };
            now.saturating_sub(started)
        },
        None => 0,
    }
}

/// The path of the shell, "Unknown" where it was not read.
pub fn get_shell(reading: &Option<String>) -> (out: String)
    ensures
        out@ == text_or_unknown(*reading),
{
    text_or(reading, "Unknown")
}

/// The number of installed packages: the lines of the list.
pub fn get_brew_packages(list: &Option<String>) -> (count: usize)
    ensures
        count == package_count(*list),
{
    match list {
        Some(text) => {
            let chars = chars_of(text.as_str());
            let len: usize = chars.len();
            let mut count: usize = 0;
            let mut i: usize = 0;
            while i < len
                invariant
                    i <= len,
                    len == chars.len(),
                    count == line_feeds(chars@.take(i as int)),
                    count <= i,
                decreases len - i,
            {
                proof {
                    assert(chars@.take(i + 1).drop_last() =~= chars@.take(i as int));
                }
                if chars[i] == '\n' {
                    count = count + 1;
                }
                i = i + 1;
            }
            proof {
                assert(chars@.take(len as int) =~= chars@);
                lemma_line_feeds_bound(chars@);
            }
            if len > 0 && chars[len - 1] != '\n' {
                proof {
                    lemma_line_feeds_bound(chars@.drop_last());
                }
                count + 1
            } else {
                count
            }
        },
        None => 0,
    }
}

/// The facts about the host, from what was read of it. A reading that is
/// missing leaves its fact at its fallback and touches no other: a text at
/// "Unknown", the processors at "Unknown CPU", a number at 0.
pub fn collect_system_info(readings: &Readings) -> (info: SystemInfo)
    ensures
        facts_of(info, *readings),
        info.memory_used <= info.memory_total,
{
    SystemInfo {
        hostname: get_hostname(&readings.hostname),
        os_name: get_os_name(&readings.os_release),
        kernel_version: get_kernel_version(&readings.os_release),
        cpu_model: get_cpu_info(readings.cpu_count),
        cpu_arch: get_cpu_arch(&readings.arch),
        memory_total: get_memory_total(&readings.memory),
        memory_used: get_memory_used(&readings.memory),
        uptime: get_uptime(readings.now, readings.boot_time),
        shell: get_shell(&readings.shell),
        brew_packages: get_brew_packages(&readings.package_list),
    }
}

} // verus!
