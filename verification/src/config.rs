//! What is shown, on which side, beside which art.

use vstd::prelude::*;
use crate::art::{Art, ConfigError, choose_art, parse_art_selector, resolved, selector_named};

verus! {

/// The choices of one run: which lines of facts are shown, the side of the
/// facts, and the piece of art, which is settled before anything is drawn.
#[derive(Clone, Copy, Debug, PartialEq, Eq, Structural)]
pub struct DisplayConfig {
    pub info_on_left: bool,
    pub show_hostname: bool,
    pub show_os: bool,
    pub show_kernel: bool,
    pub show_cpu: bool,
    pub show_memory: bool,
    pub show_uptime: bool,
    pub show_shell: bool,
    pub show_packages: bool,
    pub art: Art,
}

/// The switches of the command line as they were given: each `no_` switch
/// takes a line away, `right` puts the facts on the right, and `art` names
/// the art.
#[derive(Debug)]
pub struct Flags {
    pub no_hostname: bool,
    pub no_os: bool,
    pub no_kernel: bool,
    pub no_cpu: bool,
    pub no_memory: bool,
    pub no_uptime: bool,
    pub no_shell: bool,
    pub no_packages: bool,
    pub right: bool,
    pub art: String,
}

/// The configuration that the switches ask for, with the art `art`.
pub open spec fn config_of(flags: Flags, art: Art) -> DisplayConfig {
    DisplayConfig {
        info_on_left: !flags.right,
        show_hostname: !flags.no_hostname,
        show_os: !flags.no_os,
        show_kernel: !flags.no_kernel,
        show_cpu: !flags.no_cpu,
        show_memory: !flags.no_memory,
        show_uptime: !flags.no_uptime,
        show_shell: !flags.no_shell,
        show_packages: !flags.no_packages,
        art,
    }
}

/// The configuration that the switches ask for, `coin` settling a random
/// choice of art; an error where the art's name is unknown.
pub open spec fn configured(flags: Flags, coin: bool) -> Result<DisplayConfig, ConfigError> {
    match selector_named(flags.art@) {
        Some(selector) => Ok(config_of(flags, resolved(selector, coin))),
        None => Err(ConfigError::UnknownArt),
    }
}

impl DisplayConfig {
    /// The configuration that the switches ask for, with the art `art`.
    pub fn from_flags(flags: &Flags, art: Art) -> (config: DisplayConfig)
        ensures
            config == config_of(*flags, art),
    {
        DisplayConfig {
            info_on_left: !flags.right,
            show_hostname: !flags.no_hostname,
            show_os: !flags.no_os,
            show_kernel: !flags.no_kernel,
            show_cpu: !flags.no_cpu,
            show_memory: !flags.no_memory,
            show_uptime: !flags.no_uptime,
            show_shell: !flags.no_shell,
            show_packages: !flags.no_packages,
            art,
        }
    }
}

/// The configuration of a run. An unknown name for the art is refused, and
/// nothing is configured then. Where the art is to be random, it is chosen
/// here, once.
pub fn configure(flags: &Flags) -> (res: Result<DisplayConfig, ConfigError>)
    ensures
        res == configured(*flags, true) || res == configured(*flags, false),
        res is Err <==> selector_named(flags.art@) is None,
{
    match parse_art_selector(flags.art.as_str()) {
        Ok(selector) => Ok(DisplayConfig::from_flags(flags, choose_art(selector))),
        Err(error) => Err(error),
    }
}

} // verus!
