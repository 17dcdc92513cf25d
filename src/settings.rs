use vstd::prelude::*;

use crate::color::ColorMode;

verus! {

/// The requested verbosity of the program output.
#[derive(Debug, Clone, Copy, PartialEq, Eq, Structural)]
pub enum Verbosity {
    Verbose,
    Normal,
    Quiet,
}

/// The resolved settings that a shell is built from.
#[derive(Debug, Clone, Copy, PartialEq, Eq, Structural)]
pub struct Opts {
    pub quiet: bool,
    pub verbose: bool,
    pub color_mode: ColorMode,
}

/// The verbosity that settings ask for: quiet wins over verbose.
pub open spec fn verbosity_of(quiet: bool, verbose: bool) -> Verbosity {
    if quiet {
        Verbosity::Quiet
    } else if verbose {
        Verbosity::Verbose
    } else {
        Verbosity::Normal
    }
}

impl Verbosity {
    /// Determines the verbosity for the given settings.
    pub fn from_opts(opts: &Opts) -> (r: Verbosity)
        ensures
            r == verbosity_of(opts.quiet, opts.verbose),
    {
        match opts.quiet {
            true => Verbosity::Quiet,
            false => match opts.verbose {
                true => Verbosity::Verbose,
                false => Verbosity::Normal,
            },
        }
    }

    /// Whether messages that verbosity governs (status, header, warning) are
    /// written: everywhere but under `Quiet`.
    pub fn shows_routine(self) -> (r: bool)
        ensures
            r == (self != Verbosity::Quiet),
    {
        match self {
            Verbosity::Quiet => false,
            _ => true,
        }
    }
}

} // verus!
