//! Logging settings.
use vstd::prelude::*;

verus! {

/// Logging interface settings.
pub struct Logger {
    is_verbose: bool,
}

impl Logger {
    /// A logger; `is_verbose` enables verbose output.
    pub fn new(is_verbose: bool) -> (r: Logger)
        ensures
            r.verbose_enabled() == is_verbose,
    {
        Logger { is_verbose }
    }

    pub closed spec fn verbose_enabled(&self) -> bool {
        self.is_verbose
    }

    /// Whether verbose messages are printed.
    pub fn is_verbose(&self) -> (r: bool)
        ensures
            r == self.verbose_enabled(),
    {
        self.is_verbose
    }
}

} // verus!
