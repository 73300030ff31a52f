use vstd::prelude::*;

verus! {

/// How much the radar logs to the console, from errors only to everything.
#[derive(Clone, Copy, Debug, PartialEq, Eq, Structural, PartialOrd, Ord)]
pub enum Loglevel {
    Error,
    Warn,
    Info,
    Debug,
    Trace,
}

impl Default for Loglevel {
    fn default() -> (r: Loglevel)
        ensures
            r == Loglevel::Warn,
    {
        Loglevel::Warn
    }
}

} // verus!
