use vstd::prelude::*;

verus! {

/// The threshold of the log sinks, from the least to the most detailed.
#[derive(Clone, Copy, Debug, PartialEq, Eq, Structural)]
pub enum VerbosityLevel {
    Info,
    Debug,
    Trace,
}

impl VerbosityLevel {
    /// Position in the order `Info < Debug < Trace` (more detail is higher).
    pub open spec fn rank(self) -> nat {
        match self {
            VerbosityLevel::Info => 0,
            VerbosityLevel::Debug => 1,
            VerbosityLevel::Trace => 2,
        }
    }
}

/// The level that `occurrences` repetitions of the verbose flag select.
pub open spec fn level_for(occurrences: nat) -> VerbosityLevel {
    if occurrences == 0 {
        VerbosityLevel::Info
    } else if occurrences == 1 {
        VerbosityLevel::Debug
    } else {
        VerbosityLevel::Trace
    }
}

/// Maps the number of times the verbose flag was given to a level:
/// none gives `Info`, one gives `Debug`, and any larger count gives `Trace`.
pub fn resolve_verbosity(occurrences: u64) -> (level: VerbosityLevel)
    ensures
        level == level_for(occurrences as nat),
        occurrences == 0 ==> level == VerbosityLevel::Info,
        occurrences == 1 ==> level == VerbosityLevel::Debug,
        occurrences >= 2 ==> level == VerbosityLevel::Trace,
{
    if occurrences == 0 {
        VerbosityLevel::Info
    } else if occurrences == 1 {
        VerbosityLevel::Debug
    } else {
        VerbosityLevel::Trace
    }
}

/// More repetitions of the verbose flag never give a less detailed level,
/// every count of two or more gives `Trace`, and the same count always
/// gives the same level.
pub proof fn lemma_level_monotonic_saturating(a: nat, b: nat)
    ensures
        a <= b ==> level_for(a).rank() <= level_for(b).rank(),
        b >= 2 ==> level_for(b) == VerbosityLevel::Trace,
        a == b ==> level_for(a) == level_for(b),
        level_for(a).rank() == if a <= 2 { a } else { 2 },
{
}

} // verus!
