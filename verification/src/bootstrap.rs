//! The one-time initialization of the host side, as a state machine.
//!
//! The host runs it: it asks `begin` what to load, performs the load, and
//! hands the outcome to `conclude`. A failed load is reported and otherwise
//! ignored: initialization finishes all the same, and the load is never asked
//! for again.

use crate::platform::{library_path, library_path_of};
use vstd::prelude::*;

verus! {

/// How far the initialization has come.
#[derive(Clone, Copy, Debug, PartialEq, Eq, Structural)]
pub enum Phase {
    /// Nothing was asked for yet.
    Pending,
    /// The load was asked for and its outcome is awaited.
    Loading,
    /// Initialization is over, whether the library was loaded or not.
    Finished,
}

/// What became of the load that the host performed.
#[derive(Clone, Copy, Debug, PartialEq, Eq, Structural)]
pub enum LoadOutcome {
    /// The library was found and loaded.
    Loaded,
    /// Reading or loading the library failed.
    Failed,
}

/// The phase after `begin`: a pending initialization starts loading, any
/// other stays where it is.
pub open spec fn begun(phase: Phase) -> Phase {
    if phase is Pending {
        Phase::Loading
    } else {
        phase
    }
}

/// Whether `begin` asks for a load: only while nothing was asked for yet.
pub open spec fn asks_for_load(phase: Phase) -> bool {
    phase is Pending
}

/// The phase after `conclude`: an awaited load finishes the initialization
/// whatever its outcome, any other phase stays where it is.
pub open spec fn concluded(phase: Phase, outcome: LoadOutcome) -> Phase {
    if phase is Loading {
        Phase::Finished
    } else {
        phase
    }
}

/// Whether `conclude` asks for a diagnostic: only for an awaited load that
/// failed.
pub open spec fn asks_for_report(phase: Phase, outcome: LoadOutcome) -> bool {
    phase is Loading && outcome is Failed
}

/// The initialization of one host process.
pub struct Bootstrap {
    phase: Phase,
}

impl View for Bootstrap {
    type V = Phase;

    /// The phase that the initialization is in.
    closed spec fn view(&self) -> Phase {
        self.phase
    }
}

impl Bootstrap {
    /// An initialization that has not begun.
    pub fn new() -> (bootstrap: Self)
        ensures
            bootstrap@ == Phase::Pending,
    {
        Bootstrap { phase: Phase::Pending }
    }

    /// The phase that the initialization is in.
    pub fn phase(&self) -> (phase: Phase)
        ensures
            phase == self@,
    {
        self.phase
    }

    /// Begins the initialization on the operating system called `os_name`.
    /// The first call returns the path of the library that the host is to
    /// load; every later call returns nothing and changes nothing.
    pub fn begin(&mut self, os_name: &str) -> (request: Option<String>)
        ensures
            final(self)@ == begun(old(self)@),
            request is Some <==> asks_for_load(old(self)@),
            request matches Some(path) ==> path@ == library_path_of(os_name@),
    {
        match self.phase {
            Phase::Pending => {
                self.phase = Phase::Loading;
                Some(library_path(os_name))
            },
            _ => None,
        }
    }

    /// Takes the outcome of the load. While a load is awaited this finishes
    /// the initialization, and the result tells whether the host is to print
    /// a diagnostic: it is, if and only if the load failed. In any other
    /// phase the call changes nothing and asks for nothing.
    pub fn conclude(&mut self, outcome: LoadOutcome) -> (report: bool)
        ensures
            final(self)@ == concluded(old(self)@, outcome),
            report == asks_for_report(old(self)@, outcome),
    {
        match self.phase {
            Phase::Loading => {
                self.phase = Phase::Finished;
                match outcome {
                    LoadOutcome::Loaded => false,
                    LoadOutcome::Failed => true,
                }
            },
            _ => false,
        }
    }
}

/// Initialization finishes whatever the load did: a failed load does not
/// keep it from completing.
pub proof fn lemma_initialization_finishes(outcome: LoadOutcome)
    ensures
        concluded(begun(Phase::Pending), outcome) == Phase::Finished,
{
}

/// A diagnostic is asked for exactly when the awaited load failed.
pub proof fn lemma_failure_is_reported(outcome: LoadOutcome)
    ensures
        asks_for_report(begun(Phase::Pending), outcome) <==> outcome is Failed,
{
}

/// The load is asked for at most once: `begin` leaves a phase in which no
/// load is asked for, and `conclude` never leads from such a phase back to
/// one in which it is.
pub proof fn lemma_load_is_not_retried(phase: Phase, outcome: LoadOutcome)
    ensures
        !asks_for_load(begun(phase)),
        !asks_for_load(phase) ==> !asks_for_load(concluded(phase, outcome)),
{
}

/// A finished initialization stays finished and asks for nothing more.
pub proof fn lemma_finished_is_final(outcome: LoadOutcome)
    ensures
        begun(Phase::Finished) == Phase::Finished,
        concluded(Phase::Finished, outcome) == Phase::Finished,
        !asks_for_load(Phase::Finished),
        !asks_for_report(Phase::Finished, outcome),
{
}

} // verus!
