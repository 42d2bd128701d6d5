//! Boundary initialization and fault containment.
//!
//! The bridge is loaded once into the host process. Loading must raise the
//! ambient diagnostic verbosity, initialize the structured logger, and
//! install a global fault hook — and must be idempotent: a second load
//! attempt performs none of the three again. `initialize` is the decision
//! part of that lifecycle; the host glue performs the effects it asks for.
//!
//! When the fault hook intercepts an otherwise-fatal native fault, it logs a
//! structured report instead of letting the process die. `fault_report`
//! builds that report from what the hook could observe: the fault's payload
//! if it was string-like, its source location if known, and the captured
//! call-stack trace. The report is only logged; it is not turned into a
//! caller-visible error (a known gap of this layer).

use vstd::prelude::*;

verus! {

/// Whether the bridge's process-wide state has been set up.
pub enum BoundaryState {
    Uninitialized,
    Ready,
}

/// The effects one load attempt must perform.
pub struct InitActions {
    /// Raise the ambient diagnostic verbosity for native faults.
    pub raise_fault_verbosity: bool,
    /// Initialize the process-wide structured logger.
    pub init_logger: bool,
    /// Install the global fault hook, replacing the default fault report.
    pub install_fault_hook: bool,
}

/// What one load attempt does in a given state: the first leaves the bridge
/// ready after performing all three effects, and any later one performs
/// nothing. This is what makes repeated loads no-ops rather than
/// re-registrations.
pub open spec fn spec_initialize(state: BoundaryState) -> (BoundaryState, InitActions) {
    match state {
        BoundaryState::Uninitialized => (
            BoundaryState::Ready,
            InitActions { raise_fault_verbosity: true, init_logger: true, install_fault_hook: true },
        ),
        BoundaryState::Ready => (
            BoundaryState::Ready,
            InitActions {
                raise_fault_verbosity: false,
                init_logger: false,
                install_fault_hook: false,
            },
        ),
    }
}

/// Decide what one load attempt performs. The host glue holds the returned
/// state as the process-wide singleton and carries out the actions.
pub fn initialize(state: BoundaryState) -> (r: (BoundaryState, InitActions))
    ensures
        r == spec_initialize(state),
        r.0 is Ready,
{
    match state {
        BoundaryState::Uninitialized => (
            BoundaryState::Ready,
            InitActions { raise_fault_verbosity: true, init_logger: true, install_fault_hook: true },
        ),
        BoundaryState::Ready => (
            BoundaryState::Ready,
            InitActions {
                raise_fault_verbosity: false,
                init_logger: false,
                install_fault_hook: false,
            },
        ),
    }
}

/// Initialization is idempotent: after one load attempt the bridge is ready,
/// and every further attempt performs no effect at all.
pub proof fn lemma_initialize_idempotent(state: BoundaryState)
    ensures
        spec_initialize(spec_initialize(state).0) == (
            BoundaryState::Ready,
            InitActions {
                raise_fault_verbosity: false,
                init_logger: false,
                install_fault_hook: false,
            },
        ),
{
}

/// What the fault hook saw of the fault's payload.
pub enum FaultPayload {
    /// The payload was a string-like message, captured verbatim.
    Message(String),
    /// The payload was of an unrecognized type.
    Unrecognized,
}

/// The source position of the fault, when the runtime knew it.
pub struct FaultLocation {
    pub file: String,
    pub line: u32,
}

/// The structured report the fault hook logs: the message part, the location
/// part (absent means "location unknown" is logged), and the captured
/// call-stack trace, always present.
pub struct FaultReport {
    pub payload: FaultPayload,
    pub location: Option<FaultLocation>,
    pub backtrace: String,
}

/// Build the one structured report for a contained native fault. The
/// payload is carried verbatim when it was string-like and marked
/// unrecognized otherwise; the location is carried exactly when known; the
/// backtrace is carried verbatim.
pub fn fault_report(
    payload: Option<String>,
    location: Option<FaultLocation>,
    backtrace: String,
) -> (r: FaultReport)
    ensures
        (payload matches Some(message) ==> r.payload matches FaultPayload::Message(m)
            && m == message),
        (payload is None ==> r.payload is Unrecognized),
        r.location == location,
        r.backtrace == backtrace,
{
    let message = match payload {
        Some(message) => FaultPayload::Message(message),
        None => FaultPayload::Unrecognized,
    };
    FaultReport { payload: message, location, backtrace }
}

} // verus!
