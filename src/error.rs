use vstd::prelude::*;

verus! {

/// The kinds of failure that the instance and its facade report.
#[derive(Clone, Copy, Debug, PartialEq, Eq, Structural)]
pub enum HolochainError {
    /// `start` was asked of an instance that is already active.
    InstanceActive,
    /// `stop` or `call` was asked of an instance that is not active.
    InstanceNotActive,
    /// The reduction of the requested action is not implemented yet.
    NotImplemented,
    /// `consume_next_action` found no pending action.
    EmptyActionQueue,
    /// An `InitApplication` action reached a state that already holds a package.
    DnaAlreadyLoaded,
    /// The logging capability could not record a line.
    LoggingError,
}

} // verus!
