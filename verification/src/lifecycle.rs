//! The provisioning lifecycle: the finite set of states the host
//! provisioning state machine moves through, with `Error` absorbing.

use vstd::prelude::*;

verus! {

/// The lifecycle of the host provisioning state machine.
///
/// The machine starts in `Initial`, moves to `DataSourcesLoading` once a
/// program is loaded (or straight to `ReadyToExecute` when no data sources
/// are expected), to `ReadyToExecute` once every expected data source has
/// arrived, and to `FinishedExecuting` when the guest program returns.
/// `Error` is terminal: once entered it is never left.
#[derive(Clone, Copy, PartialEq, Eq, Structural, Debug)]
pub enum LifecycleState {
    /// No program has been loaded yet.
    Initial,
    /// A program is loaded and data sources are still being collected.
    DataSourcesLoading,
    /// Every expected data source has arrived; the program may run.
    ReadyToExecute,
    /// The program has run to completion and returned a code.
    FinishedExecuting,
    /// Something fatal happened; the machine refuses all further work.
    Error,
}

} // verus!
