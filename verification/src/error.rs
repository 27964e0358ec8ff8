//! The two error strata of the runtime: fatal host errors, which abort the
//! guest and drive the lifecycle to `Error`, and provisioning errors, which
//! the runtime facade reports to its callers.

use vstd::prelude::*;
use crate::lifecycle::LifecycleState;

verus! {

/// Names one of the five host calls, for error attribution.
#[derive(Clone, Copy, PartialEq, Eq, Structural, Debug)]
pub enum HostCallKind {
    InputCount,
    InputSize,
    ReadInput,
    WriteOutput,
    GetRandom,
}

/// A fatal host error: a failure that aborts the guest's execution and
/// drives the provisioning lifecycle to `Error`.  These indicate a
/// compromised or malformed program, or a host that is not in a state to
/// run one; none of them is ever reported to the guest as a status code.
#[derive(Clone, Copy, PartialEq, Eq, Structural, Debug)]
pub enum FatalHostError {
    /// A host call was reached while no linear memory is registered, or the
    /// module exports none.
    NoMemoryRegistered,
    /// The entry point was invoked before any program was loaded.
    NoProgramModuleRegistered,
    /// The loaded program exports no entry point of an accepted shape.
    NoProgramEntryPoint,
    /// A host call was made with the wrong number of arguments.
    BadArgumentsToHostFunction { function: HostCallKind },
    /// The host could not read the guest's memory at the given region.
    MemoryReadFailed { memory_address: usize, bytes_to_be_read: usize },
    /// The host could not write the guest's memory at the given region.
    MemoryWriteFailed { memory_address: usize, bytes_to_be_written: usize },
    /// The guest called a host function index outside the dispatch table.
    UnknownHostFunction { index: usize },
    /// The entry point returned something other than a 32-bit integer.
    ReturnedCodeError,
    /// The entry point was invoked outside the `ReadyToExecute` state.
    EngineIsNotReady,
    /// The engine reported a trap raised by the guest program itself.
    WASMITrapError,
}

/// An error of the provisioning facade: a well-formed request that the
/// runtime refuses, reported to the external caller.
#[derive(Clone, Copy, PartialEq, Eq, Structural, Debug)]
pub enum HostProvisioningError {
    /// The program image is not a valid WASM module, or declares a start
    /// function, which the runtime forbids.
    InvalidWASMModule,
    /// The module's imports could not be resolved against the host-call
    /// interface.
    ModuleInstantiationFailure,
    /// The module exports no linear memory under the expected name.
    NoLinearMemoryFound,
    /// The operation is not permitted in the current lifecycle state.
    InvalidLifeCycleState { expected: LifecycleState, found: LifecycleState },
}

} // verus!
