//! The host provisioning state: the single state machine that owns the
//! loaded program, the sandbox memory, the provisioned data sources, the
//! program digest and the result, and that dispatches the five host calls.

use vstd::prelude::*;
use vstd::slice::slice_to_vec;
use crate::digest::{sha256_of, sha_256_digest};
use crate::error::{FatalHostError, HostCallKind, HostProvisioningError};
use crate::lifecycle::LifecycleState;
use crate::memory::LinearMemory;
use crate::laws::{
    lemma_result_iff_write_output, lemma_run_frame, lemma_run_snoc_fatal, lemma_run_snoc_status,
};
use crate::semantics::{
    hcall_step_rel, ops_of, outcome_of, run_hcalls_rel, step_get_random_rel, step_input_count,
    step_input_size, step_read_input, step_write_output, HcallEnv, HcallOp, HcallOutcome,
};
use crate::status::{spec_status_code, status_code, VeracruzStatus};
use crate::random::{fill_random_bytes, RandomOutcome};
use crate::wasm::{
    check_entry, get_module_memory, resolve_imports, spec_check_main, spec_entry_of,
    spec_module_memory, imports_resolvable, DecodeOutcome, EntrySignature, ExecutionOutcome,
    RuntimeValue, WasmModule, ENTRY_POINT_NAME, HCALL_GETRANDOM_CODE, HCALL_INPUT_COUNT_CODE,
    HCALL_INPUT_SIZE_CODE, HCALL_READ_INPUT_CODE, HCALL_WRITE_OUTPUT_CODE,
};

verus! {

/// One provisioned input: the contributing client and the bytes it sent.
/// Immutable once registered; the byte length must fit the 32-bit host-call
/// interface.
pub struct DataSourceMetadata {
    pub client_id: u64,
    pub data: Vec<u8>,
}

/// The mathematical content of a provisioned input.
pub ghost struct FrameView {
    pub client_id: u64,
    pub data: Seq<u8>,
}

impl View for DataSourceMetadata {
    type V = FrameView;

    open spec fn view(&self) -> FrameView {
        FrameView { client_id: self.client_id, data: self.data@ }
    }
}

/// The mathematical content of the host provisioning state.
#[verifier::ext_equal]
pub ghost struct HpsView {
    pub lifecycle: LifecycleState,
    pub program_module: Option<WasmModule>,
    pub memory: Option<Seq<u8>>,
    pub program_digest: Option<Seq<u8>>,
    pub expected_data_sources: Seq<u64>,
    pub received_data_sources: Seq<FrameView>,
    pub expected_shutdown_sources: Seq<u64>,
    pub received_shutdown_requests: Seq<u64>,
    pub result: Option<Seq<u8>>,
}

/// The slice of the state a host call sees: memory, data-source bytes and
/// the result slot.
pub open spec fn hcall_env(v: HpsView) -> HcallEnv {
    HcallEnv {
        memory: v.memory,
        frames: v.received_data_sources.map_values(|f: FrameView| f.data),
        result: v.result,
    }
}

/// The data sources respect the 32-bit host-call interface: their count and
/// each of their lengths fit a `u32`.
pub open spec fn frames_fit(v: HpsView) -> bool {
    &&& v.received_data_sources.len() <= u32::MAX
    &&& forall|i: int|
        0 <= i < v.received_data_sources.len() ==> (#[trigger] v.received_data_sources[i]).data.len()
            <= u32::MAX
}

/// Every data source contributed so far holds: nothing past the expected
/// count was accepted.
pub open spec fn sources_bounded(v: HpsView) -> bool {
    &&& v.expected_data_sources.len() <= u32::MAX
    &&& v.received_data_sources.len() <= v.expected_data_sources.len()
}

/// Well-formedness of the host provisioning state.  Established by the
/// constructor and preserved by every operation; the lifecycle-dependent
/// clauses say nothing of the `Error` state, which absorbs failures of any
/// shape.
pub open spec fn wf(v: HpsView) -> bool {
    &&& frames_fit(v)
    &&& sources_bounded(v)
    &&& (v.program_module is Some <==> v.memory is Some)
    &&& (v.program_module is Some <==> v.program_digest is Some)
    &&& (v.program_digest matches Some(d) ==> d.len() == 32)
    &&& (v.lifecycle == LifecycleState::Initial ==> v.program_module is None
        && v.received_data_sources.len() == 0)
    &&& (v.lifecycle == LifecycleState::DataSourcesLoading || v.lifecycle
        == LifecycleState::ReadyToExecute || v.lifecycle == LifecycleState::FinishedExecuting
        ==> v.program_module is Some)
    &&& (v.lifecycle == LifecycleState::DataSourcesLoading ==> v.received_data_sources.len()
        < v.expected_data_sources.len())
    &&& (v.lifecycle == LifecycleState::ReadyToExecute || v.lifecycle
        == LifecycleState::FinishedExecuting ==> v.received_data_sources.len()
        == v.expected_data_sources.len())
}

/// Every client named by `expected` has requested shutdown.
pub open spec fn able_to_shutdown(v: HpsView) -> bool {
    forall|i: int|
        0 <= i < v.expected_shutdown_sources.len() ==> v.received_shutdown_requests.contains(
            #[trigger] v.expected_shutdown_sources[i],
        )
}

/// The host provisioning state machine.  A single writer mutates it; all
/// queries are pure reads.
pub struct HostProvisioningState {
    lifecycle: LifecycleState,
    program_module: Option<WasmModule>,
    memory: Option<LinearMemory>,
    program_digest: Option<Vec<u8>>,
    expected_data_sources: Vec<u64>,
    received_data_sources: Vec<DataSourceMetadata>,
    expected_shutdown_sources: Vec<u64>,
    received_shutdown_requests: Vec<u64>,
    result: Option<Vec<u8>>,
}

impl View for HostProvisioningState {
    type V = HpsView;

    closed spec fn view(&self) -> HpsView {
        HpsView {
            lifecycle: self.lifecycle,
            program_module: self.program_module,
            memory: match self.memory {
                Some(m) => Some(m@),
                None => None,
            },
            program_digest: match self.program_digest {
                Some(d) => Some(d@),
                None => None,
            },
            expected_data_sources: self.expected_data_sources@,
            received_data_sources: self.received_data_sources@.map_values(
                |m: DataSourceMetadata| m@,
            ),
            expected_shutdown_sources: self.expected_shutdown_sources@,
            received_shutdown_requests: self.received_shutdown_requests@,
            result: match self.result {
                Some(r) => Some(r@),
                None => None,
            },
        }
    }
}

/// A membership test over a plain vector of client identifiers.
fn vec_contains_u64(v: &Vec<u64>, x: u64) -> (r: bool)
    ensures
        r == v@.contains(x),
{
    let mut i: usize = 0;
    while i < v.len()
        invariant
            i <= v@.len(),
            forall|j: int| 0 <= j < i ==> v@[j] != x,
        decreases v@.len() - i,
    {
        if v[i] == x {
            return true;
        }
        i = i + 1;
    }
    false
}

impl HostProvisioningState {
    /// A fresh provisioning state: `Initial`, with nothing loaded, nothing
    /// received and nothing expected.
    pub fn new() -> (state: HostProvisioningState)
        ensures
            state@.lifecycle == LifecycleState::Initial,
            state@.program_module is None,
            state@.memory is None,
            state@.program_digest is None,
            state@.expected_data_sources == Seq::<u64>::empty(),
            state@.received_data_sources == Seq::<FrameView>::empty(),
            state@.expected_shutdown_sources == Seq::<u64>::empty(),
            state@.received_shutdown_requests == Seq::<u64>::empty(),
            state@.result is None,
            wf(state@),
    {
        let state = HostProvisioningState {
            lifecycle: LifecycleState::Initial,
            program_module: None,
            memory: None,
            program_digest: None,
            expected_data_sources: Vec::new(),
            received_data_sources: Vec::new(),
            expected_shutdown_sources: Vec::new(),
            received_shutdown_requests: Vec::new(),
            result: None,
        };
        proof {
            assert(state@.expected_data_sources =~= Seq::<u64>::empty());
            assert(state@.received_data_sources =~= Seq::<FrameView>::empty());
            assert(state@.expected_shutdown_sources =~= Seq::<u64>::empty());
            assert(state@.received_shutdown_requests =~= Seq::<u64>::empty());
        }
        state
    }

    /// Whether a program module is registered.
    pub fn is_program_registered(&self) -> (r: bool)
        ensures
            r == (self@.program_module is Some),
    {
        self.program_module.is_some()
    }

    /// Whether a result has been registered by the guest.
    pub fn is_result_registered(&self) -> (r: bool)
        ensures
            r == (self@.result is Some),
    {
        self.result.is_some()
    }

    /// Whether a linear memory is registered.
    pub fn is_memory_registered(&self) -> (r: bool)
        ensures
            r == (self@.memory is Some),
    {
        self.memory.is_some()
    }

    /// Whether every client authorized to request shutdown has done so.
    pub fn is_able_to_shutdown(&self) -> (r: bool)
        ensures
            r == able_to_shutdown(self@),
    {
        let mut i: usize = 0;
        while i < self.expected_shutdown_sources.len()
            invariant
                i <= self.expected_shutdown_sources@.len(),
                forall|j: int|
                    0 <= j < i ==> self.received_shutdown_requests@.contains(
                        #[trigger] self.expected_shutdown_sources@[j],
                    ),
            decreases self.expected_shutdown_sources@.len() - i,
        {
            if !vec_contains_u64(&self.received_shutdown_requests, self.expected_shutdown_sources[i]) {
                proof {
                    assert(!self@.received_shutdown_requests.contains(
                        self@.expected_shutdown_sources[i as int],
                    ));
                }
                return false;
            }
            i = i + 1;
        }
        true
    }

    /// The current lifecycle state.
    pub fn get_lifecycle_state(&self) -> (state: LifecycleState)
        ensures
            state == self@.lifecycle,
    {
        self.lifecycle
    }

    /// The number of data sources received so far.
    pub fn get_current_data_source_count(&self) -> (count: u64)
        ensures
            count == self@.received_data_sources.len(),
    {
        self.received_data_sources.len() as u64
    }

    /// The clients expected to contribute data, in order.
    pub fn get_expected_data_sources(&self) -> (sources: Vec<u64>)
        ensures
            sources@ == self@.expected_data_sources,
    {
        slice_to_vec(self.expected_data_sources.as_slice())
    }

    /// The clients authorized to request shutdown, in order.
    pub fn get_expected_shutdown_sources(&self) -> (sources: Vec<u64>)
        ensures
            sources@ == self@.expected_shutdown_sources,
    {
        slice_to_vec(self.expected_shutdown_sources.as_slice())
    }

    /// The registered result, if the guest has written one.
    pub fn get_result(&self) -> (r: Option<Vec<u8>>)
        ensures
            r is Some <==> self@.result is Some,
            r matches Some(bytes) ==> self@.result == Some(bytes@),
    {
        match &self.result {
            Some(bytes) => Some(slice_to_vec(bytes.as_slice())),
            None => None,
        }
    }

    /// The SHA-256 digest of the loaded program image, if one is loaded.
    pub fn get_program_digest(&self) -> (r: Option<Vec<u8>>)
        ensures
            r is Some <==> self@.program_digest is Some,
            r matches Some(digest) ==> self@.program_digest == Some(digest@),
    {
        match &self.program_digest {
            Some(digest) => Some(slice_to_vec(digest.as_slice())),
            None => None,
        }
    }

    /// Fixes the list of clients expected to contribute data.  Permitted
    /// only in the `Initial` state; anywhere else it is fatal and drives the
    /// lifecycle to `Error`.
    pub fn set_expected_data_sources(&mut self, sources: &[u64])
        requires
            sources@.len() <= u32::MAX,
            wf(old(self)@),
        ensures
            wf(final(self)@),
            old(self)@.lifecycle == LifecycleState::Initial ==> final(self)@ == (HpsView {
                expected_data_sources: sources@,
                ..old(self)@
            }),
            old(self)@.lifecycle != LifecycleState::Initial ==> final(self)@ == (HpsView {
                lifecycle: LifecycleState::Error,
                ..old(self)@
            }),
            old(self)@.lifecycle == LifecycleState::Error ==> final(self)@.lifecycle
                == LifecycleState::Error,
    {
        if matches!(self.lifecycle, LifecycleState::Initial) {
            self.expected_data_sources = slice_to_vec(sources);
        } else {
            self.lifecycle = LifecycleState::Error;
        }
    }

    /// Fixes the list of clients authorized to request shutdown.  Permitted
    /// only in the `Initial` state; anywhere else it is fatal and drives the
    /// lifecycle to `Error`.
    pub fn set_expected_shutdown_sources(&mut self, sources: &[u64])
        requires
            wf(old(self)@),
        ensures
            wf(final(self)@),
            old(self)@.lifecycle == LifecycleState::Initial ==> final(self)@ == (HpsView {
                expected_shutdown_sources: sources@,
                ..old(self)@
            }),
            old(self)@.lifecycle != LifecycleState::Initial ==> final(self)@ == (HpsView {
                lifecycle: LifecycleState::Error,
                ..old(self)@
            }),
            old(self)@.lifecycle == LifecycleState::Error ==> final(self)@.lifecycle
                == LifecycleState::Error,
    {
        if matches!(self.lifecycle, LifecycleState::Initial) {
            self.expected_shutdown_sources = slice_to_vec(sources);
        } else {
            self.lifecycle = LifecycleState::Error;
        }
    }

    /// Records a shutdown request.  An unauthorized client is silently
    /// ignored; an authorized one is recorded once.
    pub fn request_shutdown(&mut self, client_id: u64)
        requires
            wf(old(self)@),
        ensures
            wf(final(self)@),
            old(self)@.expected_shutdown_sources.contains(client_id) && !old(self)@.received_shutdown_requests.contains(client_id) ==> final(self)@ == (HpsView {
                received_shutdown_requests: old(self)@.received_shutdown_requests.push(client_id),
                ..old(self)@
            }),
            !old(self)@.expected_shutdown_sources.contains(client_id) || old(self)@.received_shutdown_requests.contains(client_id) ==> final(self)@ == old(self)@,
            final(self)@.received_shutdown_requests.contains(client_id) <==> old(self)@.received_shutdown_requests.contains(client_id) || old(self)@.expected_shutdown_sources.contains(client_id),
            final(self)@.lifecycle == old(self)@.lifecycle,
    {
        if vec_contains_u64(&self.expected_shutdown_sources, client_id) && !vec_contains_u64(
            &self.received_shutdown_requests,
            client_id,
        ) {
            self.received_shutdown_requests.push(client_id);
            proof {
                let requests = self.received_shutdown_requests@;
                assert(requests[requests.len() - 1] == client_id);
                assert(requests.contains(client_id));
            }
        }
    }

    /// Forces the lifecycle to `Error`: nothing further will be accepted.
    pub fn invalidate(&mut self)
        requires
            wf(old(self)@),
        ensures
            wf(final(self)@),
            final(self)@ == (HpsView { lifecycle: LifecycleState::Error, ..old(self)@ }),
    {
        self.lifecycle = LifecycleState::Error;
    }

    /// Registers one contributed data source.  Permitted only while data
    /// sources are loading; the frame is appended in arrival order, and once
    /// every expected source has arrived the machine becomes ready to
    /// execute.  Anywhere else the call is fatal: the lifecycle moves to
    /// `Error` and the mismatch is reported.
    pub fn add_new_data_source(&mut self, metadata: DataSourceMetadata) -> (r: Result<
        (),
        HostProvisioningError,
    >)
        requires
            metadata.data@.len() <= u32::MAX,
            wf(old(self)@),
        ensures
            wf(final(self)@),
            old(self)@.lifecycle == LifecycleState::DataSourcesLoading ==> r is Ok && final(self)@
                == (HpsView {
                lifecycle: if old(self)@.received_data_sources.len() + 1 == old(self)@.expected_data_sources.len() {
                    LifecycleState::ReadyToExecute
                } else {
                    LifecycleState::DataSourcesLoading
                },
                received_data_sources: old(self)@.received_data_sources.push(metadata@),
                ..old(self)@
            }),
            old(self)@.lifecycle != LifecycleState::DataSourcesLoading ==> r == Err::<
                (),
                HostProvisioningError,
            >(
                HostProvisioningError::InvalidLifeCycleState {
                    expected: LifecycleState::DataSourcesLoading,
                    found: old(self)@.lifecycle,
                },
            ) && final(self)@ == (HpsView { lifecycle: LifecycleState::Error, ..old(self)@ }),
            old(self)@.lifecycle == LifecycleState::Error ==> final(self)@.lifecycle
                == LifecycleState::Error,
    {
        if !matches!(self.lifecycle, LifecycleState::DataSourcesLoading) {
            let found = self.lifecycle;
            self.lifecycle = LifecycleState::Error;
            return Err(
                HostProvisioningError::InvalidLifeCycleState {
                    expected: LifecycleState::DataSourcesLoading,
                    found,
                },
            );
        }
        let ghost old_frames = self.received_data_sources@.map_values(|m: DataSourceMetadata| m@);
        let ghost frame = metadata@;
        self.received_data_sources.push(metadata);
        proof {
            assert(self.received_data_sources@.map_values(|m: DataSourceMetadata| m@)
                =~= old_frames.push(frame));
        }
        if self.received_data_sources.len() == self.expected_data_sources.len() {
            self.lifecycle = LifecycleState::ReadyToExecute;
        }
        Ok(())
    }

    /// Loads a program image.  `buffer` holds the raw bytes, whose SHA-256
    /// digest is recorded; `decoded` is the external decoder's verdict on
    /// those bytes.  Permitted only in the `Initial` state.  The module's
    /// imports are resolved against the host-call interface, a module that
    /// declares a start function is rejected, and the module must export a
    /// linear memory.  On success the module, its memory and the digest are
    /// registered, and the machine moves to `ReadyToExecute` when no data
    /// sources are expected, to `DataSourcesLoading` otherwise.  Every
    /// failure drives the lifecycle to `Error`.
    pub fn load_program(&mut self, buffer: &[u8], decoded: DecodeOutcome) -> (r: Result<
        (),
        HostProvisioningError,
    >)
        requires
            wf(old(self)@),
        ensures
            wf(final(self)@),
            old(self)@.lifecycle != LifecycleState::Initial ==> r == Err::<
                (),
                HostProvisioningError,
            >(
                HostProvisioningError::InvalidLifeCycleState {
                    expected: LifecycleState::Initial,
                    found: old(self)@.lifecycle,
                },
            ) && final(self)@ == (HpsView { lifecycle: LifecycleState::Error, ..old(self)@ }),
            old(self)@.lifecycle == LifecycleState::Initial && decoded is Rejected ==> r == Err::<
                (),
                HostProvisioningError,
            >(HostProvisioningError::InvalidWASMModule) && final(self)@ == (HpsView {
                lifecycle: LifecycleState::Error,
                ..old(self)@
            }),
            old(self)@.lifecycle == LifecycleState::Initial ==> (decoded matches DecodeOutcome::Decoded(module)
                ==> {
                &&& !imports_resolvable(module.imports@) ==> r == Err::<
                    (),
                    HostProvisioningError,
                >(HostProvisioningError::ModuleInstantiationFailure) && final(self)@ == (HpsView {
                    lifecycle: LifecycleState::Error,
                    ..old(self)@
                })
                &&& imports_resolvable(module.imports@) && module.declares_start ==> r == Err::<
                    (),
                    HostProvisioningError,
                >(HostProvisioningError::InvalidWASMModule) && final(self)@ == (HpsView {
                    lifecycle: LifecycleState::Error,
                    ..old(self)@
                })
                &&& imports_resolvable(module.imports@) && !module.declares_start
                    && spec_module_memory(module) is None ==> r == Err::<
                    (),
                    HostProvisioningError,
                >(HostProvisioningError::NoLinearMemoryFound) && final(self)@ == (HpsView {
                    lifecycle: LifecycleState::Error,
                    ..old(self)@
                })
                &&& imports_resolvable(module.imports@) && !module.declares_start ==> (
                spec_module_memory(module) matches Some(initial_memory) ==> r is Ok
                    && final(self)@ == (HpsView {
                    lifecycle: if old(self)@.expected_data_sources.len() == 0 {
                        LifecycleState::ReadyToExecute
                    } else {
                        LifecycleState::DataSourcesLoading
                    },
                    program_module: Some(module),
                    memory: Some(initial_memory),
                    program_digest: Some(sha256_of(buffer@)),
                    ..old(self)@
                }))
            }),
            r is Ok ==> final(self)@.program_digest == Some(sha256_of(buffer@)),
            r is Ok && old(self)@.expected_data_sources.len() == 0 ==> final(self)@.lifecycle
                == LifecycleState::ReadyToExecute,
            old(self)@.lifecycle == LifecycleState::Error ==> final(self)@.lifecycle
                == LifecycleState::Error,
    {
        if !matches!(self.lifecycle, LifecycleState::Initial) {
            let found = self.lifecycle;
            self.lifecycle = LifecycleState::Error;
            return Err(
                HostProvisioningError::InvalidLifeCycleState {
                    expected: LifecycleState::Initial,
                    found,
                },
            );
        }
        let module = match decoded {
            DecodeOutcome::Rejected => {
                self.lifecycle = LifecycleState::Error;
                return Err(HostProvisioningError::InvalidWASMModule);
            },
            DecodeOutcome::Decoded(module) => module,
        };
        if resolve_imports(&module).is_err() {
            self.lifecycle = LifecycleState::Error;
            return Err(HostProvisioningError::ModuleInstantiationFailure);
        }
        if module.declares_start {
            self.lifecycle = LifecycleState::Error;
            return Err(HostProvisioningError::InvalidWASMModule);
        }
        let linear_memory = match get_module_memory(&module) {
            Err(_) => {
                self.lifecycle = LifecycleState::Error;
                return Err(HostProvisioningError::NoLinearMemoryFound);
            },
            Ok(linear_memory) => linear_memory,
        };
        self.program_module = Some(module);
        self.memory = Some(linear_memory);
        self.program_digest = Some(sha_256_digest(buffer));
        if self.expected_data_sources.len() == 0 {
            self.lifecycle = LifecycleState::ReadyToExecute;
        } else {
            self.lifecycle = LifecycleState::DataSourcesLoading;
        }
        Ok(())
    }

    /// The `__veracruz_hcall_write_output` host call: reads the guest's
    /// buffer and registers it as the result.  The result is written at most
    /// once; a second write is answered with `ResultAlreadyWritten` and the
    /// registered bytes stay exactly as the first call left them.
    pub fn write_output(&mut self, args: &Vec<u32>) -> (r: Result<VeracruzStatus, FatalHostError>)
        ensures
            hcall_untouched(old(self)@, final(self)@),
            (hcall_env(final(self)@), outcome_of(r)) == step_write_output(
                hcall_env(old(self)@),
                args@,
            ),
            old(self)@.result is Some ==> final(self)@.result == old(self)@.result,
    {
        if args.len() != 2 {
            return Err(
                FatalHostError::BadArgumentsToHostFunction { function: HostCallKind::WriteOutput },
            );
        }
        let address = args[0];
        let size = args[1];
        match &self.memory {
            None => Err(FatalHostError::NoMemoryRegistered),
            Some(memory) => {
                match memory.read_region(address, size) {
                    Err(_) => Err(
                        FatalHostError::MemoryReadFailed {
                            memory_address: address as usize,
                            bytes_to_be_read: size as usize,
                        },
                    ),
                    Ok(bytes) => {
                        if self.result.is_some() {
                            Ok(VeracruzStatus::ResultAlreadyWritten)
                        } else {
                            self.result = Some(bytes);
                            Ok(VeracruzStatus::Success)
                        }
                    },
                }
            },
        }
    }

    /// The `__veracruz_hcall_input_count` host call: writes the number of
    /// currently registered data sources, as a little-endian `u32`, into the
    /// guest's memory.
    pub fn input_count(&mut self, args: &Vec<u32>) -> (r: Result<VeracruzStatus, FatalHostError>)
        requires
            old(self)@.received_data_sources.len() <= u32::MAX,
        ensures
            hcall_untouched(old(self)@, final(self)@),
            final(self)@.result == old(self)@.result,
            (hcall_env(final(self)@), outcome_of(r)) == step_input_count(
                hcall_env(old(self)@),
                args@,
            ),
    {
        if args.len() != 1 {
            return Err(
                FatalHostError::BadArgumentsToHostFunction { function: HostCallKind::InputCount },
            );
        }
        let address = args[0];
        let count = self.received_data_sources.len() as u32;
        match &mut self.memory {
            None => Err(FatalHostError::NoMemoryRegistered),
            Some(memory) => {
                match memory.write_u32_le(address, count) {
                    Err(_) => Err(
                        FatalHostError::MemoryWriteFailed {
                            memory_address: address as usize,
                            bytes_to_be_written: 4,
                        },
                    ),
                    Ok(()) => Ok(VeracruzStatus::Success),
                }
            },
        }
    }

    /// The `__veracruz_hcall_input_size` host call: writes the byte length
    /// of the data source at the requested index, as a little-endian `u32`,
    /// into the guest's memory.  An index at or past the registered count is
    /// answered with `BadInput`, and nothing — guest memory included — is
    /// changed.
    pub fn input_size(&mut self, args: &Vec<u32>) -> (r: Result<VeracruzStatus, FatalHostError>)
        requires
            frames_fit(old(self)@),
        ensures
            hcall_untouched(old(self)@, final(self)@),
            final(self)@.result == old(self)@.result,
            (hcall_env(final(self)@), outcome_of(r)) == step_input_size(
                hcall_env(old(self)@),
                args@,
            ),
            args@.len() == 2 && old(self)@.memory is Some && args@[0] >= old(self)@.received_data_sources.len() ==> r == Ok::<VeracruzStatus, FatalHostError>(
                VeracruzStatus::BadInput,
            ) && final(self)@ == old(self)@,
    {
        if args.len() != 2 {
            return Err(
                FatalHostError::BadArgumentsToHostFunction { function: HostCallKind::InputSize },
            );
        }
        let index = args[0];
        let address = args[1];
        if self.memory.is_none() {
            return Err(FatalHostError::NoMemoryRegistered);
        }
        if index as usize >= self.received_data_sources.len() {
            return Ok(VeracruzStatus::BadInput);
        }
        let length = self.received_data_sources[index as usize].data.len() as u32;
        match &mut self.memory {
            None => Err(FatalHostError::NoMemoryRegistered),
            Some(memory) => {
                match memory.write_u32_le(address, length) {
                    Err(_) => Err(
                        FatalHostError::MemoryWriteFailed {
                            memory_address: address as usize,
                            bytes_to_be_written: 4,
                        },
                    ),
                    Ok(()) => Ok(VeracruzStatus::Success),
                }
            },
        }
    }

    /// The `__veracruz_hcall_read_input` host call: copies the data source
    /// at the requested index into the guest's buffer, byte for byte.  An
    /// index at or past the registered count is answered with `BadInput`; a
    /// buffer smaller than the data is answered with `DataSourceSize`; in
    /// both cases nothing — guest memory included — is changed.
    pub fn read_input(&mut self, args: &Vec<u32>) -> (r: Result<VeracruzStatus, FatalHostError>)
        ensures
            hcall_untouched(old(self)@, final(self)@),
            final(self)@.result == old(self)@.result,
            (hcall_env(final(self)@), outcome_of(r)) == step_read_input(
                hcall_env(old(self)@),
                args@,
            ),
            args@.len() == 3 && old(self)@.memory is Some && args@[0] >= old(self)@.received_data_sources.len() ==> r == Ok::<VeracruzStatus, FatalHostError>(
                VeracruzStatus::BadInput,
            ) && final(self)@ == old(self)@,
    {
        if args.len() != 3 {
            return Err(
                FatalHostError::BadArgumentsToHostFunction { function: HostCallKind::ReadInput },
            );
        }
        let index = args[0];
        let address = args[1];
        let size = args[2];
        if self.memory.is_none() {
            return Err(FatalHostError::NoMemoryRegistered);
        }
        if index as usize >= self.received_data_sources.len() {
            return Ok(VeracruzStatus::BadInput);
        }
        let data = &self.received_data_sources[index as usize].data;
        if data.len() > size as usize {
            return Ok(VeracruzStatus::DataSourceSize);
        }
        match &mut self.memory {
            None => Err(FatalHostError::NoMemoryRegistered),
            Some(memory) => {
                match memory.write_region(address, data) {
                    Err(_) => Err(
                        FatalHostError::MemoryWriteFailed {
                            memory_address: address as usize,
                            bytes_to_be_written: data.len(),
                        },
                    ),
                    Ok(()) => Ok(VeracruzStatus::Success),
                }
            },
        }
    }

    /// The `__veracruz_hcall_getrandom` host call: fills the guest's buffer
    /// with bytes from the random source.  If the source is unavailable or
    /// fails, the guest is told so by status code and nothing is changed.
    pub fn get_random(&mut self, args: &Vec<u32>) -> (r: Result<VeracruzStatus, FatalHostError>)
        ensures
            hcall_untouched(old(self)@, final(self)@),
            final(self)@.result == old(self)@.result,
            step_get_random_rel(hcall_env(old(self)@), args@, hcall_env(final(self)@), outcome_of(r)),
    {
        if args.len() != 2 {
            return Err(
                FatalHostError::BadArgumentsToHostFunction { function: HostCallKind::GetRandom },
            );
        }
        let address = args[0];
        let size = args[1];
        let mut buffer: Vec<u8> = vec![0u8; size as usize];
        match &mut self.memory {
            None => Err(FatalHostError::NoMemoryRegistered),
            Some(memory) => {
                match fill_random_bytes(&mut buffer) {
                    RandomOutcome::Success => {
                        match memory.write_region(address, &buffer) {
                            Err(_) => Err(
                                FatalHostError::MemoryWriteFailed {
                                    memory_address: address as usize,
                                    bytes_to_be_written: size as usize,
                                },
                            ),
                            Ok(()) => Ok(VeracruzStatus::Success),
                        }
                    },
                    RandomOutcome::Unavailable => Ok(VeracruzStatus::ServiceUnavailable),
                    RandomOutcome::UnknownError => Ok(VeracruzStatus::Generic),
                }
            },
        }
    }

    /// The host-call dispatcher: routes a dispatch code issued by the guest
    /// to its handler, wraps a status as the `i32` runtime value the guest
    /// receives, and raises an unknown code as a fatal host trap.
    pub fn invoke_index(&mut self, index: usize, args: &Vec<u32>) -> (r: Result<
        Option<RuntimeValue>,
        FatalHostError,
    >)
        requires
            frames_fit(old(self)@),
        ensures
            hcall_untouched(old(self)@, final(self)@),
            r matches Ok(value) ==> exists|status: VeracruzStatus|
                #[trigger] hcall_step_rel(
                    hcall_env(old(self)@),
                    (HcallOp { index, args: args@ }),
                    hcall_env(final(self)@),
                    HcallOutcome::Status(status),
                ) && value == Some(RuntimeValue::I32(spec_status_code(status))),
            r matches Err(e) ==> hcall_step_rel(
                hcall_env(old(self)@),
                (HcallOp { index, args: args@ }),
                hcall_env(final(self)@),
                HcallOutcome::Fatal(e),
            ),
    {
        let status = if index == HCALL_WRITE_OUTPUT_CODE {
            self.write_output(args)
        } else if index == HCALL_INPUT_COUNT_CODE {
            self.input_count(args)
        } else if index == HCALL_INPUT_SIZE_CODE {
            self.input_size(args)
        } else if index == HCALL_READ_INPUT_CODE {
            self.read_input(args)
        } else if index == HCALL_GETRANDOM_CODE {
            self.get_random(args)
        } else {
            return Err(FatalHostError::UnknownHostFunction { index });
        };
        match status {
            Ok(code) => {
                proof {
                    assert(hcall_step_rel(
                        hcall_env(old(self)@),
                        (HcallOp { index, args: args@ }),
                        hcall_env(self@),
                        HcallOutcome::Status(code),
                    ));
                }
                Ok(mk_error_code(code))
            },
            Err(e) => Err(e),
        }
    }

    /// Invokes the exported function under `export_name` in the provisioned
    /// program.  The export must be an entry point of an accepted shape; the
    /// arguments it receives follow `entry_arguments`, and the model guest's
    /// recorded behaviour does not depend on them.  The engine then runs the
    /// guest: its host calls are dispatched in order, a fatal host error
    /// aborts the run, and otherwise the guest's own outcome — a return
    /// value or a trap — is reported.
    pub fn invoke_export(&mut self, export_name: &str) -> (r: Result<
        Option<RuntimeValue>,
        FatalHostError,
    >)
        requires
            frames_fit(old(self)@),
        ensures
            hcall_untouched(old(self)@, final(self)@),
            old(self)@.program_module is None ==> r == Err::<Option<RuntimeValue>, FatalHostError>(
                FatalHostError::NoProgramModuleRegistered,
            ) && final(self)@ == old(self)@,
            old(self)@.program_module matches Some(module) ==> {
                &&& spec_entry_of(module, export_name@) == EntrySignature::NoEntryFound ==> r
                    == Err::<Option<RuntimeValue>, FatalHostError>(
                    FatalHostError::NoProgramEntryPoint,
                ) && final(self)@ == old(self)@
                &&& spec_entry_of(module, export_name@) != EntrySignature::NoEntryFound ==> {
                    &&& r matches Ok(value) ==> run_hcalls_rel(
                        hcall_env(old(self)@),
                        ops_of(module),
                        hcall_env(final(self)@),
                        None,
                    ) && module.outcome == ExecutionOutcome::Returns(value)
                    &&& r matches Err(e) ==> (e == FatalHostError::WASMITrapError
                        && module.outcome == ExecutionOutcome::Traps && run_hcalls_rel(
                        hcall_env(old(self)@),
                        ops_of(module),
                        hcall_env(final(self)@),
                        None,
                    )) || (exists|n: int|
                        0 <= n <= ops_of(module).len() && #[trigger] run_hcalls_rel(
                            hcall_env(old(self)@),
                            ops_of(module).take(n),
                            hcall_env(final(self)@),
                            Some(e),
                        ))
                }
            },
    {
        let ghost pre = old(self)@;
        let module = match self.program_module.take() {
            None => {
                proof {
                    assert(self@ =~= old(self)@);
                }
                return Err(FatalHostError::NoProgramModuleRegistered);
            },
            Some(module) => module,
        };
        let entry = check_entry(&module, export_name);
        if matches!(entry, EntrySignature::NoEntryFound) {
            self.program_module = Some(module);
            proof {
                assert(self@ =~= old(self)@);
            }
            return Err(FatalHostError::NoProgramEntryPoint);
        }
        let ghost env0 = hcall_env(pre);
        let ghost ops = ops_of(module);
        proof {
            assert(hcall_env(self@) =~= env0);
            assert(ops.take(0) =~= Seq::<HcallOp>::empty());
        }
        let mut i: usize = 0;
        while i < module.host_calls.len()
            invariant
                i <= module.host_calls@.len(),
                pre == old(self)@,
                pre.program_module == Some(module),
                spec_entry_of(module, export_name@) != EntrySignature::NoEntryFound,
                ops == ops_of(module),
                ops.len() == module.host_calls@.len(),
                env0 == hcall_env(pre),
                frames_fit(pre),
                run_untouched(pre, self@),
                self@.program_module is None,
                run_hcalls_rel(env0, ops.take(i as int), hcall_env(self@), None),
            decreases module.host_calls@.len() - i,
        {
            let request = &module.host_calls[i];
            let ghost env_before = hcall_env(self@);
            proof {
                assert(frames_fit(self@));
            }
            let step = self.invoke_index(request.index, &request.args);
            proof {
                assert(ops[i as int] == (HcallOp { index: request.index, args: request.args@ }));
            }
            match step {
                Ok(value) => {
                    proof {
                        let status = choose|status: VeracruzStatus|
                            #[trigger] hcall_step_rel(
                                env_before,
                                (HcallOp { index: request.index, args: request.args@ }),
                                hcall_env(self@),
                                HcallOutcome::Status(status),
                            ) && value == Some(RuntimeValue::I32(spec_status_code(status)));
                        lemma_run_snoc_status(
                            env0,
                            ops.take(i as int),
                            env_before,
                            ops[i as int],
                            hcall_env(self@),
                            status,
                        );
                        assert(ops.take(i as int).push(ops[i as int]) =~= ops.take(i + 1));
                    }
                },
                Err(e) => {
                    proof {
                        lemma_run_snoc_fatal(
                            env0,
                            ops.take(i as int),
                            env_before,
                            ops[i as int],
                            hcall_env(self@),
                            e,
                        );
                        assert(ops.take(i as int).push(ops[i as int]) =~= ops.take(i + 1));
                    }
                    let ghost env_err = hcall_env(self@);
                    self.program_module = Some(module);
                    proof {
                        assert(hcall_env(self@) =~= env_err);
                        assert(run_hcalls_rel(env0, ops.take(i + 1), hcall_env(self@), Some(e)));
                    }
                    return Err(e);
                },
            }
            i = i + 1;
        }
        proof {
            assert(ops.take(i as int) =~= ops);
        }
        let ghost env_done = hcall_env(self@);
        match module.outcome {
            ExecutionOutcome::Returns(value) => {
                self.program_module = Some(module);
                proof {
                    assert(hcall_env(self@) =~= env_done);
                }
                Ok(value)
            },
            ExecutionOutcome::Traps => {
                self.program_module = Some(module);
                proof {
                    assert(hcall_env(self@) =~= env_done);
                }
                Err(FatalHostError::WASMITrapError)
            },
        }
    }

    /// Executes the entry point of the provisioned program.  Permitted only
    /// in the `ReadyToExecute` state; anywhere else it is fatal.  On a clean
    /// return of a 32-bit integer the machine moves to `FinishedExecuting`
    /// and the code is handed back; a missing program or entry point, a
    /// fatal host error during a host call, a guest trap, or a return of
    /// anything but a 32-bit integer drives the lifecycle to `Error`, and
    /// the error handed back names the cause: the host call's own fatal
    /// error, the trap, or the malformed return.
    ///
    /// A result is registered after a clean return exactly when the guest
    /// called `write_output` at least once, and a result registered before
    /// or during the run is never changed afterwards.
    pub fn invoke_entry_point(&mut self) -> (r: Result<i32, FatalHostError>)
        requires
            wf(old(self)@),
        ensures
            wf(final(self)@),
            final(self)@.program_module == old(self)@.program_module,
            final(self)@.program_digest == old(self)@.program_digest,
            final(self)@.expected_data_sources == old(self)@.expected_data_sources,
            final(self)@.received_data_sources == old(self)@.received_data_sources,
            final(self)@.expected_shutdown_sources == old(self)@.expected_shutdown_sources,
            final(self)@.received_shutdown_requests == old(self)@.received_shutdown_requests,
            old(self)@.lifecycle != LifecycleState::ReadyToExecute ==> r == Err::<
                i32,
                FatalHostError,
            >(FatalHostError::EngineIsNotReady) && final(self)@ == (HpsView {
                lifecycle: LifecycleState::Error,
                ..old(self)@
            }),
            old(self)@.lifecycle == LifecycleState::Error ==> final(self)@.lifecycle
                == LifecycleState::Error,
            r is Ok ==> old(self)@.lifecycle == LifecycleState::ReadyToExecute && final(self)@.lifecycle == LifecycleState::FinishedExecuting,
            r is Err ==> final(self)@.lifecycle == LifecycleState::Error,
            old(self)@.lifecycle == LifecycleState::ReadyToExecute ==> (old(self)@.program_module matches Some(module) ==> {
                &&& spec_check_main(module) == EntrySignature::NoEntryFound ==> r == Err::<
                    i32,
                    FatalHostError,
                >(FatalHostError::NoProgramEntryPoint) && final(self)@ == (HpsView {
                    lifecycle: LifecycleState::Error,
                    ..old(self)@
                })
                &&& r matches Ok(code) ==> run_hcalls_rel(
                    hcall_env(old(self)@),
                    ops_of(module),
                    hcall_env(final(self)@),
                    None,
                ) && module.outcome == ExecutionOutcome::Returns(
                    Some(RuntimeValue::I32(code)),
                )
                &&& spec_check_main(module) != EntrySignature::NoEntryFound ==> (r matches Err(e)
                    ==> {
                    ||| (e == FatalHostError::WASMITrapError && module.outcome
                        == ExecutionOutcome::Traps && run_hcalls_rel(
                        hcall_env(old(self)@),
                        ops_of(module),
                        hcall_env(final(self)@),
                        None,
                    ))
                    ||| (e == FatalHostError::ReturnedCodeError && run_hcalls_rel(
                        hcall_env(old(self)@),
                        ops_of(module),
                        hcall_env(final(self)@),
                        None,
                    ) && (module.outcome matches ExecutionOutcome::Returns(value) && !(
                    value matches Some(RuntimeValue::I32(_)))))
                    ||| (exists|n: int|
                        0 <= n <= ops_of(module).len() && #[trigger] run_hcalls_rel(
                            hcall_env(old(self)@),
                            ops_of(module).take(n),
                            hcall_env(final(self)@),
                            Some(e),
                        ))
                })
            }),
            r is Ok && old(self)@.result is None ==> ((final(self)@.result is Some)
                <==> exists|i: int|
                0 <= i < ops_of(old(self)@.program_module.unwrap()).len() && (#[trigger] ops_of(
                    old(self)@.program_module.unwrap(),
                )[i]).index == HCALL_WRITE_OUTPUT_CODE),
            old(self)@.result matches Some(bytes) ==> final(self)@.result == Some(bytes),
    {
        if !matches!(self.lifecycle, LifecycleState::ReadyToExecute) {
            self.lifecycle = LifecycleState::Error;
            return Err(FatalHostError::EngineIsNotReady);
        }
        let ghost pre = old(self)@;
        let ghost module = pre.program_module.unwrap();
        let outcome = self.invoke_export(ENTRY_POINT_NAME);
        proof {
            if outcome is Err {
                let e = outcome->Err_0;
                if e == FatalHostError::WASMITrapError && module.outcome
                    == ExecutionOutcome::Traps && run_hcalls_rel(
                    hcall_env(pre),
                    ops_of(module),
                    hcall_env(self@),
                    None,
                ) {
                    lemma_run_frame(hcall_env(pre), ops_of(module), hcall_env(self@), None);
                } else if spec_entry_of(module, ENTRY_POINT_NAME@)
                    != EntrySignature::NoEntryFound {
                    let n = choose|n: int|
                        0 <= n <= ops_of(module).len() && #[trigger] run_hcalls_rel(
                            hcall_env(pre),
                            ops_of(module).take(n),
                            hcall_env(self@),
                            Some(e),
                        );
                    lemma_run_frame(
                        hcall_env(pre),
                        ops_of(module).take(n),
                        hcall_env(self@),
                        Some(e),
                    );
                }
            } else {
                lemma_run_frame(hcall_env(pre), ops_of(module), hcall_env(self@), None);
                if pre.result is None {
                    lemma_result_iff_write_output(
                        hcall_env(pre),
                        ops_of(module),
                        hcall_env(self@),
                    );
                }
            }
        }
        match outcome {
            Ok(Some(RuntimeValue::I32(code))) => {
                self.lifecycle = LifecycleState::FinishedExecuting;
                Ok(code)
            },
            Ok(_) => {
                self.lifecycle = LifecycleState::Error;
                Err(FatalHostError::ReturnedCodeError)
            },
            Err(e) => {
                self.lifecycle = LifecycleState::Error;
                Err(e)
            },
        }
    }
}

/// The parts of the state a guest execution may never touch: the lifecycle,
/// the digest, the client registries and the provisioned data sources.
pub open spec fn run_untouched(pre: HpsView, post: HpsView) -> bool {
    &&& post.lifecycle == pre.lifecycle
    &&& post.program_digest == pre.program_digest
    &&& post.expected_data_sources == pre.expected_data_sources
    &&& post.received_data_sources == pre.received_data_sources
    &&& post.expected_shutdown_sources == pre.expected_shutdown_sources
    &&& post.received_shutdown_requests == pre.received_shutdown_requests
}

/// The parts of the state a host call may never touch: everything but the
/// sandbox memory and the result slot.
pub open spec fn hcall_untouched(pre: HpsView, post: HpsView) -> bool {
    &&& run_untouched(pre, post)
    &&& post.program_module == pre.program_module
}

/// Wraps a guest-observable status as the runtime value the guest receives
/// from a host call: the status code as an `i32`.
fn mk_error_code(status: VeracruzStatus) -> (r: Option<RuntimeValue>)
    ensures
        r == Some(RuntimeValue::I32(spec_status_code(status))),
{
    Some(RuntimeValue::I32(status_code(status)))
}

} // verus!
