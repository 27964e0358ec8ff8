//! The mathematical semantics of the host-call interface.
//!
//! A guest execution, to the host, is a sequence of host-call steps over a
//! small environment: the sandbox memory, the registered data sources, and
//! the single result slot.  Each dispatcher method is proved equal to (or,
//! for the random source, admitted by) the step relation below, and the
//! laws about whole executions are proved over the run relation.

use vstd::prelude::*;
use vstd::bytes::spec_u32_to_le_bytes;
use crate::error::{FatalHostError, HostCallKind};
use crate::memory::write_region_spec;
use crate::status::VeracruzStatus;
use crate::wasm::{
    HostCallRequest, WasmModule, HCALL_GETRANDOM_CODE, HCALL_INPUT_COUNT_CODE, HCALL_INPUT_SIZE_CODE,
    HCALL_READ_INPUT_CODE, HCALL_WRITE_OUTPUT_CODE,
};

verus! {

/// What a host call sees and may change: the sandbox memory (if one is
/// registered), the data-source contents in arrival order, and the result
/// slot.  Lifecycle, module and client registries are outside its reach.
#[verifier::ext_equal]
pub ghost struct HcallEnv {
    pub memory: Option<Seq<u8>>,
    pub frames: Seq<Seq<u8>>,
    pub result: Option<Seq<u8>>,
}

/// One host call as issued by the guest: a dispatch code and arguments.
pub ghost struct HcallOp {
    pub index: usize,
    pub args: Seq<u32>,
}

impl View for HostCallRequest {
    type V = HcallOp;

    open spec fn view(&self) -> HcallOp {
        HcallOp { index: self.index, args: self.args@ }
    }
}

/// How one host call ends: a status code handed to the guest, or a fatal
/// host error that aborts the execution.
pub enum HcallOutcome {
    Status(VeracruzStatus),
    Fatal(FatalHostError),
}

/// The outcome a dispatcher method's return value denotes: a status for the
/// guest, or a fatal host error.
pub open spec fn outcome_of(r: Result<VeracruzStatus, FatalHostError>) -> HcallOutcome {
    match r {
        Ok(status) => HcallOutcome::Status(status),
        Err(e) => HcallOutcome::Fatal(e),
    }
}

/// The step of `__veracruz_hcall_input_count`: writes the little-endian
/// count of registered data sources at the guest address `args[0]`.
pub open spec fn step_input_count(pre: HcallEnv, args: Seq<u32>) -> (HcallEnv, HcallOutcome) {
    if args.len() != 1 {
        (
            pre,
            HcallOutcome::Fatal(
                FatalHostError::BadArgumentsToHostFunction { function: HostCallKind::InputCount },
            ),
        )
    } else if pre.memory is None {
        (pre, HcallOutcome::Fatal(FatalHostError::NoMemoryRegistered))
    } else {
        let mem = pre.memory.unwrap();
        let encoded = spec_u32_to_le_bytes(pre.frames.len() as u32);
        if args[0] + 4 <= mem.len() {
            (
                HcallEnv { memory: Some(write_region_spec(mem, args[0], encoded)), ..pre },
                HcallOutcome::Status(VeracruzStatus::Success),
            )
        } else {
            (
                pre,
                HcallOutcome::Fatal(
                    FatalHostError::MemoryWriteFailed {
                        memory_address: args[0] as usize,
                        bytes_to_be_written: 4,
                    },
                ),
            )
        }
    }
}

/// The step of `__veracruz_hcall_input_size`: writes the little-endian
/// length of data source `args[0]` at the guest address `args[1]`, or
/// reports `BadInput` for an index past the registered sources.
pub open spec fn step_input_size(pre: HcallEnv, args: Seq<u32>) -> (HcallEnv, HcallOutcome) {
    if args.len() != 2 {
        (
            pre,
            HcallOutcome::Fatal(
                FatalHostError::BadArgumentsToHostFunction { function: HostCallKind::InputSize },
            ),
        )
    } else if pre.memory is None {
        (pre, HcallOutcome::Fatal(FatalHostError::NoMemoryRegistered))
    } else if args[0] >= pre.frames.len() {
        (pre, HcallOutcome::Status(VeracruzStatus::BadInput))
    } else {
        let mem = pre.memory.unwrap();
        let encoded = spec_u32_to_le_bytes(pre.frames[args[0] as int].len() as u32);
        if args[1] + 4 <= mem.len() {
            (
                HcallEnv { memory: Some(write_region_spec(mem, args[1], encoded)), ..pre },
                HcallOutcome::Status(VeracruzStatus::Success),
            )
        } else {
            (
                pre,
                HcallOutcome::Fatal(
                    FatalHostError::MemoryWriteFailed {
                        memory_address: args[1] as usize,
                        bytes_to_be_written: 4,
                    },
                ),
            )
        }
    }
}

/// The step of `__veracruz_hcall_read_input`: copies data source `args[0]`
/// into the guest buffer at `args[1]` of capacity `args[2]`.  An index past
/// the registered sources is `BadInput`; a buffer too small is
/// `DataSourceSize`; neither changes anything.
pub open spec fn step_read_input(pre: HcallEnv, args: Seq<u32>) -> (HcallEnv, HcallOutcome) {
    if args.len() != 3 {
        (
            pre,
            HcallOutcome::Fatal(
                FatalHostError::BadArgumentsToHostFunction { function: HostCallKind::ReadInput },
            ),
        )
    } else if pre.memory is None {
        (pre, HcallOutcome::Fatal(FatalHostError::NoMemoryRegistered))
    } else if args[0] >= pre.frames.len() {
        (pre, HcallOutcome::Status(VeracruzStatus::BadInput))
    } else {
        let mem = pre.memory.unwrap();
        let data = pre.frames[args[0] as int];
        if data.len() > args[2] {
            (pre, HcallOutcome::Status(VeracruzStatus::DataSourceSize))
        } else if args[1] + data.len() <= mem.len() {
            (
                HcallEnv { memory: Some(write_region_spec(mem, args[1], data)), ..pre },
                HcallOutcome::Status(VeracruzStatus::Success),
            )
        } else {
            (
                pre,
                HcallOutcome::Fatal(
                    FatalHostError::MemoryWriteFailed {
                        memory_address: args[1] as usize,
                        bytes_to_be_written: data.len() as usize,
                    },
                ),
            )
        }
    }
}

/// The step of `__veracruz_hcall_write_output`: reads `args[1]` bytes from
/// the guest at `args[0]` and registers them as the result.  A second write
/// is answered with `ResultAlreadyWritten` and discards the new bytes.
pub open spec fn step_write_output(pre: HcallEnv, args: Seq<u32>) -> (HcallEnv, HcallOutcome) {
    if args.len() != 2 {
        (
            pre,
            HcallOutcome::Fatal(
                FatalHostError::BadArgumentsToHostFunction { function: HostCallKind::WriteOutput },
            ),
        )
    } else if pre.memory is None {
        (pre, HcallOutcome::Fatal(FatalHostError::NoMemoryRegistered))
    } else {
        let mem = pre.memory.unwrap();
        if args[0] + args[1] > mem.len() {
            (
                pre,
                HcallOutcome::Fatal(
                    FatalHostError::MemoryReadFailed {
                        memory_address: args[0] as usize,
                        bytes_to_be_read: args[1] as usize,
                    },
                ),
            )
        } else if pre.result is Some {
            (pre, HcallOutcome::Status(VeracruzStatus::ResultAlreadyWritten))
        } else {
            (
                HcallEnv {
                    result: Some(mem.subrange(args[0] as int, args[0] + args[1])),
                    ..pre
                },
                HcallOutcome::Status(VeracruzStatus::Success),
            )
        }
    }
}

/// The step of `__veracruz_hcall_getrandom`, as a relation: the random
/// source may succeed with any bytes of the requested length, report itself
/// unavailable, or fail; nothing more is promised of it.
pub open spec fn step_get_random_rel(
    pre: HcallEnv,
    args: Seq<u32>,
    post: HcallEnv,
    out: HcallOutcome,
) -> bool {
    if args.len() != 2 {
        post == pre && out == HcallOutcome::Fatal(
            FatalHostError::BadArgumentsToHostFunction { function: HostCallKind::GetRandom },
        )
    } else if pre.memory is None {
        post == pre && out == HcallOutcome::Fatal(FatalHostError::NoMemoryRegistered)
    } else {
        let mem = pre.memory.unwrap();
        ||| (post == pre && (out == HcallOutcome::Status(VeracruzStatus::ServiceUnavailable) || out
            == HcallOutcome::Status(VeracruzStatus::Generic)))
        ||| (args[0] + args[1] > mem.len() && post == pre && out == HcallOutcome::Fatal(
            FatalHostError::MemoryWriteFailed {
                memory_address: args[0] as usize,
                bytes_to_be_written: args[1] as usize,
            },
        ))
        ||| (args[0] + args[1] <= mem.len() && out == HcallOutcome::Status(VeracruzStatus::Success)
            && exists|bytes: Seq<u8>|
            bytes.len() == args[1] && post == HcallEnv {
                memory: Some(write_region_spec(mem, args[0], bytes)),
                ..pre
            })
    }
}

/// One dispatch step: the host call coded by `op.index` applied to `pre`,
/// or a fatal `UnknownHostFunction` for a code outside the table.
pub open spec fn hcall_step_rel(
    pre: HcallEnv,
    op: HcallOp,
    post: HcallEnv,
    out: HcallOutcome,
) -> bool {
    if op.index == HCALL_INPUT_COUNT_CODE {
        (post, out) == step_input_count(pre, op.args)
    } else if op.index == HCALL_INPUT_SIZE_CODE {
        (post, out) == step_input_size(pre, op.args)
    } else if op.index == HCALL_READ_INPUT_CODE {
        (post, out) == step_read_input(pre, op.args)
    } else if op.index == HCALL_WRITE_OUTPUT_CODE {
        (post, out) == step_write_output(pre, op.args)
    } else if op.index == HCALL_GETRANDOM_CODE {
        step_get_random_rel(pre, op.args, post, out)
    } else {
        post == pre && out == HcallOutcome::Fatal(
            FatalHostError::UnknownHostFunction { index: op.index },
        )
    }
}

/// The host calls a module's entry point issues, as semantic operations.
pub open spec fn ops_of(module: WasmModule) -> Seq<HcallOp> {
    module.host_calls@.map_values(|request: HostCallRequest| request@)
}

/// A whole guest execution over the host-call interface: the steps of `ops`
/// run in order from `pre`, ending in `post`; `fatal` carries the error of
/// the first fatally failing step, and is `None` when every step handed the
/// guest a status code.
pub open spec fn run_hcalls_rel(
    pre: HcallEnv,
    ops: Seq<HcallOp>,
    post: HcallEnv,
    fatal: Option<FatalHostError>,
) -> bool
    decreases ops.len(),
{
    if ops.len() == 0 {
        post == pre && fatal is None
    } else {
        exists|mid: HcallEnv, out: HcallOutcome|
            #[trigger] hcall_step_rel(pre, ops[0], mid, out) && match out {
                HcallOutcome::Status(_) => run_hcalls_rel(mid, ops.skip(1), post, fatal),
                HcallOutcome::Fatal(e) => post == mid && fatal == Some(e),
            }
    }
}

} // verus!
