//! The laws of the runtime, proved once and for all over the host-call
//! semantics and the provisioning state.

use vstd::prelude::*;
use crate::error::FatalHostError;
use crate::hps::{hcall_env, wf, HpsView};
use crate::memory::write_region_spec;
use crate::semantics::{
    hcall_step_rel, run_hcalls_rel, step_read_input, step_write_output, HcallEnv, HcallOp,
    HcallOutcome,
};
use crate::status::VeracruzStatus;
use crate::wasm::HCALL_WRITE_OUTPUT_CODE;

verus! {

/// What one step can never do: no host call touches the data sources, none
/// unregisters the sandbox memory, only `write_output` touches the result
/// slot, a registered result is never erased or replaced, and a
/// `write_output` answered with a status while no result was registered
/// registers one.
pub proof fn lemma_step_result(pre: HcallEnv, op: HcallOp, post: HcallEnv, out: HcallOutcome)
    requires
        hcall_step_rel(pre, op, post, out),
    ensures
        post.frames == pre.frames,
        pre.memory is Some ==> post.memory is Some,
        pre.memory is None ==> post == pre,
        op.index != HCALL_WRITE_OUTPUT_CODE ==> post.result == pre.result,
        pre.result is Some ==> post.result == pre.result,
        op.index == HCALL_WRITE_OUTPUT_CODE && out is Status && pre.result is None
            ==> post.result is Some,
{
}

/// What a whole execution can never do, fatal or not: the data sources stay
/// as provisioned, the sandbox memory stays registered, and a registered
/// result stays exactly as it was written.
pub proof fn lemma_run_frame(
    pre: HcallEnv,
    ops: Seq<HcallOp>,
    post: HcallEnv,
    fatal: Option<FatalHostError>,
)
    requires
        run_hcalls_rel(pre, ops, post, fatal),
    ensures
        post.frames == pre.frames,
        pre.memory is Some ==> post.memory is Some,
        pre.result is Some ==> post.result == pre.result,
    decreases ops.len(),
{
    if ops.len() == 0 {
    } else {
        let (mid, out) = choose|mid: HcallEnv, out: HcallOutcome|
            #[trigger] hcall_step_rel(pre, ops[0], mid, out) && match out {
                HcallOutcome::Status(_) => run_hcalls_rel(mid, ops.skip(1), post, fatal),
                HcallOutcome::Fatal(e) => post == mid && fatal == Some(e),
            };
        lemma_step_result(pre, ops[0], mid, out);
        match out {
            HcallOutcome::Status(_) => {
                lemma_run_frame(mid, ops.skip(1), post, fatal);
            },
            HcallOutcome::Fatal(_) => {
            },
        }
    }
}

/// Extends a fatal-free run by one more step that hands the guest a status.
pub proof fn lemma_run_snoc_status(
    pre: HcallEnv,
    ops: Seq<HcallOp>,
    mid: HcallEnv,
    op: HcallOp,
    post: HcallEnv,
    status: VeracruzStatus,
)
    requires
        run_hcalls_rel(pre, ops, mid, None),
        hcall_step_rel(mid, op, post, HcallOutcome::Status(status)),
    ensures
        run_hcalls_rel(pre, ops.push(op), post, None),
    decreases ops.len(),
{
    if ops.len() == 0 {
        assert(mid == pre);
        assert(ops.push(op)[0] == op);
        assert(ops.push(op).skip(1) =~= Seq::<HcallOp>::empty());
        assert(run_hcalls_rel(post, ops.push(op).skip(1), post, None));
        assert(hcall_step_rel(pre, ops.push(op)[0], post, HcallOutcome::Status(status)));
    } else {
        let (mid1, out1) = choose|mid1: HcallEnv, out1: HcallOutcome|
            #[trigger] hcall_step_rel(pre, ops[0], mid1, out1) && match out1 {
                HcallOutcome::Status(_) => run_hcalls_rel(mid1, ops.skip(1), mid, None),
                HcallOutcome::Fatal(e) => mid == mid1 && Option::<FatalHostError>::None == Some(e),
            };
        lemma_run_snoc_status(mid1, ops.skip(1), mid, op, post, status);
        assert(ops.push(op)[0] == ops[0]);
        assert(ops.push(op).skip(1) =~= ops.skip(1).push(op));
        assert(hcall_step_rel(pre, ops.push(op)[0], mid1, out1));
    }
}

/// Extends a fatal-free run by one more step that fails fatally.
pub proof fn lemma_run_snoc_fatal(
    pre: HcallEnv,
    ops: Seq<HcallOp>,
    mid: HcallEnv,
    op: HcallOp,
    post: HcallEnv,
    e: FatalHostError,
)
    requires
        run_hcalls_rel(pre, ops, mid, None),
        hcall_step_rel(mid, op, post, HcallOutcome::Fatal(e)),
    ensures
        run_hcalls_rel(pre, ops.push(op), post, Some(e)),
    decreases ops.len(),
{
    if ops.len() == 0 {
        assert(mid == pre);
        assert(ops.push(op)[0] == op);
        assert(hcall_step_rel(pre, ops.push(op)[0], post, HcallOutcome::Fatal(e)));
    } else {
        let (mid1, out1) = choose|mid1: HcallEnv, out1: HcallOutcome|
            #[trigger] hcall_step_rel(pre, ops[0], mid1, out1) && match out1 {
                HcallOutcome::Status(_) => run_hcalls_rel(mid1, ops.skip(1), mid, None),
                HcallOutcome::Fatal(e1) => mid == mid1 && Option::<FatalHostError>::None == Some(
                    e1,
                ),
            };
        lemma_run_snoc_fatal(mid1, ops.skip(1), mid, op, post, e);
        assert(ops.push(op)[0] == ops[0]);
        assert(ops.push(op).skip(1) =~= ops.skip(1).push(op));
        assert(hcall_step_rel(pre, ops.push(op)[0], mid1, out1));
    }
}

/// Once the guest has registered a result, it never changes: over any
/// fatal-free execution the result stays, byte for byte, what the first
/// successful `write_output` registered.
pub proof fn lemma_result_stable_under_run(
    pre: HcallEnv,
    ops: Seq<HcallOp>,
    post: HcallEnv,
    bytes: Seq<u8>,
)
    requires
        run_hcalls_rel(pre, ops, post, None),
        pre.result == Some(bytes),
    ensures
        post.result == Some(bytes),
{
    lemma_run_frame(pre, ops, post, None);
}

/// After a fatal-free execution that began with no result registered, a
/// result is registered exactly when the guest called `write_output` at
/// least once.
pub proof fn lemma_result_iff_write_output(pre: HcallEnv, ops: Seq<HcallOp>, post: HcallEnv)
    requires
        run_hcalls_rel(pre, ops, post, None),
        pre.result is None,
    ensures
        post.result is Some <==> exists|i: int|
            0 <= i < ops.len() && (#[trigger] ops[i]).index == HCALL_WRITE_OUTPUT_CODE,
    decreases ops.len(),
{
    if ops.len() == 0 {
    } else {
        let (mid, out) = choose|mid: HcallEnv, out: HcallOutcome|
            #[trigger] hcall_step_rel(pre, ops[0], mid, out) && match out {
                HcallOutcome::Status(_) => run_hcalls_rel(mid, ops.skip(1), post, None),
                HcallOutcome::Fatal(e) => post == mid && Option::<FatalHostError>::None == Some(e),
            };
        lemma_step_result(pre, ops[0], mid, out);
        if ops[0].index == HCALL_WRITE_OUTPUT_CODE {
            assert(mid.result is Some);
            lemma_result_stable_under_run(mid, ops.skip(1), post, mid.result.unwrap());
            assert(ops[0].index == HCALL_WRITE_OUTPUT_CODE);
        } else {
            assert(mid.result is None);
            lemma_result_iff_write_output(mid, ops.skip(1), post);
            if post.result is Some {
                let j = choose|j: int|
                    0 <= j < ops.skip(1).len() && (#[trigger] ops.skip(1)[j]).index
                        == HCALL_WRITE_OUTPUT_CODE;
                assert(ops[j + 1].index == HCALL_WRITE_OUTPUT_CODE);
            }
            if exists|i: int|
                0 <= i < ops.len() && (#[trigger] ops[i]).index == HCALL_WRITE_OUTPUT_CODE {
                let i = choose|i: int|
                    0 <= i < ops.len() && (#[trigger] ops[i]).index == HCALL_WRITE_OUTPUT_CODE;
                assert(i != 0);
                assert(ops.skip(1)[i - 1].index == HCALL_WRITE_OUTPUT_CODE);
            }
        }
    }
}

/// A second `write_output` is refused: with a result already registered, a
/// well-formed `write_output` whose read is in bounds is answered with
/// `ResultAlreadyWritten` and changes nothing, the registered result
/// included.
pub proof fn lemma_second_write_refused(pre: HcallEnv, args: Seq<u32>)
    requires
        args.len() == 2,
        pre.memory is Some,
        args[0] + args[1] <= pre.memory.unwrap().len(),
        pre.result is Some,
    ensures
        step_write_output(pre, args) == (
            pre,
            HcallOutcome::Status(VeracruzStatus::ResultAlreadyWritten),
        ),
{
}

/// A program module is registered exactly when a linear memory is, exactly
/// when a program digest is: the three travel together through every
/// operation of a well-formed provisioning state.
pub proof fn lemma_registration_agreement(v: HpsView)
    requires
        wf(v),
    ensures
        v.program_module is Some <==> v.memory is Some,
        v.program_module is Some <==> v.program_digest is Some,
        v.memory is Some <==> v.program_digest is Some,
{
}

/// The bytes a host call sees for source `i` are exactly the bytes the
/// `i`-th contributed frame holds, in arrival order.
pub proof fn lemma_env_frames(v: HpsView, i: int)
    requires
        0 <= i < v.received_data_sources.len(),
    ensures
        hcall_env(v).frames.len() == v.received_data_sources.len(),
        hcall_env(v).frames[i] == v.received_data_sources[i].data,
{
}

/// What the guest reads back is what was provisioned: a `read_input` of
/// source `index` into a buffer at least as large as the source, at an
/// address inside the sandbox memory, succeeds and lays down in guest
/// memory, byte for byte, exactly the bytes registered for that source.
pub proof fn lemma_read_input_round_trip(pre: HcallEnv, args: Seq<u32>)
    requires
        args.len() == 3,
        pre.memory is Some,
        args[0] < pre.frames.len(),
        pre.frames[args[0] as int].len() <= args[2],
        args[1] + pre.frames[args[0] as int].len() <= pre.memory.unwrap().len(),
    ensures
        step_read_input(pre, args).1 == HcallOutcome::Status(VeracruzStatus::Success),
        step_read_input(pre, args).0.memory == Some(
            write_region_spec(pre.memory.unwrap(), args[1], pre.frames[args[0] as int]),
        ),
        step_read_input(pre, args).0.memory.unwrap().subrange(
            args[1] as int,
            args[1] + pre.frames[args[0] as int].len(),
        ) == pre.frames[args[0] as int],
{
    let mem = pre.memory.unwrap();
    let data = pre.frames[args[0] as int];
    let written = write_region_spec(mem, args[1], data);
    assert(written.subrange(args[1] as int, args[1] + data.len()) =~= data);
}

} // verus!
