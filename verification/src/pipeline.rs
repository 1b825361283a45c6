//! One iteration of the capture loop, from a dequeued buffer to its outcome.

use vstd::prelude::*;

use crate::buffer::BufferDescriptor;
use crate::buffer::BufferFault;
use crate::buffer::ExtractPlan;
use crate::buffer::display_time_of;
use crate::buffer::plan_extraction;
use crate::buffer::spec_display_time;
use crate::buffer::spec_plan;
use crate::buffer::spec_timestamp;
use crate::buffer::timestamp_of;
use crate::dispatch::Frame;
use crate::dispatch::SendResult;
use crate::dispatch::dispatch;
use crate::dispatch::dispatch_and_send;
use crate::dispatch::spec_dispatch_result;
use crate::format::LayoutCode;
use crate::format::NegotiatedFormat;

verus! {

/// One capture-loop input: a buffer descriptor, plus what the read step of
/// its extraction plan yielded — the copied bytes, or the per-buffer fault
/// that stopped the read.  For a buffer whose plan needs no read the second
/// part is ignored.
#[derive(Debug)]
pub struct BufferInput {
    pub desc: BufferDescriptor,
    pub read: Result<Vec<u8>, BufferFault>,
}

/// What one buffer came to: skipped without a frame, a per-buffer fault
/// reported to the observer, or a decoded frame for the consumer.
#[derive(Debug)]
pub enum BufferOutcome {
    Skipped,
    Faulted(BufferFault),
    Produced(Frame),
}

/// The result of one loop iteration over one buffer.
#[derive(Debug)]
pub struct BufferStep {
    pub outcome: BufferOutcome,
    /// The collaborator-owned handle goes back to its queue whatever the
    /// outcome was; anything else starves the collaborator of buffers.
    pub requeue: bool,
}

/// The read result with its bytes abstracted to a sequence.
pub open spec fn spec_read_view(r: Result<Vec<u8>, BufferFault>) -> Result<Seq<u8>, BufferFault> {
    match r {
        Ok(v) => Ok(v@),
        Err(f) => Err(f),
    }
}

/// The dispatch contract restated over a buffer outcome: a produced frame or
/// a fault is exactly what `dispatch` yields on these bytes; a skip never
/// comes out of dispatch.
pub open spec fn spec_dispatched(
    format: NegotiatedFormat,
    bytes: Seq<u8>,
    display_time: u64,
    outcome: BufferOutcome,
) -> bool {
    match outcome {
        BufferOutcome::Produced(frame) => spec_dispatch_result(
            format,
            bytes,
            display_time,
            Ok(frame),
        ),
        BufferOutcome::Faulted(f) => spec_dispatch_result(format, bytes, display_time, Err(f)),
        BufferOutcome::Skipped => false,
    }
}

/// The whole per-buffer contract.  The extraction plan decides first: a
/// planning fault is the outcome, a plan-level skip is the outcome, and
/// otherwise the read result decides — a read fault is the outcome, and read
/// bytes go through dispatch under the buffer's own presentation timestamp.
pub open spec fn spec_outcome_ok(
    desc: BufferDescriptor,
    read: Result<Seq<u8>, BufferFault>,
    format: NegotiatedFormat,
    outcome: BufferOutcome,
) -> bool {
    match spec_plan(desc, format) {
        Err(f) => outcome == BufferOutcome::Faulted(f),
        Ok(ExtractPlan::Skip) => outcome == BufferOutcome::Skipped,
        Ok(_) => match read {
            Err(f) => outcome == BufferOutcome::Faulted(f),
            Ok(bytes) => spec_dispatched(
                format,
                bytes,
                spec_display_time(spec_timestamp(desc.metas@)),
                outcome,
            ),
        },
    }
}

/// Processes one dequeued buffer: plans its extraction, takes the read
/// result the plan called for, and dispatches the bytes.  Whatever happens,
/// the step asks for the handle to be requeued.
pub fn process_buffer(
    desc: &BufferDescriptor,
    read: Result<Vec<u8>, BufferFault>,
    format: &NegotiatedFormat,
) -> (r: BufferStep)
    requires
        format.wf(),
    ensures
        spec_outcome_ok(*desc, spec_read_view(read), *format, r.outcome),
        r.requeue,
{
    let outcome = match plan_extraction(desc, format) {
        Err(f) => BufferOutcome::Faulted(f),
        Ok(ExtractPlan::Skip) => BufferOutcome::Skipped,
        Ok(_) => match read {
            Err(f) => BufferOutcome::Faulted(f),
            Ok(bytes) => {
                let display_time = display_time_of(timestamp_of(&desc.metas));
                match dispatch(format, bytes, display_time) {
                    Ok(frame) => BufferOutcome::Produced(frame),
                    Err(f) => BufferOutcome::Faulted(f),
                }
            },
        },
    };
    BufferStep { outcome, requeue: true }
}

/// What one loop iteration came to once delivery to the consumer is
/// included.
#[derive(Debug)]
pub enum DeliveryOutcome {
    /// No data plane: no frame, and no error.
    Skipped,
    /// A per-buffer fault for the observer; the loop goes on.
    Faulted(BufferFault),
    /// The consumer holds the produced frame now.
    Delivered,
    /// The consumer has disconnected; the undelivered frame comes back.
    /// Non-fatal: capture keeps running.
    ConsumerGone(Frame),
}

/// The result of one full loop iteration over one buffer, delivery included.
#[derive(Debug)]
pub struct DeliveryStep {
    pub outcome: DeliveryOutcome,
    /// The collaborator-owned handle goes back to its queue whatever the
    /// outcome was.
    pub requeue: bool,
}

/// The whole per-iteration contract, delivery included: the same outcome
/// `spec_outcome_ok` admits, with a produced frame either held by the
/// consumer or handed back unchanged.
pub open spec fn spec_delivery_ok(
    desc: BufferDescriptor,
    read: Result<Seq<u8>, BufferFault>,
    format: NegotiatedFormat,
    outcome: DeliveryOutcome,
) -> bool {
    match outcome {
        DeliveryOutcome::Skipped => spec_outcome_ok(desc, read, format, BufferOutcome::Skipped),
        DeliveryOutcome::Faulted(f) => spec_outcome_ok(
            desc,
            read,
            format,
            BufferOutcome::Faulted(f),
        ),
        DeliveryOutcome::ConsumerGone(frame) => spec_outcome_ok(
            desc,
            read,
            format,
            BufferOutcome::Produced(frame),
        ),
        DeliveryOutcome::Delivered => exists|frame: Frame|
            spec_outcome_ok(desc, read, format, BufferOutcome::Produced(frame)),
    }
}

/// Processes one dequeued buffer end to end: plans its extraction, takes the
/// read result the plan called for, dispatches the bytes under the buffer's
/// own presentation timestamp, and hands any produced frame to the consumer
/// channel.  Whatever happens, the step asks for the handle to be requeued.
pub fn process_and_deliver(
    desc: &BufferDescriptor,
    read: Result<Vec<u8>, BufferFault>,
    format: &NegotiatedFormat,
    tx: &std::sync::mpsc::Sender<Frame>,
) -> (r: DeliveryStep)
    requires
        format.wf(),
    ensures
        spec_delivery_ok(*desc, spec_read_view(read), *format, r.outcome),
        r.requeue,
{
    let ghost read_view = spec_read_view(read);
    let outcome = match plan_extraction(desc, format) {
        Err(f) => DeliveryOutcome::Faulted(f),
        Ok(ExtractPlan::Skip) => DeliveryOutcome::Skipped,
        Ok(_) => match read {
            Err(f) => DeliveryOutcome::Faulted(f),
            Ok(bytes) => {
                let ghost extracted: Seq<u8> = bytes@;
                let display_time = display_time_of(timestamp_of(&desc.metas));
                match dispatch_and_send(format, bytes, display_time, tx) {
                    Ok(SendResult::Delivered) => {
                        proof {
                            let frame = choose|frame: Frame|
                                spec_dispatch_result(*format, extracted, display_time, Ok(frame));
                            assert(spec_outcome_ok(
                                *desc,
                                read_view,
                                *format,
                                BufferOutcome::Produced(frame),
                            ));
                        }
                        DeliveryOutcome::Delivered
                    },
                    Ok(SendResult::ConsumerGone(frame)) => DeliveryOutcome::ConsumerGone(frame),
                    Err(f) => DeliveryOutcome::Faulted(f),
                }
            },
        },
    };
    DeliveryStep { outcome, requeue: true }
}

/// Processes a batch of dequeued buffers in order, one outcome each.  Every
/// outcome is the one `spec_outcome_ok` admits for its own input alone, so a
/// malformed buffer anywhere in the batch leaves every other outcome
/// untouched.
pub fn process_batch(inputs: Vec<BufferInput>, format: &NegotiatedFormat) -> (out: Vec<BufferStep>)
    requires
        format.wf(),
    ensures
        out@.len() == inputs@.len(),
        forall|k: int|
            0 <= k < inputs@.len() ==> #[trigger] spec_outcome_ok(
                inputs@[k].desc,
                spec_read_view(inputs@[k].read),
                *format,
                out@[k].outcome,
            ) && out@[k].requeue,
{
    let ghost all: Seq<BufferInput> = inputs@;
    let mut rest = inputs;
    let mut out: Vec<BufferStep> = Vec::new();
    proof {
        assert(all.skip(0) =~= all);
    }
    while rest.len() > 0
        invariant
            format.wf(),
            out@.len() + rest@.len() == all.len(),
            rest@ == all.skip(out@.len() as int),
            forall|k: int|
                0 <= k < out@.len() ==> #[trigger] spec_outcome_ok(
                    all[k].desc,
                    spec_read_view(all[k].read),
                    *format,
                    out@[k].outcome,
                ) && out@[k].requeue,
        decreases rest@.len(),
    {
        let ghost n = out@.len() as int;
        let item = rest.remove(0);
        proof {
            assert(item == all.skip(n)[0]);
            assert(all.skip(n)[0] == all[n]);
            assert(rest@ =~= all.skip(n + 1));
        }
        let BufferInput { desc, read } = item;
        let step = process_buffer(&desc, read, format);
        out.push(step);
    }
    out
}

/// Law: whatever the transport kind, a frame is only ever produced from a
/// read of at least one frame's worth of bytes under the negotiated format,
/// and carries exactly that many — never less.
pub proof fn lemma_produced_frame_full(
    desc: BufferDescriptor,
    read: Result<Seq<u8>, BufferFault>,
    format: NegotiatedFormat,
    frame: Frame,
)
    requires
        spec_outcome_ok(desc, read, format, BufferOutcome::Produced(frame)),
    ensures
        format.layout matches LayoutCode::Known { layout } && read matches Ok(bytes) && bytes.len()
            >= format.spec_frame_bytes(layout) && frame.spec_payload().data@.len()
            == format.spec_frame_bytes(layout),
{
}

/// Law (fault isolation): two batches that agree everywhere but at one
/// position admit exactly the same outcomes at every other position — one
/// malformed buffer never changes what its well-formed neighbours produce,
/// wherever it stands.
pub proof fn lemma_fault_isolation(
    a: Seq<BufferInput>,
    b: Seq<BufferInput>,
    j: int,
    format: NegotiatedFormat,
)
    requires
        a.len() == b.len(),
        0 <= j < a.len(),
        forall|k: int| 0 <= k < a.len() && k != j ==> a[k] == b[k],
    ensures
        forall|k: int, outcome: BufferOutcome|
            0 <= k < a.len() && k != j ==> (#[trigger] spec_outcome_ok(
                a[k].desc,
                spec_read_view(a[k].read),
                format,
                outcome,
            ) <==> spec_outcome_ok(b[k].desc, spec_read_view(b[k].read), format, outcome)),
{
    assert forall|k: int, outcome: BufferOutcome|
        0 <= k < a.len() && k != j implies (#[trigger] spec_outcome_ok(
        a[k].desc,
        spec_read_view(a[k].read),
        format,
        outcome,
    ) <==> spec_outcome_ok(b[k].desc, spec_read_view(b[k].read), format, outcome)) by {
        assert(a[k] == b[k]);
    }
}

} // verus!
