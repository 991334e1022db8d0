//! Laws that relate several functions of the library, over the spec
//! functions that their contracts use.

use vstd::prelude::*;
use crate::datagram::{lemma_wire_holds, wire_cell, TxDatagram};
use crate::error::{CPUError, DriverError};
use crate::hardware::{
    BODY_SIZE, EC_OUTPUT_FRAME_SIZE, HEADER_DATA_SIZE, HEADER_SIZE, MOD_BODY_DATA_SIZE,
    MOD_HEAD_DATA_SIZE, MOD_SAMPLING_FREQ_DIV_MIN, NUM_TRANS_IN_UNIT, NUM_TRANS_X, NUM_TRANS_Y,
    POINT_STM_BODY_DATA_SIZE, POINT_STM_HEAD_DATA_SIZE,
};
use crate::operation::modulation_refusal;
use crate::recovery::{
    lost_remedy_of, reconfigured_of, recovered_of, remedy_of, state_checked_of, Diagnostic,
    LostRemedy, Remedy, SlaveRecord,
};
use crate::sequence::{gain_chunk, point_chunk, GainSequence, PointSequence, Sequence};
use crate::soem::{
    EC_STATE_ACK, EC_STATE_ERROR, EC_STATE_NONE, EC_STATE_OPERATIONAL, EC_STATE_SAFE_OP,
};

verus! {

/// The sizes of the frame agree with each other: a body holds one cell for
/// each transducer, a frame is a header and a body, and each chunk layout
/// fills its slot exactly.
pub proof fn lemma_layout_consistent()
    ensures
        NUM_TRANS_IN_UNIT == NUM_TRANS_X * NUM_TRANS_Y - 3,
        BODY_SIZE == 2 * NUM_TRANS_IN_UNIT,
        HEADER_SIZE == 4 + HEADER_DATA_SIZE,
        EC_OUTPUT_FRAME_SIZE == HEADER_SIZE + BODY_SIZE,
        MOD_BODY_DATA_SIZE == HEADER_DATA_SIZE,
        MOD_HEAD_DATA_SIZE + 4 == HEADER_DATA_SIZE,
        5 + 4 * POINT_STM_HEAD_DATA_SIZE == NUM_TRANS_IN_UNIT,
        1 + 4 * POINT_STM_BODY_DATA_SIZE == NUM_TRANS_IN_UNIT,
{
}

/// A first modulation chunk with an accepted divisor is accepted exactly
/// when it is no longer than the head capacity; one byte more is refused
/// as over that capacity.
pub proof fn lemma_modulation_head_capacity(len: nat, freq_div: u32)
    requires
        freq_div >= MOD_SAMPLING_FREQ_DIV_MIN,
    ensures
        modulation_refusal(len, true, freq_div) is None <==> len <= MOD_HEAD_DATA_SIZE,
        modulation_refusal((MOD_HEAD_DATA_SIZE + 1) as nat, true, freq_div) == Some(
            DriverError::CPU(
                CPUError::ModulationHeadDataSizeOutOfRange((MOD_HEAD_DATA_SIZE + 1) as usize),
            ),
        ),
{
}

/// What `sync` writes can be read back: in the bytes of a datagram whose
/// bodies hold the cycles of each device and are all sent, the cells of
/// device `d` are the cycles `cycles[d]`, each of them.
pub proof fn lemma_sync_round_trip(tx: TxDatagram, cycles: Seq<[u16; NUM_TRANS_IN_UNIT]>)
    requires
        tx.wf(),
        tx.num_bodies == cycles.len(),
        forall|d: int| 0 <= d < cycles.len() ==> (#[trigger] tx.bodies@[d]).data == cycles[d],
    ensures
        tx.wire().len() == HEADER_SIZE + BODY_SIZE * cycles.len(),
        forall|d: int, c: int|
            0 <= d < cycles.len() && 0 <= c < NUM_TRANS_IN_UNIT ==> #[trigger] wire_cell(
                tx.wire(),
                d,
                c,
            ) == cycles[d]@[c],
{
    lemma_wire_holds(tx);
    assert forall|d: int, c: int|
        0 <= d < cycles.len() && 0 <= c < NUM_TRANS_IN_UNIT implies #[trigger] wire_cell(
        tx.wire(),
        d,
        c,
    ) == cycles[d]@[c] by {
        assert(tx.bodies@[d].data == cycles[d]);
    }
}

/// A point sequence has as many points left as it holds less those sent;
/// it is finished exactly when all are sent, and then the next frame
/// carries none. No frame carries more than is left.
pub proof fn lemma_point_sequence_progress<P: Copy>(seq: PointSequence<P>)
    requires
        seq.wf(),
    ensures
        seq.left() == seq@.control_points.len() - seq@.sent,
        seq.left() == 0 <==> seq@.sent == seq@.control_points.len(),
        seq.left() == 0 ==> point_chunk(seq.left(), seq@.sent) == 0,
        seq.left() > 0 ==> point_chunk(seq.left(), seq@.sent) > 0,
        point_chunk(seq.left(), seq@.sent) <= seq.left(),
{
}

/// A gain sequence has one more frame to send than it holds snapshots,
/// less those sent; it is finished exactly when all are sent, and then the
/// next exchange carries none.
pub proof fn lemma_gain_sequence_progress(seq: GainSequence)
    requires
        seq.wf(),
    ensures
        seq.left() == seq@.gains.len() + 1 - seq@.sent,
        seq.left() == 0 <==> seq@.sent == seq@.gains.len() + 1,
        seq.left() == 0 ==> gain_chunk(seq.left()) == 0,
        gain_chunk(seq.left()) <= seq.left(),
{
}

/// What the bus answers to each thing that a pass may ask of one device:
/// what reconfiguring returns and the state it leaves, the state that a
/// state check finds, and what a recovery returns and the state it leaves.
pub struct Responses {
    pub reconfig_result: i32,
    pub reconfig_state: u16,
    pub checked_state: u16,
    pub recover_result: i32,
    pub recover_state: u16,
}

/// The record of a device after the first half of a pass: after the remedy
/// for its state and what the bus answered to it.
pub open spec fn after_remedy(record: SlaveRecord, bus: Responses) -> SlaveRecord {
    match remedy_of(record).1 {
        Remedy::Reconfigure => reconfigured_of(
            remedy_of(record).0,
            bus.reconfig_result,
            bus.reconfig_state,
        ).0,
        Remedy::CheckState => state_checked_of(remedy_of(record).0, bus.checked_state).0,
        _ => remedy_of(record).0,
    }
}

/// The record of a device after a whole pass.
pub open spec fn after_pass(record: SlaveRecord, bus: Responses) -> SlaveRecord {
    let half = after_remedy(record, bus);
    match lost_remedy_of(half).1 {
        LostRemedy::Recover => recovered_of(
            lost_remedy_of(half).0,
            bus.recover_result,
            bus.recover_state,
        ).0,
        LostRemedy::Nothing => lost_remedy_of(half).0,
    }
}

/// A device in the safe-operational state with an error is acknowledged
/// back to the safe-operational state by one pass, with exactly one state
/// write and nothing else asked of the bus, whatever the bus would answer.
pub proof fn lemma_safe_op_error_acknowledged(record: SlaveRecord, bus: Responses)
    requires
        record.state == EC_STATE_SAFE_OP + EC_STATE_ERROR,
    ensures
        remedy_of(record).1 == Remedy::WriteState,
        remedy_of(record).2 == Some(Diagnostic::AckAttempt),
        lost_remedy_of(after_remedy(record, bus)).1 == LostRemedy::Nothing,
        after_pass(record, bus).state == EC_STATE_SAFE_OP + EC_STATE_ACK,
        !after_pass(record, bus).islost,
{
}

/// A device in the safe-operational state without an error is asked to
/// become operational by one pass, with exactly one state write and nothing
/// else asked of the bus.
pub proof fn lemma_safe_op_promoted(record: SlaveRecord, bus: Responses)
    requires
        record.state == EC_STATE_SAFE_OP,
    ensures
        remedy_of(record).1 == Remedy::WriteState,
        remedy_of(record).2 == Some(Diagnostic::ToOperational),
        lost_remedy_of(after_remedy(record, bus)).1 == LostRemedy::Nothing,
        after_pass(record, bus).state == EC_STATE_OPERATIONAL,
        !after_pass(record, bus).islost,
{
}

/// An operational device that does not count as lost is left alone by a
/// pass: nothing is asked of the bus and nothing is noted.
pub proof fn lemma_operational_untouched(record: SlaveRecord, bus: Responses)
    requires
        record.state == EC_STATE_OPERATIONAL,
        !record.islost,
    ensures
        remedy_of(record) == (record, Remedy::Nothing, None::<Diagnostic>),
        lost_remedy_of(record) == (record, LostRemedy::Nothing, None::<Diagnostic>),
        after_pass(record, bus) == record,
{
}

/// A lost device whose recovery succeeds no longer counts as lost after one
/// pass, whatever state it was last seen in.
pub proof fn lemma_lost_device_recovered(record: SlaveRecord, bus: Responses)
    requires
        record.islost,
        bus.recover_result != 0,
    ensures
        !after_pass(record, bus).islost,
{
}

/// A lost device that answers again, so that the pass sees it in a state,
/// no longer counts as lost after the pass, without a recovery being tried.
pub proof fn lemma_lost_device_found(record: SlaveRecord, bus: Responses)
    requires
        record.islost,
        record.state != EC_STATE_NONE,
        bus.reconfig_state != EC_STATE_NONE,
    ensures
        lost_remedy_of(after_remedy(record, bus)).1 == LostRemedy::Nothing,
        !after_pass(record, bus).islost,
{
}

/// A device that does not answer comes to count as lost in one pass, and
/// stays so while its recovery fails.
pub proof fn lemma_silent_device_lost(record: SlaveRecord, bus: Responses)
    requires
        record.state == EC_STATE_NONE,
        bus.checked_state == EC_STATE_NONE,
        bus.recover_result == 0,
    ensures
        after_pass(record, bus).islost,
        lost_remedy_of(after_remedy(record, bus)).1 == LostRemedy::Recover,
{
}

} // verus!
