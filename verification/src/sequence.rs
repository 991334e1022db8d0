//! Staging buffers for streamed sequences: entries wait here until the
//! caller has sent them, chunk by chunk.

use vstd::prelude::*;
use crate::error::AutdError;
use crate::hardware::{
    GAIN_SEQ_BUFFER_SIZE_MAX, NUM_TRANS_IN_UNIT, POINT_SEQ_BUFFER_SIZE_MAX,
    POINT_STM_BODY_DATA_SIZE, POINT_STM_HEAD_DATA_SIZE,
};

verus! {

/// What the drive snapshots of a gain sequence hold, which decides the
/// encoder that sends them.
#[derive(Clone, Copy, Debug, PartialEq, Eq, Structural)]
pub enum GainMode {
    /// Duty and phase of each transducer in one cell.
    DutyPhaseFull,
    /// Duties only.
    DutyFull,
    /// Phases only.
    PhaseFull,
}

/// The drive of one device: one cell per transducer.
pub type DataArray = [u16; NUM_TRANS_IN_UNIT];

/// What a sequence buffer keeps track of besides its entries.
pub trait Sequence {
    /// Whether no more has been sent than the buffer accounts for.
    spec fn wf(&self) -> bool;

    /// The sampling-frequency divisor.
    spec fn freq_div(&self) -> nat;

    /// How much has been sent.
    spec fn sent_count(&self) -> nat;

    /// How much is still to send.
    spec fn left(&self) -> nat;

    /// The sampling-frequency divisor, for reading and writing.
    fn sampling_freq_div(&mut self) -> (r: &mut usize)
        ensures
            *r == old(self).freq_div(),
            final(self).freq_div() == *final(r),
            final(self).sent_count() == old(self).sent_count(),
            final(self).left() == old(self).left(),
            final(self).wf() == old(self).wf(),
    ;

    /// How much has been sent.
    fn sent(&self) -> (r: usize)
        ensures
            r == self.sent_count(),
    ;

    /// Records that `sent` more has been sent.
    fn send(&mut self, sent: usize)
        requires
            old(self).wf(),
            sent <= old(self).left(),
        ensures
            final(self).wf(),
            final(self).sent_count() == old(self).sent_count() + sent,
            final(self).left() == old(self).left() - sent,
            final(self).freq_div() == old(self).freq_div(),
    ;

    /// Whether nothing is left to send.
    fn finished(&self) -> (r: bool)
        requires
            self.wf(),
        ensures
            r == (self.left() == 0),
    ;
}

/// A sequence of control points, each a position and a duty.
///
/// The position's type is the caller's: the buffer stores positions and
/// hands them back, and never looks into one.
pub struct PointSequence<P> {
    control_points: Vec<(P, u8)>,
    sample_freq_div: usize,
    sent: usize,
}

/// What a `PointSequence` is, to its callers.
pub ghost struct PointSequenceView<P> {
    pub control_points: Seq<(P, u8)>,
    pub sample_freq_div: nat,
    pub sent: nat,
}

impl<P> View for PointSequence<P> {
    type V = PointSequenceView<P>;

    closed spec fn view(&self) -> PointSequenceView<P> {
        PointSequenceView {
            control_points: self.control_points@,
            sample_freq_div: self.sample_freq_div as nat,
            sent: self.sent as nat,
        }
    }
}

impl<P: Copy> PointSequence<P> {
    /// An empty sequence with divisor 1.
    pub fn new() -> (r: Self)
        ensures
            r@.control_points == Seq::<(P, u8)>::empty(),
            r@.sample_freq_div == 1,
            r@.sent == 0,
            r.wf(),
    {
        PointSequence { control_points: Vec::new(), sample_freq_div: 1, sent: 0 }
    }

    /// A sequence of the given points with divisor 1. The points are taken
    /// as they are, however many.
    pub fn with_control_points(control_points: Vec<(P, u8)>) -> (r: Self)
        ensures
            r@.control_points == control_points@,
            r@.sample_freq_div == 1,
            r@.sent == 0,
            r.wf(),
    {
        PointSequence { control_points, sample_freq_div: 1, sent: 0 }
    }

    /// Appends one point, unless the buffer would then hold more than its
    /// limit.
    pub fn add_point(&mut self, point: P, duty: u8) -> (r: Result<(), AutdError>)
        ensures
            r is Ok <==> old(self)@.control_points.len() + 1 <= POINT_SEQ_BUFFER_SIZE_MAX,
            r is Ok ==> final(self)@.control_points == old(self)@.control_points.push(
                (point, duty),
            ),
            r is Err ==> final(self)@.control_points == old(self)@.control_points && r == Err::<
                (),
                AutdError,
            >(AutdError::PointSequenceOutOfBuffer(POINT_SEQ_BUFFER_SIZE_MAX)),
            final(self)@.sample_freq_div == old(self)@.sample_freq_div,
            final(self)@.sent == old(self)@.sent,
            old(self).wf() ==> final(self).wf(),
    {
        if self.control_points.len() >= POINT_SEQ_BUFFER_SIZE_MAX {
            return Err(AutdError::PointSequenceOutOfBuffer(POINT_SEQ_BUFFER_SIZE_MAX));
        }
        self.control_points.push((point, duty));
        Ok(())
    }

    /// Appends the given points in their order, unless the buffer would
    /// then hold more than its limit; then none is appended.
    pub fn add_points(&mut self, points: &[(P, u8)]) -> (r: Result<(), AutdError>)
        ensures
            r is Ok <==> old(self)@.control_points.len() + points@.len()
                <= POINT_SEQ_BUFFER_SIZE_MAX,
            r is Ok ==> final(self)@.control_points == old(self)@.control_points + points@,
            r is Err ==> final(self)@.control_points == old(self)@.control_points && r == Err::<
                (),
                AutdError,
            >(AutdError::PointSequenceOutOfBuffer(POINT_SEQ_BUFFER_SIZE_MAX)),
            final(self)@.sample_freq_div == old(self)@.sample_freq_div,
            final(self)@.sent == old(self)@.sent,
            old(self).wf() ==> final(self).wf(),
    {
        let n: usize = points.len();
        let have: usize = self.control_points.len();
        if n > POINT_SEQ_BUFFER_SIZE_MAX || have > POINT_SEQ_BUFFER_SIZE_MAX - n {
            return Err(AutdError::PointSequenceOutOfBuffer(POINT_SEQ_BUFFER_SIZE_MAX));
        }
        let mut i: usize = 0;
        while i < n
            invariant
                0 <= i <= n,
                n == points@.len(),
                self.control_points@ == old(self).control_points@ + points@.subrange(0, i as int),
                self.sample_freq_div == old(self).sample_freq_div,
                self.sent == old(self).sent,
            decreases n - i,
        {
            self.control_points.push(points[i]);
            i = i + 1;
            assert(points@.subrange(0, i as int) =~= points@.subrange(0, i - 1).push(
                points@[i - 1],
            ));
            assert(self.control_points@ =~= old(self).control_points@ + points@.subrange(
                0,
                i as int,
            ));
        }
        assert(points@.subrange(0, n as int) =~= points@);
        Ok(())
    }

    /// The number of points.
    pub fn size(&self) -> (r: usize)
        ensures
            r == self@.control_points.len(),
    {
        self.control_points.len()
    }

    /// The points, in the order they were added.
    pub fn control_points(&self) -> (r: &[(P, u8)])
        ensures
            r@ == self@.control_points,
    {
        self.control_points.as_slice()
    }

    /// The number of points not sent yet.
    pub fn remaining(&self) -> (r: usize)
        requires
            self.wf(),
        ensures
            r == self@.control_points.len() - self@.sent,
            r == self.left(),
    {
        self.control_points.len() - self.sent
    }

    /// The number of points the next frame carries: what is left, up to the
    /// capacity of a first frame while nothing has been sent and of a later
    /// frame after that.
    pub fn chunk_size(&self) -> (r: usize)
        requires
            self.wf(),
        ensures
            r == point_chunk(self.left(), self@.sent),
    {
        let left: usize = self.remaining();
        let cap: usize = if self.sent == 0 {
            POINT_STM_HEAD_DATA_SIZE
        } else {
            POINT_STM_BODY_DATA_SIZE
        };
        if left < cap {
            left
        } else {
            cap
        }
    }
}

/// The number of points that the next frame of a point sequence carries,
/// with `left` points to send and `sent` sent.
pub open spec fn point_chunk(left: nat, sent: nat) -> nat {
    let cap = if sent == 0 {
        POINT_STM_HEAD_DATA_SIZE as nat
    } else {
        POINT_STM_BODY_DATA_SIZE as nat
    };
    if left < cap {
        left
    } else {
        cap
    }
}

impl<P: Copy> Default for PointSequence<P> {
    fn default() -> (r: Self)
        ensures
            r@.control_points == Seq::<(P, u8)>::empty(),
            r@.sample_freq_div == 1,
            r@.sent == 0,
    {
        PointSequence::new()
    }
}

impl<P: Copy> Sequence for PointSequence<P> {
    open spec fn wf(&self) -> bool {
        self@.sent <= self@.control_points.len()
    }

    open spec fn freq_div(&self) -> nat {
        self@.sample_freq_div
    }

    open spec fn sent_count(&self) -> nat {
        self@.sent
    }

    open spec fn left(&self) -> nat {
        (self@.control_points.len() - self@.sent) as nat
    }

    fn sampling_freq_div(&mut self) -> (r: &mut usize) {
        &mut self.sample_freq_div
    }

    fn sent(&self) -> (r: usize) {
        self.sent
    }

    fn send(&mut self, sent: usize) {
        let size: usize = self.control_points.len();
        assert(self.sent + sent <= size);
        self.sent = self.sent + sent;
    }

    fn finished(&self) -> (r: bool) {
        self.remaining() == 0
    }
}

/// A sequence of drive snapshots, each holding the drive of every device.
///
/// Sending starts with one frame that carries no snapshot, so one more is
/// to send than there are snapshots.
pub struct GainSequence {
    gains: Vec<Vec<DataArray>>,
    sample_freq_div: usize,
    sent: usize,
    gain_mode: GainMode,
}

/// What a `GainSequence` is, to its callers.
pub ghost struct GainSequenceView {
    pub gains: Seq<Vec<DataArray>>,
    pub sample_freq_div: nat,
    pub sent: nat,
    pub gain_mode: GainMode,
}

impl View for GainSequence {
    type V = GainSequenceView;

    closed spec fn view(&self) -> GainSequenceView {
        GainSequenceView {
            gains: self.gains@,
            sample_freq_div: self.sample_freq_div as nat,
            sent: self.sent as nat,
            gain_mode: self.gain_mode,
        }
    }
}

impl GainSequence {
    /// An empty sequence of snapshots that hold duty and phase, with
    /// divisor 1.
    pub fn new() -> (r: Self)
        ensures
            r@.gains == Seq::<Vec<DataArray>>::empty(),
            r@.sample_freq_div == 1,
            r@.sent == 0,
            r@.gain_mode == GainMode::DutyPhaseFull,
            r.wf(),
    {
        GainSequence::with_gain_mode(GainMode::DutyPhaseFull)
    }

    /// An empty sequence of snapshots of the given mode, with divisor 1.
    pub fn with_gain_mode(gain_mode: GainMode) -> (r: Self)
        ensures
            r@.gains == Seq::<Vec<DataArray>>::empty(),
            r@.sample_freq_div == 1,
            r@.sent == 0,
            r@.gain_mode == gain_mode,
            r.wf(),
    {
        GainSequence { gains: Vec::new(), sample_freq_div: 1, sent: 0, gain_mode }
    }

    /// Appends one snapshot, unless the buffer would then hold more than
    /// its limit.
    pub fn add_gain(&mut self, gain: Vec<DataArray>) -> (r: Result<(), AutdError>)
        ensures
            r is Ok <==> old(self)@.gains.len() + 1 <= GAIN_SEQ_BUFFER_SIZE_MAX,
            r is Ok ==> final(self)@.gains == old(self)@.gains.push(gain),
            r is Err ==> final(self)@.gains == old(self)@.gains && r == Err::<(), AutdError>(
                AutdError::PointSequenceOutOfBuffer(POINT_SEQ_BUFFER_SIZE_MAX),
            ),
            final(self)@.sample_freq_div == old(self)@.sample_freq_div,
            final(self)@.sent == old(self)@.sent,
            final(self)@.gain_mode == old(self)@.gain_mode,
            old(self).wf() ==> final(self).wf(),
    {
        if self.gains.len() >= GAIN_SEQ_BUFFER_SIZE_MAX {
            return Err(AutdError::PointSequenceOutOfBuffer(POINT_SEQ_BUFFER_SIZE_MAX));
        }
        self.gains.push(gain);
        Ok(())
    }

    /// The number of snapshots.
    pub fn size(&self) -> (r: usize)
        ensures
            r == self@.gains.len(),
    {
        self.gains.len()
    }

    /// The snapshots, in the order they were added.
    pub fn gains(&self) -> (r: &[Vec<DataArray>])
        ensures
            r@ == self@.gains,
    {
        self.gains.as_slice()
    }

    /// The number of frames not sent yet: the snapshots and the frame that
    /// opens the sequence, less what has been sent.
    pub fn remaining(&self) -> (r: usize)
        requires
            self.wf(),
        ensures
            r == self@.gains.len() + 1 - self@.sent,
            r == self.left(),
    {
        self.gains.len() + 1 - self.sent
    }

    /// The mode of the snapshots, for reading and writing.
    pub fn gain_mode(&mut self) -> (r: &mut GainMode)
        ensures
            *r == old(self)@.gain_mode,
            final(self)@.gain_mode == *final(r),
            final(self)@.gains == old(self)@.gains,
            final(self)@.sample_freq_div == old(self)@.sample_freq_div,
            final(self)@.sent == old(self)@.sent,
    {
        &mut self.gain_mode
    }

    /// The number of frames the next exchange carries: one while anything
    /// is left, none after that.
    pub fn chunk_size(&self) -> (r: usize)
        requires
            self.wf(),
        ensures
            r == gain_chunk(self.left()),
    {
        if self.remaining() == 0 {
            0
        } else {
            1
        }
    }
}

/// The number of frames that the next exchange of a gain sequence carries,
/// with `left` frames to send.
pub open spec fn gain_chunk(left: nat) -> nat {
    if left == 0 {
        0
    } else {
        1
    }
}

impl Default for GainSequence {
    fn default() -> (r: Self)
        ensures
            r@.gains == Seq::<Vec<DataArray>>::empty(),
            r@.sample_freq_div == 1,
            r@.sent == 0,
            r@.gain_mode == GainMode::DutyPhaseFull,
    {
        GainSequence::new()
    }
}

impl Sequence for GainSequence {
    open spec fn wf(&self) -> bool {
        &&& self@.gains.len() <= GAIN_SEQ_BUFFER_SIZE_MAX
        &&& self@.sent <= self@.gains.len() + 1
    }

    open spec fn freq_div(&self) -> nat {
        self@.sample_freq_div
    }

    open spec fn sent_count(&self) -> nat {
        self@.sent
    }

    open spec fn left(&self) -> nat {
        (self@.gains.len() + 1 - self@.sent) as nat
    }

    fn sampling_freq_div(&mut self) -> (r: &mut usize) {
        &mut self.sample_freq_div
    }

    fn sent(&self) -> (r: usize) {
        self.sent
    }

    fn send(&mut self, sent: usize) {
        self.sent = self.sent + sent;
    }

    fn finished(&self) -> (r: bool) {
        self.remaining() == 0
    }
}

} // verus!
