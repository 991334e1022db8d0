//! The cyclic fieldbus transport: its process image and the I/O-free part
//! of its bring-up and teardown.

use vstd::prelude::*;
use crate::error::{AutdError, SoemError};
use crate::hardware::{BODY_SIZE, EC_INPUT_FRAME_SIZE, EC_OUTPUT_FRAME_SIZE, HEADER_SIZE};

verus! {

/// Nanoseconds of the exchange period per tick.
pub const EC_SM3_CYCLE_TIME_NANO_SEC: u32 = 500000;

/// Nanoseconds of the distributed-clock period per tick.
pub const EC_SYNC0_CYCLE_TIME_NANO_SEC: u32 = 500000;

/// The byte that stands at `j` of a process image once a frame `src`, a
/// header followed by a body for each device, has been written to it: the
/// image gives each device a stride, its body followed by the header.
pub open spec fn image_byte(src: Seq<u8>, j: int, header_size: int, body_size: int) -> u8 {
    let stride = header_size + body_size;
    if j % stride < body_size {
        src[header_size + body_size * (j / stride) + j % stride]
    } else {
        src[j % stride - body_size]
    }
}

/// Position `j` of stride `i` is at offset `j - stride * i` in it.
proof fn lemma_in_stride(j: int, i: int, stride: int)
    requires
        0 <= i,
        stride * i <= j < stride * i + stride,
    ensures
        stride > 0,
        j / stride == i,
        j % stride == j - stride * i,
{
    assert(stride > 0) by (nonlinear_arith)
        requires
            0 <= i,
            stride * i < stride * i + stride,
    ;
    assert(j == i * stride + (j - stride * i)) by (nonlinear_arith);
    vstd::arithmetic::div_mod::lemma_fundamental_div_mod_converse(j, stride, i, j - stride * i);
}

/// Stride `i` of `n` lies within the first `n` strides.
proof fn lemma_stride(i: int, n: int, stride: int)
    requires
        0 <= i < n,
        0 <= stride,
    ensures
        0 <= stride * i,
        stride * i + stride <= stride * n,
        stride * (i + 1) == stride * i + stride,
{
    assert(0 <= stride * i && stride * i + stride <= stride * n && stride * (i + 1) == stride * i
        + stride) by (nonlinear_arith)
        requires
            0 <= i < n,
            0 <= stride,
    ;
}

/// Copies `len` bytes of `src` from `src_at` to `dst` from `dst_at`.
fn copy_range(dst: &mut [u8], dst_at: usize, src: &[u8], src_at: usize, len: usize)
    requires
        dst_at + len <= old(dst)@.len(),
        src_at + len <= src@.len(),
    ensures
        final(dst)@.len() == old(dst)@.len(),
        forall|j: int|
            dst_at <= j < dst_at + len ==> #[trigger] final(dst)@[j] == src@[src_at + (j - dst_at)],
        forall|j: int|
            0 <= j < final(dst)@.len() && !(dst_at <= j < dst_at + len) ==> #[trigger] final(dst)@[j] == old(dst)@[j],
{
    let dst_len: usize = dst.len();
    let src_len: usize = src.len();
    let mut k: usize = 0;
    while k < len
        invariant
            0 <= k <= len,
            dst_len == dst@.len(),
            src_len == src@.len(),
            dst@.len() == old(dst)@.len(),
            dst_at + len <= dst@.len(),
            src_at + len <= src@.len(),
            forall|j: int|
                dst_at <= j < dst_at + k ==> #[trigger] dst@[j] == src@[src_at + (j - dst_at)],
            forall|j: int|
                0 <= j < dst@.len() && !(dst_at <= j < dst_at + k) ==> #[trigger] dst@[j] == old(dst)@[j],
        decreases len - k,
    {
        dst[dst_at + k] = src[src_at + k];
        k = k + 1;
    }
}

/// Writes a whole frame into a process image: for each device its body,
/// then the header.
pub fn write_header_body(
    src: &[u8],
    dst: &mut [u8],
    dev_num: usize,
    header_size: usize,
    body_size: usize,
)
    requires
        header_size + body_size * dev_num <= src@.len(),
        (header_size + body_size) * dev_num <= old(dst)@.len(),
    ensures
        final(dst)@.len() == old(dst)@.len(),
        forall|j: int|
            0 <= j < (header_size + body_size) * dev_num ==> #[trigger] final(dst)@[j]
                == image_byte(src@, j, header_size as int, body_size as int),
        forall|j: int|
            (header_size + body_size) * dev_num <= j < final(dst)@.len() ==> #[trigger] final(dst)@[j] == old(dst)@[j],
{
    let ghost stride: int = header_size + body_size;
    let dst_len: usize = dst.len();
    let src_len: usize = src.len();
    let mut i: usize = 0;
    while i < dev_num
        invariant
            0 <= i <= dev_num,
            stride == header_size + body_size,
            dst_len == dst@.len(),
            src_len == src@.len(),
            dst@.len() == old(dst)@.len(),
            header_size + body_size * dev_num <= src@.len(),
            stride * dev_num <= dst@.len(),
            forall|j: int|
                0 <= j < stride * i ==> #[trigger] dst@[j] == image_byte(
                    src@,
                    j,
                    header_size as int,
                    body_size as int,
                ),
            forall|j: int| stride * i <= j < dst@.len() ==> #[trigger] dst@[j] == old(dst)@[j],
        decreases dev_num - i,
    {
        proof {
            lemma_stride(i as int, dev_num as int, stride);
            lemma_stride(i as int, dev_num as int, body_size as int);
        }
        let at: usize = (header_size + body_size) * i;
        copy_range(dst, at, src, header_size + body_size * i, body_size);
        copy_range(dst, at + body_size, src, 0, header_size);
        proof {
            assert forall|j: int| stride * i <= j < stride * (i + 1) implies #[trigger] dst@[j]
                == image_byte(src@, j, header_size as int, body_size as int) by {
                lemma_in_stride(j, i as int, stride);
            }
        }
        i = i + 1;
    }
}

/// Writes the header of a frame into a process image, behind the body of
/// each device, and leaves the bodies as they are.
pub fn write_header(
    src: &[u8],
    dst: &mut [u8],
    dev_num: usize,
    header_size: usize,
    body_size: usize,
)
    requires
        header_size <= src@.len(),
        (header_size + body_size) * dev_num <= old(dst)@.len(),
    ensures
        final(dst)@.len() == old(dst)@.len(),
        forall|j: int|
            0 <= j < (header_size + body_size) * dev_num ==> #[trigger] final(dst)@[j] == if j % (
            header_size + body_size) < body_size {
                old(dst)@[j]
            } else {
                src@[j % (header_size + body_size) - body_size]
            },
        forall|j: int|
            (header_size + body_size) * dev_num <= j < final(dst)@.len() ==> #[trigger] final(dst)@[j] == old(dst)@[j],
{
    let ghost stride: int = header_size + body_size;
    let dst_len: usize = dst.len();
    let mut i: usize = 0;
    while i < dev_num
        invariant
            0 <= i <= dev_num,
            stride == header_size + body_size,
            dst_len == dst@.len(),
            dst@.len() == old(dst)@.len(),
            header_size <= src@.len(),
            stride * dev_num <= dst@.len(),
            forall|j: int|
                0 <= j < stride * i ==> #[trigger] dst@[j] == if j % stride < body_size {
                    old(dst)@[j]
                } else {
                    src@[j % stride - body_size]
                },
            forall|j: int| stride * i <= j < dst@.len() ==> #[trigger] dst@[j] == old(dst)@[j],
        decreases dev_num - i,
    {
        proof {
            lemma_stride(i as int, dev_num as int, stride);
        }
        let at: usize = (header_size + body_size) * i;
        copy_range(dst, at + body_size, src, 0, header_size);
        proof {
            assert forall|j: int| stride * i <= j < stride * (i + 1) implies #[trigger] dst@[j]
                == if j % stride < body_size {
                old(dst)@[j]
            } else {
                src@[j % stride - body_size]
            } by {
                lemma_in_stride(j, i as int, stride);
            }
        }
        i = i + 1;
    }
}

/// The transport's own state: whether it is open, how many devices it
/// serves, its two periods, and the process image that the bus exchanges,
/// the outputs of all devices followed by their inputs.
pub struct SoemLink {
    is_open: bool,
    open_state: OpenState,
    dev_num: u16,
    ec_sync0_cyctime_ns: u32,
    ec_sm2_cyctime_ns: u32,
    io_map: Vec<u8>,
}

/// What a `SoemLink` is, to its callers.
pub ghost struct SoemLinkView {
    pub is_open: bool,
    pub open_state: OpenState,
    pub dev_num: nat,
    pub ec_sync0_cyctime_ns: nat,
    pub ec_sm2_cyctime_ns: nat,
    pub io_map: Seq<u8>,
}

impl View for SoemLink {
    type V = SoemLinkView;

    closed spec fn view(&self) -> SoemLinkView {
        SoemLinkView {
            is_open: self.is_open,
            open_state: self.open_state,
            dev_num: self.dev_num as nat,
            ec_sync0_cyctime_ns: self.ec_sync0_cyctime_ns as nat,
            ec_sm2_cyctime_ns: self.ec_sm2_cyctime_ns as nat,
            io_map: self.io_map@,
        }
    }
}

impl SoemLinkView {
    /// Bytes of the outputs of all devices.
    pub open spec fn output_size(self) -> nat {
        EC_OUTPUT_FRAME_SIZE as nat * self.dev_num
    }

    /// Bytes of the inputs of all devices.
    pub open spec fn input_size(self) -> nat {
        EC_INPUT_FRAME_SIZE as nat * self.dev_num
    }

    /// Whether the bring-up has come far enough for the process image to
    /// be allocated.
    pub open spec fn has_image(self) -> bool {
        self.is_open || match self.open_state {
            OpenState::AwaitConfig => true,
            OpenState::AwaitOperational { .. } => true,
            OpenState::AwaitSync => true,
            OpenState::Done => true,
            _ => false,
        }
    }

    /// The inputs of all devices, as the process image holds them.
    pub open spec fn inputs(self) -> Seq<u8> {
        self.io_map.subrange(self.output_size() as int, self.io_map.len() as int)
    }
}

/// Where the bring-up of the bus stands.
#[derive(Clone, Copy, Debug, PartialEq, Eq, Structural)]
pub enum OpenState {
    /// Nothing has been done.
    Idle,
    /// The socket is being opened.
    AwaitInit,
    /// The devices are being configured over the process image.
    AwaitConfig,
    /// The devices have been asked to become operational; this many more
    /// polls may follow.
    AwaitOperational { polls_left: u32 },
    /// The distributed clock of each device is being switched on.
    AwaitSync,
    /// The link is open.
    Done,
    /// The bring-up has failed.
    Failed,
}

/// What the bus reported on the last action of the bring-up.
#[derive(Clone, Copy, Debug, PartialEq, Eq, Structural)]
pub enum OpenEvent {
    /// The caller asks for the link to be opened.
    Begin,
    /// Opening the socket returned this.
    InitDone { result: i32 },
    /// Configuring found this many devices.
    ConfigDone { found: u16 },
    /// A state check left the segment in this state.
    StateChecked { state: u16 },
    /// The clocks are on; the segment expects these working counters for
    /// its outputs and its inputs.
    SyncDone { outputs_wkc: u16, inputs_wkc: u16 },
}

/// What the caller does next in the bring-up.
#[derive(Clone, Copy, Debug, PartialEq, Eq, Structural)]
pub enum OpenAction {
    /// Open the socket on the interface.
    Init,
    /// Configure the devices over the process image, which is now
    /// allocated.
    Config,
    /// Configure the clocks, wait for the safe-operational state, ask
    /// for the operational state with one exchange, and check the state.
    RequestOperational,
    /// Check the state once more.
    Poll,
    /// Switch on the distributed clock of each device with this period in
    /// nanoseconds.
    EnableSync { cycle_time_ns: u32 },
    /// Start the cyclic exchange with this period in nanoseconds; a cycle
    /// is acknowledged by this working counter.
    StartTimer { expected_wkc: i32, period_ns: u32 },
    /// Give up with this error.
    Fail(SoemError),
    /// The event does not belong to the state: nothing changes.
    Ignore,
}

/// Polls that may follow the first check for the operational state.
pub const OPEN_POLLS: u32 = 200;

/// The state of a device that does not answer.
pub const EC_STATE_NONE: u16 = 0x00;

/// The state of a device that is initialised.
pub const EC_STATE_INIT: u16 = 0x01;

/// The pre-operational state of a device.
pub const EC_STATE_PRE_OP: u16 = 0x02;

/// The safe-operational state of a device.
pub const EC_STATE_SAFE_OP: u16 = 0x04;

/// The state of a device, or of the segment, that is operational.
pub const EC_STATE_OPERATIONAL: u16 = 0x08;

/// Added to a state that a device reports: the device is in error.
pub const EC_STATE_ERROR: u16 = 0x10;

/// Added to a state that is asked of a device: its error is acknowledged.
pub const EC_STATE_ACK: u16 = 0x10;

/// The working counter that acknowledges one cycle: every device counts
/// twice for its outputs and once for its inputs.
pub open spec fn expected_wkc(outputs_wkc: u16, inputs_wkc: u16) -> int {
    2 * outputs_wkc + inputs_wkc
}

/// The next state and action of the bring-up of a link.
pub open spec fn open_next(link: SoemLinkView, event: OpenEvent) -> (OpenState, OpenAction) {
    match (link.open_state, event) {
        (OpenState::Idle, OpenEvent::Begin) => (OpenState::AwaitInit, OpenAction::Init),
        (OpenState::Failed, OpenEvent::Begin) => (OpenState::AwaitInit, OpenAction::Init),
        (OpenState::AwaitInit, OpenEvent::InitDone { result }) => if result != 1 {
            (OpenState::Failed, OpenAction::Fail(SoemError::NoSocketConnection))
        } else {
            (OpenState::AwaitConfig, OpenAction::Config)
        },
        (OpenState::AwaitConfig, OpenEvent::ConfigDone { found }) => if found != link.dev_num {
            (
                OpenState::Failed,
                OpenAction::Fail(SoemError::SlaveNotFound(found, link.dev_num as u16)),
            )
        } else {
            (
                OpenState::AwaitOperational { polls_left: OPEN_POLLS },
                OpenAction::RequestOperational,
            )
        },
        (OpenState::AwaitOperational { polls_left }, OpenEvent::StateChecked { state }) => if state
            == EC_STATE_OPERATIONAL {
            (
                OpenState::AwaitSync,
                OpenAction::EnableSync { cycle_time_ns: link.ec_sync0_cyctime_ns as u32 },
            )
        } else if polls_left > 0 {
            (
                OpenState::AwaitOperational { polls_left: (polls_left - 1) as u32 },
                OpenAction::Poll,
            )
        } else {
            (OpenState::Failed, OpenAction::Fail(SoemError::NotResponding))
        },
        (OpenState::AwaitSync, OpenEvent::SyncDone { outputs_wkc, inputs_wkc }) => (
            OpenState::Done,
            OpenAction::StartTimer {
                expected_wkc: expected_wkc(outputs_wkc, inputs_wkc) as i32,
                period_ns: link.ec_sm2_cyctime_ns as u32,
            },
        ),
        _ => (link.open_state, OpenAction::Ignore),
    }
}

/// How many more steps a bring-up in this state can take.
pub open spec fn open_rank(state: OpenState) -> nat {
    match state {
        OpenState::Idle => (OPEN_POLLS + 6) as nat,
        OpenState::AwaitInit => (OPEN_POLLS + 5) as nat,
        OpenState::AwaitConfig => (OPEN_POLLS + 4) as nat,
        OpenState::AwaitOperational { polls_left } => if polls_left <= OPEN_POLLS {
            (polls_left + 3) as nat
        } else {
            (OPEN_POLLS + 3) as nat
        },
        OpenState::AwaitSync => 1,
        OpenState::Done => 0,
        OpenState::Failed => 0,
    }
}

/// Whether the state is one that a bring-up begun in `Idle` can reach.
pub open spec fn open_state_valid(state: OpenState) -> bool {
    match state {
        OpenState::AwaitOperational { polls_left } => polls_left <= OPEN_POLLS,
        _ => true,
    }
}

/// Every step of the bring-up that is neither ignored nor a new beginning
/// brings it nearer to its end, so a bring-up ends, open or failed, within
/// a bounded number of steps, whatever the bus reports.
pub proof fn lemma_open_ends(link: SoemLinkView, event: OpenEvent)
    requires
        open_state_valid(link.open_state),
    ensures
        open_state_valid(open_next(link, event).0),
        open_next(link, event).1 != OpenAction::Ignore && event != OpenEvent::Begin ==> open_rank(
            open_next(link, event).0,
        ) < open_rank(link.open_state),
        open_next(link, event).1 == OpenAction::Ignore ==> open_next(link, event).0
            == link.open_state,
        open_next(link, event).1 is Fail ==> open_next(link, event).0 == OpenState::Failed,
        open_next(link, event).1 is StartTimer <==> open_next(link, event).0 == OpenState::Done
            && link.open_state != OpenState::Done,
{
}

impl SoemLink {
    /// Bytes of the process image: outputs and inputs of all devices.
    fn image_size(&self) -> (r: usize)
        ensures
            r == self@.output_size() + self@.input_size(),
    {
        EC_OUTPUT_FRAME_SIZE * (self.dev_num as usize) + EC_INPUT_FRAME_SIZE * (
        self.dev_num as usize)
    }

    /// Takes one step of the bring-up: from where it stands and what the
    /// bus reported to where it stands next and what to do.
    ///
    /// The process image is allocated, all zero, when the socket is open,
    /// and the link counts as open once the clocks are on.
    pub fn open_step(&mut self, event: OpenEvent) -> (r: OpenAction)
        requires
            old(self).wf(),
        ensures
            (final(self)@.open_state, r) == open_next(old(self)@, event),
            final(self).wf(),
            final(self)@.dev_num == old(self)@.dev_num,
            final(self)@.ec_sm2_cyctime_ns == old(self)@.ec_sm2_cyctime_ns,
            final(self)@.ec_sync0_cyctime_ns == old(self)@.ec_sync0_cyctime_ns,
            final(self)@.is_open == (old(self)@.is_open || r is StartTimer),
            if r == OpenAction::Config {
                &&& final(self)@.io_map.len() == old(self)@.output_size() + old(self)@.input_size()
                &&& forall|j: int|
                    0 <= j < final(self)@.io_map.len() ==> #[trigger] final(self)@.io_map[j] == 0
            } else {
                final(self)@.io_map == old(self)@.io_map
            },
    {
        match (self.open_state, event) {
            (OpenState::Idle, OpenEvent::Begin) | (OpenState::Failed, OpenEvent::Begin) => {
                self.open_state = OpenState::AwaitInit;
                OpenAction::Init
            },
            (OpenState::AwaitInit, OpenEvent::InitDone { result }) => {
                if result != 1 {
                    self.open_state = OpenState::Failed;
                    OpenAction::Fail(SoemError::NoSocketConnection)
                } else {
                    self.io_map = zeroed(self.image_size());
                    self.open_state = OpenState::AwaitConfig;
                    OpenAction::Config
                }
            },
            (OpenState::AwaitConfig, OpenEvent::ConfigDone { found }) => {
                if found != self.dev_num {
                    self.open_state = OpenState::Failed;
                    OpenAction::Fail(SoemError::SlaveNotFound(found, self.dev_num))
                } else {
                    self.open_state = OpenState::AwaitOperational { polls_left: OPEN_POLLS };
                    OpenAction::RequestOperational
                }
            },
            (OpenState::AwaitOperational { polls_left }, OpenEvent::StateChecked { state }) => {
                if state == EC_STATE_OPERATIONAL {
                    self.open_state = OpenState::AwaitSync;
                    OpenAction::EnableSync { cycle_time_ns: self.ec_sync0_cyctime_ns }
                } else if polls_left > 0 {
                    self.open_state = OpenState::AwaitOperational { polls_left: polls_left - 1 };
                    OpenAction::Poll
                } else {
                    self.open_state = OpenState::Failed;
                    OpenAction::Fail(SoemError::NotResponding)
                }
            },
            (OpenState::AwaitSync, OpenEvent::SyncDone { outputs_wkc, inputs_wkc }) => {
                self.open_state = OpenState::Done;
                self.is_open = true;
                OpenAction::StartTimer {
                    expected_wkc: 2 * (outputs_wkc as i32) + inputs_wkc as i32,
                    period_ns: self.ec_sm2_cyctime_ns,
                }
            },
            _ => OpenAction::Ignore,
        }
    }

    /// Closes the link. Returns whether it was open, that is, whether the
    /// caller has a bus to take down.
    ///
    /// A closed link is left as it is. Of an open one the outputs are set to
    /// zero, the inputs stay, and a new bring-up can begin.
    pub fn close(&mut self) -> (r: bool)
        requires
            old(self).wf(),
        ensures
            r == old(self)@.is_open,
            final(self).wf(),
            !r ==> *final(self) == *old(self),
            r ==> {
                &&& final(self)@.is_open == false
                &&& final(self)@.open_state == OpenState::Idle
                &&& final(self)@.dev_num == old(self)@.dev_num
                &&& final(self)@.ec_sm2_cyctime_ns == old(self)@.ec_sm2_cyctime_ns
                &&& final(self)@.ec_sync0_cyctime_ns == old(self)@.ec_sync0_cyctime_ns
                &&& final(self)@.io_map.len() == old(self)@.io_map.len()
                &&& final(self)@.inputs() == old(self)@.inputs()
                &&& forall|j: int|
                    0 <= j < old(self)@.output_size() ==> #[trigger] final(self)@.io_map[j] == 0
            },
    {
        if !self.is_open {
            return false;
        }
        self.is_open = false;
        self.open_state = OpenState::Idle;
        let outputs: usize = EC_OUTPUT_FRAME_SIZE * (self.dev_num as usize);
        let mut j: usize = 0;
        while j < outputs
            invariant
                0 <= j <= outputs,
                outputs <= self.io_map@.len(),
                outputs == old(self)@.output_size(),
                self.io_map@.len() == old(self).io_map@.len(),
                self.is_open == false,
                self.open_state == OpenState::Idle,
                self.dev_num == old(self).dev_num,
                self.ec_sm2_cyctime_ns == old(self).ec_sm2_cyctime_ns,
                self.ec_sync0_cyctime_ns == old(self).ec_sync0_cyctime_ns,
                forall|k: int| 0 <= k < j ==> #[trigger] self.io_map@[k] == 0,
                forall|k: int|
                    j <= k < self.io_map@.len() ==> #[trigger] self.io_map@[k] == old(self).io_map@[k],
            decreases outputs - j,
        {
            self.io_map[j] = 0;
            j = j + 1;
        }
        assert(self@.inputs() =~= old(self)@.inputs());
        true
    }

    /// Whether an open link has a process image of the size its devices
    /// need.
    pub open spec fn wf(&self) -> bool {
        &&& open_state_valid(self@.open_state)
        &&& self@.has_image() ==> self@.io_map.len() == self@.output_size() + self@.input_size()
    }

    /// A closed link for `dev_num` devices that exchanges every
    /// `cycle_ticks` ticks.
    pub fn new(dev_num: u16, cycle_ticks: u32) -> (r: SoemLink)
        requires
            EC_SM3_CYCLE_TIME_NANO_SEC * cycle_ticks <= u32::MAX,
            EC_SYNC0_CYCLE_TIME_NANO_SEC * cycle_ticks <= u32::MAX,
        ensures
            r@.is_open == false,
            r@.open_state == OpenState::Idle,
            r@.dev_num == dev_num,
            r@.ec_sm2_cyctime_ns == EC_SM3_CYCLE_TIME_NANO_SEC * cycle_ticks,
            r@.ec_sync0_cyctime_ns == EC_SYNC0_CYCLE_TIME_NANO_SEC * cycle_ticks,
            r@.io_map == Seq::<u8>::empty(),
            r.wf(),
    {
        SoemLink {
            dev_num,
            ec_sm2_cyctime_ns: EC_SM3_CYCLE_TIME_NANO_SEC * cycle_ticks,
            ec_sync0_cyctime_ns: EC_SYNC0_CYCLE_TIME_NANO_SEC * cycle_ticks,
            is_open: false,
            open_state: OpenState::Idle,
            io_map: Vec::new(),
        }
    }

    /// Whether the link is open.
    pub fn is_open(&self) -> (r: bool)
        ensures
            r == self@.is_open,
    {
        self.is_open
    }

    /// The number of devices.
    pub fn dev_num(&self) -> (r: u16)
        ensures
            r == self@.dev_num,
    {
        self.dev_num
    }

    /// The period of the exchange, in nanoseconds.
    pub fn cycle_time_ns(&self) -> (r: u32)
        ensures
            r == self@.ec_sm2_cyctime_ns,
    {
        self.ec_sm2_cyctime_ns
    }

    /// The period of the distributed clock, in nanoseconds.
    pub fn sync0_cycle_time_ns(&self) -> (r: u32)
        ensures
            r == self@.ec_sync0_cyctime_ns,
    {
        self.ec_sync0_cyctime_ns
    }

    /// The process image.
    pub fn io_map(&self) -> (r: &[u8])
        ensures
            r@ == self@.io_map,
    {
        self.io_map.as_slice()
    }

    /// Writes a frame into the outputs of the process image.
    ///
    /// A closed link refuses. A frame longer than a header must hold a body
    /// for each device, and is written whole; a frame of exactly a header
    /// has the header written behind each device's body, which stays. Any
    /// other length is refused. On a refusal the image is as it was.
    pub fn send(&mut self, data: &[u8]) -> (r: Result<bool, AutdError>)
        requires
            old(self).wf(),
        ensures
            final(self).wf(),
            final(self)@.is_open == old(self)@.is_open,
            final(self)@.open_state == old(self)@.open_state,
            final(self)@.dev_num == old(self)@.dev_num,
            final(self)@.ec_sm2_cyctime_ns == old(self)@.ec_sm2_cyctime_ns,
            final(self)@.ec_sync0_cyctime_ns == old(self)@.ec_sync0_cyctime_ns,
            r == send_outcome(old(self)@, data@.len()),
            r is Err ==> final(self)@.io_map == old(self)@.io_map,
            r is Ok ==> {
                &&& final(self)@.io_map.len() == old(self)@.io_map.len()
                &&& final(self)@.inputs() == old(self)@.inputs()
                &&& forall|j: int|
                    0 <= j < old(self)@.output_size() ==> #[trigger] final(self)@.io_map[j] == if data@.len()
                        > HEADER_SIZE || j % (EC_OUTPUT_FRAME_SIZE as int) >= BODY_SIZE {
                        image_byte(data@, j, HEADER_SIZE as int, BODY_SIZE as int)
                    } else {
                        old(self)@.io_map[j]
                    }
            },
    {
        if !self.is_open {
            return Err(AutdError::LinkClosed);
        }
        let devices: usize = self.dev_num as usize;
        let len: usize = data.len();
        if len > HEADER_SIZE {
            let whole: usize = HEADER_SIZE + BODY_SIZE * devices;
            if len < whole {
                return Err(AutdError::InvalidFrameSize(len, whole));
            }
            write_header_body(data, self.io_map.as_mut_slice(), devices, HEADER_SIZE, BODY_SIZE);
        } else {
            if len != HEADER_SIZE {
                return Err(AutdError::InvalidFrameSize(len, HEADER_SIZE));
            }
            write_header(data, self.io_map.as_mut_slice(), devices, HEADER_SIZE, BODY_SIZE);
        }
        assert(self@.inputs() =~= old(self)@.inputs());
        Ok(true)
    }

    /// The outputs of the process image: what the next exchange sends.
    pub fn outputs(&self) -> (r: &[u8])
        requires
            self.wf(),
            self@.has_image(),
        ensures
            r@ == self@.io_map.subrange(0, self@.output_size() as int),
    {
        vstd::slice::slice_subrange(
            self.io_map.as_slice(),
            0,
            EC_OUTPUT_FRAME_SIZE * (self.dev_num as usize),
        )
    }

    /// Takes in the inputs that an exchange delivered.
    ///
    /// A closed link refuses, and so does one given another number of bytes
    /// than the inputs hold. On a refusal the image is as it was.
    pub fn set_inputs(&mut self, data: &[u8]) -> (r: Result<bool, AutdError>)
        requires
            old(self).wf(),
        ensures
            final(self).wf(),
            final(self)@.is_open == old(self)@.is_open,
            final(self)@.open_state == old(self)@.open_state,
            final(self)@.dev_num == old(self)@.dev_num,
            final(self)@.ec_sm2_cyctime_ns == old(self)@.ec_sm2_cyctime_ns,
            final(self)@.ec_sync0_cyctime_ns == old(self)@.ec_sync0_cyctime_ns,
            r == set_inputs_outcome(old(self)@, data@.len()),
            r is Err ==> final(self)@.io_map == old(self)@.io_map,
            r is Ok ==> {
                &&& final(self)@.io_map.len() == old(self)@.io_map.len()
                &&& final(self)@.inputs() == data@
                &&& final(self)@.io_map.subrange(0, old(self)@.output_size() as int) == old(self)@.io_map.subrange(0, old(self)@.output_size() as int)
            },
    {
        if !self.is_open {
            return Err(AutdError::LinkClosed);
        }
        let devices: usize = self.dev_num as usize;
        let len: usize = data.len();
        if len != EC_INPUT_FRAME_SIZE * devices {
            return Err(AutdError::InvalidFrameSize(len, EC_INPUT_FRAME_SIZE * devices));
        }
        copy_range(self.io_map.as_mut_slice(), EC_OUTPUT_FRAME_SIZE * devices, data, 0, len);
        assert(self@.inputs() =~= data@);
        assert(self@.io_map.subrange(0, old(self)@.output_size() as int) =~= old(self)@.io_map.subrange(0, old(self)@.output_size() as int));
        Ok(true)
    }

    /// Copies the inputs of the process image into `data`, from their
    /// start.
    ///
    /// A closed link refuses, and so does one asked for more bytes than the
    /// inputs hold. On a refusal `data` is as it was.
    pub fn read(&mut self, data: &mut [u8]) -> (r: Result<bool, AutdError>)
        requires
            old(self).wf(),
        ensures
            *final(self) == *old(self),
            final(data)@.len() == old(data)@.len(),
            r == read_outcome(old(self)@, old(data)@.len()),
            r is Err ==> final(data)@ == old(data)@,
            r is Ok ==> final(data)@ == old(self)@.inputs().subrange(0, old(data)@.len() as int),
    {
        if !self.is_open {
            return Err(AutdError::LinkClosed);
        }
        let devices: usize = self.dev_num as usize;
        let len: usize = data.len();
        if len > EC_INPUT_FRAME_SIZE * devices {
            return Err(AutdError::InvalidFrameSize(len, EC_INPUT_FRAME_SIZE * devices));
        }
        copy_range(data, 0, self.io_map.as_slice(), EC_OUTPUT_FRAME_SIZE * devices, len);
        assert(data@ =~= old(self)@.inputs().subrange(0, old(data)@.len() as int));
        Ok(true)
    }
}

/// What `send` returns for a frame of `len` bytes.
pub open spec fn send_outcome(link: SoemLinkView, len: nat) -> Result<bool, AutdError> {
    if !link.is_open {
        Err(AutdError::LinkClosed)
    } else if len > HEADER_SIZE && len < HEADER_SIZE + BODY_SIZE * link.dev_num {
        Err(AutdError::InvalidFrameSize(len as usize, (HEADER_SIZE + BODY_SIZE * link.dev_num) as usize))
    } else if len < HEADER_SIZE {
        Err(AutdError::InvalidFrameSize(len as usize, HEADER_SIZE))
    } else {
        Ok(true)
    }
}

/// What `set_inputs` returns for `len` bytes.
pub open spec fn set_inputs_outcome(link: SoemLinkView, len: nat) -> Result<bool, AutdError> {
    if !link.is_open {
        Err(AutdError::LinkClosed)
    } else if len != link.input_size() {
        Err(AutdError::InvalidFrameSize(len as usize, link.input_size() as usize))
    } else {
        Ok(true)
    }
}

/// What `read` returns for a buffer of `len` bytes.
pub open spec fn read_outcome(link: SoemLinkView, len: nat) -> Result<bool, AutdError> {
    if !link.is_open {
        Err(AutdError::LinkClosed)
    } else if len > link.input_size() {
        Err(AutdError::InvalidFrameSize(len as usize, link.input_size() as usize))
    } else {
        Ok(true)
    }
}

/// A buffer of `size` zero bytes.
fn zeroed(size: usize) -> (r: Vec<u8>)
    ensures
        r@.len() == size,
        forall|j: int| 0 <= j < size ==> #[trigger] r@[j] == 0,
{
    let mut v: Vec<u8> = Vec::new();
    let mut i: usize = 0;
    while i < size
        invariant
            0 <= i <= size,
            v@.len() == i,
            forall|j: int| 0 <= j < i ==> #[trigger] v@[j] == 0,
        decreases size - i,
    {
        v.push(0);
        i = i + 1;
    }
    v
}

/// Whether a cycle that was acknowledged by the working counter `wkc` calls
/// for a recovery pass: it does when the counter is not the expected one.
pub fn needs_recovery(expected_wkc: i32, wkc: i32) -> (r: bool)
    ensures
        r == (wkc != expected_wkc),
{
    expected_wkc != wkc
}

} // verus!
