//! The transmit and receive datagrams and their byte layout on the wire.

use vstd::prelude::*;
use crate::drive::SeqFocus;
use crate::flags::{CPUControlFlags, FPGAControlFlags};
use crate::hardware::{
    BODY_SIZE, EC_INPUT_FRAME_SIZE, HEADER_DATA_SIZE, HEADER_SIZE, NUM_TRANS_IN_UNIT,
};

verus! {

/// The header shared by all devices of one exchange.
///
/// `data` is one slot read in one of three ways, chosen by the CPU flags:
/// synchronisation parameters, a modulation chunk, or silencer parameters.
#[derive(Clone, Copy, Debug)]
pub struct GlobalHeader {
    pub msg_id: u8,
    pub fpga_flag: FPGAControlFlags,
    pub cpu_flag: CPUControlFlags,
    pub size: u8,
    pub data: [u8; HEADER_DATA_SIZE],
}

/// The payload of one device: one 16-bit cell per transducer.
#[derive(Clone, Copy, Debug)]
pub struct Body {
    pub data: [u16; NUM_TRANS_IN_UNIT],
}

/// One outbound exchange: a header and a body for each device, of which
/// the first `num_bodies` are sent.
#[derive(Clone, Debug)]
pub struct TxDatagram {
    pub num_bodies: usize,
    pub header: GlobalHeader,
    pub bodies: Vec<Body>,
}

/// The 16-bit value whose low byte is `lo` and whose high byte is `hi`.
pub open spec fn u16_of(lo: u8, hi: u8) -> u16 {
    (lo as int + 256 * hi as int) as u16
}

/// The 32-bit value of four bytes, lowest first.
pub open spec fn u32_of(b0: u8, b1: u8, b2: u8, b3: u8) -> u32 {
    (b0 as int + 256 * b1 as int + 65536 * b2 as int + 16777216 * b3 as int) as u32
}

/// The 32-bit value of two 16-bit halves, lower first.
pub open spec fn u32_of_halves(lo: u16, hi: u16) -> u32 {
    (lo as int + 65536 * hi as int) as u32
}

impl GlobalHeader {
    /// The header of a fresh datagram: all zero.
    pub fn new() -> (r: GlobalHeader)
        ensures
            r.msg_id == 0,
            r.fpga_flag.bits == 0,
            r.cpu_flag.bits == 0,
            r.size == 0,
            forall|i: int| 0 <= i < HEADER_DATA_SIZE ==> r.data@[i] == 0,
    {
        GlobalHeader {
            msg_id: 0,
            fpga_flag: FPGAControlFlags::empty(),
            cpu_flag: CPUControlFlags::empty(),
            size: 0,
            data: [0u8; HEADER_DATA_SIZE],
        }
    }

    /// The slot read as synchronisation parameters: the cycle in ticks.
    pub open spec fn sync_cycle_ticks(self) -> u16 {
        u16_of(self.data@[0], self.data@[1])
    }

    /// The slot read as silencer parameters: the cycle.
    pub open spec fn silencer_cycle(self) -> u16 {
        u16_of(self.data@[0], self.data@[1])
    }

    /// The slot read as silencer parameters: the step.
    pub open spec fn silencer_step(self) -> u16 {
        u16_of(self.data@[2], self.data@[3])
    }

    /// The slot read as the first chunk of a modulation: the divisor.
    pub open spec fn mod_freq_div(self) -> u32 {
        u32_of(self.data@[0], self.data@[1], self.data@[2], self.data@[3])
    }

    /// The slot read as the first chunk of a modulation: its bytes.
    pub open spec fn mod_head_data(self) -> Seq<u8> {
        self.data@.subrange(4, HEADER_DATA_SIZE as int)
    }

    /// The slot read as a later chunk of a modulation: its bytes.
    pub open spec fn mod_body_data(self) -> Seq<u8> {
        self.data@
    }

    /// The header's bytes on the wire.
    pub open spec fn wire(self) -> Seq<u8> {
        seq![self.msg_id, self.fpga_flag.bits, self.cpu_flag.bits, self.size] + self.data@
    }

    /// Writes a 16-bit value at `at` and `at + 1` of the slot, low byte
    /// first.
    pub fn put_u16(&mut self, at: usize, v: u16)
        requires
            at + 1 < HEADER_DATA_SIZE,
        ensures
            final(self).data@ == old(self).data@.update(at as int, (v % 256) as u8).update(
                at + 1,
                (v / 256) as u8,
            ),
            u16_of(final(self).data@[at as int], final(self).data@[at + 1]) == v,
            final(self).msg_id == old(self).msg_id,
            final(self).fpga_flag == old(self).fpga_flag,
            final(self).cpu_flag == old(self).cpu_flag,
            final(self).size == old(self).size,
    {
        self.data[at] = (v % 256) as u8;
        self.data[at + 1] = (v / 256) as u8;
    }

    /// Writes a 32-bit value at `at` to `at + 3` of the slot, lowest byte
    /// first.
    pub fn put_u32(&mut self, at: usize, v: u32)
        requires
            at + 3 < HEADER_DATA_SIZE,
        ensures
            u32_of(
                final(self).data@[at as int],
                final(self).data@[at + 1],
                final(self).data@[at + 2],
                final(self).data@[at + 3],
            ) == v,
            forall|i: int|
                0 <= i < HEADER_DATA_SIZE && !(at <= i < at + 4) ==> final(self).data@[i] == old(
                    self,
                ).data@[i],
            final(self).msg_id == old(self).msg_id,
            final(self).fpga_flag == old(self).fpga_flag,
            final(self).cpu_flag == old(self).cpu_flag,
            final(self).size == old(self).size,
    {
        self.data[at] = (v % 256) as u8;
        self.data[at + 1] = ((v / 256) % 256) as u8;
        self.data[at + 2] = ((v / 65536) % 256) as u8;
        self.data[at + 3] = (v / 16777216) as u8;
    }

    /// Copies `src` into the slot from `at` on.
    pub fn put_bytes(&mut self, at: usize, src: &[u8])
        requires
            at + src@.len() <= HEADER_DATA_SIZE,
        ensures
            final(self).data@.subrange(at as int, at + src@.len()) == src@,
            forall|i: int|
                0 <= i < HEADER_DATA_SIZE && !(at <= i < at + src@.len()) ==> final(self).data@[i]
                    == old(self).data@[i],
            final(self).msg_id == old(self).msg_id,
            final(self).fpga_flag == old(self).fpga_flag,
            final(self).cpu_flag == old(self).cpu_flag,
            final(self).size == old(self).size,
    {
        let n: usize = src.len();
        let mut k: usize = 0;
        while k < n
            invariant
                0 <= k <= n,
                n == src@.len(),
                at + n <= HEADER_DATA_SIZE,
                forall|i: int| at <= i < at + k ==> self.data@[i] == src@[i - at],
                forall|i: int|
                    0 <= i < HEADER_DATA_SIZE && !(at <= i < at + k) ==> self.data@[i] == old(
                        self,
                    ).data@[i],
                self.msg_id == old(self).msg_id,
                self.fpga_flag == old(self).fpga_flag,
                self.cpu_flag == old(self).cpu_flag,
                self.size == old(self).size,
            decreases n - k,
        {
            self.data[at + k] = src[k];
            k = k + 1;
        }
        assert(self.data@.subrange(at as int, at + n) =~= src@);
    }
}

impl Body {
    /// Whether every cell is zero.
    pub open spec fn is_zero(self) -> bool {
        forall|c: int| 0 <= c < NUM_TRANS_IN_UNIT ==> self.data@[c] == 0
    }

    /// A body of zero cells.
    pub fn new() -> (r: Body)
        ensures
            r.is_zero(),
    {
        Body { data: [0u16; NUM_TRANS_IN_UNIT] }
    }

    /// The body's bytes on the wire: each cell low byte first.
    pub open spec fn wire(self) -> Seq<u8> {
        Seq::new(
            BODY_SIZE as nat,
            |k: int|
                if k % 2 == 0 {
                    (self.data@[k / 2] % 256) as u8
                } else {
                    (self.data@[k / 2] / 256) as u8
                },
        )
    }

    /// The body read as the first chunk of a point sequence: the number of
    /// points it declares.
    pub open spec fn point_stm_size(self) -> u16 {
        self.data@[0]
    }

    /// The body read as the first chunk of a point sequence: the divisor.
    pub open spec fn point_stm_freq_div(self) -> u32 {
        u32_of_halves(self.data@[1], self.data@[2])
    }

    /// The body read as the first chunk of a point sequence: the sound
    /// speed, in 1/1024 of its unit.
    pub open spec fn point_stm_sound_speed(self) -> u32 {
        u32_of_halves(self.data@[3], self.data@[4])
    }

    /// The body read as the first chunk of a gain sequence: the divisor.
    pub open spec fn gain_stm_freq_div(self) -> u32 {
        u32_of_halves(self.data@[0], self.data@[1])
    }

    /// Whether the cells from `at` on hold the focus points `points`, four
    /// cells each.
    pub open spec fn holds_points(self, at: int, points: Seq<SeqFocus>) -> bool {
        forall|c: int|
            at <= c < at + 4 * points.len() ==> #[trigger] self.data@[c] == points[(c - at) / 4].word(
                (c - at) % 4,
            )
    }

    /// Writes a 32-bit value into the cells `at` and `at + 1`, low half
    /// first.
    pub fn put_u32(&mut self, at: usize, v: u32)
        requires
            at + 1 < NUM_TRANS_IN_UNIT,
        ensures
            final(self).data@ == old(self).data@.update(at as int, (v % 65536) as u16).update(
                at + 1,
                (v / 65536) as u16,
            ),
            u32_of_halves(final(self).data@[at as int], final(self).data@[at + 1]) == v,
    {
        self.data[at] = (v % 65536) as u16;
        self.data[at + 1] = (v / 65536) as u16;
    }

    /// Writes `points` into the cells from `at` on, four cells each.
    pub fn put_points(&mut self, at: usize, points: &[SeqFocus])
        requires
            at + 4 * points.len() <= NUM_TRANS_IN_UNIT,
        ensures
            final(self).holds_points(at as int, points@),
            forall|c: int|
                0 <= c < NUM_TRANS_IN_UNIT && !(at <= c < at + 4 * points.len())
                    ==> final(self).data@[c] == old(self).data@[c],
    {
        let n: usize = points.len();
        let mut k: usize = 0;
        while k < n
            invariant
                n == points.len(),
                at + 4 * n <= NUM_TRANS_IN_UNIT,
                0 <= k <= n,
                forall|c: int|
                    at <= c < at + 4 * k ==> #[trigger] self.data@[c] == points@[(c - at) / 4].word(
                        (c - at) % 4,
                    ),
                forall|c: int|
                    0 <= c < NUM_TRANS_IN_UNIT && !(at <= c < at + 4 * k) ==> self.data@[c] == old(
                        self,
                    ).data@[c],
            decreases n - k,
        {
            let p = points[k];
            let base: usize = at + 4 * k;
            self.data[base] = p.w0;
            self.data[base + 1] = p.w1;
            self.data[base + 2] = p.w2;
            self.data[base + 3] = p.w3;
            k = k + 1;
        }
    }
}

impl TxDatagram {
    /// The number of devices the datagram has bodies for.
    pub open spec fn num_devices(self) -> nat {
        self.bodies@.len()
    }

    /// What every datagram made by `new` satisfies and every encoder keeps:
    /// no more bodies are sent than there are devices, and the whole frame
    /// has a length.
    pub open spec fn wf(self) -> bool {
        &&& self.num_bodies <= self.bodies@.len()
        &&& HEADER_SIZE + BODY_SIZE * self.bodies@.len() <= usize::MAX
    }

    /// The bytes that go on the wire: the header, then the bodies that are
    /// sent, in the order of the devices.
    pub open spec fn wire(self) -> Seq<u8> {
        Seq::new(
            (HEADER_SIZE + BODY_SIZE * self.num_bodies) as nat,
            |j: int|
                if j < HEADER_SIZE {
                    self.header.wire()[j]
                } else {
                    self.bodies@[(j - HEADER_SIZE) / (BODY_SIZE as int)].wire()[(j - HEADER_SIZE) % (
                    BODY_SIZE as int)]
                },
        )
    }

    /// A datagram for `device_num` devices: an all-zero header, all-zero
    /// bodies, and none of them marked for sending.
    pub fn new(device_num: usize) -> (r: TxDatagram)
        requires
            HEADER_SIZE + BODY_SIZE * device_num <= usize::MAX,
        ensures
            r.wf(),
            r.num_devices() == device_num,
            r.num_bodies == 0,
            r.header.msg_id == 0,
            r.header.fpga_flag.bits == 0,
            r.header.cpu_flag.bits == 0,
            r.header.size == 0,
            forall|i: int| 0 <= i < HEADER_DATA_SIZE ==> r.header.data@[i] == 0,
            forall|d: int| 0 <= d < device_num ==> (#[trigger] r.bodies@[d]).is_zero(),
    {
        let mut bodies: Vec<Body> = Vec::new();
        let mut i: usize = 0;
        while i < device_num
            invariant
                0 <= i <= device_num,
                bodies@.len() == i,
                forall|d: int| 0 <= d < i ==> (#[trigger] bodies@[d]).is_zero(),
            decreases device_num - i,
        {
            bodies.push(Body::new());
            i = i + 1;
        }
        TxDatagram { num_bodies: 0, header: GlobalHeader::new(), bodies }
    }

    /// The shared header.
    pub fn header(&self) -> (r: &GlobalHeader)
        ensures
            *r == self.header,
    {
        &self.header
    }

    /// The shared header, for writing.
    pub fn header_mut(&mut self) -> (r: &mut GlobalHeader)
        ensures
            *r == old(self).header,
            final(self).header == *final(r),
            final(self).bodies == old(self).bodies,
            final(self).num_bodies == old(self).num_bodies,
    {
        &mut self.header
    }

    /// The bodies of all devices, sent or not.
    pub fn body(&self) -> (r: &[Body])
        ensures
            r@ == self.bodies@,
    {
        self.bodies.as_slice()
    }

    /// The body of device `i`, for writing.
    pub fn body_mut(&mut self, i: usize) -> (r: &mut Body)
        requires
            i < old(self).bodies@.len(),
        ensures
            *r == old(self).bodies@[i as int],
            final(self).bodies@ == old(self).bodies@.update(i as int, *final(r)),
            final(self).header == old(self).header,
            final(self).num_bodies == old(self).num_bodies,
    {
        &mut self.bodies[i]
    }

    /// The number of bytes that go on the wire.
    pub fn size(&self) -> (r: usize)
        requires
            self.wf(),
        ensures
            r == HEADER_SIZE + BODY_SIZE * self.num_bodies,
            r == self.wire().len(),
    {
        HEADER_SIZE + BODY_SIZE * self.num_bodies
    }
}

/// The cell `c` of device `d` as a frame's bytes hold it.
pub open spec fn wire_cell(bytes: Seq<u8>, d: int, c: int) -> u16 {
    u16_of(
        bytes[HEADER_SIZE + BODY_SIZE * d + 2 * c],
        bytes[HEADER_SIZE + BODY_SIZE * d + 2 * c + 1],
    )
}

/// Whether `header` is the one that a frame's bytes begin with.
pub open spec fn wire_header(bytes: Seq<u8>, header: GlobalHeader) -> bool {
    &&& header.msg_id == bytes[0]
    &&& header.fpga_flag.bits == bytes[1]
    &&& header.cpu_flag.bits == bytes[2]
    &&& header.size == bytes[3]
    &&& header.data@ == bytes.subrange(4, HEADER_SIZE as int)
}

/// The bytes of a datagram hold its header and the cells of each body that
/// is sent, so reading a frame back gives what was written.
pub proof fn lemma_wire_holds(tx: TxDatagram)
    requires
        tx.wf(),
    ensures
        tx.wire().len() == HEADER_SIZE + BODY_SIZE * tx.num_bodies,
        wire_header(tx.wire(), tx.header),
        forall|d: int, c: int|
            0 <= d < tx.num_bodies && 0 <= c < NUM_TRANS_IN_UNIT ==> #[trigger] wire_cell(
                tx.wire(),
                d,
                c,
            ) == tx.bodies@[d].data@[c],
{
    let w = tx.wire();
    assert(tx.header.data@ =~= w.subrange(4, HEADER_SIZE as int));
    assert forall|d: int, c: int|
        0 <= d < tx.num_bodies && 0 <= c < NUM_TRANS_IN_UNIT implies #[trigger] wire_cell(w, d, c)
        == tx.bodies@[d].data@[c] by {
        lemma_wire_position(tx.num_bodies as int, d, 2 * c);
        lemma_wire_position(tx.num_bodies as int, d, 2 * c + 1);
        let v = tx.bodies@[d].data@[c];
        assert(u16_of((v % 256) as u8, (v / 256) as u8) == v);
    }
}

/// Byte `k` of body `d` stands at `HEADER_SIZE + BODY_SIZE * d + k` of a
/// frame of `n` bodies.
proof fn lemma_wire_position(n: int, d: int, k: int)
    requires
        0 <= d < n,
        0 <= k < BODY_SIZE,
    ensures
        HEADER_SIZE <= HEADER_SIZE + BODY_SIZE * d + k < HEADER_SIZE + BODY_SIZE * n,
        (BODY_SIZE * d + k) / (BODY_SIZE as int) == d,
        (BODY_SIZE * d + k) % (BODY_SIZE as int) == k,
{
    assert(BODY_SIZE * d + k < BODY_SIZE * n) by (nonlinear_arith)
        requires
            0 <= d < n,
            0 <= k < BODY_SIZE,
    ;
    assert(BODY_SIZE * d >= 0) by (nonlinear_arith)
        requires
            0 <= d,
    ;
    vstd::arithmetic::div_mod::lemma_fundamental_div_mod_converse(
        BODY_SIZE * d + k,
        BODY_SIZE as int,
        d,
        k,
    );
}

impl TxDatagram {
    /// The bytes that go on the wire.
    pub fn data(&self) -> (r: Vec<u8>)
        requires
            self.wf(),
        ensures
            r@ == self.wire(),
    {
        let mut out: Vec<u8> = Vec::new();
        out.push(self.header.msg_id);
        out.push(self.header.fpga_flag.bits);
        out.push(self.header.cpu_flag.bits);
        out.push(self.header.size);
        let mut i: usize = 0;
        while i < HEADER_DATA_SIZE
            invariant
                0 <= i <= HEADER_DATA_SIZE,
                out@.len() == 4 + i,
                forall|j: int| 0 <= j < 4 + i ==> out@[j] == self.header.wire()[j],
            decreases HEADER_DATA_SIZE - i,
        {
            out.push(self.header.data[i]);
            i = i + 1;
        }
        let n: usize = self.num_bodies;
        let mut d: usize = 0;
        while d < n
            invariant
                0 <= d <= n,
                n == self.num_bodies,
                self.wf(),
                out@.len() == HEADER_SIZE + BODY_SIZE * d,
                forall|j: int| 0 <= j < out@.len() ==> out@[j] == self.wire()[j],
            decreases n - d,
        {
            let body: &Body = &self.bodies[d];
            let mut c: usize = 0;
            while c < NUM_TRANS_IN_UNIT
                invariant
                    0 <= c <= NUM_TRANS_IN_UNIT,
                    0 <= d < n,
                    n == self.num_bodies,
                    self.wf(),
                    *body == self.bodies@[d as int],
                    out@.len() == HEADER_SIZE + BODY_SIZE * d + 2 * c,
                    forall|j: int| 0 <= j < out@.len() ==> out@[j] == self.wire()[j],
                decreases NUM_TRANS_IN_UNIT - c,
            {
                let v: u16 = body.data[c];
                proof {
                    lemma_wire_position(n as int, d as int, 2 * c);
                    lemma_wire_position(n as int, d as int, 2 * c + 1);
                }
                out.push((v % 256) as u8);
                out.push((v / 256) as u8);
                c = c + 1;
            }
            d = d + 1;
        }
        assert(out@ =~= self.wire());
        out
    }

    /// The datagram that a frame's bytes hold, if they are a header
    /// followed by whole bodies; every body of it is marked for sending.
    pub fn decode(bytes: &[u8]) -> (r: Option<TxDatagram>)
        ensures
            r is Some <==> bytes@.len() >= HEADER_SIZE && (bytes@.len() - HEADER_SIZE) % (
            BODY_SIZE as int) == 0,
            r is Some ==> {
                let tx = r.unwrap();
                &&& tx.wf()
                &&& tx.num_bodies == tx.num_devices()
                &&& tx.num_bodies == (bytes@.len() - HEADER_SIZE) / (BODY_SIZE as int)
                &&& wire_header(bytes@, tx.header)
                &&& forall|d: int, c: int|
                    0 <= d < tx.num_bodies && 0 <= c < NUM_TRANS_IN_UNIT ==> tx.bodies@[d].data@[c]
                        == #[trigger] wire_cell(bytes@, d, c)
            },
    {
        let len: usize = bytes.len();
        if len < HEADER_SIZE || (len - HEADER_SIZE) % BODY_SIZE != 0 {
            return None;
        }
        let n: usize = (len - HEADER_SIZE) / BODY_SIZE;
        assert(len == HEADER_SIZE + BODY_SIZE * n) by {
            vstd::arithmetic::div_mod::lemma_fundamental_div_mod(
                len - HEADER_SIZE,
                BODY_SIZE as int,
            );
        }
        let mut header: GlobalHeader = GlobalHeader::new();
        header.msg_id = bytes[0];
        header.fpga_flag = FPGAControlFlags { bits: bytes[1] };
        header.cpu_flag = CPUControlFlags { bits: bytes[2] };
        header.size = bytes[3];
        let mut i: usize = 0;
        while i < HEADER_DATA_SIZE
            invariant
                0 <= i <= HEADER_DATA_SIZE,
                len == bytes@.len(),
                len >= HEADER_SIZE,
                header.msg_id == bytes@[0],
                header.fpga_flag.bits == bytes@[1],
                header.cpu_flag.bits == bytes@[2],
                header.size == bytes@[3],
                forall|j: int| 0 <= j < i ==> header.data@[j] == bytes@[4 + j],
            decreases HEADER_DATA_SIZE - i,
        {
            header.data[i] = bytes[4 + i];
            i = i + 1;
        }
        assert(header.data@ =~= bytes@.subrange(4, HEADER_SIZE as int));
        let mut bodies: Vec<Body> = Vec::new();
        let mut d: usize = 0;
        while d < n
            invariant
                0 <= d <= n,
                len == bytes@.len(),
                len == HEADER_SIZE + BODY_SIZE * n,
                bodies@.len() == d,
                forall|k: int, c: int|
                    0 <= k < d && 0 <= c < NUM_TRANS_IN_UNIT ==> bodies@[k].data@[c]
                        == #[trigger] wire_cell(bytes@, k, c),
            decreases n - d,
        {
            let mut body: Body = Body::new();
            let mut c: usize = 0;
            while c < NUM_TRANS_IN_UNIT
                invariant
                    0 <= c <= NUM_TRANS_IN_UNIT,
                    0 <= d < n,
                    len == bytes@.len(),
                    len == HEADER_SIZE + BODY_SIZE * n,
                    forall|k: int| 0 <= k < c ==> body.data@[k] == wire_cell(bytes@, d as int, k),
                decreases NUM_TRANS_IN_UNIT - c,
            {
                proof {
                    lemma_wire_position(n as int, d as int, 2 * c);
                    lemma_wire_position(n as int, d as int, 2 * c + 1);
                }
                let at: usize = HEADER_SIZE + BODY_SIZE * d + 2 * c;
                body.data[c] = bytes[at] as u16 + 256 * (bytes[at + 1] as u16);
                c = c + 1;
            }
            bodies.push(body);
            d = d + 1;
        }
        Some(TxDatagram { num_bodies: n, header, bodies })
    }
}

/// The reply of one device: its acknowledgement and the id of the message
/// it has processed.
#[derive(Clone, Copy, Debug, PartialEq, Eq, Structural)]
pub struct RxMessage {
    pub ack: u8,
    pub msg_id: u8,
}

/// One inbound exchange: a reply slot for each device.
#[derive(Clone, Debug)]
pub struct RxDatagram {
    pub data: Vec<RxMessage>,
}

impl RxDatagram {
    /// A datagram of `device_num` all-zero replies.
    pub fn new(device_num: usize) -> (r: RxDatagram)
        ensures
            r.data@.len() == device_num,
            forall|i: int|
                0 <= i < device_num ==> #[trigger] r.data@[i] == (RxMessage { ack: 0, msg_id: 0 }),
    {
        let mut data: Vec<RxMessage> = Vec::new();
        let mut i: usize = 0;
        while i < device_num
            invariant
                0 <= i <= device_num,
                data@.len() == i,
                forall|k: int|
                    0 <= k < i ==> #[trigger] data@[k] == (RxMessage { ack: 0, msg_id: 0 }),
            decreases device_num - i,
        {
            data.push(RxMessage { ack: 0, msg_id: 0 });
            i = i + 1;
        }
        RxDatagram { data }
    }

    /// The replies, in the order of the devices.
    pub fn messages(&self) -> (r: &[RxMessage])
        ensures
            r@ == self.data@,
    {
        self.data.as_slice()
    }

    /// Fills every slot from the bytes received, two for each device: the
    /// acknowledgement, then the message id. Returns whether the bytes were
    /// as many as the slots need; if not, nothing is filled.
    pub fn copy_from(&mut self, bytes: &[u8]) -> (r: bool)
        ensures
            r == (bytes@.len() == EC_INPUT_FRAME_SIZE * old(self).data@.len()),
            final(self).data@.len() == old(self).data@.len(),
            r ==> forall|i: int|
                0 <= i < final(self).data@.len() ==> #[trigger] final(self).data@[i] == (RxMessage {
                    ack: bytes@[2 * i],
                    msg_id: bytes@[2 * i + 1],
                }),
            !r ==> final(self).data@ == old(self).data@,
    {
        let n: usize = self.data.len();
        let len: usize = bytes.len();
        if len % EC_INPUT_FRAME_SIZE != 0 || len / EC_INPUT_FRAME_SIZE != n {
            return false;
        }
        let mut i: usize = 0;
        while i < n
            invariant
                0 <= i <= n,
                n == self.data@.len(),
                len == bytes@.len(),
                len == 2 * n,
                forall|k: int|
                    0 <= k < i ==> #[trigger] self.data@[k] == (RxMessage {
                        ack: bytes@[2 * k],
                        msg_id: bytes@[2 * k + 1],
                    }),
            decreases n - i,
        {
            self.data[i] = RxMessage { ack: bytes[2 * i], msg_id: bytes[2 * i + 1] };
            i = i + 1;
        }
        true
    }
}

} // verus!
