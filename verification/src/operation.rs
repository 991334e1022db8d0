//! The command encoders: each fills a transmit datagram for one command.

use vstd::prelude::*;
use crate::datagram::{Body, TxDatagram};
use crate::drive::{DriveCell, Duty, LegacyDrive, Phase, SeqFocus};
use crate::error::{CPUError, DriverError, FPGAError};
use crate::flags::{
    lemma_cpu_flag_change, lemma_fpga_flag_change, CPUControlFlags, CPUFlag, FPGAControlFlags, FPGAFlag,
    OutputMode,
};
use crate::hardware::{
    MOD_BODY_DATA_SIZE, MOD_HEAD_DATA_SIZE, MOD_SAMPLING_FREQ_DIV_MIN, MSG_CLEAR,
    MSG_RD_CPU_VERSION, MSG_RD_FPGA_FUNCTION, MSG_RD_FPGA_VERSION, NUM_TRANS_IN_UNIT,
    POINT_STM_BODY_DATA_SIZE, POINT_STM_HEAD_DATA_SIZE, SILENCER_CYCLE_MIN,
    STM_SAMPLING_FREQ_DIV_MIN,
};

verus! {

/// Whether `body` holds, cell by cell, the drives of device `d` in the flat
/// array `drive`.
pub open spec fn body_holds<T: DriveCell>(body: Body, drive: Seq<T>, d: int) -> bool {
    forall|c: int|
        0 <= c < NUM_TRANS_IN_UNIT ==> #[trigger] body.data@[c] == drive[d * NUM_TRANS_IN_UNIT
            + c].cell()
}

/// Whether the first `count` of `after` hold the drives of their devices
/// and the others are as in `before`.
pub open spec fn bodies_filled<T: DriveCell>(
    before: Seq<Body>,
    after: Seq<Body>,
    drive: Seq<T>,
    count: int,
) -> bool {
    &&& after.len() == before.len()
    &&& forall|d: int| 0 <= d < count && d < after.len() ==> body_holds(#[trigger] after[d], drive, d)
    &&& forall|d: int| count <= d < after.len() ==> #[trigger] after[d] == before[d]
}

/// Fills the bodies of the first `count` devices from the flat array.
fn write_bodies<T: DriveCell>(tx: &mut TxDatagram, drive: &[T], count: usize)
    requires
        count <= old(tx).bodies@.len(),
        count * NUM_TRANS_IN_UNIT <= drive@.len(),
    ensures
        final(tx).header == old(tx).header,
        final(tx).num_bodies == old(tx).num_bodies,
        bodies_filled(old(tx).bodies@, final(tx).bodies@, drive@, count as int),
{
    let len: usize = drive.len();
    let mut d: usize = 0;
    while d < count
        invariant
            0 <= d <= count,
            len == drive@.len(),
            count <= tx.bodies@.len(),
            count * NUM_TRANS_IN_UNIT <= drive@.len(),
            tx.header == old(tx).header,
            tx.num_bodies == old(tx).num_bodies,
            bodies_filled(old(tx).bodies@, tx.bodies@, drive@, d as int),
        decreases count - d,
    {
        assert((d + 1) * NUM_TRANS_IN_UNIT <= count * NUM_TRANS_IN_UNIT) by (nonlinear_arith)
            requires
                d + 1 <= count,
        ;
        let base: usize = d * NUM_TRANS_IN_UNIT;
        let mut body: Body = tx.bodies[d];
        let mut c: usize = 0;
        while c < NUM_TRANS_IN_UNIT
            invariant
                0 <= c <= NUM_TRANS_IN_UNIT,
                d < count,
                base == d * NUM_TRANS_IN_UNIT,
                base + NUM_TRANS_IN_UNIT <= len,
                len == drive@.len(),
                forall|k: int| 0 <= k < c ==> #[trigger] body.data@[k] == drive@[base + k].cell(),
            decreases NUM_TRANS_IN_UNIT - c,
        {
            body.data[c] = drive[base + c].to_cell();
            c = c + 1;
        }
        tx.bodies[d] = body;
        d = d + 1;
    }
}

/// What the three mode flags are after each of the ways in which the
/// encoders prepare the FPGA flags.
proof fn lemma_mode_flags(f: FPGAControlFlags)
    ensures
        f.with(FPGAFlag::LegacyMode).without(FPGAFlag::StmMode).has(FPGAFlag::LegacyMode),
        !f.with(FPGAFlag::LegacyMode).without(FPGAFlag::StmMode).has(FPGAFlag::StmMode),
        !f.without(FPGAFlag::LegacyMode).without(FPGAFlag::StmMode).has(FPGAFlag::LegacyMode),
        !f.without(FPGAFlag::LegacyMode).without(FPGAFlag::StmMode).has(FPGAFlag::StmMode),
        f.with(FPGAFlag::StmMode).without(FPGAFlag::StmGainMode).has(FPGAFlag::StmMode),
        !f.with(FPGAFlag::StmMode).without(FPGAFlag::StmGainMode).has(FPGAFlag::StmGainMode),
        f.with(FPGAFlag::StmMode).without(FPGAFlag::StmGainMode).has(FPGAFlag::LegacyMode)
            == f.has(FPGAFlag::LegacyMode),
        f.with(FPGAFlag::LegacyMode).with(FPGAFlag::StmMode).with(FPGAFlag::StmGainMode).has(
            FPGAFlag::LegacyMode,
        ),
        f.with(FPGAFlag::LegacyMode).with(FPGAFlag::StmMode).with(FPGAFlag::StmGainMode).has(
            FPGAFlag::StmMode,
        ),
        f.with(FPGAFlag::LegacyMode).with(FPGAFlag::StmMode).with(FPGAFlag::StmGainMode).has(
            FPGAFlag::StmGainMode,
        ),
        !f.without(FPGAFlag::LegacyMode).with(FPGAFlag::StmMode).with(FPGAFlag::StmGainMode).has(
            FPGAFlag::LegacyMode,
        ),
        f.without(FPGAFlag::LegacyMode).with(FPGAFlag::StmMode).with(FPGAFlag::StmGainMode).has(
            FPGAFlag::StmMode,
        ),
        f.without(FPGAFlag::LegacyMode).with(FPGAFlag::StmMode).with(FPGAFlag::StmGainMode).has(
            FPGAFlag::StmGainMode,
        ),
{
    let l = FPGAFlag::LegacyMode;
    let m = FPGAFlag::StmMode;
    let g = FPGAFlag::StmGainMode;
    lemma_fpga_flag_change(f, l, m);
    lemma_fpga_flag_change(f, l, g);
    lemma_fpga_flag_change(f, m, l);
    lemma_fpga_flag_change(f, m, g);
    lemma_fpga_flag_change(f.with(l), m, l);
    lemma_fpga_flag_change(f.with(l), m, g);
    lemma_fpga_flag_change(f.without(l), m, l);
    lemma_fpga_flag_change(f.without(l), m, g);
    lemma_fpga_flag_change(f.with(m), g, l);
    lemma_fpga_flag_change(f.with(m), g, m);
    lemma_fpga_flag_change(f.with(l).with(m), g, l);
    lemma_fpga_flag_change(f.with(l).with(m), g, m);
    lemma_fpga_flag_change(f.without(l).with(m), g, l);
    lemma_fpga_flag_change(f.without(l).with(m), g, m);
}

/// Resets the devices: the message id becomes the clear sentinel and no
/// body is sent.
pub fn clear(tx: &mut TxDatagram)
    ensures
        old(tx).wf() ==> final(tx).wf(),
        final(tx).header.msg_id == MSG_CLEAR,
        final(tx).num_bodies == 0,
        final(tx).header.fpga_flag == old(tx).header.fpga_flag,
        final(tx).header.cpu_flag == old(tx).header.cpu_flag,
        final(tx).header.size == old(tx).header.size,
        final(tx).header.data == old(tx).header.data,
        final(tx).bodies == old(tx).bodies,
{
    tx.header.msg_id = MSG_CLEAR;
    tx.num_bodies = 0;
}

/// Static drive in the combined encoding: one cell per transducer, phase in
/// the low byte and duty in the high byte.
///
/// Succeeds exactly when `drive` has one entry for each transducer of each
/// device. It then sets `LEGACY_MODE`, clears `STM_MODE` and marks every
/// body for sending. Otherwise the datagram is left as it was.
pub fn normal_legacy(msg_id: u8, drive: &[LegacyDrive], tx: &mut TxDatagram) -> (r: Result<
    (),
    DriverError,
>)
    requires
        old(tx).wf(),
    ensures
        final(tx).wf(),
        r is Ok <==> drive@.len() == old(tx).num_devices() * NUM_TRANS_IN_UNIT,
        r is Ok ==> {
            &&& final(tx).header.msg_id == msg_id
            &&& final(tx).header.fpga_flag == old(tx).header.fpga_flag.with(
                FPGAFlag::LegacyMode,
            ).without(FPGAFlag::StmMode)
            &&& final(tx).header.fpga_flag.has(FPGAFlag::LegacyMode)
            &&& !final(tx).header.fpga_flag.has(FPGAFlag::StmMode)
            &&& final(tx).header.fpga_flag.mode() == OutputMode::Static
            &&& final(tx).header.cpu_flag == old(tx).header.cpu_flag
            &&& final(tx).header.size == old(tx).header.size
            &&& final(tx).header.data == old(tx).header.data
            &&& final(tx).num_bodies == old(tx).num_devices()
            &&& bodies_filled(
                old(tx).bodies@,
                final(tx).bodies@,
                drive@,
                old(tx).num_devices() as int,
            )
        },
        r is Err ==> {
            &&& *final(tx) == *old(tx)
            &&& r == Err::<(), DriverError>(
                DriverError::CPU(
                    CPUError::DeviceNumberNotCorrect {
                        a: old(tx).bodies@.len() as usize,
                        b: (drive@.len() / (NUM_TRANS_IN_UNIT as nat)) as usize,
                    },
                ),
            )
        },
{
    let devices: usize = tx.bodies.len();
    if drive.len() != devices * NUM_TRANS_IN_UNIT {
        return Err(
            DriverError::CPU(
                CPUError::DeviceNumberNotCorrect { a: devices, b: drive.len() / NUM_TRANS_IN_UNIT },
            ),
        );
    }
    tx.header.msg_id = msg_id;
    tx.header.fpga_flag.set(FPGAFlag::LegacyMode, true);
    tx.header.fpga_flag.remove(FPGAFlag::StmMode);
    proof {
        lemma_mode_flags(old(tx).header.fpga_flag);
    }
    write_bodies(tx, drive, devices);
    tx.num_bodies = devices;
    Ok(())
}

/// Static drive in the split encoding, the duties: one cell per transducer.
///
/// Succeeds exactly when `drive` has one entry for each transducer of each
/// device. It then clears `LEGACY_MODE` and `STM_MODE`, sets `IS_DUTY` and
/// marks every body for sending. Otherwise the datagram is left as it was.
pub fn normal_duty(msg_id: u8, drive: &[Duty], tx: &mut TxDatagram) -> (r: Result<(), DriverError>)
    requires
        old(tx).wf(),
    ensures
        final(tx).wf(),
        r is Ok <==> drive@.len() == old(tx).num_devices() * NUM_TRANS_IN_UNIT,
        r is Ok ==> {
            &&& final(tx).header.msg_id == msg_id
            &&& final(tx).header.fpga_flag == old(tx).header.fpga_flag.without(
                FPGAFlag::LegacyMode,
            ).without(FPGAFlag::StmMode)
            &&& !final(tx).header.fpga_flag.has(FPGAFlag::LegacyMode)
            &&& !final(tx).header.fpga_flag.has(FPGAFlag::StmMode)
            &&& final(tx).header.fpga_flag.mode() == OutputMode::Static
            &&& final(tx).header.cpu_flag == old(tx).header.cpu_flag.with(CPUFlag::IsDuty)
            &&& final(tx).header.size == old(tx).header.size
            &&& final(tx).header.data == old(tx).header.data
            &&& final(tx).num_bodies == old(tx).num_devices()
            &&& bodies_filled(
                old(tx).bodies@,
                final(tx).bodies@,
                drive@,
                old(tx).num_devices() as int,
            )
        },
        r is Err ==> {
            &&& *final(tx) == *old(tx)
            &&& r == Err::<(), DriverError>(
                DriverError::CPU(
                    CPUError::DeviceNumberNotCorrect {
                        a: old(tx).bodies@.len() as usize,
                        b: (drive@.len() / (NUM_TRANS_IN_UNIT as nat)) as usize,
                    },
                ),
            )
        },
{
    let devices: usize = tx.bodies.len();
    if drive.len() != devices * NUM_TRANS_IN_UNIT {
        return Err(
            DriverError::CPU(
                CPUError::DeviceNumberNotCorrect { a: devices, b: drive.len() / NUM_TRANS_IN_UNIT },
            ),
        );
    }
    tx.header.msg_id = msg_id;
    tx.header.fpga_flag.remove(FPGAFlag::LegacyMode);
    tx.header.fpga_flag.remove(FPGAFlag::StmMode);
    proof {
        lemma_mode_flags(old(tx).header.fpga_flag);
    }
    tx.header.cpu_flag.set(CPUFlag::IsDuty, true);
    write_bodies(tx, drive, devices);
    tx.num_bodies = devices;
    Ok(())
}

/// Static drive in the split encoding, the phases: one cell per transducer.
///
/// Succeeds exactly when `drive` has one entry for each transducer of each
/// device. It then clears `LEGACY_MODE`, `STM_MODE` and `IS_DUTY` and marks
/// every body for sending. Otherwise the datagram is left as it was.
pub fn normal_phase(msg_id: u8, drive: &[Phase], tx: &mut TxDatagram) -> (r: Result<(), DriverError>)
    requires
        old(tx).wf(),
    ensures
        final(tx).wf(),
        r is Ok <==> drive@.len() == old(tx).num_devices() * NUM_TRANS_IN_UNIT,
        r is Ok ==> {
            &&& final(tx).header.msg_id == msg_id
            &&& final(tx).header.fpga_flag == old(tx).header.fpga_flag.without(
                FPGAFlag::LegacyMode,
            ).without(FPGAFlag::StmMode)
            &&& !final(tx).header.fpga_flag.has(FPGAFlag::LegacyMode)
            &&& !final(tx).header.fpga_flag.has(FPGAFlag::StmMode)
            &&& final(tx).header.fpga_flag.mode() == OutputMode::Static
            &&& final(tx).header.cpu_flag == old(tx).header.cpu_flag.without(CPUFlag::IsDuty)
            &&& final(tx).header.size == old(tx).header.size
            &&& final(tx).header.data == old(tx).header.data
            &&& final(tx).num_bodies == old(tx).num_devices()
            &&& bodies_filled(
                old(tx).bodies@,
                final(tx).bodies@,
                drive@,
                old(tx).num_devices() as int,
            )
        },
        r is Err ==> {
            &&& *final(tx) == *old(tx)
            &&& r == Err::<(), DriverError>(
                DriverError::CPU(
                    CPUError::DeviceNumberNotCorrect {
                        a: old(tx).bodies@.len() as usize,
                        b: (drive@.len() / (NUM_TRANS_IN_UNIT as nat)) as usize,
                    },
                ),
            )
        },
{
    let devices: usize = tx.bodies.len();
    if drive.len() != devices * NUM_TRANS_IN_UNIT {
        return Err(
            DriverError::CPU(
                CPUError::DeviceNumberNotCorrect { a: devices, b: drive.len() / NUM_TRANS_IN_UNIT },
            ),
        );
    }
    tx.header.msg_id = msg_id;
    tx.header.fpga_flag.remove(FPGAFlag::LegacyMode);
    tx.header.fpga_flag.remove(FPGAFlag::StmMode);
    proof {
        lemma_mode_flags(old(tx).header.fpga_flag);
    }
    tx.header.cpu_flag.remove(CPUFlag::IsDuty);
    write_bodies(tx, drive, devices);
    tx.num_bodies = devices;
    Ok(())
}

/// Synchronisation: the cycle of each transducer of each device, and the
/// bus cycle in ticks.
///
/// Succeeds exactly when `cycles` has one array for each device. It then
/// clears `CONFIG_SILENCER`, sets `DO_SYNC`, writes the tick count into the
/// header slot, copies each array into its device's body and marks every
/// body for sending. Otherwise the datagram is left as it was.
pub fn sync(
    msg_id: u8,
    sync_cycle_ticks: u16,
    cycles: &[[u16; NUM_TRANS_IN_UNIT]],
    tx: &mut TxDatagram,
) -> (r: Result<(), DriverError>)
    requires
        old(tx).wf(),
    ensures
        final(tx).wf(),
        r is Ok <==> cycles@.len() == old(tx).num_devices(),
        r is Ok ==> {
            &&& final(tx).header.msg_id == msg_id
            &&& final(tx).header.fpga_flag == old(tx).header.fpga_flag
            &&& final(tx).header.cpu_flag == old(tx).header.cpu_flag.without(
                CPUFlag::ConfigSilencer,
            ).with(CPUFlag::DoSync)
            &&& final(tx).header.cpu_flag.has(CPUFlag::DoSync)
            &&& !final(tx).header.cpu_flag.has(CPUFlag::ConfigSilencer)
            &&& final(tx).header.size == old(tx).header.size
            &&& final(tx).header.sync_cycle_ticks() == sync_cycle_ticks
            &&& forall|i: int|
                2 <= i < final(tx).header.data@.len() ==> final(tx).header.data@[i] == old(tx).header.data@[i]
            &&& final(tx).num_bodies == old(tx).num_devices()
            &&& final(tx).bodies@.len() == old(tx).num_devices()
            &&& forall|d: int|
                0 <= d < cycles@.len() ==> (#[trigger] final(tx).bodies@[d]).data == cycles@[d]
        },
        r is Err ==> {
            &&& *final(tx) == *old(tx)
            &&& r == Err::<(), DriverError>(
                DriverError::CPU(
                    CPUError::DeviceNumberNotCorrect {
                        a: old(tx).bodies@.len() as usize,
                        b: cycles@.len() as usize,
                    },
                ),
            )
        },
{
    let devices: usize = tx.bodies.len();
    if cycles.len() != devices {
        return Err(
            DriverError::CPU(CPUError::DeviceNumberNotCorrect { a: devices, b: cycles.len() }),
        );
    }
    tx.header.msg_id = msg_id;
    tx.header.cpu_flag.remove(CPUFlag::ConfigSilencer);
    tx.header.cpu_flag.set(CPUFlag::DoSync, true);
    proof {
        lemma_cpu_flag_change(
            old(tx).header.cpu_flag.without(CPUFlag::ConfigSilencer),
            CPUFlag::DoSync,
            CPUFlag::ConfigSilencer,
        );
        lemma_cpu_flag_change(
            old(tx).header.cpu_flag,
            CPUFlag::ConfigSilencer,
            CPUFlag::DoSync,
        );
    }
    tx.header.put_u16(0, sync_cycle_ticks);
    let mut d: usize = 0;
    while d < devices
        invariant
            0 <= d <= devices,
            devices == cycles@.len(),
            tx.bodies@.len() == devices,
            tx.header.msg_id == msg_id,
            tx.header.fpga_flag == old(tx).header.fpga_flag,
            tx.header.cpu_flag == old(tx).header.cpu_flag.without(CPUFlag::ConfigSilencer).with(
                CPUFlag::DoSync,
            ),
            tx.header.size == old(tx).header.size,
            tx.header.sync_cycle_ticks() == sync_cycle_ticks,
            forall|i: int|
                2 <= i < tx.header.data@.len() ==> tx.header.data@[i] == old(tx).header.data@[i],
            forall|k: int| 0 <= k < d ==> (#[trigger] tx.bodies@[k]).data == cycles@[k],
        decreases devices - d,
    {
        tx.bodies[d] = Body { data: cycles[d] };
        d = d + 1;
    }
    tx.num_bodies = devices;
    Ok(())
}

/// Silencer configuration.
///
/// Succeeds exactly when `cycle` is at least the silencer's minimum. It
/// then clears `DO_SYNC`, sets `CONFIG_SILENCER` and writes cycle and step
/// into the header slot. Otherwise the datagram is left as it was.
pub fn config_silencer(msg_id: u8, cycle: u16, step: u16, tx: &mut TxDatagram) -> (r: Result<
    (),
    DriverError,
>)
    ensures
        old(tx).wf() ==> final(tx).wf(),
        r is Ok <==> cycle >= SILENCER_CYCLE_MIN,
        r is Ok ==> {
            &&& final(tx).header.msg_id == msg_id
            &&& final(tx).header.fpga_flag == old(tx).header.fpga_flag
            &&& final(tx).header.cpu_flag == old(tx).header.cpu_flag.without(CPUFlag::DoSync).with(
                CPUFlag::ConfigSilencer,
            )
            &&& final(tx).header.cpu_flag.has(CPUFlag::ConfigSilencer)
            &&& !final(tx).header.cpu_flag.has(CPUFlag::DoSync)
            &&& final(tx).header.size == old(tx).header.size
            &&& final(tx).header.silencer_cycle() == cycle
            &&& final(tx).header.silencer_step() == step
            &&& forall|i: int|
                4 <= i < final(tx).header.data@.len() ==> final(tx).header.data@[i] == old(tx).header.data@[i]
            &&& final(tx).num_bodies == old(tx).num_bodies
            &&& final(tx).bodies == old(tx).bodies
        },
        r is Err ==> {
            &&& *final(tx) == *old(tx)
            &&& r == Err::<(), DriverError>(
                DriverError::FPGA(FPGAError::SilencerCycleOutOfRange(cycle)),
            )
        },
{
    if cycle < SILENCER_CYCLE_MIN {
        return Err(DriverError::FPGA(FPGAError::SilencerCycleOutOfRange(cycle)));
    }
    tx.header.msg_id = msg_id;
    tx.header.cpu_flag.remove(CPUFlag::DoSync);
    tx.header.cpu_flag.set(CPUFlag::ConfigSilencer, true);
    proof {
        lemma_cpu_flag_change(
            old(tx).header.cpu_flag.without(CPUFlag::DoSync),
            CPUFlag::ConfigSilencer,
            CPUFlag::DoSync,
        );
        lemma_cpu_flag_change(old(tx).header.cpu_flag, CPUFlag::DoSync, CPUFlag::ConfigSilencer);
    }
    tx.header.put_u16(0, cycle);
    tx.header.put_u16(2, step);
    Ok(())
}

/// Switches the fan flag on or off; nothing else changes.
pub fn force_fan(tx: &mut TxDatagram, value: bool)
    ensures
        old(tx).wf() ==> final(tx).wf(),
        final(tx).header.fpga_flag == old(tx).header.fpga_flag.with_set(FPGAFlag::ForceFan, value),
        final(tx).header.msg_id == old(tx).header.msg_id,
        final(tx).header.cpu_flag == old(tx).header.cpu_flag,
        final(tx).header.size == old(tx).header.size,
        final(tx).header.data == old(tx).header.data,
        final(tx).num_bodies == old(tx).num_bodies,
        final(tx).bodies == old(tx).bodies,
{
    tx.header.fpga_flag.set(FPGAFlag::ForceFan, value);
}

/// Switches the flag that makes devices report their FPGA state on or off;
/// nothing else changes.
pub fn reads_fpga_info(tx: &mut TxDatagram, value: bool)
    ensures
        old(tx).wf() ==> final(tx).wf(),
        final(tx).header.cpu_flag == old(tx).header.cpu_flag.with_set(
            CPUFlag::ReadsFpgaInfo,
            value,
        ),
        final(tx).header.msg_id == old(tx).header.msg_id,
        final(tx).header.fpga_flag == old(tx).header.fpga_flag,
        final(tx).header.size == old(tx).header.size,
        final(tx).header.data == old(tx).header.data,
        final(tx).num_bodies == old(tx).num_bodies,
        final(tx).bodies == old(tx).bodies,
{
    tx.header.cpu_flag.set(CPUFlag::ReadsFpgaInfo, value);
}

/// Turns the datagram into a header-only read request with the given
/// message id and CPU flag byte.
fn read_request(tx: &mut TxDatagram, msg_id: u8, cpu_bits: u8)
    ensures
        final(tx).header.msg_id == msg_id,
        final(tx).header.cpu_flag.bits == cpu_bits,
        final(tx).num_bodies == 0,
        final(tx).header.fpga_flag == old(tx).header.fpga_flag,
        final(tx).header.size == old(tx).header.size,
        final(tx).header.data == old(tx).header.data,
        final(tx).bodies == old(tx).bodies,
{
    tx.header.msg_id = msg_id;
    tx.header.cpu_flag = CPUControlFlags { bits: cpu_bits };
    tx.num_bodies = 0;
}

/// Asks for the CPU firmware version: header only, with the flag byte that
/// older firmware expects.
pub fn cpu_version(tx: &mut TxDatagram)
    ensures
        old(tx).wf() ==> final(tx).wf(),
        final(tx).header.msg_id == MSG_RD_CPU_VERSION,
        final(tx).header.cpu_flag.bits == 0x02,
        final(tx).num_bodies == 0,
        final(tx).header.fpga_flag == old(tx).header.fpga_flag,
        final(tx).header.size == old(tx).header.size,
        final(tx).header.data == old(tx).header.data,
        final(tx).bodies == old(tx).bodies,
{
    read_request(tx, MSG_RD_CPU_VERSION, 0x02);
}

/// Asks for the FPGA firmware version: header only, with the flag byte that
/// older firmware expects.
pub fn fpga_version(tx: &mut TxDatagram)
    ensures
        old(tx).wf() ==> final(tx).wf(),
        final(tx).header.msg_id == MSG_RD_FPGA_VERSION,
        final(tx).header.cpu_flag.bits == 0x04,
        final(tx).num_bodies == 0,
        final(tx).header.fpga_flag == old(tx).header.fpga_flag,
        final(tx).header.size == old(tx).header.size,
        final(tx).header.data == old(tx).header.data,
        final(tx).bodies == old(tx).bodies,
{
    read_request(tx, MSG_RD_FPGA_VERSION, 0x04);
}

/// Asks for the FPGA function bits: header only, with the flag byte that
/// older firmware expects.
pub fn fpga_functions(tx: &mut TxDatagram)
    ensures
        old(tx).wf() ==> final(tx).wf(),
        final(tx).header.msg_id == MSG_RD_FPGA_FUNCTION,
        final(tx).header.cpu_flag.bits == 0x05,
        final(tx).num_bodies == 0,
        final(tx).header.fpga_flag == old(tx).header.fpga_flag,
        final(tx).header.size == old(tx).header.size,
        final(tx).header.data == old(tx).header.data,
        final(tx).bodies == old(tx).bodies,
{
    read_request(tx, MSG_RD_FPGA_FUNCTION, 0x05);
}

/// Why a modulation chunk of `len` bytes is refused, if it is: a first
/// chunk over the head capacity, a later chunk over the body capacity, or a
/// first chunk whose divisor is under the minimum, in this order.
pub open spec fn modulation_refusal(len: nat, is_first_frame: bool, freq_div: u32) -> Option<
    DriverError,
> {
    if is_first_frame && len > MOD_HEAD_DATA_SIZE {
        Some(DriverError::CPU(CPUError::ModulationHeadDataSizeOutOfRange(len as usize)))
    } else if !is_first_frame && len > MOD_BODY_DATA_SIZE {
        Some(DriverError::CPU(CPUError::ModulationBodyDataSizeOutOfRange(len as usize)))
    } else if is_first_frame && freq_div < MOD_SAMPLING_FREQ_DIV_MIN {
        Some(DriverError::FPGA(FPGAError::ModFreqDivOutOfRange(freq_div)))
    } else {
        None
    }
}

/// One chunk of a modulation upload, carried in the header slot.
///
/// The message id is set and `DO_SYNC` and `CONFIG_SILENCER` are cleared
/// in any case. The chunk is refused as `modulation_refusal` says, and the
/// rest of the datagram is then as it was. Otherwise the chunk's length
/// goes into the size field, a first frame sets `MOD_BEGIN` and carries the
/// divisor before the bytes, and a last frame sets `MOD_END`.
pub fn modulation(
    msg_id: u8,
    mod_data: &[u8],
    is_first_frame: bool,
    freq_div: u32,
    is_last_frame: bool,
    tx: &mut TxDatagram,
) -> (r: Result<(), DriverError>)
    ensures
        old(tx).wf() ==> final(tx).wf(),
        final(tx).header.msg_id == msg_id,
        final(tx).header.fpga_flag == old(tx).header.fpga_flag,
        final(tx).num_bodies == old(tx).num_bodies,
        final(tx).bodies == old(tx).bodies,
        !final(tx).header.cpu_flag.has(CPUFlag::DoSync),
        !final(tx).header.cpu_flag.has(CPUFlag::ConfigSilencer),
        r is Err <==> modulation_refusal(mod_data@.len(), is_first_frame, freq_div) is Some,
        r is Err ==> {
            &&& r == Err::<(), DriverError>(
                modulation_refusal(mod_data@.len(), is_first_frame, freq_div).unwrap(),
            )
            &&& final(tx).header.cpu_flag == old(tx).header.cpu_flag.without(
                CPUFlag::DoSync,
            ).without(CPUFlag::ConfigSilencer)
            &&& final(tx).header.size == old(tx).header.size
            &&& final(tx).header.data == old(tx).header.data
        },
        r is Ok ==> {
            &&& final(tx).header.cpu_flag == old(tx).header.cpu_flag.without(
                CPUFlag::DoSync,
            ).without(CPUFlag::ConfigSilencer).with_if(CPUFlag::ModBegin, is_first_frame).with_if(
                CPUFlag::ModEnd,
                is_last_frame,
            )
            &&& final(tx).header.size == mod_data@.len()
            &&& is_first_frame ==> {
                &&& final(tx).header.mod_freq_div() == freq_div
                &&& final(tx).header.mod_head_data().subrange(0, mod_data@.len() as int)
                    == mod_data@
                &&& forall|i: int|
                    4 + mod_data@.len() <= i < final(tx).header.data@.len() ==> final(tx).header.data@[i] == old(tx).header.data@[i]
            }
            &&& !is_first_frame ==> {
                &&& final(tx).header.mod_body_data().subrange(0, mod_data@.len() as int)
                    == mod_data@
                &&& forall|i: int|
                    mod_data@.len() <= i < final(tx).header.data@.len() ==> final(tx).header.data@[i] == old(tx).header.data@[i]
            }
        },
{
    let len: usize = mod_data.len();
    tx.header.msg_id = msg_id;
    tx.header.cpu_flag.remove(CPUFlag::DoSync);
    tx.header.cpu_flag.remove(CPUFlag::ConfigSilencer);
    proof {
        let f0 = old(tx).header.cpu_flag;
        let f1 = f0.without(CPUFlag::DoSync).without(CPUFlag::ConfigSilencer);
        lemma_cpu_flag_change(f0, CPUFlag::DoSync, CPUFlag::ConfigSilencer);
        lemma_cpu_flag_change(
            f0.without(CPUFlag::DoSync),
            CPUFlag::ConfigSilencer,
            CPUFlag::DoSync,
        );
        lemma_cpu_flag_change(f1, CPUFlag::ModBegin, CPUFlag::DoSync);
        lemma_cpu_flag_change(f1, CPUFlag::ModBegin, CPUFlag::ConfigSilencer);
        lemma_cpu_flag_change(f1, CPUFlag::ModEnd, CPUFlag::DoSync);
        lemma_cpu_flag_change(f1, CPUFlag::ModEnd, CPUFlag::ConfigSilencer);
        lemma_cpu_flag_change(f1.with(CPUFlag::ModBegin), CPUFlag::ModEnd, CPUFlag::DoSync);
        lemma_cpu_flag_change(
            f1.with(CPUFlag::ModBegin),
            CPUFlag::ModEnd,
            CPUFlag::ConfigSilencer,
        );
    }
    if is_first_frame && len > MOD_HEAD_DATA_SIZE {
        return Err(DriverError::CPU(CPUError::ModulationHeadDataSizeOutOfRange(len)));
    }
    if !is_first_frame && len > MOD_BODY_DATA_SIZE {
        return Err(DriverError::CPU(CPUError::ModulationBodyDataSizeOutOfRange(len)));
    }
    if is_first_frame {
        if freq_div < MOD_SAMPLING_FREQ_DIV_MIN {
            return Err(DriverError::FPGA(FPGAError::ModFreqDivOutOfRange(freq_div)));
        }
        tx.header.cpu_flag.set(CPUFlag::ModBegin, true);
        tx.header.put_u32(0, freq_div);
        tx.header.put_bytes(4, mod_data);
        assert(tx.header.mod_head_data().subrange(0, len as int) =~= tx.header.data@.subrange(
            4,
            4 + len,
        ));
    } else {
        tx.header.put_bytes(0, mod_data);
    }
    tx.header.size = len as u8;
    if is_last_frame {
        tx.header.cpu_flag.set(CPUFlag::ModEnd, true);
    }
    Ok(())
}

/// The number of bodies that a later frame of a gain sequence fills from a
/// flat array of `len` drives: one for each whole device in the array, and
/// no more than there are devices.
pub open spec fn gain_stm_filled(devices: nat, len: nat) -> nat {
    if len / (NUM_TRANS_IN_UNIT as nat) < devices {
        len / (NUM_TRANS_IN_UNIT as nat)
    } else {
        devices
    }
}

/// Whether a flat array of `len` drives can fill the bodies of a later
/// frame: it covers every device, or it ends with a whole device.
pub open spec fn gain_stm_covers(devices: nat, len: nat) -> bool {
    len >= devices * NUM_TRANS_IN_UNIT || len % (NUM_TRANS_IN_UNIT as nat) == 0
}

/// Whether `after` is `before` with the divisor of a gain sequence written
/// into the first two cells of every body.
pub open spec fn gain_heads_written(before: Seq<Body>, after: Seq<Body>, freq_div: u32) -> bool {
    &&& after.len() == before.len()
    &&& forall|d: int|
        0 <= d < after.len() ==> {
            &&& (#[trigger] after[d]).gain_stm_freq_div() == freq_div
            &&& forall|c: int|
                2 <= c < NUM_TRANS_IN_UNIT ==> after[d].data@[c] == before[d].data@[c]
        }
}

/// What all frames of a gain sequence share once the flag bytes are
/// prepared: the divisor check and the head of a first frame, the drive
/// chunks of a later frame, the end flag, and the count of bodies.
fn gain_stm_frame<T: DriveCell>(
    gain: &[T],
    is_first_frame: bool,
    freq_div: u32,
    is_last_frame: bool,
    tx: &mut TxDatagram,
) -> (r: Result<(), DriverError>)
    requires
        old(tx).wf(),
        !is_first_frame ==> gain_stm_covers(old(tx).num_devices(), gain@.len()),
    ensures
        final(tx).header.msg_id == old(tx).header.msg_id,
        final(tx).header.fpga_flag == old(tx).header.fpga_flag,
        final(tx).header.size == old(tx).header.size,
        final(tx).header.data == old(tx).header.data,
        r is Err <==> is_first_frame && freq_div < STM_SAMPLING_FREQ_DIV_MIN,
        r is Err ==> {
            &&& r == Err::<(), DriverError>(
                DriverError::FPGA(FPGAError::STMFreqDivOutOfRange(freq_div)),
            )
            &&& *final(tx) == *old(tx)
        },
        r is Ok ==> {
            &&& final(tx).header.cpu_flag == old(tx).header.cpu_flag.with_if(
                CPUFlag::StmBegin,
                is_first_frame,
            ).with_if(CPUFlag::StmEnd, is_last_frame)
            &&& final(tx).num_bodies == old(tx).num_devices()
            &&& is_first_frame ==> gain_heads_written(old(tx).bodies@, final(tx).bodies@, freq_div)
            &&& !is_first_frame ==> bodies_filled(
                old(tx).bodies@,
                final(tx).bodies@,
                gain@,
                gain_stm_filled(old(tx).num_devices(), gain@.len()) as int,
            )
        },
{
    let devices: usize = tx.bodies.len();
    if is_first_frame {
        if freq_div < STM_SAMPLING_FREQ_DIV_MIN {
            return Err(DriverError::FPGA(FPGAError::STMFreqDivOutOfRange(freq_div)));
        }
        tx.header.cpu_flag.set(CPUFlag::StmBegin, true);
        let mut d: usize = 0;
        while d < devices
            invariant
                0 <= d <= devices,
                devices == tx.bodies@.len(),
                tx.bodies@.len() == old(tx).bodies@.len(),
                tx.header.msg_id == old(tx).header.msg_id,
                tx.header.fpga_flag == old(tx).header.fpga_flag,
                tx.header.size == old(tx).header.size,
                tx.header.data == old(tx).header.data,
                tx.header.cpu_flag == old(tx).header.cpu_flag.with(CPUFlag::StmBegin),
                forall|k: int|
                    0 <= k < d ==> {
                        &&& (#[trigger] tx.bodies@[k]).gain_stm_freq_div() == freq_div
                        &&& forall|c: int|
                            2 <= c < NUM_TRANS_IN_UNIT ==> tx.bodies@[k].data@[c] == old(tx).bodies@[k].data@[c]
                    },
                forall|k: int| d <= k < devices ==> #[trigger] tx.bodies@[k] == old(tx).bodies@[k],
            decreases devices - d,
        {
            let mut body: Body = tx.bodies[d];
            body.put_u32(0, freq_div);
            tx.bodies[d] = body;
            d = d + 1;
        }
    } else {
        let chunks: usize = gain.len() / NUM_TRANS_IN_UNIT;
        let count: usize = if chunks < devices {
            chunks
        } else {
            devices
        };
        assert(count * NUM_TRANS_IN_UNIT <= gain@.len()) by (nonlinear_arith)
            requires
                count <= gain@.len() / (NUM_TRANS_IN_UNIT as nat),
        ;
        write_bodies(tx, gain, count);
    }
    if is_last_frame {
        tx.header.cpu_flag.set(CPUFlag::StmEnd, true);
    }
    tx.num_bodies = devices;
    Ok(())
}

/// One frame of a gain sequence in the combined encoding.
///
/// The message id is set and `LEGACY_MODE`, `STM_MODE` and `STM_GAIN_MODE`
/// are set in any case. A first frame is refused when its divisor is under
/// the minimum; the rest of the datagram is then as it was. Otherwise a
/// first frame sets `STM_BEGIN` and carries only the divisor, in the first
/// two cells of every body; a later frame fills the bodies from `gain`, one
/// device after the other; a last frame sets `STM_END`; and every body is
/// marked for sending.
pub fn gain_stm_legacy(
    msg_id: u8,
    gain: &[LegacyDrive],
    is_first_frame: bool,
    freq_div: u32,
    is_last_frame: bool,
    tx: &mut TxDatagram,
) -> (r: Result<(), DriverError>)
    requires
        old(tx).wf(),
        !is_first_frame ==> gain_stm_covers(old(tx).num_devices(), gain@.len()),
    ensures
        final(tx).wf(),
        final(tx).header.msg_id == msg_id,
        final(tx).header.fpga_flag == old(tx).header.fpga_flag.with(FPGAFlag::LegacyMode).with(
            FPGAFlag::StmMode,
        ).with(FPGAFlag::StmGainMode),
        final(tx).header.fpga_flag.has(FPGAFlag::LegacyMode),
        final(tx).header.fpga_flag.has(FPGAFlag::StmMode),
        final(tx).header.fpga_flag.has(FPGAFlag::StmGainMode),
        final(tx).header.fpga_flag.mode() == OutputMode::GainStm,
        final(tx).header.size == old(tx).header.size,
        final(tx).header.data == old(tx).header.data,
        r is Err <==> is_first_frame && freq_div < STM_SAMPLING_FREQ_DIV_MIN,
        r is Err ==> {
            &&& r == Err::<(), DriverError>(
                DriverError::FPGA(FPGAError::STMFreqDivOutOfRange(freq_div)),
            )
            &&& final(tx).header.cpu_flag == old(tx).header.cpu_flag
            &&& final(tx).num_bodies == old(tx).num_bodies
            &&& final(tx).bodies == old(tx).bodies
        },
        r is Ok ==> {
            &&& final(tx).header.cpu_flag == old(tx).header.cpu_flag.with_if(
                CPUFlag::StmBegin,
                is_first_frame,
            ).with_if(CPUFlag::StmEnd, is_last_frame)
            &&& final(tx).num_bodies == old(tx).num_devices()
            &&& is_first_frame ==> gain_heads_written(old(tx).bodies@, final(tx).bodies@, freq_div)
            &&& !is_first_frame ==> bodies_filled(
                old(tx).bodies@,
                final(tx).bodies@,
                gain@,
                gain_stm_filled(old(tx).num_devices(), gain@.len()) as int,
            )
        },
{
    tx.header.msg_id = msg_id;
    tx.header.fpga_flag.set(FPGAFlag::LegacyMode, true);
    tx.header.fpga_flag.set(FPGAFlag::StmMode, true);
    tx.header.fpga_flag.set(FPGAFlag::StmGainMode, true);
    proof {
        lemma_mode_flags(old(tx).header.fpga_flag);
    }
    gain_stm_frame(gain, is_first_frame, freq_div, is_last_frame, tx)
}

/// One frame of a gain sequence in the split encoding, the phases.
///
/// The message id is set, `IS_DUTY` and `LEGACY_MODE` are cleared and
/// `STM_MODE` and `STM_GAIN_MODE` are set in any case. A first frame is
/// refused when its divisor is under the minimum; the rest of the datagram
/// is then as it was. Otherwise a first frame sets `STM_BEGIN` and carries
/// only the divisor, in the first two cells of every body; a later frame
/// fills the bodies from `phase`, one device after the other; and every
/// body is marked for sending. A phase frame never ends a sequence.
pub fn gain_stm_normal_phase(
    msg_id: u8,
    phase: &[Phase],
    is_first_frame: bool,
    freq_div: u32,
    tx: &mut TxDatagram,
) -> (r: Result<(), DriverError>)
    requires
        old(tx).wf(),
        !is_first_frame ==> gain_stm_covers(old(tx).num_devices(), phase@.len()),
    ensures
        final(tx).wf(),
        final(tx).header.msg_id == msg_id,
        final(tx).header.fpga_flag == old(tx).header.fpga_flag.without(FPGAFlag::LegacyMode).with(
            FPGAFlag::StmMode,
        ).with(FPGAFlag::StmGainMode),
        !final(tx).header.fpga_flag.has(FPGAFlag::LegacyMode),
        final(tx).header.fpga_flag.has(FPGAFlag::StmMode),
        final(tx).header.fpga_flag.has(FPGAFlag::StmGainMode),
        final(tx).header.fpga_flag.mode() == OutputMode::GainStm,
        final(tx).header.size == old(tx).header.size,
        final(tx).header.data == old(tx).header.data,
        r is Err <==> is_first_frame && freq_div < STM_SAMPLING_FREQ_DIV_MIN,
        r is Err ==> {
            &&& r == Err::<(), DriverError>(
                DriverError::FPGA(FPGAError::STMFreqDivOutOfRange(freq_div)),
            )
            &&& final(tx).header.cpu_flag == old(tx).header.cpu_flag.without(CPUFlag::IsDuty)
            &&& final(tx).num_bodies == old(tx).num_bodies
            &&& final(tx).bodies == old(tx).bodies
        },
        r is Ok ==> {
            &&& final(tx).header.cpu_flag == old(tx).header.cpu_flag.without(
                CPUFlag::IsDuty,
            ).with_if(CPUFlag::StmBegin, is_first_frame)
            &&& final(tx).num_bodies == old(tx).num_devices()
            &&& is_first_frame ==> gain_heads_written(old(tx).bodies@, final(tx).bodies@, freq_div)
            &&& !is_first_frame ==> bodies_filled(
                old(tx).bodies@,
                final(tx).bodies@,
                phase@,
                gain_stm_filled(old(tx).num_devices(), phase@.len()) as int,
            )
        },
{
    tx.header.msg_id = msg_id;
    tx.header.cpu_flag.remove(CPUFlag::IsDuty);
    tx.header.fpga_flag.remove(FPGAFlag::LegacyMode);
    tx.header.fpga_flag.set(FPGAFlag::StmMode, true);
    tx.header.fpga_flag.set(FPGAFlag::StmGainMode, true);
    proof {
        lemma_mode_flags(old(tx).header.fpga_flag);
    }
    gain_stm_frame(phase, is_first_frame, freq_div, false, tx)
}

/// One frame of a gain sequence in the split encoding, the duties.
///
/// The message id is set, `IS_DUTY`, `STM_MODE` and `STM_GAIN_MODE` are set
/// and `LEGACY_MODE` is cleared in any case. A first frame is refused when
/// its divisor is under the minimum; the rest of the datagram is then as it
/// was. Otherwise a first frame sets `STM_BEGIN` and carries only the
/// divisor, in the first two cells of every body; a later frame fills the
/// bodies from `duty`, one device after the other; a last frame sets
/// `STM_END`; and every body is marked for sending.
pub fn gain_stm_normal_duty(
    msg_id: u8,
    duty: &[Duty],
    is_first_frame: bool,
    freq_div: u32,
    is_last_frame: bool,
    tx: &mut TxDatagram,
) -> (r: Result<(), DriverError>)
    requires
        old(tx).wf(),
        !is_first_frame ==> gain_stm_covers(old(tx).num_devices(), duty@.len()),
    ensures
        final(tx).wf(),
        final(tx).header.msg_id == msg_id,
        final(tx).header.fpga_flag == old(tx).header.fpga_flag.without(FPGAFlag::LegacyMode).with(
            FPGAFlag::StmMode,
        ).with(FPGAFlag::StmGainMode),
        !final(tx).header.fpga_flag.has(FPGAFlag::LegacyMode),
        final(tx).header.fpga_flag.has(FPGAFlag::StmMode),
        final(tx).header.fpga_flag.has(FPGAFlag::StmGainMode),
        final(tx).header.fpga_flag.mode() == OutputMode::GainStm,
        final(tx).header.size == old(tx).header.size,
        final(tx).header.data == old(tx).header.data,
        r is Err <==> is_first_frame && freq_div < STM_SAMPLING_FREQ_DIV_MIN,
        r is Err ==> {
            &&& r == Err::<(), DriverError>(
                DriverError::FPGA(FPGAError::STMFreqDivOutOfRange(freq_div)),
            )
            &&& final(tx).header.cpu_flag == old(tx).header.cpu_flag.with(CPUFlag::IsDuty)
            &&& final(tx).num_bodies == old(tx).num_bodies
            &&& final(tx).bodies == old(tx).bodies
        },
        r is Ok ==> {
            &&& final(tx).header.cpu_flag == old(tx).header.cpu_flag.with(CPUFlag::IsDuty).with_if(
                CPUFlag::StmBegin,
                is_first_frame,
            ).with_if(CPUFlag::StmEnd, is_last_frame)
            &&& final(tx).num_bodies == old(tx).num_devices()
            &&& is_first_frame ==> gain_heads_written(old(tx).bodies@, final(tx).bodies@, freq_div)
            &&& !is_first_frame ==> bodies_filled(
                old(tx).bodies@,
                final(tx).bodies@,
                duty@,
                gain_stm_filled(old(tx).num_devices(), duty@.len()) as int,
            )
        },
{
    tx.header.msg_id = msg_id;
    tx.header.cpu_flag.set(CPUFlag::IsDuty, true);
    tx.header.fpga_flag.remove(FPGAFlag::LegacyMode);
    tx.header.fpga_flag.set(FPGAFlag::StmMode, true);
    tx.header.fpga_flag.set(FPGAFlag::StmGainMode, true);
    proof {
        lemma_mode_flags(old(tx).header.fpga_flag);
    }
    gain_stm_frame(duty, is_first_frame, freq_div, is_last_frame, tx)
}

/// Whether list `i` is the first of `points` that holds more than
/// `capacity` focus points.
pub open spec fn first_over(points: Seq<Vec<SeqFocus>>, capacity: nat, i: int) -> bool {
    &&& 0 <= i < points.len()
    &&& points[i]@.len() > capacity
    &&& forall|j: int| 0 <= j < i ==> (#[trigger] points[j])@.len() <= capacity
}

/// Whether every list of `points` holds at most `capacity` focus points.
pub open spec fn all_within(points: Seq<Vec<SeqFocus>>, capacity: nat) -> bool {
    forall|j: int| 0 <= j < points.len() ==> (#[trigger] points[j])@.len() <= capacity
}

/// The focus points that one frame can carry for a device: fewer in a first
/// frame, which also carries the divisor and the sound speed.
pub open spec fn point_stm_capacity(is_first_frame: bool) -> nat {
    if is_first_frame {
        POINT_STM_HEAD_DATA_SIZE as nat
    } else {
        POINT_STM_BODY_DATA_SIZE as nat
    }
}

/// Whether `after` is a body of a first frame of a point sequence that
/// carries `points`: their number, the divisor, the sound speed, then the
/// points; the cells behind them as in `before`.
pub open spec fn point_head_written(
    before: Body,
    after: Body,
    points: Seq<SeqFocus>,
    freq_div: u32,
    sound_speed: u32,
) -> bool {
    &&& after.point_stm_size() == points.len()
    &&& after.point_stm_freq_div() == freq_div
    &&& after.point_stm_sound_speed() == sound_speed
    &&& after.holds_points(5, points)
    &&& forall|c: int|
        5 + 4 * points.len() <= c < NUM_TRANS_IN_UNIT ==> after.data@[c] == before.data@[c]
}

/// Whether `after` is a body of a later frame of a point sequence that
/// carries `points`: their number, then the points; the cells behind them
/// as in `before`.
pub open spec fn point_body_written(before: Body, after: Body, points: Seq<SeqFocus>) -> bool {
    &&& after.point_stm_size() == points.len()
    &&& after.holds_points(1, points)
    &&& forall|c: int|
        1 + 4 * points.len() <= c < NUM_TRANS_IN_UNIT ==> after.data@[c] == before.data@[c]
}

/// Whether the bodies `after` carry the lists of `points`, each device its
/// own, as far as there are lists and devices, and are otherwise as in
/// `before`.
pub open spec fn point_bodies_written(
    before: Seq<Body>,
    after: Seq<Body>,
    points: Seq<Vec<SeqFocus>>,
    is_first_frame: bool,
    freq_div: u32,
    sound_speed: u32,
    count: int,
) -> bool {
    &&& after.len() == before.len()
    &&& forall|d: int|
        0 <= d < count && d < after.len() && d < points.len() ==> if is_first_frame {
            point_head_written(before[d], #[trigger] after[d], points[d]@, freq_div, sound_speed)
        } else {
            point_body_written(before[d], #[trigger] after[d], points[d]@)
        }
    &&& forall|d: int| count <= d < after.len() ==> #[trigger] after[d] == before[d]
}

/// The index of the first list over `capacity`, if there is one.
fn find_over(points: &[Vec<SeqFocus>], capacity: usize) -> (r: Option<usize>)
    ensures
        match r {
            Some(i) => first_over(points@, capacity as nat, i as int),
            None => all_within(points@, capacity as nat),
        },
{
    let n: usize = points.len();
    let mut i: usize = 0;
    while i < n
        invariant
            0 <= i <= n,
            n == points@.len(),
            forall|j: int| 0 <= j < i ==> (#[trigger] points@[j])@.len() <= capacity,
        decreases n - i,
    {
        if points[i].len() > capacity {
            return Some(i);
        }
        i = i + 1;
    }
    None
}

/// One frame of a point sequence: for each device its list of focus points.
///
/// The message id is set, `STM_MODE` is set and `STM_GAIN_MODE` is cleared
/// in any case. The frame is refused when a list is over the frame's
/// capacity, with the length of the first such list, or else when it is a
/// first frame and its divisor is under the minimum; the rest of the
/// datagram is then as it was. Otherwise a first frame sets `STM_BEGIN`, a
/// last frame sets `STM_END`, each device that has a list gets it written
/// into its body, and every body is marked for sending.
///
/// `sound_speed` is the speed of sound in 1/1024 of its unit, as the FPGA
/// reads it; only a first frame carries it.
pub fn point_stm(
    msg_id: u8,
    points: &[Vec<SeqFocus>],
    is_first_frame: bool,
    freq_div: u32,
    sound_speed: u32,
    is_last_frame: bool,
    tx: &mut TxDatagram,
) -> (r: Result<(), DriverError>)
    requires
        old(tx).wf(),
    ensures
        final(tx).wf(),
        final(tx).header.msg_id == msg_id,
        final(tx).header.fpga_flag == old(tx).header.fpga_flag.with(FPGAFlag::StmMode).without(
            FPGAFlag::StmGainMode,
        ),
        final(tx).header.fpga_flag.has(FPGAFlag::StmMode),
        !final(tx).header.fpga_flag.has(FPGAFlag::StmGainMode),
        final(tx).header.fpga_flag.mode() == OutputMode::PointStm,
        final(tx).header.fpga_flag.has(FPGAFlag::LegacyMode) == old(tx).header.fpga_flag.has(
            FPGAFlag::LegacyMode,
        ),
        final(tx).header.size == old(tx).header.size,
        final(tx).header.data == old(tx).header.data,
        r is Ok <==> all_within(points@, point_stm_capacity(is_first_frame)) && !(is_first_frame
            && freq_div < STM_SAMPLING_FREQ_DIV_MIN),
        r is Err ==> {
            &&& final(tx).header.cpu_flag == old(tx).header.cpu_flag
            &&& final(tx).num_bodies == old(tx).num_bodies
            &&& final(tx).bodies == old(tx).bodies
            &&& match r {
                Err(DriverError::CPU(CPUError::PointSTMHeadDataSizeOutOfRange(n))) => is_first_frame
                    && exists|i: int|
                    first_over(points@, point_stm_capacity(true), i) && n == (
                    #[trigger] points@[i])@.len(),
                Err(DriverError::CPU(CPUError::PointSTMBodyDataSizeOutOfRange(n))) => !is_first_frame
                    && exists|i: int|
                    first_over(points@, point_stm_capacity(false), i) && n == (
                    #[trigger] points@[i])@.len(),
                Err(DriverError::FPGA(FPGAError::STMFreqDivOutOfRange(v))) => is_first_frame
                    && all_within(points@, point_stm_capacity(true)) && v == freq_div && freq_div
                    < STM_SAMPLING_FREQ_DIV_MIN,
                _ => false,
            }
        },
        r is Ok ==> {
            &&& final(tx).header.cpu_flag == old(tx).header.cpu_flag.with_if(
                CPUFlag::StmBegin,
                is_first_frame,
            ).with_if(CPUFlag::StmEnd, is_last_frame)
            &&& final(tx).num_bodies == old(tx).num_devices()
            &&& point_bodies_written(
                old(tx).bodies@,
                final(tx).bodies@,
                points@,
                is_first_frame,
                freq_div,
                sound_speed,
                points@.len() as int,
            )
        },
{
    tx.header.msg_id = msg_id;
    tx.header.fpga_flag.set(FPGAFlag::StmMode, true);
    tx.header.fpga_flag.remove(FPGAFlag::StmGainMode);
    proof {
        lemma_mode_flags(old(tx).header.fpga_flag);
    }
    if is_first_frame {
        match find_over(points, POINT_STM_HEAD_DATA_SIZE) {
            Some(i) => {
                return Err(
                    DriverError::CPU(CPUError::PointSTMHeadDataSizeOutOfRange(points[i].len())),
                );
            },
            None => {},
        }
    }
    if !is_first_frame {
        match find_over(points, POINT_STM_BODY_DATA_SIZE) {
            Some(i) => {
                return Err(
                    DriverError::CPU(CPUError::PointSTMBodyDataSizeOutOfRange(points[i].len())),
                );
            },
            None => {},
        }
    }
    if is_first_frame {
        if freq_div < STM_SAMPLING_FREQ_DIV_MIN {
            return Err(DriverError::FPGA(FPGAError::STMFreqDivOutOfRange(freq_div)));
        }
        tx.header.cpu_flag.set(CPUFlag::StmBegin, true);
    }
    let devices: usize = tx.bodies.len();
    let count: usize = if points.len() < devices {
        points.len()
    } else {
        devices
    };
    let mut d: usize = 0;
    while d < count
        invariant
            0 <= d <= count,
            count <= devices,
            count <= points@.len(),
            devices == tx.bodies@.len(),
            all_within(points@, point_stm_capacity(is_first_frame)),
            tx.header.msg_id == msg_id,
            tx.header.fpga_flag == old(tx).header.fpga_flag.with(FPGAFlag::StmMode).without(
                FPGAFlag::StmGainMode,
            ),
            tx.header.size == old(tx).header.size,
            tx.header.data == old(tx).header.data,
            tx.header.cpu_flag == old(tx).header.cpu_flag.with_if(
                CPUFlag::StmBegin,
                is_first_frame,
            ),
            tx.num_bodies == old(tx).num_bodies,
            point_bodies_written(
                old(tx).bodies@,
                tx.bodies@,
                points@,
                is_first_frame,
                freq_div,
                sound_speed,
                d as int,
            ),
        decreases count - d,
    {
        let list: &Vec<SeqFocus> = &points[d];
        assert(points@[d as int]@.len() <= point_stm_capacity(is_first_frame));
        let mut body: Body = tx.bodies[d];
        body.data[0] = list.len() as u16;
        if is_first_frame {
            body.put_u32(1, freq_div);
            body.put_u32(3, sound_speed);
            body.put_points(5, list.as_slice());
        } else {
            body.put_points(1, list.as_slice());
        }
        tx.bodies[d] = body;
        d = d + 1;
    }
    if is_last_frame {
        tx.header.cpu_flag.set(CPUFlag::StmEnd, true);
    }
    tx.num_bodies = devices;
    Ok(())
}

} // verus!
