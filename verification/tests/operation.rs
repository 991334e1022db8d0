use autd3::datagram::TxDatagram;
use autd3::drive::{Duty, LegacyDrive, Phase, SeqFocus};
use autd3::error::{CPUError, DriverError, FPGAError};
use autd3::flags::{CPUFlag, FPGAFlag, OutputMode};
use autd3::hardware::NUM_TRANS_IN_UNIT;
use autd3::operation::{
    clear, config_silencer, cpu_version, force_fan, fpga_functions, fpga_version, gain_stm_legacy,
    gain_stm_normal_duty, gain_stm_normal_phase, modulation, normal_duty, normal_legacy,
    normal_phase, point_stm, reads_fpga_info, sync,
};

fn legacy_drives(n: usize) -> Vec<LegacyDrive> {
    (0..n).map(|i| LegacyDrive { phase: (i % 251) as u8, duty: (i % 7) as u8 }).collect()
}

#[test]
fn clear_resets_message_id_and_sends_no_body() {
    let mut tx = TxDatagram::new(2);
    tx.header.msg_id = 9;
    tx.num_bodies = 2;
    clear(&mut tx);
    assert_eq!(tx.header.msg_id, 0);
    assert_eq!(tx.num_bodies, 0);
    assert_eq!(tx.data().len(), 128);
}

#[test]
fn silencer_accepts_cycle_at_or_over_minimum() {
    let mut tx = TxDatagram::new(1);
    assert!(config_silencer(7, 4096, 10, &mut tx).is_ok());
    assert_eq!(tx.header.msg_id, 7);
    assert_eq!(tx.header.cpu_flag.bits, 0x20);
    assert!(tx.header.cpu_flag.contains(CPUFlag::ConfigSilencer));
    assert_eq!(tx.header.fpga_flag.bits, 0);
    assert_eq!(tx.num_bodies, 0);
    assert_eq!(&tx.header.data[0..4], &[0x00, 0x10, 10, 0]);
    let mut edge = TxDatagram::new(1);
    assert!(config_silencer(1, 1044, 0xABCD, &mut edge).is_ok());
    assert_eq!(&edge.header.data[0..4], &[0x14, 0x04, 0xCD, 0xAB]);
}

#[test]
fn silencer_refuses_cycle_under_minimum() {
    let mut tx = TxDatagram::new(1);
    let r = config_silencer(7, 500, 10, &mut tx);
    assert_eq!(r, Err(DriverError::FPGA(FPGAError::SilencerCycleOutOfRange(500))));
    assert_eq!(tx.header.msg_id, 0);
    assert_eq!(tx.header.cpu_flag.bits, 0);
    assert_eq!(tx.num_bodies, 0);
    let mut edge = TxDatagram::new(1);
    assert_eq!(
        config_silencer(7, 1043, 10, &mut edge),
        Err(DriverError::FPGA(FPGAError::SilencerCycleOutOfRange(1043)))
    );
}

#[test]
fn silencer_clears_sync_flag() {
    let mut tx = TxDatagram::new(1);
    tx.header.cpu_flag.bits = 0x80 | 0x10;
    assert!(config_silencer(1, 2000, 1, &mut tx).is_ok());
    assert_eq!(tx.header.cpu_flag.bits, 0x20 | 0x10);
}

#[test]
fn sync_copies_cycles_and_sets_flag() {
    let mut tx = TxDatagram::new(2);
    tx.header.cpu_flag.bits = 0x20;
    let mut c0 = [0u16; NUM_TRANS_IN_UNIT];
    let mut c1 = [0u16; NUM_TRANS_IN_UNIT];
    for i in 0..NUM_TRANS_IN_UNIT {
        c0[i] = 4096 + i as u16;
        c1[i] = 0xFF00 - i as u16;
    }
    assert_eq!(sync(3, 0x0102, &[c0, c1], &mut tx), Ok(()));
    assert_eq!(tx.header.msg_id, 3);
    assert_eq!(tx.header.cpu_flag.bits, 0x80);
    assert_eq!(&tx.header.data[0..2], &[0x02, 0x01]);
    assert_eq!(tx.num_bodies, 2);
    assert_eq!(tx.bodies[0].data, c0);
    assert_eq!(tx.bodies[1].data, c1);
}

#[test]
fn sync_round_trip_through_bytes() {
    let mut tx = TxDatagram::new(3);
    let mut cycles = vec![[0u16; NUM_TRANS_IN_UNIT]; 3];
    for d in 0..3 {
        for i in 0..NUM_TRANS_IN_UNIT {
            cycles[d][i] = (d * 20000 + i * 37 + 1) as u16;
        }
    }
    assert_eq!(sync(0x42, 2, &cycles, &mut tx), Ok(()));
    let bytes = tx.data();
    assert_eq!(bytes.len(), 128 + 3 * 498);
    assert_eq!(bytes[128], cycles[0][0] as u8);
    assert_eq!(bytes[129], (cycles[0][0] >> 8) as u8);
    let back = TxDatagram::decode(&bytes).unwrap();
    assert_eq!(back.num_bodies, 3);
    assert_eq!(back.header.msg_id, 0x42);
    assert_eq!(back.header.cpu_flag.bits, 0x80);
    assert_eq!(back.header.data, tx.header.data);
    for d in 0..3 {
        assert_eq!(back.bodies[d].data, cycles[d]);
    }
}

#[test]
fn sync_refuses_wrong_device_count() {
    let mut tx = TxDatagram::new(2);
    let c = [1u16; NUM_TRANS_IN_UNIT];
    assert_eq!(
        sync(3, 1, &[c], &mut tx),
        Err(DriverError::CPU(CPUError::DeviceNumberNotCorrect { a: 2, b: 1 }))
    );
    assert_eq!(tx.header.msg_id, 0);
    assert_eq!(tx.header.cpu_flag.bits, 0);
    assert_eq!(tx.num_bodies, 0);
    assert_eq!(
        sync(3, 1, &[c, c, c], &mut tx),
        Err(DriverError::CPU(CPUError::DeviceNumberNotCorrect { a: 2, b: 3 }))
    );
}

#[test]
fn modulation_first_frame_layout() {
    let mut tx = TxDatagram::new(1);
    tx.header.cpu_flag.bits = 0x80 | 0x20 | 0x40;
    let data: Vec<u8> = (0..120u32).map(|i| (i + 1) as u8).collect();
    assert_eq!(modulation(5, &data, true, 0x01020304, false, &mut tx), Ok(()));
    assert_eq!(tx.header.msg_id, 5);
    assert_eq!(tx.header.cpu_flag.bits, 0x40 | 0x01);
    assert_eq!(tx.header.size, 120);
    assert_eq!(&tx.header.data[0..4], &[0x04, 0x03, 0x02, 0x01]);
    assert_eq!(&tx.header.data[4..124], &data[..]);
    assert_eq!(tx.num_bodies, 0);
}

#[test]
fn modulation_first_frame_capacity() {
    for len in [0usize, 1, 119, 120] {
        let mut tx = TxDatagram::new(1);
        let data = vec![0xAAu8; len];
        assert_eq!(modulation(1, &data, true, 1160, true, &mut tx), Ok(()));
        assert_eq!(tx.header.size as usize, len);
        assert_eq!(tx.header.cpu_flag.bits, 0x03);
    }
    let mut tx = TxDatagram::new(1);
    let data = vec![0xAAu8; 121];
    assert_eq!(
        modulation(1, &data, true, 1160, true, &mut tx),
        Err(DriverError::CPU(CPUError::ModulationHeadDataSizeOutOfRange(121)))
    );
    assert_eq!(tx.header.msg_id, 1);
    assert_eq!(tx.header.size, 0);
    assert_eq!(tx.header.data, [0u8; 124]);
}

#[test]
fn modulation_later_frame_capacity_and_layout() {
    let mut tx = TxDatagram::new(1);
    let data: Vec<u8> = (0..124u32).map(|i| (200 - i) as u8).collect();
    assert_eq!(modulation(2, &data, false, 0, true, &mut tx), Ok(()));
    assert_eq!(tx.header.cpu_flag.bits, 0x02);
    assert_eq!(tx.header.size, 124);
    assert_eq!(&tx.header.data[..], &data[..]);
    let mut tx = TxDatagram::new(1);
    assert_eq!(
        modulation(2, &vec![0u8; 125], false, 5000, false, &mut tx),
        Err(DriverError::CPU(CPUError::ModulationBodyDataSizeOutOfRange(125)))
    );
    let mut mid = TxDatagram::new(1);
    assert_eq!(modulation(2, &[7, 8, 9], false, 0, false, &mut mid), Ok(()));
    assert_eq!(mid.header.cpu_flag.bits, 0);
    assert_eq!(mid.header.size, 3);
    assert_eq!(&mid.header.data[0..4], &[7, 8, 9, 0]);
}

#[test]
fn modulation_refuses_small_divisor_on_first_frame_only() {
    let mut tx = TxDatagram::new(1);
    tx.header.cpu_flag.bits = 0x80;
    assert_eq!(
        modulation(1, &[1, 2], true, 1159, false, &mut tx),
        Err(DriverError::FPGA(FPGAError::ModFreqDivOutOfRange(1159)))
    );
    assert_eq!(tx.header.cpu_flag.bits, 0);
    assert_eq!(tx.header.data, [0u8; 124]);
    let mut tx = TxDatagram::new(1);
    assert_eq!(modulation(1, &[1, 2], false, 0, false, &mut tx), Ok(()));
}

#[test]
fn normal_legacy_fills_every_body() {
    for devices in [1usize, 2, 3] {
        let mut tx = TxDatagram::new(devices);
        tx.header.fpga_flag.bits = 0x20 | 0x10;
        let drive = legacy_drives(devices * NUM_TRANS_IN_UNIT);
        assert_eq!(normal_legacy(11, &drive, &mut tx), Ok(()));
        assert_eq!(tx.num_bodies, devices);
        assert_eq!(tx.header.msg_id, 11);
        assert_eq!(tx.header.fpga_flag.bits, 0x01 | 0x10);
        assert!(tx.header.fpga_flag.contains(FPGAFlag::LegacyMode));
        assert!(!tx.header.fpga_flag.contains(FPGAFlag::StmMode));
        for d in 0..devices {
            for c in 0..NUM_TRANS_IN_UNIT {
                let x = drive[d * NUM_TRANS_IN_UNIT + c];
                assert_eq!(tx.bodies[d].data[c], ((x.duty as u16) << 8) | x.phase as u16);
            }
        }
        let bytes = tx.data();
        assert_eq!(bytes.len(), 128 + 498 * devices);
        assert_eq!(bytes[128 + 2 * 5], drive[5].phase);
        assert_eq!(bytes[128 + 2 * 5 + 1], drive[5].duty);
    }
}

#[test]
fn normal_drive_refuses_any_other_length() {
    for len in [0usize, 1, 248, 250, 497, 499, 747] {
        let mut tx = TxDatagram::new(2);
        let expected = Err(DriverError::CPU(CPUError::DeviceNumberNotCorrect { a: 2, b: len / 249 }));
        assert_eq!(normal_legacy(1, &legacy_drives(len), &mut tx), expected);
        assert_eq!(normal_duty(1, &vec![Duty { duty: 1 }; len], &mut tx), expected);
        assert_eq!(normal_phase(1, &vec![Phase { phase: 1 }; len], &mut tx), expected);
        assert_eq!(tx.num_bodies, 0);
        assert_eq!(tx.header.msg_id, 0);
        assert_eq!(tx.header.fpga_flag.bits, 0);
        assert_eq!(tx.header.cpu_flag.bits, 0);
    }
}

#[test]
fn normal_duty_and_phase_set_their_flags() {
    let mut tx = TxDatagram::new(1);
    tx.header.fpga_flag.bits = 0x01 | 0x20 | 0x40;
    let duty: Vec<Duty> = (0..249u16).map(|i| Duty { duty: 1000 + i }).collect();
    assert_eq!(normal_duty(4, &duty, &mut tx), Ok(()));
    assert_eq!(tx.header.fpga_flag.bits, 0x40);
    assert_eq!(tx.header.cpu_flag.bits, 0x10);
    assert_eq!(tx.num_bodies, 1);
    assert_eq!(tx.bodies[0].data[248], 1248);
    let phase: Vec<Phase> = (0..249u16).map(|i| Phase { phase: 3 * i }).collect();
    assert_eq!(normal_phase(5, &phase, &mut tx), Ok(()));
    assert_eq!(tx.header.cpu_flag.bits, 0);
    assert_eq!(tx.header.fpga_flag.bits, 0x40);
    assert_eq!(tx.bodies[0].data[100], 300);
    assert_eq!(tx.header.msg_id, 5);
}

fn focus(i: u16) -> SeqFocus {
    SeqFocus::new(i, i + 1000, i + 2000, i + 3000)
}

#[test]
fn point_stm_first_frame_layout() {
    let mut tx = TxDatagram::new(2);
    tx.header.fpga_flag.bits = 0x40 | 0x01;
    let p0: Vec<SeqFocus> = (0..61u16).map(focus).collect();
    let p1: Vec<SeqFocus> = (100..102u16).map(focus).collect();
    let r = point_stm(8, &[p0.clone(), p1.clone()], true, 0x00012345, 340 * 1024, false, &mut tx);
    assert_eq!(r, Ok(()));
    assert_eq!(tx.header.msg_id, 8);
    assert_eq!(tx.header.fpga_flag.bits, 0x20 | 0x01);
    assert_eq!(tx.header.cpu_flag.bits, 0x04);
    assert_eq!(tx.num_bodies, 2);
    let b0 = &tx.bodies[0].data;
    assert_eq!(b0[0], 61);
    assert_eq!(b0[1], 0x2345);
    assert_eq!(b0[2], 0x0001);
    assert_eq!(b0[3], ((340u32 * 1024) & 0xFFFF) as u16);
    assert_eq!(b0[4], ((340u32 * 1024) >> 16) as u16);
    for k in 0..61 {
        assert_eq!(&b0[5 + 4 * k..9 + 4 * k], &[p0[k].w0, p0[k].w1, p0[k].w2, p0[k].w3]);
    }
    let b1 = &tx.bodies[1].data;
    assert_eq!(b1[0], 2);
    assert_eq!(&b1[5..9], &[100, 1100, 2100, 3100]);
    assert_eq!(&b1[9..13], &[101, 1101, 2101, 3101]);
    assert_eq!(b1[13], 0);
}

#[test]
fn point_stm_later_frame_layout_and_end_flag() {
    let mut tx = TxDatagram::new(1);
    let p: Vec<SeqFocus> = (0..62u16).map(focus).collect();
    assert_eq!(point_stm(9, &[p.clone()], false, 0, 0, true, &mut tx), Ok(()));
    assert_eq!(tx.header.cpu_flag.bits, 0x08);
    assert_eq!(tx.header.fpga_flag.bits, 0x20);
    let b = &tx.bodies[0].data;
    assert_eq!(b[0], 62);
    for k in 0..62 {
        assert_eq!(&b[1 + 4 * k..5 + 4 * k], &[p[k].w0, p[k].w1, p[k].w2, p[k].w3]);
    }
    let mut single = TxDatagram::new(1);
    assert_eq!(point_stm(9, &[vec![focus(1)]], true, 1612, 1, true, &mut single), Ok(()));
    assert_eq!(single.header.cpu_flag.bits, 0x04 | 0x08);
}

#[test]
fn point_stm_refusals() {
    let over_head: Vec<SeqFocus> = (0..62u16).map(focus).collect();
    let over_body: Vec<SeqFocus> = (0..63u16).map(focus).collect();
    let mut tx = TxDatagram::new(2);
    assert_eq!(
        point_stm(1, &[vec![focus(0)], over_head.clone()], true, 5000, 0, false, &mut tx),
        Err(DriverError::CPU(CPUError::PointSTMHeadDataSizeOutOfRange(62)))
    );
    assert_eq!(tx.header.msg_id, 1);
    assert_eq!(tx.header.fpga_flag.bits, 0x20);
    assert_eq!(tx.header.cpu_flag.bits, 0);
    assert_eq!(tx.num_bodies, 0);
    assert_eq!(tx.bodies[0].data[0], 0);
    let mut tx = TxDatagram::new(2);
    assert_eq!(
        point_stm(1, &[over_body.clone(), over_head.clone()], false, 5000, 0, false, &mut tx),
        Err(DriverError::CPU(CPUError::PointSTMBodyDataSizeOutOfRange(63)))
    );
    let mut tx = TxDatagram::new(1);
    assert_eq!(
        point_stm(1, &[vec![focus(0)]], true, 1611, 0, false, &mut tx),
        Err(DriverError::FPGA(FPGAError::STMFreqDivOutOfRange(1611)))
    );
    assert_eq!(tx.header.cpu_flag.bits, 0);
    assert_eq!(tx.num_bodies, 0);
    let mut tx = TxDatagram::new(1);
    assert_eq!(point_stm(1, &[vec![focus(0)]], false, 0, 0, false, &mut tx), Ok(()));
}

#[test]
fn point_stm_keeps_legacy_flag_as_it_was() {
    for before in [0x00u8, 0x01] {
        let mut tx = TxDatagram::new(1);
        tx.header.fpga_flag.bits = before | 0x40;
        assert_eq!(point_stm(1, &[vec![]], false, 0, 0, false, &mut tx), Ok(()));
        assert_eq!(tx.header.fpga_flag.bits, before | 0x20);
    }
}

#[test]
fn gain_stm_first_frame_carries_only_the_divisor() {
    let mut tx = TxDatagram::new(2);
    tx.bodies[1].data[2] = 77;
    let gain = legacy_drives(2 * NUM_TRANS_IN_UNIT);
    assert_eq!(gain_stm_legacy(6, &gain, true, 0x000A_0B0C, false, &mut tx), Ok(()));
    assert_eq!(tx.header.msg_id, 6);
    assert_eq!(tx.header.fpga_flag.bits, 0x01 | 0x20 | 0x40);
    assert_eq!(tx.header.cpu_flag.bits, 0x04);
    assert_eq!(tx.num_bodies, 2);
    for d in 0..2 {
        assert_eq!(tx.bodies[d].data[0], 0x0B0C);
        assert_eq!(tx.bodies[d].data[1], 0x000A);
    }
    assert_eq!(tx.bodies[0].data[2], 0);
    assert_eq!(tx.bodies[1].data[2], 77);
}

#[test]
fn gain_stm_later_frames_carry_drives() {
    let mut tx = TxDatagram::new(2);
    let gain = legacy_drives(2 * NUM_TRANS_IN_UNIT);
    assert_eq!(gain_stm_legacy(6, &gain, false, 0, true, &mut tx), Ok(()));
    assert_eq!(tx.header.cpu_flag.bits, 0x08);
    assert_eq!(tx.header.fpga_flag.bits, 0x01 | 0x20 | 0x40);
    assert_eq!(tx.num_bodies, 2);
    for d in 0..2 {
        for c in 0..NUM_TRANS_IN_UNIT {
            let x = gain[d * NUM_TRANS_IN_UNIT + c];
            assert_eq!(tx.bodies[d].data[c], ((x.duty as u16) << 8) | x.phase as u16);
        }
    }
    let mut tx = TxDatagram::new(2);
    tx.header.fpga_flag.bits = 0x01;
    tx.header.cpu_flag.bits = 0x10;
    let phase: Vec<Phase> = (0..498u16).map(|i| Phase { phase: i + 1 }).collect();
    assert_eq!(gain_stm_normal_phase(7, &phase, false, 0, &mut tx), Ok(()));
    assert_eq!(tx.header.fpga_flag.bits, 0x20 | 0x40);
    assert_eq!(tx.header.cpu_flag.bits, 0);
    assert_eq!(tx.bodies[1].data[0], 250);
    assert_eq!(tx.bodies[1].data[248], 498);
    let mut tx = TxDatagram::new(2);
    tx.header.fpga_flag.bits = 0x01;
    let duty: Vec<Duty> = (0..498u16).map(|i| Duty { duty: 2 * i }).collect();
    assert_eq!(gain_stm_normal_duty(7, &duty, false, 0, true, &mut tx), Ok(()));
    assert_eq!(tx.header.fpga_flag.bits, 0x20 | 0x40);
    assert_eq!(tx.header.cpu_flag.bits, 0x10 | 0x08);
    assert_eq!(tx.bodies[0].data[3], 6);
    assert_eq!(tx.bodies[1].data[0], 498);
}

#[test]
fn gain_stm_fills_only_the_devices_it_has_drives_for() {
    let mut tx = TxDatagram::new(3);
    let duty: Vec<Duty> = (0..249u16).map(|i| Duty { duty: i + 10 }).collect();
    assert_eq!(gain_stm_normal_duty(7, &duty, false, 0, false, &mut tx), Ok(()));
    assert_eq!(tx.num_bodies, 3);
    assert_eq!(tx.bodies[0].data[0], 10);
    assert_eq!(tx.bodies[1].data, [0u16; NUM_TRANS_IN_UNIT]);
    assert_eq!(tx.bodies[2].data, [0u16; NUM_TRANS_IN_UNIT]);
}

#[test]
fn gain_stm_refuses_small_divisor_on_first_frame() {
    let mut tx = TxDatagram::new(1);
    assert_eq!(
        gain_stm_legacy(6, &[], true, 1611, false, &mut tx),
        Err(DriverError::FPGA(FPGAError::STMFreqDivOutOfRange(1611)))
    );
    assert_eq!(tx.header.fpga_flag.bits, 0x61);
    assert_eq!(tx.header.cpu_flag.bits, 0);
    assert_eq!(tx.num_bodies, 0);
    assert_eq!(
        gain_stm_normal_phase(6, &[], true, 0, &mut tx),
        Err(DriverError::FPGA(FPGAError::STMFreqDivOutOfRange(0)))
    );
    assert_eq!(tx.header.fpga_flag.bits, 0x60);
    assert_eq!(
        gain_stm_normal_duty(6, &[], true, 100, true, &mut tx),
        Err(DriverError::FPGA(FPGAError::STMFreqDivOutOfRange(100)))
    );
    assert_eq!(tx.header.cpu_flag.bits, 0x10);
    assert_eq!(gain_stm_normal_duty(6, &[], true, 1612, true, &mut tx), Ok(()));
    assert_eq!(tx.header.cpu_flag.bits, 0x10 | 0x04 | 0x08);
    assert_eq!(tx.bodies[0].data[0], 1612);
}

#[test]
fn normal_drive_after_stream_clears_stm_mode() {
    let mut tx = TxDatagram::new(1);
    assert_eq!(point_stm(1, &[vec![]], true, 2000, 0, true, &mut tx), Ok(()));
    assert_eq!(tx.header.fpga_flag.output_mode(), OutputMode::PointStm);
    assert_eq!(gain_stm_legacy(1, &[], true, 2000, true, &mut tx), Ok(()));
    assert_eq!(tx.header.fpga_flag.output_mode(), OutputMode::GainStm);
    assert!(tx.header.fpga_flag.contains(FPGAFlag::StmMode));
    assert_eq!(normal_legacy(2, &legacy_drives(249), &mut tx), Ok(()));
    assert!(!tx.header.fpga_flag.contains(FPGAFlag::StmMode));
    assert!(tx.header.fpga_flag.contains(FPGAFlag::LegacyMode));
    assert_eq!(normal_phase(3, &vec![Phase { phase: 0 }; 249], &mut tx), Ok(()));
    assert!(!tx.header.fpga_flag.contains(FPGAFlag::StmMode));
    assert!(!tx.header.fpga_flag.contains(FPGAFlag::LegacyMode));
    assert_eq!(tx.header.fpga_flag.output_mode(), OutputMode::Static);
}

#[test]
fn single_flag_toggles() {
    let mut tx = TxDatagram::new(1);
    tx.header.fpga_flag.bits = 0x21;
    tx.header.cpu_flag.bits = 0x81;
    force_fan(&mut tx, true);
    assert_eq!(tx.header.fpga_flag.bits, 0x31);
    force_fan(&mut tx, true);
    assert_eq!(tx.header.fpga_flag.bits, 0x31);
    force_fan(&mut tx, false);
    assert_eq!(tx.header.fpga_flag.bits, 0x21);
    reads_fpga_info(&mut tx, true);
    assert_eq!(tx.header.cpu_flag.bits, 0xC1);
    reads_fpga_info(&mut tx, false);
    assert_eq!(tx.header.cpu_flag.bits, 0x81);
    assert_eq!(tx.header.msg_id, 0);
    assert_eq!(tx.num_bodies, 0);
}

#[test]
fn version_requests_are_header_only() {
    let mut tx = TxDatagram::new(2);
    tx.num_bodies = 2;
    tx.header.cpu_flag.bits = 0xF0;
    cpu_version(&mut tx);
    assert_eq!((tx.header.msg_id, tx.header.cpu_flag.bits, tx.num_bodies), (0x01, 0x02, 0));
    tx.num_bodies = 2;
    fpga_version(&mut tx);
    assert_eq!((tx.header.msg_id, tx.header.cpu_flag.bits, tx.num_bodies), (0x03, 0x04, 0));
    tx.num_bodies = 2;
    fpga_functions(&mut tx);
    assert_eq!((tx.header.msg_id, tx.header.cpu_flag.bits, tx.num_bodies), (0x04, 0x05, 0));
    assert_eq!(tx.data().len(), 128);
}
