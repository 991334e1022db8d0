use autd3::datagram::{RxDatagram, RxMessage, TxDatagram};
use autd3::drive::{DriveCell, LegacyDrive};
use autd3::flags::{CPUControlFlags, CPUFlag, FPGAControlFlags, FPGAFlag, OutputMode};
use autd3::hardware::{
    BODY_SIZE, EC_INPUT_FRAME_SIZE, EC_OUTPUT_FRAME_SIZE, HEADER_DATA_SIZE, HEADER_SIZE,
    MOD_BODY_DATA_SIZE, MOD_HEAD_DATA_SIZE, NUM_TRANS_IN_UNIT, NUM_TRANS_X, NUM_TRANS_Y,
    POINT_STM_BODY_DATA_SIZE, POINT_STM_HEAD_DATA_SIZE,
};

#[test]
fn layout_constants_agree() {
    assert_eq!(NUM_TRANS_IN_UNIT, NUM_TRANS_X * NUM_TRANS_Y - 3);
    assert_eq!(BODY_SIZE, 2 * NUM_TRANS_IN_UNIT);
    assert_eq!(HEADER_SIZE, 4 + HEADER_DATA_SIZE);
    assert_eq!(EC_OUTPUT_FRAME_SIZE, HEADER_SIZE + BODY_SIZE);
    assert_eq!(EC_INPUT_FRAME_SIZE, 2);
    assert_eq!(MOD_HEAD_DATA_SIZE + 4, MOD_BODY_DATA_SIZE);
    assert_eq!(5 + 4 * POINT_STM_HEAD_DATA_SIZE, NUM_TRANS_IN_UNIT);
    assert_eq!(1 + 4 * POINT_STM_BODY_DATA_SIZE, NUM_TRANS_IN_UNIT);
}

#[test]
fn cpu_flags_set_clear_test() {
    let mut f = CPUControlFlags::empty();
    assert_eq!(f.bits(), 0);
    f.set(CPUFlag::DoSync, true);
    f.insert(CPUFlag::ModBegin);
    assert_eq!(f.bits(), 0x81);
    assert!(f.contains(CPUFlag::DoSync));
    assert!(f.contains(CPUFlag::ModBegin));
    assert!(!f.contains(CPUFlag::ModEnd));
    f.set(CPUFlag::DoSync, false);
    assert_eq!(f.bits(), 0x01);
    f.remove(CPUFlag::ModBegin);
    f.remove(CPUFlag::StmEnd);
    assert_eq!(f, CPUControlFlags::empty());
    let all = [
        (CPUFlag::ModBegin, 0x01u8),
        (CPUFlag::ModEnd, 0x02),
        (CPUFlag::StmBegin, 0x04),
        (CPUFlag::StmEnd, 0x08),
        (CPUFlag::IsDuty, 0x10),
        (CPUFlag::ConfigSilencer, 0x20),
        (CPUFlag::ReadsFpgaInfo, 0x40),
        (CPUFlag::DoSync, 0x80),
    ];
    for (flag, bit) in all {
        assert_eq!(flag.bit(), bit);
        let mut g = CPUControlFlags::from_bits(0xFF).unwrap();
        g.remove(flag);
        assert_eq!(g.bits(), 0xFF & !bit);
        for (other, _) in all {
            assert_eq!(g.contains(other), other != flag);
        }
    }
    assert_eq!(CPUControlFlags::from_bits(0x05), Some(CPUControlFlags { bits: 0x05 }));
}

#[test]
fn fpga_flags_set_clear_test() {
    let all = [
        (FPGAFlag::LegacyMode, 0x01u8),
        (FPGAFlag::ForceFan, 0x10),
        (FPGAFlag::StmMode, 0x20),
        (FPGAFlag::StmGainMode, 0x40),
    ];
    for (flag, bit) in all {
        assert_eq!(flag.bit(), bit);
        let mut f = FPGAControlFlags::empty();
        f.set(flag, true);
        assert_eq!(f.bits(), bit);
        for (other, _) in all {
            assert_eq!(f.contains(other), other == flag);
        }
        f.set(flag, false);
        assert_eq!(f.bits(), 0);
    }
    assert_eq!(FPGAControlFlags::from_bits(0x71), Some(FPGAControlFlags { bits: 0x71 }));
    assert_eq!(FPGAControlFlags::from_bits(0x02), None);
    assert_eq!(FPGAControlFlags::from_bits(0x80), None);
    assert_eq!(FPGAControlFlags::from_bits(0), Some(FPGAControlFlags::empty()));
}

#[test]
fn legacy_drive_cell_holds_phase_low_and_duty_high() {
    let d = LegacyDrive { phase: 0x34, duty: 0x12 };
    assert_eq!(d.to_cell(), 0x1234);
    assert_eq!(LegacyDrive::from_cell(0x1234), d);
    assert_eq!(LegacyDrive::from_cell(0xFF00), LegacyDrive { phase: 0, duty: 0xFF });
}

#[test]
fn new_datagram_is_zero_and_sends_no_body() {
    let mut tx = TxDatagram::new(3);
    assert_eq!(tx.num_bodies, 0);
    assert_eq!(tx.body().len(), 3);
    assert_eq!(tx.size(), 128);
    assert_eq!(tx.header().msg_id, 0);
    assert_eq!(tx.data(), vec![0u8; 128]);
    tx.num_bodies = 3;
    assert_eq!(tx.size(), 128 + 3 * 498);
    assert_eq!(tx.data(), vec![0u8; 128 + 3 * 498]);
    let none = TxDatagram::new(0);
    assert_eq!(none.body().len(), 0);
    assert_eq!(none.data().len(), 128);
}

#[test]
fn header_and_body_can_be_written_in_place() {
    let mut tx = TxDatagram::new(2);
    tx.header_mut().msg_id = 0x55;
    tx.header_mut().size = 3;
    tx.body_mut(1).data[7] = 0xBEEF;
    assert_eq!(tx.header().msg_id, 0x55);
    assert_eq!(tx.body()[1].data[7], 0xBEEF);
    assert_eq!(tx.body()[0].data[7], 0);
    tx.num_bodies = 2;
    let bytes = tx.data();
    assert_eq!(bytes[0], 0x55);
    assert_eq!(bytes[3], 3);
    assert_eq!(bytes[128 + 498 + 14], 0xEF);
    assert_eq!(bytes[128 + 498 + 15], 0xBE);
}

#[test]
fn wire_order_of_the_header() {
    let mut tx = TxDatagram::new(1);
    tx.header.msg_id = 1;
    tx.header.fpga_flag.bits = 2;
    tx.header.cpu_flag.bits = 3;
    tx.header.size = 4;
    tx.header.put_u16(0, 0x0605);
    tx.header.put_u32(2, 0x0A090807);
    tx.header.put_bytes(120, &[11, 12, 13, 14]);
    let bytes = tx.data();
    assert_eq!(&bytes[0..10], &[1, 2, 3, 4, 5, 6, 7, 8, 9, 10]);
    assert_eq!(&bytes[124..128], &[11, 12, 13, 14]);
}

#[test]
fn decode_reads_back_what_data_writes() {
    let mut tx = TxDatagram::new(2);
    tx.header.msg_id = 0x7F;
    tx.header.fpga_flag.bits = 0x21;
    tx.header.cpu_flag.bits = 0x18;
    tx.header.size = 9;
    for i in 0..HEADER_DATA_SIZE {
        tx.header.data[i] = (i * 2 + 1) as u8;
    }
    for d in 0..2 {
        for c in 0..NUM_TRANS_IN_UNIT {
            tx.bodies[d].data[c] = (0x8000 + d * 1000 + c) as u16;
        }
    }
    tx.num_bodies = 2;
    let back = TxDatagram::decode(&tx.data()).unwrap();
    assert_eq!(back.num_bodies, 2);
    assert_eq!(back.header.msg_id, 0x7F);
    assert_eq!(back.header.fpga_flag.bits, 0x21);
    assert_eq!(back.header.cpu_flag.bits, 0x18);
    assert_eq!(back.header.size, 9);
    assert_eq!(back.header.data, tx.header.data);
    assert_eq!(back.bodies[0].data, tx.bodies[0].data);
    assert_eq!(back.bodies[1].data, tx.bodies[1].data);
    assert_eq!(back.data(), tx.data());
}

#[test]
fn decode_refuses_frames_that_are_not_whole() {
    assert!(TxDatagram::decode(&[]).is_none());
    assert!(TxDatagram::decode(&vec![0u8; 127]).is_none());
    assert!(TxDatagram::decode(&vec![0u8; 129]).is_none());
    assert!(TxDatagram::decode(&vec![0u8; 128 + 497]).is_none());
    assert!(TxDatagram::decode(&vec![0u8; 128 + 499]).is_none());
    let header_only = TxDatagram::decode(&vec![0u8; 128]).unwrap();
    assert_eq!(header_only.num_bodies, 0);
    assert_eq!(header_only.bodies.len(), 0);
    assert_eq!(TxDatagram::decode(&vec![0u8; 128 + 498]).unwrap().num_bodies, 1);
}

#[test]
fn rx_datagram_fills_all_slots_or_none() {
    let mut rx = RxDatagram::new(3);
    assert_eq!(rx.messages(), &[RxMessage { ack: 0, msg_id: 0 }; 3]);
    assert!(rx.copy_from(&[1, 2, 3, 4, 5, 6]));
    assert_eq!(
        rx.messages(),
        &[
            RxMessage { ack: 1, msg_id: 2 },
            RxMessage { ack: 3, msg_id: 4 },
            RxMessage { ack: 5, msg_id: 6 }
        ]
    );
    assert!(!rx.copy_from(&[9, 9, 9, 9]));
    assert!(!rx.copy_from(&[9, 9, 9, 9, 9, 9, 9]));
    assert!(!rx.copy_from(&[9, 9, 9, 9, 9, 9, 9, 9]));
    assert_eq!(rx.messages()[0], RxMessage { ack: 1, msg_id: 2 });
    let mut none = RxDatagram::new(0);
    assert!(none.copy_from(&[]));
    assert!(!none.copy_from(&[1, 2]));
}

#[test]
fn output_modes_exclude_each_other() {
    for bits in [0x00u8, 0x01, 0x10, 0x11, 0x40, 0x41, 0x51] {
        assert_eq!(FPGAControlFlags { bits }.output_mode(), OutputMode::Static);
    }
    for bits in [0x20u8, 0x21, 0x30, 0x31] {
        assert_eq!(FPGAControlFlags { bits }.output_mode(), OutputMode::PointStm);
    }
    for bits in [0x60u8, 0x61, 0x70, 0x71] {
        assert_eq!(FPGAControlFlags { bits }.output_mode(), OutputMode::GainStm);
    }
}
