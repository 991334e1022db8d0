use autd3::datagram::TxDatagram;
use autd3::error::{AutdError, SoemError, TimerError};
use autd3::operation::{config_silencer, sync};
use autd3::recovery::{Diagnostic, LostRemedy, RecoveryPass, Remedy, Report, SlaveRecord};
use autd3::soem::{
    needs_recovery, write_header, write_header_body, OpenAction, OpenEvent, SoemLink,
    EC_STATE_INIT, EC_STATE_NONE, EC_STATE_OPERATIONAL, EC_STATE_SAFE_OP,
};
use autd3::timer::NativeTimerWrapper;

fn opened(dev_num: u16) -> SoemLink {
    let mut link = SoemLink::new(dev_num, 2);
    assert_eq!(link.open_step(OpenEvent::Begin), OpenAction::Init);
    assert_eq!(link.open_step(OpenEvent::InitDone { result: 1 }), OpenAction::Config);
    assert_eq!(
        link.open_step(OpenEvent::ConfigDone { found: dev_num }),
        OpenAction::RequestOperational
    );
    assert_eq!(
        link.open_step(OpenEvent::StateChecked { state: EC_STATE_OPERATIONAL }),
        OpenAction::EnableSync { cycle_time_ns: 1_000_000 }
    );
    assert_eq!(
        link.open_step(OpenEvent::SyncDone { outputs_wkc: dev_num, inputs_wkc: dev_num }),
        OpenAction::StartTimer { expected_wkc: 3 * dev_num as i32, period_ns: 1_000_000 }
    );
    link
}

#[test]
fn image_gets_each_body_followed_by_the_header() {
    let src: Vec<u8> = vec![1, 2, 3, 10, 11, 20, 21, 30, 31];
    let mut dst = vec![0xEEu8; 17];
    write_header_body(&src, &mut dst, 3, 3, 2);
    assert_eq!(dst, vec![10, 11, 1, 2, 3, 20, 21, 1, 2, 3, 30, 31, 1, 2, 3, 0xEE, 0xEE]);
    let mut dst = vec![0xEEu8; 12];
    write_header(&[7, 8, 9], &mut dst, 2, 3, 2);
    assert_eq!(dst, vec![0xEE, 0xEE, 7, 8, 9, 0xEE, 0xEE, 7, 8, 9, 0xEE, 0xEE]);
    let mut untouched = vec![5u8; 4];
    write_header_body(&src, &mut untouched, 0, 3, 2);
    assert_eq!(untouched, vec![5u8; 4]);
}

#[test]
fn new_link_is_closed_and_refuses() {
    let mut link = SoemLink::new(2, 3);
    assert!(!link.is_open());
    assert_eq!(link.dev_num(), 2);
    assert_eq!(link.cycle_time_ns(), 1_500_000);
    assert_eq!(link.sync0_cycle_time_ns(), 1_500_000);
    assert_eq!(link.io_map().len(), 0);
    assert_eq!(link.send(&[0u8; 128]), Err(AutdError::LinkClosed));
    let mut buf = [9u8; 4];
    assert_eq!(link.read(&mut buf), Err(AutdError::LinkClosed));
    assert_eq!(buf, [9u8; 4]);
    assert!(!link.close());
}

#[test]
fn open_link_takes_whole_frames() {
    let mut link = opened(2);
    assert!(link.is_open());
    assert_eq!(link.io_map(), &vec![0u8; 2 * 628][..]);
    let mut tx = TxDatagram::new(2);
    let mut c0 = [0u16; 249];
    let mut c1 = [0u16; 249];
    for i in 0..249 {
        c0[i] = 0x0100 + i as u16;
        c1[i] = 0x8000 + i as u16;
    }
    assert_eq!(sync(0x33, 2, &[c0, c1], &mut tx), Ok(()));
    let frame = tx.data();
    assert_eq!(link.send(&frame), Ok(true));
    let image = link.io_map();
    assert_eq!(&image[0..498], &frame[128..626]);
    assert_eq!(&image[498..626], &frame[0..128]);
    assert_eq!(&image[626..1124], &frame[626..1124]);
    assert_eq!(&image[1124..1252], &frame[0..128]);
    assert_eq!(&image[1252..1256], &[0, 0, 0, 0]);
    let mut header_only = TxDatagram::new(2);
    assert_eq!(config_silencer(0x34, 4096, 10, &mut header_only), Ok(()));
    let header = header_only.data();
    assert_eq!(header.len(), 128);
    assert_eq!(link.send(&header), Ok(true));
    let image = link.io_map();
    assert_eq!(&image[0..498], &frame[128..626]);
    assert_eq!(&image[498..626], &header[..]);
    assert_eq!(&image[626..1124], &frame[626..1124]);
    assert_eq!(&image[1124..1252], &header[..]);
}

#[test]
fn open_link_refuses_frames_of_other_lengths() {
    let mut link = opened(2);
    assert_eq!(link.send(&[0u8; 127]), Err(AutdError::InvalidFrameSize(127, 128)));
    assert_eq!(link.send(&[]), Err(AutdError::InvalidFrameSize(0, 128)));
    assert_eq!(link.send(&[1u8; 129]), Err(AutdError::InvalidFrameSize(129, 1124)));
    assert_eq!(link.send(&vec![1u8; 1123]), Err(AutdError::InvalidFrameSize(1123, 1124)));
    assert_eq!(link.io_map(), &vec![0u8; 2 * 628][..]);
    assert_eq!(link.send(&vec![1u8; 1124]), Ok(true));
    let mut buf = [9u8; 5];
    assert_eq!(link.read(&mut buf), Err(AutdError::InvalidFrameSize(5, 4)));
    assert_eq!(buf, [9u8; 5]);
    let mut buf = [9u8; 4];
    assert_eq!(link.read(&mut buf), Ok(true));
    assert_eq!(buf, [0u8; 4]);
    let mut part = [9u8; 3];
    assert_eq!(link.read(&mut part), Ok(true));
    assert_eq!(part, [0u8; 3]);
}

#[test]
fn close_zeroes_the_outputs_and_allows_a_new_open() {
    let mut link = opened(1);
    assert_eq!(link.send(&vec![0xABu8; 626]), Ok(true));
    assert_eq!(&link.io_map()[0..626], &vec![0xABu8; 626][..]);
    assert!(link.close());
    assert!(!link.is_open());
    assert_eq!(link.io_map(), &vec![0u8; 628][..]);
    assert!(!link.close());
    assert_eq!(link.send(&[0u8; 128]), Err(AutdError::LinkClosed));
    assert_eq!(link.open_step(OpenEvent::Begin), OpenAction::Init);
}

#[test]
fn open_fails_without_socket_or_with_wrong_device_count() {
    let mut link = SoemLink::new(2, 1);
    assert_eq!(link.open_step(OpenEvent::Begin), OpenAction::Init);
    assert_eq!(
        link.open_step(OpenEvent::InitDone { result: 0 }),
        OpenAction::Fail(SoemError::NoSocketConnection)
    );
    assert!(!link.is_open());
    assert_eq!(link.io_map().len(), 0);
    assert_eq!(link.open_step(OpenEvent::InitDone { result: 1 }), OpenAction::Ignore);
    assert_eq!(link.open_step(OpenEvent::Begin), OpenAction::Init);
    assert_eq!(link.open_step(OpenEvent::InitDone { result: 1 }), OpenAction::Config);
    assert_eq!(link.io_map().len(), 2 * 628);
    assert_eq!(
        link.open_step(OpenEvent::ConfigDone { found: 1 }),
        OpenAction::Fail(SoemError::SlaveNotFound(1, 2))
    );
    assert!(!link.is_open());
}

#[test]
fn open_polls_a_bounded_number_of_times() {
    let mut link = SoemLink::new(1, 1);
    link.open_step(OpenEvent::Begin);
    link.open_step(OpenEvent::InitDone { result: 1 });
    assert_eq!(
        link.open_step(OpenEvent::ConfigDone { found: 1 }),
        OpenAction::RequestOperational
    );
    for _ in 0..200 {
        assert_eq!(
            link.open_step(OpenEvent::StateChecked { state: EC_STATE_SAFE_OP }),
            OpenAction::Poll
        );
    }
    assert_eq!(
        link.open_step(OpenEvent::StateChecked { state: EC_STATE_SAFE_OP }),
        OpenAction::Fail(SoemError::NotResponding)
    );
    assert!(!link.is_open());
    assert_eq!(
        link.open_step(OpenEvent::StateChecked { state: EC_STATE_OPERATIONAL }),
        OpenAction::Ignore
    );
    let mut late = SoemLink::new(1, 1);
    late.open_step(OpenEvent::Begin);
    late.open_step(OpenEvent::InitDone { result: 1 });
    late.open_step(OpenEvent::ConfigDone { found: 1 });
    for _ in 0..200 {
        late.open_step(OpenEvent::StateChecked { state: EC_STATE_SAFE_OP });
    }
    assert_eq!(
        late.open_step(OpenEvent::StateChecked { state: EC_STATE_OPERATIONAL }),
        OpenAction::EnableSync { cycle_time_ns: 500_000 }
    );
    assert_eq!(
        late.open_step(OpenEvent::SyncDone { outputs_wkc: 4, inputs_wkc: 3 }),
        OpenAction::StartTimer { expected_wkc: 11, period_ns: 500_000 }
    );
    assert!(late.is_open());
    assert_eq!(late.open_step(OpenEvent::Begin), OpenAction::Ignore);
}

#[test]
fn expected_working_counter_does_not_wrap() {
    let mut link = SoemLink::new(1, 1);
    link.open_step(OpenEvent::Begin);
    link.open_step(OpenEvent::InitDone { result: 1 });
    link.open_step(OpenEvent::ConfigDone { found: 1 });
    link.open_step(OpenEvent::StateChecked { state: EC_STATE_OPERATIONAL });
    assert_eq!(
        link.open_step(OpenEvent::SyncDone { outputs_wkc: 65535, inputs_wkc: 65535 }),
        OpenAction::StartTimer { expected_wkc: 196605, period_ns: 500_000 }
    );
}

#[test]
fn a_cycle_needs_recovery_when_the_counter_is_off() {
    assert!(!needs_recovery(6, 6));
    assert!(needs_recovery(6, 5));
    assert!(needs_recovery(6, 7));
    assert!(needs_recovery(6, -1));
}

#[test]
fn safe_op_with_error_is_acknowledged_with_one_state_write() {
    let mut pass = RecoveryPass::new();
    let mut slave = SlaveRecord { state: 0x14, islost: false };
    assert_eq!(pass.remedy(3, &mut slave), Remedy::WriteState);
    assert_eq!(slave, SlaveRecord { state: EC_STATE_SAFE_OP + 0x10, islost: false });
    assert_eq!(pass.lost_remedy(3, &mut slave), LostRemedy::Nothing);
    assert!(!pass.all_operational());
    assert_eq!(pass.reports(), &[Report { slave: 3, diagnostic: Diagnostic::AckAttempt }]);
}

#[test]
fn safe_op_is_promoted_to_operational() {
    let mut pass = RecoveryPass::new();
    let mut slave = SlaveRecord { state: EC_STATE_SAFE_OP, islost: false };
    assert_eq!(pass.remedy(1, &mut slave), Remedy::WriteState);
    assert_eq!(slave.state, EC_STATE_OPERATIONAL);
    assert_eq!(pass.lost_remedy(1, &mut slave), LostRemedy::Nothing);
    assert_eq!(pass.reports(), &[Report { slave: 1, diagnostic: Diagnostic::ToOperational }]);
    assert!(!pass.all_operational());
}

#[test]
fn operational_devices_are_left_alone() {
    let mut pass = RecoveryPass::new();
    for i in 1..4 {
        let mut slave = SlaveRecord { state: EC_STATE_OPERATIONAL, islost: false };
        assert_eq!(pass.remedy(i, &mut slave), Remedy::Nothing);
        assert_eq!(pass.lost_remedy(i, &mut slave), LostRemedy::Nothing);
        assert_eq!(slave, SlaveRecord { state: EC_STATE_OPERATIONAL, islost: false });
    }
    assert!(pass.all_operational());
    assert!(pass.reports().is_empty());
}

#[test]
fn deeper_states_are_reconfigured() {
    for state in [0x01u16, 0x02, 0x03, 0x11, 0x12, 0x18] {
        let mut pass = RecoveryPass::new();
        let mut slave = SlaveRecord { state, islost: false };
        assert_eq!(pass.remedy(2, &mut slave), Remedy::Reconfigure);
        assert_eq!(slave.state, state);
        pass.reconfigured(2, &mut slave, 0, state);
        assert!(pass.reports().is_empty());
        pass.reconfigured(2, &mut slave, 8, EC_STATE_OPERATIONAL);
        assert_eq!(slave, SlaveRecord { state: EC_STATE_OPERATIONAL, islost: false });
        assert_eq!(pass.reports(), &[Report { slave: 2, diagnostic: Diagnostic::Reconfigured }]);
    }
}

#[test]
fn silent_device_is_marked_lost_then_recovered() {
    let mut pass = RecoveryPass::new();
    let mut slave = SlaveRecord { state: EC_STATE_NONE, islost: false };
    assert_eq!(pass.remedy(5, &mut slave), Remedy::CheckState);
    pass.state_checked(5, &mut slave, EC_STATE_NONE);
    assert_eq!(slave, SlaveRecord { state: EC_STATE_NONE, islost: true });
    assert_eq!(pass.lost_remedy(5, &mut slave), LostRemedy::Recover);
    pass.recovered(5, &mut slave, 0, EC_STATE_NONE);
    assert!(slave.islost);
    assert_eq!(pass.reports(), &[Report { slave: 5, diagnostic: Diagnostic::Lost }]);

    let mut next = RecoveryPass::new();
    assert_eq!(next.remedy(5, &mut slave), Remedy::Nothing);
    assert_eq!(next.lost_remedy(5, &mut slave), LostRemedy::Recover);
    next.recovered(5, &mut slave, 1, EC_STATE_INIT);
    assert!(!slave.islost);
    assert_eq!(next.reports(), &[Report { slave: 5, diagnostic: Diagnostic::Recovered }]);
    assert!(!next.all_operational());
}

#[test]
fn lost_device_that_answers_is_found() {
    let mut pass = RecoveryPass::new();
    let mut slave = SlaveRecord { state: EC_STATE_OPERATIONAL, islost: true };
    assert_eq!(pass.remedy(4, &mut slave), Remedy::Nothing);
    assert_eq!(pass.lost_remedy(4, &mut slave), LostRemedy::Nothing);
    assert_eq!(slave, SlaveRecord { state: EC_STATE_OPERATIONAL, islost: false });
    assert_eq!(pass.reports(), &[Report { slave: 4, diagnostic: Diagnostic::Found }]);
    assert!(pass.all_operational());

    let mut pass = RecoveryPass::new();
    let mut slave = SlaveRecord { state: EC_STATE_NONE, islost: false };
    assert_eq!(pass.remedy(4, &mut slave), Remedy::CheckState);
    pass.state_checked(4, &mut slave, EC_STATE_SAFE_OP);
    assert_eq!(slave, SlaveRecord { state: EC_STATE_SAFE_OP, islost: false });
    assert_eq!(pass.lost_remedy(4, &mut slave), LostRemedy::Nothing);
    assert!(pass.reports().is_empty());
}

#[test]
fn timer_handle_bookkeeping() {
    let mut timer = NativeTimerWrapper::new();
    assert_eq!(timer.timer_id(), 0);
    assert!(!timer.needs_kill());
    assert_eq!(timer.close(true), Ok(()));
    assert_eq!(NativeTimerWrapper::period_ms(1_000_000), 1);
    assert_eq!(NativeTimerWrapper::period_ms(999_999), 0);
    assert_eq!(NativeTimerWrapper::period_ms(2_500_000), 2);
    assert_eq!(timer.start(0), Err(TimerError::CreationFailed));
    assert_eq!(timer.timer_id(), 0);
    assert_eq!(timer.start(17), Ok(true));
    assert_eq!(timer.timer_id(), 17);
    assert!(timer.needs_kill());
    assert_eq!(timer.close(true), Err(TimerError::DeleteFailed));
    assert_eq!(timer.close(false), Ok(()));
    assert_eq!(timer.timer_id(), 17);
}

#[test]
fn notes_read_as_lines_of_text() {
    let text = |slave: usize, diagnostic: Diagnostic| Report { slave, diagnostic }.message();
    assert_eq!(
        text(1, Diagnostic::AckAttempt),
        "ERROR : slave 1 is in SAFE_OP + ERROR, attempting ack\n"
    );
    assert_eq!(
        text(10, Diagnostic::ToOperational),
        "ERROR : slave 10 is in SAFE_OP, change to OPERATIONAL\n"
    );
    assert_eq!(text(0, Diagnostic::Reconfigured), "MESSAGE : slave 0 reconfigured\n");
    assert_eq!(text(65535, Diagnostic::Lost), "ERROR : slave 65535 lost\n");
    assert_eq!(text(209, Diagnostic::Recovered), "MESSAGE : slave 209 recovered\n");
    assert_eq!(text(7, Diagnostic::Found), "MESSAGE : slave 7 found\n");
    assert_eq!(
        text(usize::MAX, Diagnostic::Found),
        format!("MESSAGE : slave {} found\n", usize::MAX)
    );
}

#[test]
fn a_pass_tells_its_notes_in_order() {
    let mut pass = RecoveryPass::new();
    assert_eq!(pass.message(), "");
    let mut a = SlaveRecord { state: 0x14, islost: true };
    assert_eq!(pass.remedy(1, &mut a), Remedy::WriteState);
    assert_eq!(pass.lost_remedy(1, &mut a), LostRemedy::Nothing);
    let mut b = SlaveRecord { state: EC_STATE_NONE, islost: false };
    assert_eq!(pass.remedy(12, &mut b), Remedy::CheckState);
    pass.state_checked(12, &mut b, EC_STATE_NONE);
    assert_eq!(
        pass.message(),
        "ERROR : slave 1 is in SAFE_OP + ERROR, attempting ack\n\
         MESSAGE : slave 1 found\n\
         ERROR : slave 12 lost\n"
    );
    assert_eq!(pass.reports().len(), 3);
}

#[test]
fn inputs_are_taken_in_whole() {
    let mut link = opened(2);
    assert_eq!(link.outputs(), &vec![0u8; 1252][..]);
    assert_eq!(link.set_inputs(&[1, 2, 3]), Err(AutdError::InvalidFrameSize(3, 4)));
    assert_eq!(link.set_inputs(&[1, 2, 3, 4, 5]), Err(AutdError::InvalidFrameSize(5, 4)));
    assert_eq!(link.set_inputs(&[1, 2, 3, 4]), Ok(true));
    assert_eq!(&link.io_map()[1252..], &[1, 2, 3, 4]);
    assert_eq!(link.outputs(), &vec![0u8; 1252][..]);
    let mut buf = [0u8; 4];
    assert_eq!(link.read(&mut buf), Ok(true));
    assert_eq!(buf, [1, 2, 3, 4]);
    assert_eq!(link.send(&vec![0x5Au8; 1252]), Ok(true));
    assert_eq!(link.outputs(), &vec![0x5Au8; 1252][..]);
    assert_eq!(&link.io_map()[1252..], &[1, 2, 3, 4]);
    assert!(link.close());
    assert_eq!(&link.io_map()[1252..], &[1, 2, 3, 4]);
    assert_eq!(link.set_inputs(&[1, 2, 3, 4]), Err(AutdError::LinkClosed));
}
