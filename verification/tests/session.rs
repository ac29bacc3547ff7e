use arm_control::codec::{ArmCommand, JoystickFrame};
use arm_control::device::{Axis, Channel};
use arm_control::error::{ControlError, Fault, Reply};
use arm_control::session::{
    check_ble_permissions, connect, disconnect, discover_and_connect, find_device,
    poll_controller_status, preload_operation, resume_batch, resume_connect, resume_disconnect,
    resume_permissions, resume_read, resume_scan_start, resume_stop_scan, resume_write,
    send_arm_command, send_joystick_data, send_lifting_arm_value, stop_scan, ConnectStage,
    DeviceDescriptor, ReadStage, Step, StopStage, WriteStage,
};
use arm_control::state::AppState;

fn usable_session() -> AppState {
    AppState {
        is_connected: true,
        connected_address: Some("3c:0f:02:d1:d3:8a".to_string()),
        controller_usable: true,
    }
}

fn device(address: &str, name: &str) -> DeviceDescriptor {
    DeviceDescriptor { address: address.to_string(), name: name.to_string() }
}

fn unavailable(detail: &str) -> Fault {
    Fault::Unavailable { detail: detail.to_string() }
}

fn rejected(detail: &str) -> Fault {
    Fault::Rejected { detail: detail.to_string() }
}

fn joystick(x: u8, y: u8, r: u8, axis: Axis) -> WriteStage {
    WriteStage::Joystick { frame: JoystickFrame { x, y, r }, axis }
}

fn failed(error: ControlError) -> Step {
    Step::Done { result: Err(error) }
}

fn done(reply: Reply) -> Step {
    Step::Done { result: Ok(reply) }
}

#[test]
fn joystick_is_refused_while_controller_not_usable() {
    for connected in [false, true] {
        for address in [None, Some("AA".to_string())] {
            let state = AppState {
                is_connected: connected,
                connected_address: address,
                controller_usable: false,
            };
            for (x, y, r) in [(0, 0, 0), (0x7F, 0x7F, 0x7F), (255, 1, 2), (3, 255, 128)] {
                let before = state.clone();
                assert_eq!(
                    send_joystick_data(&state, x, y, r),
                    failed(ControlError::ControllerNotUsable)
                );
                assert_eq!(state, before);
            }
        }
    }
}

#[test]
fn joystick_writes_x_then_y_then_r() {
    let state = usable_session();
    let step = send_joystick_data(&state, 0x10, 0x20, 0x30);
    assert_eq!(
        step,
        Step::Write {
            channel: Channel::AxisX,
            payload: vec![0x10, 0x00],
            stage: joystick(0x10, 0x20, 0x30, Axis::X),
        }
    );
    let step = resume_write(joystick(0x10, 0x20, 0x30, Axis::X), Ok(()));
    assert_eq!(
        step,
        Step::Write {
            channel: Channel::AxisY,
            payload: vec![0x20, 0x00],
            stage: joystick(0x10, 0x20, 0x30, Axis::Y),
        }
    );
    let step = resume_write(joystick(0x10, 0x20, 0x30, Axis::Y), Ok(()));
    assert_eq!(
        step,
        Step::Write {
            channel: Channel::AxisR,
            payload: vec![0x30, 0x00],
            stage: joystick(0x10, 0x20, 0x30, Axis::R),
        }
    );
    let step = resume_write(joystick(0x10, 0x20, 0x30, Axis::R), Ok(()));
    assert_eq!(step, done(Reply::JoystickSent { x: 0x10, y: 0x20, r: 0x30 }));
}

#[test]
fn joystick_stops_at_first_failed_write() {
    let axes = [(Axis::X, Channel::AxisX), (Axis::Y, Channel::AxisY), (Axis::R, Channel::AxisR)];
    for (axis, channel) in axes {
        assert_eq!(
            resume_write(joystick(1, 2, 3, axis), Err(rejected("link lost"))),
            failed(ControlError::WriteFailed { channel, detail: "link lost".to_string() })
        );
        assert_eq!(
            resume_write(joystick(1, 2, 3, axis), Err(unavailable("not initialized"))),
            failed(ControlError::TransportUnavailable { detail: "not initialized".to_string() })
        );
    }
}

#[test]
fn lifting_arm_is_written_without_gate() {
    assert_eq!(
        send_lifting_arm_value(0xAB),
        Step::Write {
            channel: Channel::LiftingArm,
            payload: vec![0xAB, 0x00],
            stage: WriteStage::LiftingArm { value: 0xAB },
        }
    );
    assert_eq!(
        resume_write(WriteStage::LiftingArm { value: 0xAB }, Ok(())),
        done(Reply::LiftingArmSent { value: 0xAB })
    );
    assert_eq!(
        resume_write(WriteStage::LiftingArm { value: 0xAB }, Err(rejected("busy"))),
        failed(ControlError::WriteFailed {
            channel: Channel::LiftingArm,
            detail: "busy".to_string()
        })
    );
}

#[test]
fn arm_command_grab_writes_one() {
    assert_eq!(
        send_arm_command("grab"),
        Step::Write {
            channel: Channel::ClawSwitch,
            payload: vec![0x01, 0x00],
            stage: WriteStage::ArmSwitch { command: ArmCommand::Grab },
        }
    );
    assert_eq!(
        resume_write(WriteStage::ArmSwitch { command: ArmCommand::Grab }, Ok(())),
        done(Reply::ArmCommandSent { command: ArmCommand::Grab })
    );
}

#[test]
fn arm_command_release_writes_zero() {
    assert_eq!(
        send_arm_command("release"),
        Step::Write {
            channel: Channel::ClawSwitch,
            payload: vec![0x00, 0x00],
            stage: WriteStage::ArmSwitch { command: ArmCommand::Release },
        }
    );
    assert_eq!(
        resume_write(WriteStage::ArmSwitch { command: ArmCommand::Release }, Err(rejected("x"))),
        failed(ControlError::WriteFailed { channel: Channel::ClawSwitch, detail: "x".to_string() })
    );
}

#[test]
fn arm_command_refuses_unknown_word_without_writing() {
    for word in ["", "Grab", "open", "release ", "grab\n"] {
        assert_eq!(
            send_arm_command(word),
            failed(ControlError::UnsupportedCommand { command: word.to_string() })
        );
    }
}

#[test]
fn poll_reads_and_records_the_status() {
    assert_eq!(
        poll_controller_status(),
        Step::Read { channel: Channel::ControllerUsable, stage: ReadStage::Poll }
    );
    let cases: [(&[u8], bool); 6] = [
        (&[], false),
        (&[0x01], true),
        (&[0x00], false),
        (&[0x00, 0x01], true),
        (&[0x01, 0x00], false),
        (&[0x02], false),
    ];
    for (data, usable) in cases {
        for was in [false, true] {
            let mut state = usable_session();
            state.controller_usable = was;
            let step = resume_read(&mut state, ReadStage::Poll, Ok(data.to_vec()));
            assert_eq!(step, done(Reply::ControllerStatus { usable }));
            let mut expected = usable_session();
            expected.controller_usable = usable;
            assert_eq!(state, expected);
        }
    }
}

#[test]
fn poll_failure_leaves_the_session() {
    let mut state = usable_session();
    let step = resume_read(&mut state, ReadStage::Poll, Err(rejected("timeout")));
    assert_eq!(
        step,
        failed(ControlError::ReadFailed {
            channel: Channel::ControllerUsable,
            detail: "timeout".to_string()
        })
    );
    assert_eq!(state, usable_session());
    let step = resume_read(&mut state, ReadStage::Poll, Err(unavailable("no handler")));
    assert_eq!(
        step,
        failed(ControlError::TransportUnavailable { detail: "no handler".to_string() })
    );
    assert_eq!(state, usable_session());
}

#[test]
fn stop_scan_command() {
    assert_eq!(stop_scan(), Step::StopScan { stage: StopStage::Requested });
    assert_eq!(resume_stop_scan(StopStage::Requested, Ok(())), done(Reply::ScanStopped));
    assert_eq!(
        resume_stop_scan(StopStage::Requested, Err(rejected("not scanning"))),
        failed(ControlError::StopScanFailed { detail: "not scanning".to_string() })
    );
    assert_eq!(
        resume_stop_scan(StopStage::Requested, Err(unavailable("no handler"))),
        failed(ControlError::TransportUnavailable { detail: "no handler".to_string() })
    );
}

#[test]
fn connect_records_address_and_flag() {
    assert_eq!(
        connect("AA:BB:CC"),
        Step::Connect { address: "AA:BB:CC".to_string(), stage: ConnectStage::Direct }
    );
    let mut state = AppState::new();
    let step = resume_connect(&mut state, "AA:BB:CC".to_string(), ConnectStage::Direct, Ok(()));
    assert_eq!(step, done(Reply::Connected { address: "AA:BB:CC".to_string() }));
    assert_eq!(
        state,
        AppState {
            is_connected: true,
            connected_address: Some("AA:BB:CC".to_string()),
            controller_usable: false,
        }
    );
}

#[test]
fn connect_with_empty_address_records_no_address() {
    let mut state = usable_session();
    let step = resume_connect(&mut state, String::new(), ConnectStage::Direct, Ok(()));
    assert_eq!(step, done(Reply::Connected { address: String::new() }));
    assert_eq!(
        state,
        AppState { is_connected: true, connected_address: None, controller_usable: true }
    );
}

#[test]
fn connect_failure_leaves_the_session() {
    for stage in [ConnectStage::Direct, ConnectStage::Discovered] {
        let mut state = AppState::new();
        let step = resume_connect(&mut state, "AA".to_string(), stage, Err(rejected("refused")));
        assert_eq!(
            step,
            failed(ControlError::ConnectionFailed {
                address: "AA".to_string(),
                detail: "refused".to_string()
            })
        );
        assert_eq!(state, AppState::new());
        let step = resume_connect(&mut state, "AA".to_string(), stage, Err(unavailable("none")));
        assert_eq!(
            step,
            failed(ControlError::TransportUnavailable { detail: "none".to_string() })
        );
        assert_eq!(state, AppState::new());
    }
}

#[test]
fn disconnect_zeroes_axes_then_disconnects() {
    let neutral = |axis: Axis, channel: Channel| Step::Write {
        channel,
        payload: vec![0x7F, 0x00],
        stage: WriteStage::Neutral { axis },
    };
    assert_eq!(disconnect(), neutral(Axis::X, Channel::AxisX));
    for outcome in [Ok(()), Err(rejected("gone")), Err(unavailable("none"))] {
        assert_eq!(
            resume_write(WriteStage::Neutral { axis: Axis::X }, outcome.clone()),
            neutral(Axis::Y, Channel::AxisY)
        );
        assert_eq!(
            resume_write(WriteStage::Neutral { axis: Axis::Y }, outcome.clone()),
            neutral(Axis::R, Channel::AxisR)
        );
        assert_eq!(resume_write(WriteStage::Neutral { axis: Axis::R }, outcome), Step::Disconnect);
    }
}

#[test]
fn successful_disconnect_resets_any_session() {
    for connected in [false, true] {
        for usable in [false, true] {
            for address in [None, Some("3c:0f:02:d1:d3:8a".to_string())] {
                let mut state = AppState {
                    is_connected: connected,
                    connected_address: address,
                    controller_usable: usable,
                };
                let step = resume_disconnect(&mut state, Ok(()));
                assert_eq!(step, done(Reply::Disconnected));
                assert!(!state.is_connected);
                assert_eq!(state.connected_address, None);
                assert!(!state.controller_usable);
            }
        }
    }
}

#[test]
fn failed_disconnect_leaves_the_session() {
    let mut state = usable_session();
    let step = resume_disconnect(&mut state, Err(rejected("stuck")));
    assert_eq!(step, failed(ControlError::DisconnectFailed { detail: "stuck".to_string() }));
    assert_eq!(state, usable_session());
    let step = resume_disconnect(&mut state, Err(unavailable("none")));
    assert_eq!(step, failed(ControlError::TransportUnavailable { detail: "none".to_string() }));
    assert_eq!(state, usable_session());
}

#[test]
fn preload_scans_for_the_fixed_address() {
    assert_eq!(
        preload_operation(),
        Step::StartScan { target: "3c:0f:02:d1:d3:8a".to_string(), timeout_ms: 10000 }
    );
    assert_eq!(
        discover_and_connect("AA:BB", 20000),
        Step::StartScan { target: "AA:BB".to_string(), timeout_ms: 20000 }
    );
}

#[test]
fn scan_start_outcomes() {
    assert_eq!(
        resume_scan_start("AA".to_string(), Ok(())),
        Step::AwaitBatch { target: "AA".to_string() }
    );
    assert_eq!(
        resume_scan_start("AA".to_string(), Err(rejected("adapter off"))),
        failed(ControlError::ScanFailed { detail: "adapter off".to_string() })
    );
    assert_eq!(
        resume_scan_start("AA".to_string(), Err(unavailable("none"))),
        failed(ControlError::TransportUnavailable { detail: "none".to_string() })
    );
}

#[test]
fn find_device_takes_the_first_match() {
    let devices = vec![
        device("11:22:33:44:55:66", "lamp"),
        device("3C:0F:02:D1:D3:8A", "arm"),
        device("3c:0f:02:d1:d3:8a", "arm again"),
    ];
    assert_eq!(find_device(&devices, "3c:0f:02:d1:d3:8a"), Some(1));
    assert_eq!(find_device(&devices, "11:22:33:44:55:66"), Some(0));
    assert_eq!(find_device(&devices, "3c:0f:02:d1:d3:8b"), None);
    assert_eq!(find_device(&Vec::new(), "3c:0f:02:d1:d3:8a"), None);
}

#[test]
fn discovery_without_target_is_not_found_and_never_connects() {
    let target = "3c:0f:02:d1:d3:8a";
    let batches = vec![
        vec![device("11:22:33:44:55:66", "lamp")],
        vec![],
        vec![device("3c:0f:02:d1:d3:8b", "other arm"), device("AA:BB:CC:DD:EE:FF", "")],
    ];
    let mut step = resume_scan_start(target.to_string(), Ok(()));
    for batch in batches {
        assert_eq!(step, Step::AwaitBatch { target: target.to_string() });
        step = resume_batch(target.to_string(), Some(batch));
    }
    assert_eq!(step, Step::AwaitBatch { target: target.to_string() });
    assert_eq!(
        resume_batch(target.to_string(), None),
        failed(ControlError::DeviceNotFound { target: target.to_string() })
    );
}

#[test]
fn scan_that_ends_at_once_is_not_found() {
    assert_eq!(
        resume_batch("AA".to_string(), None),
        failed(ControlError::DeviceNotFound { target: "AA".to_string() })
    );
}

#[test]
fn discovery_connects_and_reads_the_status() {
    let target = "3c:0f:02:d1:d3:8a";
    let batch = vec![device("11:22:33:44:55:66", "lamp"), device("3C:0F:02:D1:D3:8A", "arm")];
    let step = resume_batch(target.to_string(), Some(batch));
    assert_eq!(
        step,
        Step::StopScan { stage: StopStage::Matched { address: "3C:0F:02:D1:D3:8A".to_string() } }
    );
    for outcome in [Ok(()), Err(rejected("not scanning")), Err(unavailable("none"))] {
        assert_eq!(
            resume_stop_scan(
                StopStage::Matched { address: "3C:0F:02:D1:D3:8A".to_string() },
                outcome
            ),
            Step::Connect {
                address: "3C:0F:02:D1:D3:8A".to_string(),
                stage: ConnectStage::Discovered
            }
        );
    }
    let mut state = AppState::new();
    let step = resume_connect(
        &mut state,
        "3C:0F:02:D1:D3:8A".to_string(),
        ConnectStage::Discovered,
        Ok(()),
    );
    assert_eq!(
        step,
        Step::Read { channel: Channel::ControllerUsable, stage: ReadStage::AfterConnect }
    );
    assert_eq!(
        state,
        AppState {
            is_connected: true,
            connected_address: Some("3C:0F:02:D1:D3:8A".to_string()),
            controller_usable: false,
        }
    );
    let step = resume_read(&mut state, ReadStage::AfterConnect, Ok(vec![0x00, 0x01]));
    assert_eq!(step, done(Reply::Preloaded));
    assert!(state.controller_usable);
    assert!(state.is_connected);
}

#[test]
fn discovery_succeeds_when_the_first_status_read_fails() {
    let mut state = AppState {
        is_connected: true,
        connected_address: Some("AA".to_string()),
        controller_usable: false,
    };
    let before = state.clone();
    let step = resume_read(&mut state, ReadStage::AfterConnect, Err(rejected("timeout")));
    assert_eq!(step, done(Reply::Preloaded));
    assert_eq!(state, before);
    let step = resume_read(&mut state, ReadStage::AfterConnect, Ok(vec![0x02]));
    assert_eq!(step, done(Reply::Preloaded));
    assert_eq!(state, before);
}

#[test]
fn permission_check() {
    assert_eq!(check_ble_permissions(), Step::CheckPermissions { request_if_missing: true });
    assert_eq!(resume_permissions(Ok(true)), done(Reply::Permissions { granted: true }));
    assert_eq!(resume_permissions(Ok(false)), done(Reply::Permissions { granted: false }));
    assert_eq!(
        resume_permissions(Err(rejected("denied by policy"))),
        failed(ControlError::PermissionCheckFailed { detail: "denied by policy".to_string() })
    );
    assert_eq!(
        resume_permissions(Err(unavailable("none"))),
        failed(ControlError::TransportUnavailable { detail: "none".to_string() })
    );
}

#[test]
fn write_stage_builds_its_request() {
    assert_eq!(
        WriteStage::Neutral { axis: Axis::R }.into_step(),
        Step::Write {
            channel: Channel::AxisR,
            payload: vec![0x7F, 0x00],
            stage: WriteStage::Neutral { axis: Axis::R },
        }
    );
    assert_eq!(
        joystick(9, 8, 7, Axis::Y).into_step(),
        Step::Write {
            channel: Channel::AxisY,
            payload: vec![8, 0],
            stage: joystick(9, 8, 7, Axis::Y),
        }
    );
}
