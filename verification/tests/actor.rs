use volumize::codec::parse_command;
use volumize::incoming::plan_command;
use volumize::incoming::response_for_reply;
use volumize::incoming::CommandPlan;
use volumize::platform::MemoryController;
use volumize::platform::VolumeController;
use volumize::shared::ApplicationVolumeControl;
use volumize::shared::AudioApplication;
use volumize::shared::AudioDevice;
use volumize::shared::AudioVolume;
use volumize::shared::DeviceVolumeControl;
use volumize::shared::ProcessInfo;
use volumize::shared::SessionDirection;
use volumize::shared::SessionType;
use volumize::shared::VolumeControllerError;
use volumize::shared::VolumePercent;
use volumize::volume::VolumeCommand;
use volumize::volume::VolumeServer;
use volumize::volume::VolumeCommandSender;
use volumize::volume_control::drain_commands;
use volumize::volume_control::set_app_volume_checked;
use volumize::volume_control::set_device_volume_checked;
use volumize::volume_control::execute_command;
use volumize::volume_control::ReplyValue;

fn speaker(id: &[u8], micros: u64) -> AudioDevice {
    AudioDevice {
        id: id.to_vec(),
        name: b"Speaker".to_vec(),
        friendly_name: b"Main Speaker".to_vec(),
        direction: SessionDirection::Render,
        is_default: true,
        volume: AudioVolume { current: VolumePercent::new(micros), muted: false },
    }
}

fn player(id: u32, device: &[u8], micros: u64) -> AudioApplication {
    AudioApplication {
        process: ProcessInfo { id, name: b"player".to_vec(), path: None },
        session_type: SessionType::Application,
        direction: SessionDirection::Render,
        volume: AudioVolume { current: VolumePercent::new(micros), muted: false },
        device_id: device.to_vec(),
    }
}

#[test]
fn scenario_device_get_volume_reports_the_level() {
    // the wire request, the actor round trip, and the response frame
    let mut controller = MemoryController::new();
    assert!(controller.add_device(speaker(b"spk-1", 420_000)));

    let cmd =
        parse_command(b"{\"device_get_volume\": {\"request_id\": \"r1\", \"id\": \"spk-1\"}}")
            .unwrap();
    let plan = plan_command(cmd);
    let (label, cmd) = match plan {
        CommandPlan::AwaitReply { label, command } => (label, command),
        CommandPlan::AckAndForward { .. } => panic!("a query must await its reply"),
    };
    assert_eq!(label, b"r1".to_vec());

    let outcome = execute_command(&mut controller, cmd);
    let frame = response_for_reply(label.as_slice(), outcome.reply).unwrap();
    assert_eq!(String::from_utf8(frame).unwrap(), "{\"type\":\"r1\",\"data\":0.42}");
}

#[test]
fn scenario_invalid_application_volume_is_rejected_unapplied() {
    let mut controller = MemoryController::new();
    assert!(controller.add_app(player(1234, b"spk-1", 300_000)));

    let cmd = parse_command(b"{\"application_set_volume\": {\"id\": 1234, \"volume\": 1.5}}")
        .unwrap();
    let outcome = execute_command(&mut controller, cmd);
    assert!(outcome.reply.is_none());
    match outcome.dropped_error {
        Some(VolumeControllerError::InvalidVolumePercentage(v)) => {
            assert_eq!(v.micros, 1_500_000)
        }
        other => panic!("expected the invalid-percentage rejection, got {:?}", other),
    }
    // the application observes no change
    let level = controller.get_app_volume(1234).unwrap();
    assert_eq!(level.current.micros, 300_000);
}

#[test]
fn invalid_device_volume_is_rejected_unapplied() {
    let mut controller = MemoryController::new();
    assert!(controller.add_device(speaker(b"spk-1", 100_000)));
    let cmd = VolumeCommand::DeviceSetVolume {
        request_id: Vec::new(),
        id: b"spk-1".to_vec(),
        volume: VolumePercent::new(1_000_001),
    };
    let outcome = execute_command(&mut controller, cmd);
    assert!(matches!(
        outcome.dropped_error,
        Some(VolumeControllerError::InvalidVolumePercentage(_))
    ));
    assert_eq!(controller.get_device_volume(&b"spk-1".to_vec()).unwrap().micros, 100_000);
}

#[test]
fn valid_device_volume_is_applied() {
    let mut controller = MemoryController::new();
    assert!(controller.add_device(speaker(b"spk-1", 100_000)));
    let cmd = VolumeCommand::DeviceSetVolume {
        request_id: Vec::new(),
        id: b"spk-1".to_vec(),
        volume: VolumePercent::new(1_000_000),
    };
    let outcome = execute_command(&mut controller, cmd);
    assert!(outcome.dropped_error.is_none());
    assert_eq!(controller.get_device_volume(&b"spk-1".to_vec()).unwrap().micros, 1_000_000);
}

#[test]
fn unknown_device_yields_device_not_found() {
    let mut controller = MemoryController::new();
    let r = controller.get_device_volume(&b"nope".to_vec());
    match r {
        Err(VolumeControllerError::DeviceNotFound(id)) => assert_eq!(id, b"nope".to_vec()),
        other => panic!("expected DeviceNotFound, got {:?}", other),
    }
}

#[test]
fn missing_application_volume_forwards_the_typed_error() {
    // the controller fails; the query forwards its typed error in the reply
    let mut controller = MemoryController::new();
    let cmd = VolumeCommand::ApplicationGetVolume { request_id: b"q".to_vec(), id: 9 };
    let outcome = execute_command(&mut controller, cmd);
    assert!(matches!(
        outcome.reply,
        Some(Err(VolumeControllerError::ApplicationNotFound(_)))
    ));
}

#[test]
fn present_application_volume_replies_with_its_level() {
    let mut controller = MemoryController::new();
    assert!(controller.add_app(player(9, b"spk-1", 640_000)));
    let cmd = VolumeCommand::ApplicationGetVolume { request_id: b"q".to_vec(), id: 9 };
    let outcome = execute_command(&mut controller, cmd);
    match outcome.reply {
        Some(Ok(ReplyValue::Volume(v))) => assert_eq!(v.micros, 640_000),
        other => panic!("expected the stored level, got {:?}", other),
    }
}

#[test]
fn icon_of_missing_application_is_not_found() {
    let mut controller = MemoryController::new();
    let cmd = VolumeCommand::ApplicationGetIcon { request_id: b"q".to_vec(), id: 9 };
    let outcome = execute_command(&mut controller, cmd);
    assert!(matches!(
        outcome.reply,
        Some(Err(VolumeControllerError::ApplicationNotFound(_)))
    ));
}

#[test]
fn icon_without_platform_pipeline_is_unknown_error() {
    let mut controller = MemoryController::new();
    assert!(controller.add_app(player(5, b"spk-1", 100_000)));
    let cmd = VolumeCommand::ApplicationGetIcon { request_id: b"q".to_vec(), id: 5 };
    let outcome = execute_command(&mut controller, cmd);
    assert!(matches!(outcome.reply, Some(Err(VolumeControllerError::Unknown(_)))));
}

#[test]
fn device_applications_are_filtered_by_device() {
    let mut controller = MemoryController::new();
    assert!(controller.add_device(speaker(b"spk-1", 100_000)));
    assert!(controller.add_app(player(1, b"spk-1", 100_000)));
    assert!(controller.add_app(player(2, b"other", 100_000)));
    assert!(controller.add_app(player(3, b"spk-1", 100_000)));
    let cmd = VolumeCommand::GetDeviceApplications {
        request_id: b"q".to_vec(),
        id: b"spk-1".to_vec(),
    };
    let outcome = execute_command(&mut controller, cmd);
    match outcome.reply {
        Some(Ok(ReplyValue::AppIds(ids))) => assert_eq!(ids, vec![1, 3]),
        other => panic!("expected the app ids, got {:?}", other),
    }
}

#[test]
fn playback_devices_render_as_json_objects() {
    let mut controller = MemoryController::new();
    assert!(controller.add_device(speaker(b"spk-1", 420_000)));
    let cmd = VolumeCommand::GetPlaybackDevices { request_id: b"list".to_vec() };
    let outcome = execute_command(&mut controller, cmd);
    let frame = response_for_reply(b"list", outcome.reply).unwrap();
    let v: serde_json::Value = serde_json::from_slice(&frame).expect("valid JSON");
    assert_eq!(v["type"], "list");
    let d = &v["data"][0];
    assert_eq!(d["id"], "spk-1");
    assert_eq!(d["name"], "Speaker");
    assert_eq!(d["friendly_name"], "Main Speaker");
    assert_eq!(d["direction"], "Render");
    assert_eq!(d["is_default"], true);
    assert_eq!(d["volume"]["current"].as_f64().unwrap(), 0.42);
    assert_eq!(d["volume"]["muted"], false);
}

#[test]
fn get_application_renders_the_session() {
    let mut controller = MemoryController::new();
    assert!(controller.add_app(player(7, b"spk-1", 250_000)));
    let cmd = VolumeCommand::GetApplication { request_id: b"g".to_vec(), id: 7 };
    let outcome = execute_command(&mut controller, cmd);
    let frame = response_for_reply(b"g", outcome.reply).unwrap();
    let v: serde_json::Value = serde_json::from_slice(&frame).expect("valid JSON");
    let a = &v["data"];
    assert_eq!(a["process"]["id"], 7);
    assert_eq!(a["process"]["name"], "player");
    assert!(a["process"]["path"].is_null());
    assert_eq!(a["session_type"], "Application");
    assert_eq!(a["device_id"], "spk-1");
    assert_eq!(a["volume"]["current"].as_f64().unwrap(), 0.25);
}

#[test]
fn fallback_controller_ignores_writes_and_reports_silence() {
    let mut controller = VolumeController::new();
    assert!(controller.set_device_volume(&b"any".to_vec(), VolumePercent::new(700_000)).is_ok());
    assert_eq!(controller.get_device_volume(&b"any".to_vec()).unwrap().micros, 0);
    assert!(matches!(
        controller.get_application(1),
        Err(VolumeControllerError::Unknown(_))
    ));
}

#[test]
fn failed_reply_and_closed_channel_emit_no_frame() {
    assert!(response_for_reply(b"r", None).is_none());
    let failed = Some(Err(VolumeControllerError::Unknown(b"gone".to_vec())));
    assert!(response_for_reply(b"r", failed).is_none());
}

#[test]
fn write_commands_are_acknowledged_immediately() {
    let cmd = parse_command(b"{\"device_mute\":{\"request_id\":\"m1\",\"id\":\"spk\"}}").unwrap();
    match plan_command(cmd) {
        CommandPlan::AckAndForward { ack, command } => {
            assert_eq!(
                String::from_utf8(ack).unwrap(),
                "{\"type\":\"m1\",\"data\":\"REQUEST ACCEPTED\"}"
            );
            assert!(matches!(command, VolumeCommand::DeviceMute { .. }));
        }
        CommandPlan::AwaitReply { .. } => panic!("a write never awaits a reply"),
    }
}

#[test]
fn ack_label_falls_back_to_operation_name() {
    let cmd = parse_command(b"{\"device_mute\":{\"id\":\"spk\"}}").unwrap();
    match plan_command(cmd) {
        CommandPlan::AckAndForward { ack, .. } => {
            assert_eq!(
                String::from_utf8(ack).unwrap(),
                "{\"type\":\"device_mute\",\"data\":\"REQUEST ACCEPTED\"}"
            );
        }
        CommandPlan::AwaitReply { .. } => panic!("a write never awaits a reply"),
    }
}

#[test]
fn actor_queue_drops_pending_replies_on_shutdown() {
    // sending, then shutting down before execution: the reply is dropped and
    // later sends fail, without a fault
    let mut server = VolumeServer::new();
    let cmd = VolumeCommand::DeviceGetVolume { request_id: b"r".to_vec(), id: b"d".to_vec() };
    assert!(server.send(cmd).is_ok());
    let drained = server.shutdown();
    assert_eq!(drained.len(), 1);
    let late = VolumeCommand::DeviceMute { request_id: Vec::new(), id: b"d".to_vec() };
    assert!(server.send(late).is_err());
    // a second shutdown has nothing left to do
    assert_eq!(server.shutdown().len(), 0);
}

#[test]
fn command_sender_without_server_refuses() {
    let mut sender = VolumeCommandSender::new();
    let cmd = VolumeCommand::DeviceMute { request_id: Vec::new(), id: b"d".to_vec() };
    assert!(sender.send(cmd).is_err());
    assert!(sender.shutdown().is_ok());
}

#[test]
fn command_sender_forwards_to_running_server() {
    let mut sender = VolumeCommandSender::new();
    sender.server = Some(VolumeServer::new());
    let cmd = VolumeCommand::DeviceMute { request_id: Vec::new(), id: b"d".to_vec() };
    assert!(sender.send(cmd).is_ok());
    assert!(sender.shutdown().is_ok());
    let cmd = VolumeCommand::DeviceMute { request_id: Vec::new(), id: b"d".to_vec() };
    assert!(sender.send(cmd).is_err());
}

#[test]
fn draining_executes_every_command_then_cleans_up() {
    let mut controller = MemoryController::new();
    assert!(controller.add_device(speaker(b"spk-1", 100_000)));
    let commands = vec![
        VolumeCommand::DeviceSetVolume {
            request_id: Vec::new(),
            id: b"spk-1".to_vec(),
            volume: VolumePercent::new(900_000),
        },
        VolumeCommand::DeviceGetVolume { request_id: b"r".to_vec(), id: b"spk-1".to_vec() },
    ];
    let outcomes = drain_commands(&mut controller, commands);
    assert_eq!(outcomes.len(), 2);
    match &outcomes[1].reply {
        Some(Ok(ReplyValue::Volume(v))) => assert_eq!(v.micros, 900_000),
        other => panic!("expected the new level, got {:?}", other),
    }
}

#[test]
fn installing_a_new_actor_shuts_the_predecessor_down() {
    let mut sender = VolumeCommandSender::new();
    assert!(sender.install(VolumeServer::new()).is_empty());
    let pending = VolumeCommand::DeviceMute { request_id: Vec::new(), id: b"d".to_vec() };
    assert!(sender.send(pending).is_ok());
    // the replacement drains the predecessor's queue before taking over
    let drained = sender.install(VolumeServer::new());
    assert_eq!(drained.len(), 1);
    let cmd = VolumeCommand::DeviceMute { request_id: Vec::new(), id: b"d".to_vec() };
    assert!(sender.send(cmd).is_ok());
}

#[test]
fn checked_setters_reject_out_of_range_before_the_controller() {
    let mut controller = MemoryController::new();
    assert!(controller.add_device(speaker(b"spk-1", 250_000)));
    assert!(controller.add_app(player(5, b"spk-1", 250_000)));

    let too_loud = VolumePercent::new(1_500_000);
    assert!(matches!(
        set_device_volume_checked(&mut controller, &b"spk-1".to_vec(), too_loud),
        Err(VolumeControllerError::InvalidVolumePercentage(v)) if v.micros == 1_500_000
    ));
    assert!(matches!(
        set_app_volume_checked(&mut controller, 5, too_loud),
        Err(VolumeControllerError::InvalidVolumePercentage(v)) if v.micros == 1_500_000
    ));
    // neither observed a change
    assert_eq!(controller.get_device_volume(&b"spk-1".to_vec()).unwrap().micros, 250_000);
    assert_eq!(controller.get_app_volume(5).unwrap().current.micros, 250_000);

    // a valid level passes through to the controller
    assert!(set_device_volume_checked(&mut controller, &b"spk-1".to_vec(), VolumePercent::new(1)).is_ok());
    assert_eq!(controller.get_device_volume(&b"spk-1".to_vec()).unwrap().micros, 1);
}
