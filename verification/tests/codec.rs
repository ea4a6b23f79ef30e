use volumize::codec::parse_command;
use volumize::codec::render_command;
use volumize::shared::VolumeControllerError;
use volumize::shared::VolumePercent;
use volumize::volume::VolumeCommand;

fn parse_str(s: &str) -> Result<VolumeCommand, VolumeControllerError> {
    parse_command(s.as_bytes())
}

#[test]
fn parses_device_get_volume_request() {
    let cmd = parse_str("{\"device_get_volume\": {\"request_id\": \"r1\", \"id\": \"spk-1\"}}")
        .unwrap();
    match cmd {
        VolumeCommand::DeviceGetVolume { request_id, id } => {
            assert_eq!(request_id, b"r1".to_vec());
            assert_eq!(id, b"spk-1".to_vec());
        }
        other => panic!("wrong variant: {:?}", other),
    }
}

#[test]
fn parses_application_set_volume_without_request_id() {
    let cmd = parse_str("{\"application_set_volume\": {\"id\": 1234, \"volume\": 1.5}}").unwrap();
    match cmd {
        VolumeCommand::ApplicationSetVolume { request_id, id, volume } => {
            assert_eq!(request_id, Vec::<u8>::new());
            assert_eq!(id, 1234);
            assert_eq!(volume.micros, 1_500_000);
        }
        other => panic!("wrong variant: {:?}", other),
    }
}

#[test]
fn parses_fields_in_any_order() {
    let cmd = parse_str(
        "{\"device_set_volume\":{\"volume\":0.5,\"id\":\"a\",\"request_id\":\"x\"}}",
    )
    .unwrap();
    match cmd {
        VolumeCommand::DeviceSetVolume { request_id, id, volume } => {
            assert_eq!(request_id, b"x".to_vec());
            assert_eq!(id, b"a".to_vec());
            assert_eq!(volume.micros, 500_000);
        }
        other => panic!("wrong variant: {:?}", other),
    }
}

#[test]
fn parses_whole_number_volume() {
    let cmd = parse_str("{\"device_set_volume\":{\"id\":\"a\",\"volume\":1}}").unwrap();
    match cmd {
        VolumeCommand::DeviceSetVolume { volume, .. } => assert_eq!(volume.micros, 1_000_000),
        other => panic!("wrong variant: {:?}", other),
    }
}

#[test]
fn parses_smallest_fraction() {
    let cmd = parse_str("{\"device_set_volume\":{\"id\":\"a\",\"volume\":0.000001}}").unwrap();
    match cmd {
        VolumeCommand::DeviceSetVolume { volume, .. } => assert_eq!(volume.micros, 1),
        other => panic!("wrong variant: {:?}", other),
    }
}

#[test]
fn parses_get_playback_devices() {
    let cmd = parse_str("{\"get_playback_devices\": {\"request_id\": \"q\"}}").unwrap();
    assert!(matches!(cmd, VolumeCommand::GetPlaybackDevices { .. }));
}

#[test]
fn rejects_malformed_requests() {
    let bad = [
        "",
        "{",
        "nonsense",
        "{\"unknown_op\":{\"request_id\":\"r\"}}",
        "{\"device_get_volume\":{\"request_id\":\"r\"}}",
        "{\"device_get_volume\":{\"request_id\":\"r\",\"id\":7}}",
        "{\"get_application\":{\"request_id\":\"r\",\"id\":\"seven\"}}",
        "{\"get_application\":{\"request_id\":\"r\",\"id\":7.5}}",
        "{\"device_get_volume\":{\"request_id\":\"r\",\"id\":\"a\"}} trailing",
        "{\"device_get_volume\":{\"request_id\":\"r\",\"request_id\":\"s\",\"id\":\"a\"}}",
        "{\"device_set_volume\":{\"id\":\"a\",\"volume\":-0.5}}",
        "{\"device_set_volume\":{\"id\":\"a\",\"volume\":0.1234567}}",
    ];
    for text in bad.iter() {
        let r = parse_str(text);
        assert!(
            matches!(r, Err(VolumeControllerError::SerdeError(_))),
            "expected a parse failure for {:?}",
            text
        );
    }
}

#[test]
fn tolerates_whitespace_everywhere() {
    let cmd = parse_str(
        " \t{ \"device_mute\" :\n { \"request_id\" : \"r9\" , \"id\" : \"dev\" } } \r\n",
    )
    .unwrap();
    match cmd {
        VolumeCommand::DeviceMute { request_id, id } => {
            assert_eq!(request_id, b"r9".to_vec());
            assert_eq!(id, b"dev".to_vec());
        }
        other => panic!("wrong variant: {:?}", other),
    }
}

#[test]
fn unescapes_quotes_and_backslashes() {
    let cmd = parse_str(
        "{\"device_mute\":{\"request_id\":\"a\\\\b\",\"id\":\"c\\\"d\"}}",
    )
    .unwrap();
    match cmd {
        VolumeCommand::DeviceMute { request_id, id } => {
            assert_eq!(request_id, b"a\\b".to_vec());
            assert_eq!(id, b"c\"d".to_vec());
        }
        other => panic!("wrong variant: {:?}", other),
    }
}

fn round_trip(cmd: VolumeCommand) -> VolumeCommand {
    let wire = render_command(&cmd);
    parse_command(wire.as_slice()).expect("rendered form must parse")
}

#[test]
fn round_trips_every_operation() {
    let rid = || b"r".to_vec();
    let dev = || b"front \"left\"\\main".to_vec();
    let cases: Vec<VolumeCommand> = vec![
        VolumeCommand::DeviceGetVolume { request_id: rid(), id: dev() },
        VolumeCommand::DeviceSetVolume {
            request_id: rid(),
            id: dev(),
            volume: VolumePercent::new(420_000),
        },
        VolumeCommand::DeviceMute { request_id: rid(), id: dev() },
        VolumeCommand::DeviceUnmute { request_id: Vec::new(), id: dev() },
        VolumeCommand::GetApplication { request_id: rid(), id: 42 },
        VolumeCommand::ApplicationGetIcon { request_id: rid(), id: u32::MAX },
        VolumeCommand::ApplicationGetVolume { request_id: rid(), id: 0 },
        VolumeCommand::ApplicationSetVolume {
            request_id: rid(),
            id: 7,
            volume: VolumePercent::new(1_500_000),
        },
        VolumeCommand::ApplicationMute { request_id: rid(), id: 7 },
        VolumeCommand::ApplicationUnmute { request_id: rid(), id: 7 },
        VolumeCommand::GetDeviceApplications { request_id: rid(), id: dev() },
        VolumeCommand::GetPlaybackDevices { request_id: rid() },
    ];
    for cmd in cases {
        let before = format!("{:?}", cmd);
        let after = format!("{:?}", round_trip(cmd));
        assert_eq!(before, after);
    }
}

#[test]
fn rendered_form_is_json_serde_agrees() {
    let cmd = VolumeCommand::DeviceSetVolume {
        request_id: b"r1".to_vec(),
        id: b"spk-1".to_vec(),
        volume: VolumePercent::new(420_000),
    };
    let wire = render_command(&cmd);
    let v: serde_json::Value = serde_json::from_slice(&wire).expect("valid JSON");
    let inner = &v["device_set_volume"];
    assert_eq!(inner["request_id"], "r1");
    assert_eq!(inner["id"], "spk-1");
    assert_eq!(inner["volume"].as_f64().unwrap(), 0.42);
}

#[test]
fn renders_canonical_bytes() {
    let cmd = VolumeCommand::DeviceGetVolume { request_id: b"r1".to_vec(), id: b"spk-1".to_vec() };
    let wire = render_command(&cmd);
    assert_eq!(
        String::from_utf8(wire).unwrap(),
        "{\"device_get_volume\":{\"request_id\":\"r1\",\"id\":\"spk-1\"}}"
    );
}

#[test]
fn parses_extreme_application_ids() {
    let cmd = parse_str("{\"get_application\":{\"request_id\":\"r\",\"id\":4294967295}}").unwrap();
    assert!(matches!(cmd, VolumeCommand::GetApplication { id: 4294967295, .. }));
    // one past the 32-bit range is refused
    assert!(parse_str("{\"get_application\":{\"request_id\":\"r\",\"id\":4294967296}}").is_err());
}

#[test]
fn renders_escapes_serde_can_read() {
    let cmd = VolumeCommand::DeviceMute {
        request_id: b"a\"b\\c".to_vec(),
        id: b"dev".to_vec(),
    };
    let wire = render_command(&cmd);
    let v: serde_json::Value = serde_json::from_slice(&wire).expect("valid JSON");
    assert_eq!(v["device_mute"]["request_id"], "a\"b\\c");
}

#[test]
fn empty_device_identifier_round_trips() {
    let cmd = VolumeCommand::DeviceGetVolume { request_id: Vec::new(), id: Vec::new() };
    let wire = render_command(&cmd);
    let back = parse_command(wire.as_slice()).unwrap();
    assert!(matches!(
        back,
        VolumeCommand::DeviceGetVolume { ref request_id, ref id }
            if request_id.is_empty() && id.is_empty()
    ));
}
