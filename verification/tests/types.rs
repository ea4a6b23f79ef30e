use volumize::click::ClickState;
use volumize::platform::extract_icon;
use volumize::shared::AudioVolume;
use volumize::shared::ChangeType;
use volumize::shared::EntityState;
use volumize::shared::Identifier;
use volumize::shared::UpdateChange;
use volumize::shared::VolumeControllerError;
use volumize::shared::VolumePercent;
use volumize::storage::Settings;
use volumize::storage::Storage;
use volumize::tray::Discovery;

#[test]
fn volume_validation_accepts_the_unit_range_only() {
    assert!(AudioVolume::validate_volume(VolumePercent::new(0)).is_ok());
    let full = AudioVolume::validate_volume(VolumePercent::new(1_000_000)).unwrap();
    assert_eq!(full.current.micros, 1_000_000);
    assert!(!full.muted);
    match AudioVolume::validate_volume(VolumePercent::new(1_000_001)) {
        Err(VolumeControllerError::InvalidVolumePercentage(v)) => {
            assert_eq!(v.micros, 1_000_001)
        }
        other => panic!("expected the rejection, got {:?}", other),
    }
}

#[test]
fn volume_percent_valid_matches_the_bound() {
    assert!(VolumePercent::new(1_000_000).valid());
    assert!(!VolumePercent::new(1_000_001).valid());
    assert_eq!(VolumePercent::zero().micros, 0);
}

#[test]
fn update_change_constructors_carry_their_payloads() {
    let u = UpdateChange::volume_change(Identifier::App(3), VolumePercent::new(5), true);
    assert!(matches!(u.id, Identifier::App(3)));
    assert!(matches!(u.change, ChangeType::AudioVolume { volume, mute: true } if volume.micros == 5));

    let u = UpdateChange::app_icon_change(Identifier::App(3), b"/tmp/icon".to_vec());
    assert!(matches!(u.change, ChangeType::IconPathChange { ref path } if path == b"/tmp/icon"));

    let u = UpdateChange::app_name_change(Identifier::App(3), b"player".to_vec());
    assert!(matches!(u.change, ChangeType::NameChange { ref name } if name == b"player"));

    let u = UpdateChange::app_state_change(
        Identifier::Device(b"spk".to_vec()),
        EntityState::Created,
    );
    assert!(matches!(u.change, ChangeType::StateChange { state: EntityState::Created }));
}

#[test]
fn settings_default_and_update() {
    let mut storage = Storage::new();
    let settings = storage.get();
    assert_eq!(settings.duration, Discovery::AlwaysOn);
    assert_eq!(settings.port_address, 9002);
    assert!(settings.exit_to_tray);
    assert!(settings.autostart);

    let changed = Settings { duration: Discovery::OnDuration(120), port_address: 9005, ..settings };
    storage.update(changed);
    assert_eq!(storage.get_settings(), changed);
    assert_eq!(storage.get(), changed);
}

#[test]
fn double_clicks_fall_within_the_threshold() {
    let mut clicks = ClickState::new(Some(500));
    clicks.last_click_time = 10_000;
    // 499 ms later: a double click
    assert!(clicks.is_double_click_at(10_499));
    // exactly the threshold later: not a double click
    assert!(!clicks.is_double_click_at(10_999));
    // a clock that stepped backwards counts as no time elapsed
    assert!(clicks.is_double_click_at(10_000));
}

#[test]
fn default_double_click_threshold_is_500ms() {
    let mut clicks = ClickState::new(None);
    clicks.last_click_time = 0;
    assert!(!clicks.is_double_click_at(500));
    let mut clicks = ClickState::new(Some(100));
    clicks.last_click_time = 0;
    assert!(!clicks.is_double_click_at(100));
    assert!(clicks.is_double_click_at(150));
}

#[test]
fn icon_extraction_has_no_platform_pipeline() {
    assert!(extract_icon(b"/usr/bin/player".to_vec()).is_none());
}

#[test]
fn wide_buffer_names_drop_their_zero_padding() {
    let buffer: [u16; 8] = [0x48, 0x69, 0x21, 0, 0, 0, 0, 0];
    assert_eq!(volumize::util::process_lossy_name(&buffer), "Hi!");
    assert_eq!(volumize::util::process_lossy_name(&[0u16; 4]), "");
    // an embedded zero survives; only the padding goes
    let buffer: [u16; 4] = [0x41, 0, 0x42, 0];
    assert_eq!(volumize::util::process_lossy_name(&buffer), "A\u{0}B");
}

#[test]
fn policy_identifiers_round_trip() {
    for policy in [Discovery::TurnOff, Discovery::AlwaysOn, Discovery::OnDuration(120)] {
        let id = policy.id_bytes();
        assert_eq!(Discovery::from_id_bytes(id.as_slice()), Some(policy));
    }
    assert_eq!(Discovery::from_id_bytes(b"turn_off"), Some(Discovery::TurnOff));
    assert_eq!(Discovery::from_id_bytes(b"always_on"), Some(Discovery::AlwaysOn));
    assert_eq!(Discovery::from_id_bytes(b"90"), Some(Discovery::OnDuration(90)));
    assert_eq!(Discovery::from_id_bytes(b"refresh"), None);
    assert_eq!(Discovery::from_id_bytes(b""), None);
    assert_eq!(Discovery::from_id_bytes(b"12h"), None);
}
