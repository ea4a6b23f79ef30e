use volumize::service_discovery::choose_discovery;
use volumize::service_discovery::compose_address;
use volumize::service_discovery::parse_discovery_reply;
use volumize::service_register::cancel;
use volumize::service_register::discovery_msg;
use volumize::service_register::mdns_domain;
use volumize::service_register::mdns_instance_name;
use volumize::service_register::plan_register;
use volumize::service_register::respond_probe;
use volumize::service_register::start_registration;
use volumize::service_register::teardown;
use volumize::service_register::timer_fires;
use volumize::service_register::unregister_retry;
use volumize::service_register::RegisterAction;
use volumize::service_register::UnregisterStep;
use volumize::service_register::LISTEN_PORT;
use volumize::service_register::UNREGISTER_RETRY_LIMIT;
use volumize::tray::Discovery;

#[test]
fn protocol_constants_are_fixed() {
    assert_eq!(discovery_msg(), b"DISCOVER_VOLUMIZE".to_vec());
    assert_eq!(mdns_domain(), b"_volume-service._tcp.local.".to_vec());
    assert_eq!(mdns_instance_name(), b"volumize".to_vec());
    assert_eq!(LISTEN_PORT, 31280);
}

#[test]
fn responder_answers_exactly_the_probe() {
    let reply = respond_probe(b"DISCOVER_VOLUMIZE", 9001).unwrap();
    assert_eq!(reply, b"SERVER:9001".to_vec());
    assert!(respond_probe(b"DISCOVER_VOLUMIZE ", 9001).is_none());
    assert!(respond_probe(b"discover_volumize", 9001).is_none());
    assert!(respond_probe(b"", 9001).is_none());
}

#[test]
fn reply_parsing_recovers_the_port() {
    assert_eq!(parse_discovery_reply(b"SERVER:9001"), Some(9001));
    assert_eq!(parse_discovery_reply(b"SERVER:0"), Some(0));
    // an unparseable port is refused, as is a reply without a colon
    assert_eq!(parse_discovery_reply(b"SERVER:"), None);
    assert_eq!(parse_discovery_reply(b"SERVER:abc"), None);
    assert_eq!(parse_discovery_reply(b"SERVER:99999999999"), None);
    assert_eq!(parse_discovery_reply(b"no port here"), None);
}

#[test]
fn discovered_addresses_compose_host_and_port() {
    assert_eq!(compose_address(b"192.168.1.7", 9001), b"192.168.1.7:9001".to_vec());
}

#[test]
fn scenario_broadcast_fallback_after_mdns_timeout() {
    // the multicast-DNS lookup timed out against an empty network; the
    // responder on the broadcast path answered SERVER:9001
    let reply = respond_probe(b"DISCOVER_VOLUMIZE", 9001).unwrap();
    let port = parse_discovery_reply(reply.as_slice()).unwrap();
    let fallback = compose_address(b"192.168.1.7", port);
    let chosen = choose_discovery(None, Some(fallback)).unwrap();
    assert_eq!(chosen, b"192.168.1.7:9001".to_vec());
}

#[test]
fn discovery_prefers_the_mdns_answer() {
    let chosen = choose_discovery(Some(b"10.0.0.2:9002".to_vec()), Some(b"10.0.0.3:9002".to_vec()))
        .unwrap();
    assert_eq!(chosen, b"10.0.0.2:9002".to_vec());
}

#[test]
fn discovery_failure_is_a_recoverable_message() {
    let err = choose_discovery(None, None).unwrap_err();
    assert_eq!(
        String::from_utf8(err).unwrap(),
        "Could not discover server. Please enter IP manually."
    );
}

#[test]
fn policies_drive_the_registrar() {
    assert!(matches!(plan_register(Discovery::TurnOff), RegisterAction::Stop));
    assert!(matches!(
        plan_register(Discovery::AlwaysOn),
        RegisterAction::Start { timer_secs: None }
    ));
    assert!(matches!(
        plan_register(Discovery::OnDuration(2)),
        RegisterAction::Start { timer_secs: Some(2) }
    ));
}

#[test]
fn scenario_on_duration_expiry_tears_both_mechanisms_down() {
    // the policy moved from AlwaysOn to OnDuration(2s): the registrar is
    // restarted with a two-second timer
    let action = plan_register(Discovery::OnDuration(2));
    let timer = match action {
        RegisterAction::Start { timer_secs } => timer_secs.unwrap(),
        RegisterAction::Stop => panic!("the registrar must restart"),
    };
    let mut state = start_registration();
    assert!(state.mdns_registered && state.udp_active && !state.cancel_requested);

    // one second in, nothing fires
    assert!(!timer_fires(&state, 1, timer));
    // after two seconds with no further policy change, the timer fires
    assert!(timer_fires(&state, 2, timer));
    cancel(&mut state);
    assert!(state.cancel_requested);
    // firing again changes nothing
    cancel(&mut state);
    assert!(state.cancel_requested);
    // the worker observes the signal and tears both mechanisms down
    teardown(&mut state);
    assert!(!state.mdns_registered);
    assert!(!state.udp_active);
    // a timer that lost the race to an explicit stop does not fire
    assert!(!timer_fires(&state, 10, timer));
}

#[test]
fn record_deregistration_backs_off_within_a_bound() {
    assert!(matches!(unregister_retry(true, 0), UnregisterStep::RetryAfterMillis(50)));
    assert!(matches!(
        unregister_retry(true, UNREGISTER_RETRY_LIMIT - 1),
        UnregisterStep::RetryAfterMillis(50)
    ));
    // a persistently busy daemon exhausts the bound
    assert!(matches!(unregister_retry(true, UNREGISTER_RETRY_LIMIT), UnregisterStep::GiveUp));
    // any other answer ends the loop at once
    assert!(matches!(unregister_retry(false, 0), UnregisterStep::GiveUp));
}

#[test]
fn policy_labels_display() {
    assert_eq!(Discovery::TurnOff.display(), "Turn off");
    assert_eq!(Discovery::AlwaysOn.display(), "Always on");
    assert_eq!(Discovery::OnDuration(120).display(), "On for 120s");
}

#[test]
fn responder_handles_the_port_extremes() {
    assert_eq!(respond_probe(b"DISCOVER_VOLUMIZE", 0).unwrap(), b"SERVER:0".to_vec());
    assert_eq!(respond_probe(b"DISCOVER_VOLUMIZE", 65535).unwrap(), b"SERVER:65535".to_vec());
    assert_eq!(parse_discovery_reply(b"SERVER:65535"), Some(65535));
}
