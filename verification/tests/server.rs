use volumize::server::propagate_update;
use volumize::server::ClientRegistry;
use volumize::server::ServiceDiscovery;
use volumize::server::WebSocketServerState;
use volumize::server::WorkerEvent;
use volumize::server::WorkerSlot;
use volumize::shared::ChangeType;
use volumize::shared::Identifier;
use volumize::shared::UpdateChange;
use volumize::shared::VolumePercent;

#[test]
fn register_assigns_36_char_ids_and_keeps_addresses() {
    let mut registry = ClientRegistry::new();
    let (tx, _rx) = tokio::sync::mpsc::unbounded_channel::<Vec<u8>>();
    let info = registry.register(String::from("10.0.0.5:1234"), tx);
    assert_eq!(info.id.len(), 36);
    assert_eq!(info.address, "10.0.0.5:1234");
    assert_eq!(registry.len(), 1);
}

#[test]
fn remove_keeps_the_other_clients() {
    let mut registry = ClientRegistry::new();
    let (tx1, _rx1) = tokio::sync::mpsc::unbounded_channel::<Vec<u8>>();
    let (tx2, _rx2) = tokio::sync::mpsc::unbounded_channel::<Vec<u8>>();
    let a = registry.register(String::from("a"), tx1);
    let _b = registry.register(String::from("b"), tx2);
    registry.remove(&a.id);
    assert_eq!(registry.len(), 1);
    registry.remove(&String::from("not-registered"));
    assert_eq!(registry.len(), 1);
}

#[test]
fn broadcast_reaches_every_other_client_when_one_fails() {
    // three clients; the middle client's receiver is gone; the frame still
    // reaches the first and the third
    let mut registry = ClientRegistry::new();
    let (tx1, mut rx1) = tokio::sync::mpsc::unbounded_channel::<Vec<u8>>();
    let (tx2, rx2) = tokio::sync::mpsc::unbounded_channel::<Vec<u8>>();
    let (tx3, mut rx3) = tokio::sync::mpsc::unbounded_channel::<Vec<u8>>();
    let a = registry.register(String::from("a"), tx1);
    let b = registry.register(String::from("b"), tx2);
    let c = registry.register(String::from("c"), tx3);
    drop(rx2);

    let frame = b"notice".to_vec();
    let outcomes = registry.broadcast(&frame);
    assert_eq!(outcomes.len(), 3);
    assert_eq!(outcomes[0], (a.id.clone(), true));
    assert_eq!(outcomes[1], (b.id.clone(), false));
    assert_eq!(outcomes[2], (c.id.clone(), true));
    assert_eq!(rx1.try_recv().unwrap(), b"notice".to_vec());
    assert_eq!(rx3.try_recv().unwrap(), b"notice".to_vec());
}

#[test]
fn propagate_update_serializes_once_for_ui_and_clients() {
    let mut registry = ClientRegistry::new();
    let (tx1, mut rx1) = tokio::sync::mpsc::unbounded_channel::<Vec<u8>>();
    let _a = registry.register(String::from("a"), tx1);
    let (ui_tx, mut ui_rx) = tokio::sync::mpsc::unbounded_channel::<Vec<u8>>();

    let event = UpdateChange {
        id: Identifier::Device(b"spk-1".to_vec()),
        change: ChangeType::AudioVolume { volume: VolumePercent::new(420_000), mute: false },
    };
    let (ui_ok, outcomes) = propagate_update(&registry, &ui_tx, &event);
    assert!(ui_ok);
    assert_eq!(outcomes.len(), 1);

    let ui_frame = ui_rx.try_recv().unwrap();
    let client_frame = rx1.try_recv().unwrap();
    assert_eq!(ui_frame, client_frame);
    let v: serde_json::Value = serde_json::from_slice(&ui_frame).expect("valid JSON");
    assert_eq!(v["event"], "update");
    assert_eq!(v["payload"]["id"]["type"], "device");
    assert_eq!(v["payload"]["id"]["content"], "spk-1");
    assert_eq!(v["payload"]["change"]["kind"], "audioVolume");
    assert_eq!(v["payload"]["change"]["volume"].as_f64().unwrap(), 0.42);
    assert_eq!(v["payload"]["change"]["mute"], false);
}

#[test]
fn update_kinds_serialize_with_their_tags() {
    let registry = ClientRegistry::new();
    let (ui_tx, mut ui_rx) = tokio::sync::mpsc::unbounded_channel::<Vec<u8>>();
    let event = UpdateChange {
        id: Identifier::App(1234),
        change: ChangeType::NameChange { name: b"player".to_vec() },
    };
    let _ = propagate_update(&registry, &ui_tx, &event);
    let v: serde_json::Value = serde_json::from_slice(&ui_rx.try_recv().unwrap()).unwrap();
    assert_eq!(v["payload"]["id"]["type"], "app");
    assert_eq!(v["payload"]["id"]["content"], 1234);
    assert_eq!(v["payload"]["change"]["kind"], "nameChange");
    assert_eq!(v["payload"]["change"]["name"], "player");
}

#[test]
fn replacing_a_worker_joins_the_predecessor_first() {
    let mut slot = WorkerSlot::new();
    slot.replace(b"Websocket".to_vec());
    assert_eq!(slot.log.len(), 1);
    assert!(matches!(&slot.log[0], WorkerEvent::Installed(n) if n == b"Websocket"));

    slot.replace(b"Websocket".to_vec());
    // the predecessor is cancelled and joined strictly before the successor
    // is installed
    assert_eq!(slot.log.len(), 4);
    assert!(matches!(&slot.log[1], WorkerEvent::Cancelled(n) if n == b"Websocket"));
    assert!(matches!(&slot.log[2], WorkerEvent::Joined(n) if n == b"Websocket"));
    assert!(matches!(&slot.log[3], WorkerEvent::Installed(n) if n == b"Websocket"));
    let current = slot.current.as_ref().unwrap();
    assert!(!current.cancelled && !current.joined);
}

#[test]
fn clearing_a_worker_slot_is_idempotent() {
    let mut slot = WorkerSlot::new();
    slot.replace(b"Service register".to_vec());
    slot.clear();
    assert!(slot.current.is_none());
    let events = slot.log.len();
    slot.clear();
    assert_eq!(slot.log.len(), events);
}

#[test]
fn server_state_shutdown_clears_clients() {
    let mut state = WebSocketServerState::new();
    let (tx, _rx) = tokio::sync::mpsc::unbounded_channel::<Vec<u8>>();
    let _info = state.clients.register(String::from("a"), tx);
    state.server.replace(b"Websocket".to_vec());
    state.shutdown();
    assert_eq!(state.clients.len(), 0);
    assert!(state.server.current.is_none());
}

#[test]
fn discovery_state_shutdown_is_idempotent() {
    let mut state = ServiceDiscovery::new();
    state.server.replace(b"Service register".to_vec());
    state.shutdown();
    state.shutdown();
    assert!(state.server.current.is_none());
}
