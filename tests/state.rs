use fimer_mqtt::bridge::{
    state_body, state_cycle, state_message, Bridge, Command, Event, IDLE_BACKOFF_SECS,
};
use fimer_mqtt::fimer::{Device, LiveDevice, LivePoint};

fn live(id: &str, readings: &[(&str, &str)]) -> (String, LiveDevice) {
    (
        id.to_string(),
        LiveDevice {
            device_id: id.to_string(),
            device_type: None,
            timestamp: "2024-01-01T00:00:00Z".to_string(),
            device_model: None,
            points: readings
                .iter()
                .map(|(n, v)| LivePoint { name: n.to_string(), value: v.to_string() })
                .collect(),
        },
    )
}

fn device(id: &str) -> Device {
    Device {
        device_id: id.to_string(),
        type_device: String::new(),
        device_type: None,
        device_model: None,
        points: vec![],
    }
}

#[test]
fn snapshot_gives_one_state_message() {
    let snapshot = vec![live("D1", &[("p_energy", "123.4")])];
    let out = state_cycle(&"D1".to_string(), &snapshot);
    assert_eq!(out.len(), 1);
    assert_eq!(out[0].topic, "fimer/p_energy/state");
    assert_eq!(out[0].payload, "{\"name\":\"p_energy\",\"value\":123.4}");
}

#[test]
fn missing_device_publishes_nothing() {
    let snapshot = vec![live("D2", &[("p_energy", "1")])];
    assert!(state_cycle(&"D1".to_string(), &snapshot).is_empty());
    assert!(state_cycle(&"D1".to_string(), &Vec::new()).is_empty());
}

#[test]
fn state_round_keeps_order_of_readings() {
    let snapshot = vec![
        live("D0", &[("other", "9")]),
        live("D1", &[("b", "2"), ("a", "1")]),
    ];
    let out = state_cycle(&"D1".to_string(), &snapshot);
    let topics: Vec<&str> = out.iter().map(|m| m.topic.as_str()).collect();
    assert_eq!(topics, vec!["fimer/b/state", "fimer/a/state"]);
    assert_eq!(out[1].payload, "{\"name\":\"a\",\"value\":1}");
}

#[test]
fn state_body_is_framed() {
    assert_eq!(state_body("\"x\"", "-0.5"), "{\"name\":\"x\",\"value\":-0.5}");
}

#[test]
fn state_message_escapes_name() {
    let m = state_message(&LivePoint { name: "a\"b".to_string(), value: "7".to_string() });
    assert_eq!(m.payload, "{\"name\":\"a\\\"b\",\"value\":7}");
    assert_eq!(m.topic, "fimer/a\"b/state");
}

#[test]
fn empty_catalog_keeps_idle_and_backs_off() {
    let (s, c) = Bridge::Idle.step(Event::Catalog { devices: Some(vec![]) });
    assert!(matches!(s, Bridge::Idle));
    assert_eq!(c, Command::SleepThenFetch { secs: 3600 });
    assert_eq!(IDLE_BACKOFF_SECS, 3600);
}

#[test]
fn failed_catalog_keeps_idle_and_backs_off() {
    let (s, c) = Bridge::Idle.step(Event::Catalog { devices: None });
    assert!(matches!(s, Bridge::Idle));
    assert_eq!(c, Command::SleepThenFetch { secs: IDLE_BACKOFF_SECS });
}

#[test]
fn catalog_starts_first_device() {
    let (s, c) = Bridge::Idle.step(Event::Catalog { devices: Some(vec![device("D1"), device("D2")]) });
    assert_eq!(c, Command::StartLoops);
    match s {
        Bridge::Running { device } => assert_eq!(device.device_id, "D1"),
        Bridge::Idle => panic!("expected a running bridge"),
    }
}

#[test]
fn lost_connection_returns_to_idle() {
    let (s, c) = Bridge::Running { device: device("D1") }.step(Event::ConnectionLost);
    assert!(matches!(s, Bridge::Idle));
    assert_eq!(c, Command::FetchCatalog);
    let (s, c) = Bridge::Idle.step(Event::ConnectionLost);
    assert!(matches!(s, Bridge::Idle));
    assert_eq!(c, Command::Continue);
    let (s, c) = Bridge::Running { device: device("D1") }.step(Event::Catalog { devices: None });
    assert!(matches!(s, Bridge::Running { .. }));
    assert_eq!(c, Command::Continue);
}

#[test]
fn state_message_escapes_control_characters() {
    let m = state_message(&LivePoint { name: "a\nb\u{1}\\".to_string(), value: "0".to_string() });
    assert_eq!(m.payload, "{\"name\":\"a\\nb\\u0001\\\\\",\"value\":0}");
}

#[test]
fn state_round_has_one_message_per_reading() {
    let snapshot = vec![live("D1", &[("x", "1"), ("y", "2.5"), ("z", "-3")]), live("D2", &[("q", "4")])];
    let first = state_cycle(&"D1".to_string(), &snapshot);
    let second = state_cycle(&"D1".to_string(), &vec![live("D1", &[("x", "1"), ("y", "2.5"), ("z", "-3")])]);
    assert_eq!(first.len(), 3);
    assert_eq!(first[1].topic, "fimer/y/state");
    assert_eq!(first[1].payload, "{\"name\":\"y\",\"value\":2.5}");
    for (a, b) in first.iter().zip(second.iter()) {
        assert_eq!(a.topic, b.topic);
        assert_eq!(a.payload, b.payload);
    }
}
