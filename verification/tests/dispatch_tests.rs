use std::collections::HashMap;

use brood_flow::dispatch::DispatchOutcome;
use brood_flow::dispatch::process_advertisement;
use brood_flow::messages::strip_colons;
use brood_flow::messages::state_topic_for;
use brood_flow::registry::Registry;

fn advertisement(payload: Vec<u8>) -> HashMap<u16, Vec<u8>> {
    let mut data = HashMap::new();
    data.insert(76, vec![9, 9]);
    data.insert(653, payload);
    data
}

fn scale_payload() -> Vec<u8> {
    let mut data = vec![57, 1, 1, 10, 90, 0, 0, 20, 30, 5];
    data.extend_from_slice(&[0, 0, 0, 0, 0, 0, 0, 0, 0, 1, 130]);
    data
}

#[test]
fn ignores_foreign_advertisement() {
    let mut reg = Registry::new();
    let mut data = HashMap::new();
    data.insert(76u16, vec![1, 2, 3, 4, 5, 6, 7, 8, 9, 10]);
    let r = process_advertisement(&mut reg, Some(String::from("47:00:11")), &data, 0, true);
    assert!(matches!(r, DispatchOutcome::Ignored));
    assert_eq!(reg.len(), 0);
}

#[test]
fn malformed_payload_leaves_registry_untouched() {
    let mut reg = Registry::new();
    let data = advertisement(vec![47, 1, 1]);
    let r = process_advertisement(&mut reg, Some(String::from("47:00:11")), &data, 0, true);
    assert!(matches!(r, DispatchOutcome::Malformed));
    assert_eq!(reg.len(), 0);
}

#[test]
fn first_sighting_publishes_config_before_state() {
    let mut reg = Registry::new();
    let data = advertisement(scale_payload());
    let now: i64 = 4000000;
    let r = process_advertisement(&mut reg, Some(String::from("57:00:22")), &data, now, true);
    match r {
        DispatchOutcome::Processed { was_new, config_messages, state_message } => {
            assert!(was_new);
            // Scale: temperature channel first, then weight channel.
            assert_eq!(config_messages.len(), 2);
            assert_eq!(
                config_messages[0].topic,
                "homeassistant/sensor/BM570022Temp/config"
            );
            assert_eq!(
                config_messages[1].topic,
                "homeassistant/sensor/BM570022Weight/config"
            );
            let m = state_message.unwrap();
            assert_eq!(m.topic, "homeassistant/sensor/BM570022/state");
            assert_eq!(m.temperature_c_x100, 256 * 5 + 10 - 5000);
            assert!(m.weight_lbs_x1e8.is_some());
        },
        _ => panic!("expected a processed outcome"),
    }
    let rec = reg.get(&String::from("57:00:22")).unwrap();
    assert_eq!(rec.last_config_sent_ms, now);
    assert_eq!(rec.last_state_sent_ms, now);
}

#[test]
fn second_sighting_within_windows_emits_nothing() {
    let mut reg = Registry::new();
    let data = advertisement(scale_payload());
    let id = Some(String::from("57:00:22"));
    let now: i64 = 4000000;
    process_advertisement(&mut reg, id.clone(), &data, now, true);
    let r = process_advertisement(&mut reg, id, &data, now + 1000, true);
    match r {
        DispatchOutcome::Processed { was_new, config_messages, state_message } => {
            assert!(!was_new);
            assert!(config_messages.is_empty());
            assert!(state_message.is_none());
        },
        _ => panic!("expected a processed outcome"),
    }
    let rec = reg.get(&String::from("57:00:22")).unwrap();
    assert_eq!(rec.last_config_sent_ms, now);
    assert_eq!(rec.last_state_sent_ms, now);
}

#[test]
fn missing_local_name_falls_back_to_sentinel() {
    let mut reg = Registry::new();
    let data = advertisement(scale_payload());
    let r = process_advertisement(&mut reg, None, &data, 4000000, true);
    match r {
        DispatchOutcome::Processed { was_new, config_messages, state_message } => {
            assert!(was_new);
            assert!(config_messages.is_empty());
            assert!(state_message.is_none());
        },
        _ => panic!("expected a processed outcome"),
    }
    // The record exists under the sentinel, but nothing was published and
    // its timestamps are untouched.
    let rec = reg.get(&String::from("00:00:00")).unwrap();
    assert_eq!(rec.last_config_sent_ms, 0);
    assert_eq!(rec.last_state_sent_ms, 0);
}

#[test]
fn publication_disabled_skips_policy() {
    let mut reg = Registry::new();
    let data = advertisement(scale_payload());
    let r = process_advertisement(&mut reg, Some(String::from("57:00:22")), &data, 4000000, false);
    match r {
        DispatchOutcome::Processed { was_new, config_messages, state_message } => {
            assert!(was_new);
            assert!(config_messages.is_empty());
            assert!(state_message.is_none());
        },
        _ => panic!("expected a processed outcome"),
    }
    let rec = reg.get(&String::from("57:00:22")).unwrap();
    assert_eq!(rec.last_config_sent_ms, 0);
    assert_eq!(rec.last_state_sent_ms, 0);
}

#[test]
fn topic_normalization_strips_separators() {
    assert_eq!(strip_colons("47:01:01"), "470101");
    assert_eq!(strip_colons(""), "");
    assert_eq!(strip_colons(":::"), "");
    assert_eq!(strip_colons("abc"), "abc");
    assert_eq!(state_topic_for("47:01:01"), "homeassistant/sensor/BM470101/state");
}
