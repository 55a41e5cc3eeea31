use brood_flow::broodminder_device::BroodminderDevice;

fn device(model: u8, id: &str) -> BroodminderDevice {
    let mut data = vec![model, 1, 1, 10, 90, 0, 0, 20, 30, 5];
    data.extend_from_slice(&[0, 0, 0, 0, 0, 0, 0, 0, 0, 1, 130]); // weight bytes
    let mut d = BroodminderDevice::decode(&data).unwrap();
    d.device_id = String::from(id);
    d
}

#[test]
fn state_window_boundary() {
    // last_state_sent_ms = T; an evaluation at T + 30001 emits and advances
    // the timestamp; one at T + 29999 emits nothing and leaves it unchanged.
    let t: i64 = 1000;

    let mut d = device(47, "47:00:11");
    d.last_state_sent_ms = t;
    let r = d.send_state_message(t + 30001);
    assert!(r.is_some());
    assert_eq!(d.last_state_sent_ms, t + 30001);

    let mut d = device(47, "47:00:11");
    d.last_state_sent_ms = t;
    let r = d.send_state_message(t + 29999);
    assert!(r.is_none());
    assert_eq!(d.last_state_sent_ms, t);

    // The boundary itself is excluded: the window must have elapsed strictly.
    let mut d = device(47, "47:00:11");
    d.last_state_sent_ms = t;
    assert!(d.send_state_message(t + 30000).is_none());
}

#[test]
fn state_message_shape_for_scale_and_plain_device() {
    // A scale-class model carries the weight beside the temperature; a plain
    // device carries only the temperature.
    let mut d = device(57, "57:00:22");
    let m = d.send_state_message(31001).unwrap();
    assert_eq!(m.topic, "homeassistant/sensor/BM570022/state");
    assert_eq!(m.temperature_c_x100, 256 * 5 + 10 - 5000);
    assert_eq!(m.weight_lbs_x1e8.unwrap(), (256i64 * 130 - 1 - 32767) * 2204623);

    let mut d = device(47, "47:00:11");
    let m = d.send_state_message(31001).unwrap();
    assert_eq!(m.topic, "homeassistant/sensor/BM470011/state");
    assert_eq!(m.temperature_c_x100, 256 * 5 + 10 - 5000);
    assert!(m.weight_lbs_x1e8.is_none());
}

#[test]
fn unresolved_sentinel_never_published() {
    // Even with both windows long elapsed, the unresolved identity gets
    // nothing and its timestamps stay put.
    let mut d = device(57, "00:00:00");
    assert!(d.send_config_messages(999999999).is_none());
    assert!(d.send_state_message(999999999).is_none());
    assert_eq!(d.last_config_sent_ms, 0);
    assert_eq!(d.last_state_sent_ms, 0);
}

#[test]
fn config_window_boundary() {
    let mut d = device(47, "47:00:11");
    assert!(d.send_config_messages(3600000).is_none());
    assert_eq!(d.last_config_sent_ms, 0);
    assert!(d.send_config_messages(3600001).is_some());
    assert_eq!(d.last_config_sent_ms, 3600001);
    // Immediately after an emission the window is closed again.
    assert!(d.send_config_messages(3600002).is_none());
}

#[test]
fn config_messages_for_temperature_device() {
    let mut d = device(47, "47:00:11");
    let v = d.send_config_messages(3600001).unwrap();
    assert_eq!(v.len(), 1);
    let m = &v[0];
    assert_eq!(m.topic, "homeassistant/sensor/BM470011Temp/config");
    assert_eq!(m.name, "47:00:11_temperature");
    assert_eq!(m.device_class.as_deref(), Some("temperature"));
    assert_eq!(m.expire_after, 3600);
    assert!(m.force_update);
    assert_eq!(m.state_class, "measurement");
    assert_eq!(m.unit_of_measurement, "\u{b0}C");
    assert_eq!(m.state_topic, "homeassistant/sensor/BM470011/state");
    assert_eq!(m.value_template, "{{ value_json.temperature_c }}");
    assert_eq!(m.unique_id, "470011_temperature");
}

#[test]
fn config_messages_for_scale() {
    let mut d = device(57, "57:00:22");
    let v = d.send_config_messages(3600001).unwrap();
    assert_eq!(v.len(), 2);
    assert_eq!(v[0].topic, "homeassistant/sensor/BM570022Temp/config");
    let m = &v[1];
    assert_eq!(m.topic, "homeassistant/sensor/BM570022Weight/config");
    assert_eq!(m.name, "57:00:22_weight");
    assert!(m.device_class.is_none());
    assert_eq!(m.expire_after, 3600);
    assert!(m.force_update);
    assert_eq!(m.state_class, "measurement");
    assert_eq!(m.unit_of_measurement, "kg");
    assert_eq!(m.state_topic, "homeassistant/sensor/BM570022/state");
    assert_eq!(m.value_template, "{{ value_json.weight_lbs }}");
    assert_eq!(m.unique_id, "570022_weight");
}

#[test]
fn config_evaluation_for_unrecognized_model_still_advances_window() {
    // No channel is eligible for an unrecognized model, but the hourly
    // cadence is preserved: the timestamp advances anyway.
    let mut d = device(99, "47:00:33");
    let v = d.send_config_messages(3600001).unwrap();
    assert!(v.is_empty());
    assert_eq!(d.last_config_sent_ms, 3600001);
}

#[test]
fn delete_messages_are_never_built() {
    let d = device(47, "47:00:11");
    assert!(d.send_delete_messages().is_empty());
}

#[test]
fn windows_are_independent() {
    // A device can owe a state message while the configuration window is
    // closed, and the other way round.
    let mut d = device(47, "47:00:11");
    d.last_config_sent_ms = 1000000;
    d.last_state_sent_ms = 1000000;
    let now: i64 = 1040000; // 40 s later: state open, config closed
    assert!(d.send_config_messages(now).is_none());
    assert!(d.send_state_message(now).is_some());
    assert_eq!(d.last_config_sent_ms, 1000000);
    assert_eq!(d.last_state_sent_ms, now);
}
