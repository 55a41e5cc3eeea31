//! Outbound message shapes and the topic-naming rules of the
//! discovery-friendly publishing protocol: a state message carries the
//! current measured values, a discovery-configuration message describes one
//! sensor channel (its identity, unit, state topic and value-extraction
//! template) to a downstream automation platform.
//!
//! Topic normalization strips the `:` separators from the device identity.
//! Serializing a message to bytes is the caller's concern; the structures
//! here hold exactly the values each required key must carry.

use vstd::prelude::*;
use vstd::string::*;

verus! {

/// A state message: the current realtime temperature, plus the weight for a
/// scale-class device.
#[derive(Debug)]
pub struct StateMessage {
    /// `<namespace>/sensor/<normalized-id>/state`
    pub topic: String,
    /// Value for the `temperature_c` key, in hundredths of a degree Celsius.
    pub temperature_c_x100: i32,
    /// Value for the `weight_lbs` key, in hundred-millionths of a pound;
    /// present only for a scale-class device whose weight was decoded.
    pub weight_lbs_x1e8: Option<i64>,
}

/// A discovery-configuration message for one sensor channel.
#[derive(Debug)]
pub struct ConfigMessage {
    /// `<namespace>/sensor/<normalized-id>Temp/config` or `...Weight/config`
    pub topic: String,
    /// Human-readable channel name, `<device-id>_temperature` or `_weight`.
    pub name: String,
    /// Device class understood by the automation platform; only the
    /// temperature channel declares one.
    pub device_class: Option<String>,
    /// Seconds after which a value not refreshed expires.
    pub expire_after: u32,
    /// The value is treated as a continuously-forced measurement update.
    pub force_update: bool,
    /// State class understood by the automation platform.
    pub state_class: String,
    /// Measurement unit declared for the channel.
    pub unit_of_measurement: String,
    /// Topic of the state messages this channel reads.
    pub state_topic: String,
    /// Value-extraction template referencing the expected key in the state
    /// payload.
    pub value_template: String,
    /// Unique identifier of the channel, `<normalized-id>_temperature` or
    /// `_weight`.
    pub unique_id: String,
}

/// The identity with its `:` separators stripped, used in topic names.
pub open spec fn spec_strip_colons(s: Seq<char>) -> Seq<char>
    decreases s.len(),
{
    if s.len() == 0 {
        Seq::empty()
    } else if s.last() == ':' {
        spec_strip_colons(s.drop_last())
    } else {
        spec_strip_colons(s.drop_last()).push(s.last())
    }
}

/// Topic the state messages of the device with identity `id` go to.
pub open spec fn spec_state_topic(id: Seq<char>) -> Seq<char> {
    "homeassistant/sensor/BM"@ + spec_strip_colons(id) + "/state"@
}

/// Topic the temperature-channel configuration message goes to.
pub open spec fn spec_temp_config_topic(id: Seq<char>) -> Seq<char> {
    "homeassistant/sensor/BM"@ + spec_strip_colons(id) + "Temp/config"@
}

/// Topic the weight-channel configuration message goes to.
pub open spec fn spec_weight_config_topic(id: Seq<char>) -> Seq<char> {
    "homeassistant/sensor/BM"@ + spec_strip_colons(id) + "Weight/config"@
}

/// `m` is exactly the temperature-channel configuration message for the
/// device with identity `id`.
pub open spec fn is_temp_config(m: ConfigMessage, id: Seq<char>) -> bool {
    &&& m.topic@ == spec_temp_config_topic(id)
    &&& m.name@ == id + "_temperature"@
    &&& m.device_class matches Some(c) && c@ == "temperature"@
    &&& m.expire_after == 3600u32
    &&& m.force_update == true
    &&& m.state_class@ == "measurement"@
    &&& m.unit_of_measurement@ == "°C"@
    &&& m.state_topic@ == spec_state_topic(id)
    &&& m.value_template@ == "{{ value_json.temperature_c }}"@
    &&& m.unique_id@ == spec_strip_colons(id) + "_temperature"@
}

/// `m` is exactly the weight-channel configuration message for the device
/// with identity `id`. The weight channel declares no device class. It
/// declares kilograms while its template reads the pound value from the
/// state payload; that mismatch is the established shape of this feed and
/// is preserved as-is.
pub open spec fn is_weight_config(m: ConfigMessage, id: Seq<char>) -> bool {
    &&& m.topic@ == spec_weight_config_topic(id)
    &&& m.name@ == id + "_weight"@
    &&& m.device_class is None
    &&& m.expire_after == 3600u32
    &&& m.force_update == true
    &&& m.state_class@ == "measurement"@
    &&& m.unit_of_measurement@ == "kg"@
    &&& m.state_topic@ == spec_state_topic(id)
    &&& m.value_template@ == "{{ value_json.weight_lbs }}"@
    &&& m.unique_id@ == spec_strip_colons(id) + "_weight"@
}

/// Remove every `:` from the identity, keeping the other characters in
/// order.
pub fn strip_colons(s: &str) -> (r: String)
    ensures
        r@ == spec_strip_colons(s@),
{
    let n = s.unicode_len();
    let mut out = String::new();
    let mut i: usize = 0;
    while i < n
        invariant
            n == s@.len(),
            i <= n,
            out@ == spec_strip_colons(s@.subrange(0, i as int)),
        decreases n - i,
    {
        let c = s.get_char(i);
        if c != ':' {
            let piece = s.substring_char(i, i + 1);
            out.append(piece);
        }
        proof {
            let pre = s@.subrange(0, (i + 1) as int);
            assert(pre.drop_last() =~= s@.subrange(0, i as int));
            assert(pre.last() == s@[i as int]);
            if s@[i as int] != ':' {
                assert(s@.subrange(i as int, (i + 1) as int) =~= seq![s@[i as int]]);
                assert(out@ + seq![s@[i as int]] =~= out@.push(s@[i as int]));
            }
        }
        i = i + 1;
    }
    proof {
        assert(s@.subrange(0, n as int) =~= s@);
    }
    out
}

/// Build `<namespace>/sensor/BM<normalized-id>/state` for the given raw
/// identity.
pub fn state_topic_for(device_id: &str) -> (r: String)
    ensures
        r@ == spec_state_topic(device_id@),
{
    let simple = strip_colons(device_id);
    let mut out = "homeassistant/sensor/BM".to_owned();
    out.append(simple.as_str());
    out.append("/state");
    out
}

/// Build the temperature-channel configuration message for the given raw
/// identity.
pub fn temp_config_message(device_id: &String) -> (m: ConfigMessage)
    ensures
        is_temp_config(m, device_id@),
{
    let simple = strip_colons(device_id.as_str());

    let mut topic = "homeassistant/sensor/BM".to_owned();
    topic.append(simple.as_str());
    topic.append("Temp/config");

    let mut name = device_id.clone();
    name.append("_temperature");

    let mut unique_id = simple.clone();
    unique_id.append("_temperature");

    ConfigMessage {
        topic,
        name,
        device_class: Some("temperature".to_owned()),
        expire_after: 3600,
        force_update: true,
        state_class: "measurement".to_owned(),
        unit_of_measurement: "°C".to_owned(),
        state_topic: state_topic_for(device_id.as_str()),
        value_template: "{{ value_json.temperature_c }}".to_owned(),
        unique_id,
    }
}

/// Build the weight-channel configuration message for the given raw
/// identity.
pub fn weight_config_message(device_id: &String) -> (m: ConfigMessage)
    ensures
        is_weight_config(m, device_id@),
{
    let simple = strip_colons(device_id.as_str());

    let mut topic = "homeassistant/sensor/BM".to_owned();
    topic.append(simple.as_str());
    topic.append("Weight/config");

    let mut name = device_id.clone();
    name.append("_weight");

    let mut unique_id = simple.clone();
    unique_id.append("_weight");

    ConfigMessage {
        topic,
        name,
        device_class: None,
        expire_after: 3600,
        force_update: true,
        state_class: "measurement".to_owned(),
        unit_of_measurement: "kg".to_owned(),
        state_topic: state_topic_for(device_id.as_str()),
        value_template: "{{ value_json.weight_lbs }}".to_owned(),
        unique_id,
    }
}

} // verus!
