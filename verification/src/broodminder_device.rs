//! Decoder for the fixed-layout Broodminder advertisement payload, and the
//! per-device publication policy (discovery-configuration and state messages
//! with two independent rate-limit windows).
//!
//! The payload is a flat, versionless record: every field sits at a fixed
//! byte offset. Offsets 0 through 9 hold the core fields; offsets 19 and 20
//! hold the scale weight, present only when the buffer is long enough.
//!
//! Temperatures and weights are carried as exactly scaled integers so the
//! derivation formulas from the Broodminder manual can be verified precisely:
//! a temperature in hundredths of a degree Celsius, in five-hundredths of a
//! degree Fahrenheit, a weight in hundredths of a kilogram and in
//! hundred-millionths of a pound. Each scaled value is the exact rational
//! value of the corresponding formula times the scale factor.

use vstd::prelude::*;

use crate::messages::ConfigMessage;
use crate::messages::StateMessage;
use crate::messages::is_temp_config;
use crate::messages::is_weight_config;
use crate::messages::spec_state_topic;
use crate::messages::state_topic_for;
use crate::messages::temp_config_message;
use crate::messages::weight_config_message;

verus! {

/// A state message is sent at most once per this window, in milliseconds.
pub const STATE_INTERVAL_MS: i64 = 30000;

/// A configuration message is sent at most once per this window, in
/// milliseconds.
pub const CONFIG_INTERVAL_MS: i64 = 3600000;

/// Broodminder devices broadcast 0x028D (653) as their manufacturer specific
/// data id.
pub const BROODMINDER_MANUFACTURER_ID: u16 = 653;

/// Model value of a plain temperature device.
pub const MODEL_TEMPERATURE: u8 = 47;

/// Model value of a scale, which reports weight in addition to temperature.
pub const MODEL_SCALE: u8 = 57;

/// Bytes 0 through 9 are required for the core fields.
pub const MIN_PAYLOAD_LEN: usize = 10;

/// Bytes 19 and 20 hold the weight; a shorter buffer carries no weight.
pub const WEIGHT_PAYLOAD_LEN: usize = 21;

/// A buffer shorter than the minimum payload length cannot be decoded.
#[derive(Clone, Copy, Debug, PartialEq, Eq, Structural)]
pub enum DecodeError {
    MalformedPayload,
}

/// Temperature in hundredths of a degree Celsius:
/// `temperature_c = (256 * hi + lo - 5000) / 100`.
pub open spec fn temp_c_x100_of(hi: u8, lo: u8) -> int {
    256 * hi + lo - 5000
}

/// Temperature in five-hundredths of a degree Fahrenheit. This is the exact
/// scaled form of `temperature_f = temperature_c * 9/5 + 32`:
/// `(c_x100 / 100) * 9/5 + 32 == (9 * c_x100 + 16000) / 500`.
pub open spec fn temp_f_x500_of(hi: u8, lo: u8) -> int {
    9 * temp_c_x100_of(hi, lo) + 16000
}

/// Weight in hundredths of a kilogram:
/// `weight_kg = (256 * byte20 - byte19 - 32767) / 100`.
pub open spec fn weight_kg_x100_of(byte19: u8, byte20: u8) -> int {
    256 * byte20 - byte19 - 32767
}

/// Weight in hundred-millionths of a pound. This is the exact scaled form of
/// `weight_lbs = weight_kg * 2.204623`:
/// `(kg_x100 / 100) * 2204623/1000000 == (2204623 * kg_x100) / 100000000`.
pub open spec fn weight_lbs_x1e8_of(byte19: u8, byte20: u8) -> int {
    2204623 * weight_kg_x100_of(byte19, byte20)
}

/// The scale weight, decoded from bytes 19 and 20 when the buffer reaches
/// them.
#[derive(Debug)]
pub struct WeightReading {
    /// Raw byte at offset 19.
    pub realtime_weight1: u8,
    /// Raw byte at offset 20.
    pub realtime_weight2: u8,
    /// Weight in hundredths of a kilogram, exact.
    pub realtime_weight_kg_x100: i32,
    /// Weight in hundred-millionths of a pound, exact.
    pub realtime_weight_lbs_x1e8: i64,
}

/// One observed Broodminder device: the latest decoded reading, the resolved
/// identity, and the two publication timestamps.
#[derive(Debug)]
pub struct BroodminderDevice {
    /// Resolved identity, eg "47:01:01"; "(unknown)" until the caller fills
    /// it in, "00:00:00" when resolution fell back to the unresolved
    /// sentinel.
    pub device_id: String,
    /// Selects sensor-class behavior: plain device vs. scale.
    pub model: u8,
    pub minor_version: u8,
    pub major_version: u8,
    /// Realtime temperature can update every advertisement and is not
    /// aggregated; low byte.
    pub realtime_temp1: u8,
    pub battery_percent: u8,
    /// How many 'ticks' have passed; an internal aggregation mechanism.
    pub elapsed1: u8,
    pub elapsed2: u8,
    /// Aggregated temperature, updated every 'elapsed' tick; low byte.
    pub temp1: u8,
    pub temp2: u8,
    /// Realtime temperature, high byte.
    pub realtime_temp2: u8,
    /// Scale weight, present only when the buffer reached offset 20.
    pub realtime_weight: Option<WeightReading>,
    /// Realtime temperature in hundredths of a degree Celsius, exact.
    pub realtime_temperature_c_x100: i32,
    /// Realtime temperature in five-hundredths of a degree Fahrenheit, exact.
    pub realtime_temperature_f_x500: i32,
    /// Aggregated temperature in hundredths of a degree Celsius, exact.
    pub temperature_c_x100: i32,
    /// Aggregated temperature in five-hundredths of a degree Fahrenheit,
    /// exact.
    pub temperature_f_x500: i32,
    /// Millisecond epoch time a configuration message was last sent for this
    /// device; 0 means never.
    pub last_config_sent_ms: i64,
    /// Millisecond epoch time a state message was last sent for this device;
    /// 0 means never.
    pub last_state_sent_ms: i64,
}

/// The device identity that stands for "resolution fell back to the
/// unresolved sentinel": such a device never receives outbound publications.
pub open spec fn is_unresolved(id: Seq<char>) -> bool {
    id == "00:00:00"@
}

/// Every field of `b` other than the two publication timestamps equals the
/// corresponding field of `a`.
pub open spec fn same_reading_and_identity(a: BroodminderDevice, b: BroodminderDevice) -> bool {
    &&& b.device_id == a.device_id
    &&& b.model == a.model
    &&& b.minor_version == a.minor_version
    &&& b.major_version == a.major_version
    &&& b.realtime_temp1 == a.realtime_temp1
    &&& b.battery_percent == a.battery_percent
    &&& b.elapsed1 == a.elapsed1
    &&& b.elapsed2 == a.elapsed2
    &&& b.temp1 == a.temp1
    &&& b.temp2 == a.temp2
    &&& b.realtime_temp2 == a.realtime_temp2
    &&& b.realtime_weight == a.realtime_weight
    &&& b.realtime_temperature_c_x100 == a.realtime_temperature_c_x100
    &&& b.realtime_temperature_f_x500 == a.realtime_temperature_f_x500
    &&& b.temperature_c_x100 == a.temperature_c_x100
    &&& b.temperature_f_x500 == a.temperature_f_x500
}

/// How many configuration messages one evaluation builds for a model: one
/// temperature channel for a temperature-capable device, plus one weight
/// channel for a scale.
pub open spec fn spec_config_count(model: u8) -> int {
    if model == MODEL_SCALE {
        2
    } else if model == MODEL_TEMPERATURE {
        1
    } else {
        0
    }
}

/// Every decoded field of `d` — model, versions, measurements, the weight
/// and every derived value — is exactly what `data` holds. The decoded
/// fields are a function of the buffer alone, so this relation pins the
/// result of decoding completely. These are also exactly the fields a later
/// sighting overwrites in place.
pub open spec fn reading_decodes(data: Seq<u8>, d: BroodminderDevice) -> bool {
    &&& data.len() >= MIN_PAYLOAD_LEN
    &&& d.model == data[0]
    &&& d.minor_version == data[1]
    &&& d.major_version == data[2]
    &&& d.realtime_temp1 == data[3]
    &&& d.battery_percent == data[4]
    &&& d.elapsed1 == data[5]
    &&& d.elapsed2 == data[6]
    &&& d.temp1 == data[7]
    &&& d.temp2 == data[8]
    &&& d.realtime_temp2 == data[9]
    &&& d.realtime_temperature_c_x100 == temp_c_x100_of(data[9], data[3])
    &&& d.realtime_temperature_f_x500 == temp_f_x500_of(data[9], data[3])
    &&& d.temperature_c_x100 == temp_c_x100_of(data[8], data[7])
    &&& d.temperature_f_x500 == temp_f_x500_of(data[8], data[7])
    &&& match d.realtime_weight {
        Some(w) => {
            &&& data.len() >= WEIGHT_PAYLOAD_LEN
            &&& w.realtime_weight1 == data[19]
            &&& w.realtime_weight2 == data[20]
            &&& w.realtime_weight_kg_x100 == weight_kg_x100_of(data[19], data[20])
            &&& w.realtime_weight_lbs_x1e8 == weight_lbs_x1e8_of(data[19], data[20])
        },
        None => data.len() < WEIGHT_PAYLOAD_LEN,
    }
}

impl BroodminderDevice {
    /// Publication timestamps are millisecond epoch times: never negative.
    pub open spec fn wf(self) -> bool {
        &&& 0 <= self.last_config_sent_ms
        &&& 0 <= self.last_state_sent_ms
    }

    /// Whether a manufacturer-data map is a candidate for decoding: it must
    /// carry the Broodminder manufacturer signature key.
    pub fn is_broodminder(data: &std::collections::HashMap<u16, Vec<u8>>) -> (recognized: bool)
        ensures
            recognized == data@.contains_key(BROODMINDER_MANUFACTURER_ID),
    {
        data.contains_key(&BROODMINDER_MANUFACTURER_ID)
    }

    /// Decode a payload into a fresh device record, with the identity left at
    /// its "(unknown)" placeholder and both publication timestamps at 0
    /// (never sent).
    pub fn build_broodminder_device(data: &Vec<u8>) -> (d: Self)
        requires
            data@.len() >= MIN_PAYLOAD_LEN,
        ensures
            reading_decodes(data@, d),
            d.device_id@ == "(unknown)"@,
            d.last_config_sent_ms == 0,
            d.last_state_sent_ms == 0,
            d.wf(),
    {
        let realtime_weight = decode_weight(data);
        BroodminderDevice {
            device_id: "(unknown)".to_owned(),
            model: data[0],
            minor_version: data[1],
            major_version: data[2],
            realtime_temp1: data[3],
            battery_percent: data[4],
            elapsed1: data[5],
            elapsed2: data[6],
            temp1: data[7],
            temp2: data[8],
            realtime_temp2: data[9],
            realtime_weight,
            realtime_temperature_c_x100: temp_c_x100(data[9], data[3]),
            realtime_temperature_f_x500: temp_f_x500(data[9], data[3]),
            temperature_c_x100: temp_c_x100(data[8], data[7]),
            temperature_f_x500: temp_f_x500(data[8], data[7]),
            last_config_sent_ms: 0,
            last_state_sent_ms: 0,
        }
    }

    /// Total decoder: rejects a buffer shorter than the minimum payload
    /// length, and otherwise returns exactly what
    /// `build_broodminder_device` does.
    pub fn decode(data: &Vec<u8>) -> (r: Result<Self, DecodeError>)
        ensures
            r is Ok <==> data@.len() >= MIN_PAYLOAD_LEN,
            r matches Ok(d) ==> {
                &&& reading_decodes(data@, d)
                &&& d.device_id@ == "(unknown)"@
                &&& d.last_config_sent_ms == 0
                &&& d.last_state_sent_ms == 0
                &&& d.wf()
            },
            r matches Err(e) ==> e == DecodeError::MalformedPayload,
    {
        if data.len() < MIN_PAYLOAD_LEN {
            Err(DecodeError::MalformedPayload)
        } else {
            Ok(Self::build_broodminder_device(data))
        }
    }

    /// Overwrite every decoded field in place from a fresh advertisement,
    /// preserving only the identity and both publication timestamps.
    pub fn update(&mut self, data: &Vec<u8>)
        requires
            data@.len() >= MIN_PAYLOAD_LEN,
        ensures
            reading_decodes(data@, *final(self)),
            final(self).device_id == old(self).device_id,
            final(self).last_config_sent_ms == old(self).last_config_sent_ms,
            final(self).last_state_sent_ms == old(self).last_state_sent_ms,
    {
        self.model = data[0];
        self.minor_version = data[1];
        self.major_version = data[2];
        self.realtime_temp1 = data[3];
        self.battery_percent = data[4];
        self.elapsed1 = data[5];
        self.elapsed2 = data[6];
        self.temp1 = data[7];
        self.temp2 = data[8];
        self.realtime_temp2 = data[9];
        self.realtime_weight = decode_weight(data);
        self.realtime_temperature_c_x100 = temp_c_x100(data[9], data[3]);
        self.realtime_temperature_f_x500 = temp_f_x500(data[9], data[3]);
        self.temperature_c_x100 = temp_c_x100(data[8], data[7]);
        self.temperature_f_x500 = temp_f_x500(data[8], data[7]);
    }

    /// A state message is due: the identity is resolved and the state window
    /// has elapsed.
    pub open spec fn state_due(self, now_ms: i64) -> bool {
        &&& !is_unresolved(self.device_id@)
        &&& now_ms - self.last_state_sent_ms > STATE_INTERVAL_MS
    }

    /// A configuration evaluation is due: the identity is resolved and the
    /// configuration window has elapsed.
    pub open spec fn config_due(self, now_ms: i64) -> bool {
        &&& !is_unresolved(self.device_id@)
        &&& now_ms - self.last_config_sent_ms > CONFIG_INTERVAL_MS
    }

    /// The weight value a state message carries: present only for a
    /// scale-class device whose weight was decoded.
    pub open spec fn spec_state_weight(self) -> Option<i64> {
        if self.model == MODEL_SCALE {
            match self.realtime_weight {
                Some(w) => Some(w.realtime_weight_lbs_x1e8),
                None => None,
            }
        } else {
            None
        }
    }

    /// Decide whether a state message is owed at `now_ms` and build it.
    ///
    /// A message is returned exactly when the identity is resolved and more
    /// than the state window has passed since the last state message; the
    /// state timestamp then advances to `now_ms`. An evaluation that emits
    /// nothing leaves the record untouched, so the device becomes eligible
    /// the moment conditions change. Publishing the returned message is the
    /// caller's concern.
    pub fn send_state_message(&mut self, now_ms: i64) -> (r: Option<StateMessage>)
        requires
            old(self).wf(),
            0 <= now_ms,
        ensures
            final(self).wf(),
            r is Some <==> old(self).state_due(now_ms),
            r matches Some(m) ==> {
                &&& m.topic@ == spec_state_topic(old(self).device_id@)
                &&& m.temperature_c_x100 == old(self).realtime_temperature_c_x100
                &&& m.weight_lbs_x1e8 == old(self).spec_state_weight()
                &&& same_reading_and_identity(*old(self), *final(self))
                &&& final(self).last_state_sent_ms == now_ms
                &&& final(self).last_config_sent_ms == old(self).last_config_sent_ms
            },
            r is None ==> *final(self) == *old(self),
    {
        let sentinel: String = "00:00:00".to_owned();
        if self.device_id == sentinel {
            return None;
        }
        if now_ms - self.last_state_sent_ms > STATE_INTERVAL_MS {
            let weight_lbs_x1e8: Option<i64> = if self.model == MODEL_SCALE {
                match &self.realtime_weight {
                    Some(w) => Some(w.realtime_weight_lbs_x1e8),
                    None => None,
                }
            } else {
                None
            };
            let m = StateMessage {
                topic: state_topic_for(self.device_id.as_str()),
                temperature_c_x100: self.realtime_temperature_c_x100,
                weight_lbs_x1e8,
            };
            self.last_state_sent_ms = now_ms;
            Some(m)
        } else {
            None
        }
    }

    /// Decide whether a configuration evaluation is owed at `now_ms` and
    /// build the channel messages.
    ///
    /// The evaluation runs exactly when the identity is resolved and more
    /// than the configuration window has passed since the last one. It
    /// builds a temperature-channel message for a temperature-capable model
    /// and additionally a weight-channel message for a scale, and advances
    /// the configuration timestamp to `now_ms` unconditionally — even when
    /// zero channels were eligible for this model — to preserve the hourly
    /// cadence. A skipped evaluation (`None`) leaves the record untouched.
    /// Publishing the returned messages is the caller's concern.
    pub fn send_config_messages(&mut self, now_ms: i64) -> (r: Option<Vec<ConfigMessage>>)
        requires
            old(self).wf(),
            0 <= now_ms,
        ensures
            final(self).wf(),
            r is Some <==> old(self).config_due(now_ms),
            r matches Some(v) ==> {
                &&& same_reading_and_identity(*old(self), *final(self))
                &&& final(self).last_config_sent_ms == now_ms
                &&& final(self).last_state_sent_ms == old(self).last_state_sent_ms
                &&& v@.len() == spec_config_count(old(self).model)
                &&& (old(self).model == MODEL_TEMPERATURE || old(self).model == MODEL_SCALE)
                    ==> is_temp_config(v@[0], old(self).device_id@)
                &&& old(self).model == MODEL_SCALE ==> is_weight_config(
                    v@[1],
                    old(self).device_id@,
                )
            },
            r is None ==> *final(self) == *old(self),
    {
        let sentinel: String = "00:00:00".to_owned();
        if self.device_id == sentinel {
            return None;
        }
        if now_ms - self.last_config_sent_ms > CONFIG_INTERVAL_MS {
            let mut v: Vec<ConfigMessage> = Vec::new();
            if self.model == MODEL_TEMPERATURE || self.model == MODEL_SCALE {
                v.push(temp_config_message(&self.device_id));
            }
            if self.model == MODEL_SCALE {
                v.push(weight_config_message(&self.device_id));
            }
            self.last_config_sent_ms = now_ms;
            Some(v)
        } else {
            None
        }
    }

    /// The automation platform deletes any device it receives an empty
    /// configuration message for, on the same `.../config` topics the
    /// configuration messages use. This program never deletes devices, so no
    /// message is ever built; the function stands as documentation of the
    /// convention should deletion become necessary.
    pub fn send_delete_messages(&self) -> (r: Vec<ConfigMessage>)
        ensures
            r@.len() == 0,
    {
        Vec::new()
    }
}

/// The decoder is deterministic: two records decoded from the same buffer
/// agree on every decoded field, bit for bit.
pub proof fn lemma_decode_deterministic(data: Seq<u8>, d1: BroodminderDevice, d2: BroodminderDevice)
    requires
        reading_decodes(data, d1),
        reading_decodes(data, d2),
    ensures
        d1.model == d2.model,
        d1.minor_version == d2.minor_version,
        d1.major_version == d2.major_version,
        d1.realtime_temp1 == d2.realtime_temp1,
        d1.battery_percent == d2.battery_percent,
        d1.elapsed1 == d2.elapsed1,
        d1.elapsed2 == d2.elapsed2,
        d1.temp1 == d2.temp1,
        d1.temp2 == d2.temp2,
        d1.realtime_temp2 == d2.realtime_temp2,
        d1.realtime_weight == d2.realtime_weight,
        d1.realtime_temperature_c_x100 == d2.realtime_temperature_c_x100,
        d1.realtime_temperature_f_x500 == d2.realtime_temperature_f_x500,
        d1.temperature_c_x100 == d2.temperature_c_x100,
        d1.temperature_f_x500 == d2.temperature_f_x500,
{
    match (d1.realtime_weight, d2.realtime_weight) {
        (Some(w1), Some(w2)) => {
            assert(w1 == w2);
        },
        _ => {},
    }
}

/// The Fahrenheit value of a decoded reading is exactly the Celsius value
/// converted by `f = c * 9/5 + 32`: with Celsius scaled by 100 and
/// Fahrenheit by 500 the conversion reads `f_x500 == 9 * c_x100 + 16000`,
/// since `(c/100) * 9/5 + 32 == (9 * c + 16000) / 500`. It holds of the
/// aggregated and of the realtime temperature alike.
pub proof fn lemma_fahrenheit_from_celsius(data: Seq<u8>, d: BroodminderDevice)
    requires
        reading_decodes(data, d),
    ensures
        d.temperature_f_x500 == 9 * d.temperature_c_x100 + 16000,
        d.realtime_temperature_f_x500 == 9 * d.realtime_temperature_c_x100 + 16000,
{
}

/// A state message carries the weight value exactly for a scale-class device
/// whose payload reached the weight bytes, and then it is the exact scaled
/// pounds value of the reading; for a plain device, or a scale whose buffer
/// stopped short of the weight bytes, the state message carries only the
/// temperature.
pub proof fn lemma_state_weight_presence(d: BroodminderDevice)
    ensures
        d.spec_state_weight() is Some <==> (d.model == MODEL_SCALE && d.realtime_weight is Some),
        d.realtime_weight matches Some(w) ==> (d.model == MODEL_SCALE
            ==> d.spec_state_weight() == Some(w.realtime_weight_lbs_x1e8)),
{
}

/// Publication timestamps are monotonically non-decreasing: a window is due
/// only when `now_ms` lies strictly beyond the stored timestamp, and the
/// policy advances a timestamp exactly to `now_ms` and exactly when its
/// window was due, so every advance is an increase.
pub proof fn lemma_emission_advances_timestamps(d: BroodminderDevice, now_ms: i64)
    requires
        d.wf(),
    ensures
        d.state_due(now_ms) ==> now_ms > d.last_state_sent_ms,
        d.config_due(now_ms) ==> now_ms > d.last_config_sent_ms,
{
}

/// A device whose identity is the unresolved sentinel is never due for any
/// publication, whatever the rate-limit windows say; with the policy
/// contracts this means no configuration or state message is ever emitted
/// for it.
pub proof fn lemma_unresolved_never_due(d: BroodminderDevice, now_ms: i64)
    requires
        is_unresolved(d.device_id@),
    ensures
        !d.state_due(now_ms),
        !d.config_due(now_ms),
{
}

/// Exact scaled Celsius temperature of a high and a low byte.
fn temp_c_x100(hi: u8, lo: u8) -> (r: i32)
    ensures
        r == temp_c_x100_of(hi, lo),
{
    256 * (hi as i32) + (lo as i32) - 5000
}

/// Exact scaled Fahrenheit temperature of a high and a low byte.
fn temp_f_x500(hi: u8, lo: u8) -> (r: i32)
    ensures
        r == temp_f_x500_of(hi, lo),
{
    9 * temp_c_x100(hi, lo) + 16000
}

/// Decode the weight bytes at offsets 19 and 20, if the buffer reaches them.
fn decode_weight(data: &Vec<u8>) -> (r: Option<WeightReading>)
    ensures
        r matches Some(w) ==> {
            &&& data@.len() >= WEIGHT_PAYLOAD_LEN
            &&& w.realtime_weight1 == data@[19]
            &&& w.realtime_weight2 == data@[20]
            &&& w.realtime_weight_kg_x100 == weight_kg_x100_of(data@[19], data@[20])
            &&& w.realtime_weight_lbs_x1e8 == weight_lbs_x1e8_of(data@[19], data@[20])
        },
        r is None <==> data@.len() < WEIGHT_PAYLOAD_LEN,
{
    if data.len() >= WEIGHT_PAYLOAD_LEN {
        let kg_x100: i32 = 256 * (data[20] as i32) - (data[19] as i32) - 32767;
        Some(WeightReading {
            realtime_weight1: data[19],
            realtime_weight2: data[20],
            realtime_weight_kg_x100: kg_x100,
            realtime_weight_lbs_x1e8: 2204623 * (kg_x100 as i64),
        })
    } else {
        None
    }
}

} // verus!
