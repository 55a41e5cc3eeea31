//! Per-event decision core of the dispatcher: classify one advertisement,
//! resolve the device identity, decode, upsert the registry, and — when
//! publication is enabled — evaluate the configuration window before the
//! state window, so a newly-discovered device's discovery metadata is
//! published no later than its first state value. Draining the advertisement
//! stream and handing the returned messages to the transport is the caller's
//! concern.

use std::collections::HashMap;

use vstd::prelude::*;

use crate::broodminder_device::BROODMINDER_MANUFACTURER_ID;
use crate::broodminder_device::CONFIG_INTERVAL_MS;
use crate::broodminder_device::MIN_PAYLOAD_LEN;
use crate::broodminder_device::MODEL_SCALE;
use crate::broodminder_device::MODEL_TEMPERATURE;
use crate::broodminder_device::STATE_INTERVAL_MS;
use crate::broodminder_device::is_unresolved;
use crate::broodminder_device::reading_decodes;
use crate::broodminder_device::spec_config_count;
use crate::messages::ConfigMessage;
use crate::messages::StateMessage;
use crate::messages::is_temp_config;
use crate::messages::is_weight_config;
use crate::messages::spec_state_topic;
use crate::registry::Registry;

verus! {

broadcast use vstd::std_specs::hash::group_hash_axioms;

/// What one advertisement event led to.
pub enum DispatchOutcome {
    /// The manufacturer map lacked the Broodminder signature key; nothing
    /// was read or written.
    Ignored,
    /// The payload was shorter than the minimum length; the event was
    /// dropped and the registry left untouched.
    Malformed,
    /// The payload was decoded into the registry.
    Processed {
        /// Whether this was the first sighting of the identity; for logging
        /// only.
        was_new: bool,
        /// Discovery-configuration messages owed now, to publish first; at
        /// most one per sensor channel of the model.
        config_messages: Vec<ConfigMessage>,
        /// State message owed now, to publish after the configuration
        /// messages.
        state_message: Option<StateMessage>,
    },
}

/// The identity an advertiser resolves to: its local name when one was
/// delivered, else the unresolved sentinel.
pub open spec fn resolved_id(local_name: Option<String>) -> Seq<char> {
    match local_name {
        Some(n) => n@,
        None => "00:00:00"@,
    }
}

/// Everything processing one recognized, well-formed payload guarantees:
/// the registry holds the upserted record for `id`, other identities are
/// untouched, the rate-limit timestamps advanced exactly for the windows
/// that were evaluated, and the returned messages are exactly the ones the
/// publication policy owes at `now_ms`.
pub open spec fn processed_post(
    prior: Registry,
    post: Registry,
    id: Seq<char>,
    data: Seq<u8>,
    now_ms: i64,
    mqtt_enabled: bool,
    was_new: bool,
    config_messages: Seq<ConfigMessage>,
    state_message: Option<StateMessage>,
) -> bool {
    let rec = post.spec_get(id);
    let ts_config_0 = if was_new {
        0
    } else {
        prior.spec_get(id).last_config_sent_ms as int
    };
    let ts_state_0 = if was_new {
        0
    } else {
        prior.spec_get(id).last_state_sent_ms as int
    };
    let config_eval = mqtt_enabled && !is_unresolved(id) && now_ms - ts_config_0
        > CONFIG_INTERVAL_MS;
    let state_eval = mqtt_enabled && !is_unresolved(id) && now_ms - ts_state_0
        > STATE_INTERVAL_MS;
    &&& (was_new <==> !prior.contains_id(id))
    &&& post.contains_id(id)
    &&& (was_new ==> post.spec_len() == prior.spec_len() + 1)
    &&& (!was_new ==> post.spec_len() == prior.spec_len())
    &&& (forall|other: Seq<char>|
        other != id ==> (post.contains_id(other) <==> prior.contains_id(other)))
    &&& (forall|other: Seq<char>|
        other != id && prior.contains_id(other) ==> post.spec_get(other) == prior.spec_get(
            other,
        ))
    &&& rec.device_id@ == id
    &&& reading_decodes(data, rec)
    &&& (!was_new ==> rec.device_id == prior.spec_get(id).device_id)
    &&& rec.last_config_sent_ms == (if config_eval {
        now_ms as int
    } else {
        ts_config_0
    })
    &&& rec.last_state_sent_ms == (if state_eval {
        now_ms as int
    } else {
        ts_state_0
    })
    &&& (config_eval ==> {
        &&& config_messages.len() == spec_config_count(rec.model)
        &&& ((rec.model == MODEL_TEMPERATURE || rec.model == MODEL_SCALE) ==> is_temp_config(
            config_messages[0],
            id,
        ))
        &&& (rec.model == MODEL_SCALE ==> is_weight_config(config_messages[1], id))
    })
    &&& (!config_eval ==> config_messages.len() == 0)
    &&& (state_eval <==> state_message is Some)
    &&& (state_message matches Some(m) ==> {
        &&& m.topic@ == spec_state_topic(id)
        &&& m.temperature_c_x100 == rec.realtime_temperature_c_x100
        &&& m.weight_lbs_x1e8 == rec.spec_state_weight()
    })
}

/// Process one advertisement event.
///
/// A map lacking the Broodminder signature key is ignored; a recognized
/// payload shorter than the minimum length is dropped as malformed; in both
/// cases the registry is left exactly as it was. Otherwise the payload is
/// decoded and upserted under the resolved identity, and, when publication
/// is enabled, the configuration window is evaluated before the state
/// window; the messages owed now come back in the outcome for the caller to
/// publish in order.
pub fn process_advertisement(
    registry: &mut Registry,
    local_name: Option<String>,
    manufacturer_data: &HashMap<u16, Vec<u8>>,
    now_ms: i64,
    mqtt_enabled: bool,
) -> (r: DispatchOutcome)
    requires
        old(registry).wf(),
        0 <= now_ms,
    ensures
        final(registry).wf(),
        !manufacturer_data@.contains_key(BROODMINDER_MANUFACTURER_ID) ==> r is Ignored
            && *final(registry) == *old(registry),
        (manufacturer_data@.contains_key(BROODMINDER_MANUFACTURER_ID) && manufacturer_data@[
            BROODMINDER_MANUFACTURER_ID
        ]@.len() < MIN_PAYLOAD_LEN) ==> r is Malformed && *final(registry) == *old(registry),
        (manufacturer_data@.contains_key(BROODMINDER_MANUFACTURER_ID) && manufacturer_data@[
            BROODMINDER_MANUFACTURER_ID
        ]@.len() >= MIN_PAYLOAD_LEN) ==> (r matches DispatchOutcome::Processed {
            was_new,
            config_messages,
            state_message,
        } && processed_post(
            *old(registry),
            *final(registry),
            resolved_id(local_name),
            manufacturer_data@[BROODMINDER_MANUFACTURER_ID]@,
            now_ms,
            mqtt_enabled,
            was_new,
            config_messages@,
            state_message,
        )),
{
    let device_id: String = match local_name {
        Some(n) => n,
        None => "00:00:00".to_owned(),
    };
    match manufacturer_data.get(&BROODMINDER_MANUFACTURER_ID) {
        None => DispatchOutcome::Ignored,
        Some(payload) => {
            if payload.len() < MIN_PAYLOAD_LEN {
                DispatchOutcome::Malformed
            } else {
                let was_new = registry.upsert(&device_id, payload);
                if mqtt_enabled {
                    let (config_opt, state_message) = registry.run_policy(&device_id, now_ms);
                    let config_messages: Vec<ConfigMessage> = match config_opt {
                        Some(v) => v,
                        None => Vec::new(),
                    };
                    DispatchOutcome::Processed { was_new, config_messages, state_message }
                } else {
                    DispatchOutcome::Processed {
                        was_new,
                        config_messages: Vec::new(),
                        state_message: None,
                    }
                }
            }
        },
    }
}

} // verus!
