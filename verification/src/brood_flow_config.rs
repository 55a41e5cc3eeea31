//! Static settings loaded at startup: the broker address, whether message-bus
//! publication is enabled, and optional per-device overrides. Loading the
//! settings from disk is the caller's concern; this module only holds the
//! plain values the core logic reads.

use vstd::prelude::*;

verus! {

/// Per-device override entry accepted from configuration.
pub struct DeviceConfiguration {
    /// The Broodminder issued ID, eg "47:01:01"
    pub id: Option<String>,
    /// A name for the device for your reference
    pub name: Option<String>,
    /// The message-bus topic to publish updates to
    pub topic: Option<String>,
    /// If true, publishes realtime temperature data. If false reports
    /// Broodminder aggregated temperature information
    pub realtime: Option<bool>,
}

/// Top-level settings for one run of the program.
pub struct Configuration {
    pub devices: Vec<DeviceConfiguration>,
    /// The hostname/IP of the message broker
    pub broker_host: Option<String>,
    /// The port for the message broker
    pub broker_port: Option<u16>,
    /// Whether outbound publication is enabled at all
    pub mqtt_enabled: bool,
}

} // verus!
