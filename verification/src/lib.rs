//! Decode-and-publish core for Broodminder Bluetooth Low-Energy sensor
//! beacons: a binary decoder for the fixed-layout advertisement payload, an
//! in-memory registry of observed devices, and the per-device publication
//! policy (discovery-configuration and state messages with independent rate
//! limits) used to republish readings to a home-automation message bus.

pub mod brood_flow_config;
pub mod broodminder_device;
pub mod dispatch;
pub mod messages;
pub mod registry;
