//! A bridge from a FIMER energy meter's telemetry API to Home Assistant's
//! MQTT discovery and state topics: the device model, the unit mapping, the
//! discovery payloads, the state messages and the scheduler's decisions.
pub mod fimer;
pub mod hass_mqtt;
pub mod bridge;
