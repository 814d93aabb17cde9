//! Broker-side bookkeeping of an MQTT broker: connection heartbeats,
//! packet metrics, schema administration requests and exclusive
//! subscription push scheduling.

pub mod protocol;
pub mod heartbeat;
pub mod metrics;
pub mod schema;
pub mod exclusive;
