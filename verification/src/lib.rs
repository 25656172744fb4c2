//! Fixed-memory telemetry core for a small always-on sensor device: a
//! slope-based heating/cooling detector with debounced state transitions,
//! a 24-hour run-length statistics aggregator, a dual-channel pressure
//! history ring, and the pure configuration tables of the surrounding
//! firmware. All rings are bounded; nothing allocates after construction.

pub mod debug_flags;
pub mod display_config;
pub mod http_client;
pub mod hvac;
pub mod pressure_history;
pub mod ring;
pub mod test_generator;
pub mod test_patterns;
pub mod timing;
pub mod tones;
