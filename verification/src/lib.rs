//! A bridge from a real-time audio callback to an OSC receiver over UDP.
//!
//! The real-time side records parameter changes in a dirty set, translates
//! note and audio events into typed messages, and hands them to a background
//! worker over a bounded channel without ever blocking. The worker turns each
//! message into an OSC packet and transmits it, applying connection and
//! address-namespace changes in the order they were enqueued.

pub mod chan;
pub mod dirty;
pub mod driver;
pub mod msg;
pub mod osc;
pub mod settings;
pub mod worker;
