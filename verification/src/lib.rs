//! Keeps a laptop awake while a specific USB docking station is attached.
//!
//! The crate holds the decision core of a hotplug-driven daemon: a pure
//! predicate that recognizes the dock from a device's vendor/product codes,
//! and a state machine that decides, for a startup snapshot and each later
//! attach/detach event, whether a sleep-inhibitor lock must be acquired,
//! released, or left alone. The surrounding process performs the actual
//! device enumeration, event reads and lock calls, and feeds this core
//! plain values.

pub mod controller;
pub mod device;
pub mod inhibit;
