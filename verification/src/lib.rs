//! A verified gamepad input core.
//!
//! The library turns successive raw controller snapshots into a normalized,
//! ordered event stream. It holds the pure parts of a gamepad input layer:
//! the axis normalizer, the native event-code table, the snapshot differ,
//! the connection-lifecycle tracker, the FIFO event queue and the fixed-size
//! device registry. The hardware polling transport (the code that obtains a
//! raw snapshot from a driver) is an external collaborator: it hands the core
//! plain values and drains plain events.

pub mod axis;
pub mod diff;
pub mod event;
pub mod gamepad;
pub mod gilrs;
pub mod lifecycle;
pub mod native_ev_codes;
pub mod snapshot;
