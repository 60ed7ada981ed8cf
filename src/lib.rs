//! Relays the analog thumbstick state of a game controller: decoding of raw
//! input-event records, dead-zone filtering and change detection, the wide,
//! narrow and text encodings written to output sinks, the decisions of the
//! relay loop and of automatic input selection, and lookup of the controller
//! in the input-device registry.

pub mod controller_state;
pub mod event;
pub mod tracker;
pub mod relay;
pub mod devices;
pub mod auto_mode;
