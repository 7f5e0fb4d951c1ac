//! The composition engine of a peer-pairing session.
//!
//! A session is run by a dozen small state machines that only ever talk to
//! each other through events. This crate owns the machines, routes every
//! event to the one machine that may consume it, and runs each outside
//! stimulus to quiescence before the next one is looked at.

pub mod bridge;
pub mod engine;
pub mod events;
pub mod io;
pub mod laws;
pub mod machine;
pub mod model;
pub mod timing;

pub use bridge::{Bridge, BridgeState, Delivery, Stimulus};
pub use engine::WormholeCore;
pub use events::{APIAction, APIEvent, Event, Events, Protocol};
pub use io::WormholeIO;
pub use machine::{BossMachine, Idle, Machine, Machines, RendezvousMachine};
pub use timing::Timing;
