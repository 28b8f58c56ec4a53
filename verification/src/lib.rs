//! Control core of a smart lock.
//!
//! The lock is a state machine driven by named events. Its transition table
//! maps a state and an event either to a next state, entered at once, or to a
//! simulated transition: an intermediate state, entered at once, and a
//! follow-up event to be delivered after a delay, which stands for the travel
//! of the bolt.
//!
//! * [`state`]: the states and their colours.
//! * [`model`]: the lock as a mathematical state machine, and what holds of
//!   it for every table.
//! * [`node`]: the transitions of one state.
//! * [`lock`]: the lock, whose contracts are stated over the model.
//! * [`indicator`]: what a three-channel indicator shows in each tick.
//! * [`command`], [`telemetry`]: which events come in from the command
//!   source, and what goes out as a status message.
//! * [`device`]: the transition table of the device.
//!
//! The library decides and computes; it neither sleeps nor sends. Applying an
//! event hands back the follow-up that the caller has to deliver later, and a
//! tick hands back the frames that the caller has to show.
//!
//! Two choices are made here once and for all. An event never has both a
//! direct and a simulated transition in one state: the direct one wins when
//! the table is built. And a follow-up is an event like any other when it
//! arrives: it is looked up in the state the lock is in by then, and is
//! ignored where that state has no transition for it.

pub mod command;
pub mod device;
pub mod indicator;
pub mod lock;
pub mod model;
pub mod node;
pub mod state;
pub mod telemetry;

pub use crate::indicator::Indicator;
pub use crate::lock::{FollowUp, SmartLock};
pub use crate::node::StateNode;
pub use crate::state::State;
