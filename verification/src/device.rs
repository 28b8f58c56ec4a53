//! The transition table of the device: from start-up through locking and
//! unlocking, with the bolt's travel simulated by a delay.

use vstd::prelude::*;
use crate::lock::SmartLock;
use crate::model::{LockModel, SimModel};
use crate::state::State;

verus! {

/// How long the bolt takes to travel, in milliseconds.
pub const ACTUATION_MS: u64 = 1500;

/// Start-up has begun.
pub const INIT: &'static str = "init";

/// The connections are up and the lock can take commands.
pub const READY: &'static str = "ready";

/// The Wi-Fi connection could not be made.
pub const ERR_WIFI: &'static str = "err-wifi";

/// The MQTT connection could not be made.
pub const ERR_MQTT: &'static str = "err-mqtt";

/// Command: open the bolt.
pub const UNLOCK: &'static str = "unlock";

/// The bolt has arrived open.
pub const UNLOCK_SUCCESS: &'static str = "unlock-success";

/// The bolt did not arrive open.
pub const UNLOCK_FAILURE: &'static str = "unlock-failure";

/// Command: close the bolt.
pub const LOCK: &'static str = "lock";

/// The bolt has arrived closed.
pub const LOCK_SUCCESS: &'static str = "lock-success";

/// The bolt did not arrive closed.
pub const LOCK_FAILURE: &'static str = "lock-failure";

/// Command: leave `ERROR` by closing the bolt.
pub const RESET: &'static str = "reset";

/// A simulated transition of the device: through `intermediate`, completed by
/// `follow_up` once the bolt has travelled.
pub open spec fn actuation(intermediate: State, follow_up: Seq<char>) -> SimModel {
    SimModel { intermediate, delay_ms: ACTUATION_MS, follow_up }
}

/// The device's lock before its first event.
pub open spec fn device_model() -> LockModel {
    LockModel::initial().with_direct(State::NONE, INIT@, State::INITIALIZING).with_direct(
        State::INITIALIZING,
        READY@,
        State::LOCKED,
    ).with_direct(State::INITIALIZING, ERR_WIFI@, State::ERROR).with_direct(
        State::INITIALIZING,
        ERR_MQTT@,
        State::ERROR,
    ).with_simulated(
        State::LOCKED,
        UNLOCK@,
        actuation(State::UNLOCKING, UNLOCK_SUCCESS@),
    ).with_direct(State::UNLOCKING, UNLOCK_SUCCESS@, State::UNLOCKED).with_direct(
        State::UNLOCKING,
        UNLOCK_FAILURE@,
        State::ERROR,
    ).with_simulated(
        State::UNLOCKED,
        LOCK@,
        actuation(State::LOCKING, LOCK_SUCCESS@),
    ).with_direct(State::LOCKING, LOCK_SUCCESS@, State::LOCKED).with_direct(
        State::LOCKING,
        LOCK_FAILURE@,
        State::ERROR,
    ).with_simulated(State::ERROR, RESET@, actuation(State::LOCKING, LOCK_SUCCESS@))
}

/// A lock with the device's transition table, in `NONE`, without a channel.
pub fn device_lock() -> (lock: SmartLock)
    ensures
        lock@ == device_model(),
        lock@.wf(),
        lock.channel() is None,
{
    let mut lock = SmartLock::new();
    lock.add_transition(State::NONE, INIT, State::INITIALIZING).add_transition(
        State::INITIALIZING,
        READY,
        State::LOCKED,
    ).add_transition(State::INITIALIZING, ERR_WIFI, State::ERROR).add_transition(
        State::INITIALIZING,
        ERR_MQTT,
        State::ERROR,
    ).add_sim_transition(
        State::LOCKED,
        UNLOCK,
        State::UNLOCKING,
        ACTUATION_MS,
        UNLOCK_SUCCESS,
    ).add_transition(State::UNLOCKING, UNLOCK_SUCCESS, State::UNLOCKED).add_transition(
        State::UNLOCKING,
        UNLOCK_FAILURE,
        State::ERROR,
    ).add_sim_transition(
        State::UNLOCKED,
        LOCK,
        State::LOCKING,
        ACTUATION_MS,
        LOCK_SUCCESS,
    ).add_transition(State::LOCKING, LOCK_SUCCESS, State::LOCKED).add_transition(
        State::LOCKING,
        LOCK_FAILURE,
        State::ERROR,
    ).add_sim_transition(State::ERROR, RESET, State::LOCKING, ACTUATION_MS, LOCK_SUCCESS);
    lock
}

} // verus!
