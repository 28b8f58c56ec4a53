//! The lock as a mathematical state machine: the transition table, the step
//! that an event causes, and what holds of that step for every table.

use vstd::prelude::*;
use crate::state::State;

verus! {

/// An event name, as the sequence of its characters.
pub type EventName = Seq<char>;

/// What a simulated transition does: move to `intermediate` at once, and
/// have `follow_up` delivered `delay_ms` milliseconds later.
pub struct SimModel {
    pub intermediate: State,
    pub delay_ms: u64,
    pub follow_up: EventName,
}

/// The outgoing transitions of one state, by event name.
pub struct NodeModel {
    /// Events that move the lock to another state at once.
    pub direct: Map<EventName, State>,
    /// Events that move it to an intermediate state and schedule a follow-up.
    pub simulated: Map<EventName, SimModel>,
}

/// A transition found for an event.
pub enum Transition {
    Direct(State),
    Simulated(SimModel),
}

/// An event to deliver after a delay.
pub struct FollowUpModel {
    pub delay_ms: u64,
    pub event: EventName,
}

/// The name of the event in `event`, if there is one.
pub open spec fn event_name(event: Option<String>) -> Option<EventName> {
    match event {
        Some(name) => Some(name@),
        None => None,
    }
}

/// The lock: its current state, the event that brought it into `ERROR` if it
/// is there, and its transition table.
pub struct LockModel {
    pub state: State,
    pub error: Option<EventName>,
    pub table: Map<State, NodeModel>,
}

impl Transition {
    /// The state that the transition leads to at once.
    pub open spec fn target(self) -> State {
        match self {
            Transition::Direct(next) => next,
            Transition::Simulated(sim) => sim.intermediate,
        }
    }

    /// The event that the transition schedules, if it is a simulated one.
    pub open spec fn follow_up(self) -> Option<FollowUpModel> {
        match self {
            Transition::Direct(_) => None,
            Transition::Simulated(sim) => Some(
                FollowUpModel { delay_ms: sim.delay_ms, event: sim.follow_up },
            ),
        }
    }
}

impl NodeModel {
    /// A node without transitions.
    pub open spec fn empty() -> NodeModel {
        NodeModel { direct: Map::empty(), simulated: Map::empty() }
    }

    /// No event has both a direct and a simulated transition.
    pub open spec fn wf(self) -> bool {
        self.direct.dom().disjoint(self.simulated.dom())
    }

    /// The transition that `event` takes from this node. A direct transition
    /// is looked for first.
    pub open spec fn lookup(self, event: EventName) -> Option<Transition> {
        if self.direct.contains_key(event) {
            Some(Transition::Direct(self.direct[event]))
        } else if self.simulated.contains_key(event) {
            Some(Transition::Simulated(self.simulated[event]))
        } else {
            None
        }
    }

    /// The node with a direct transition for `event`. It replaces whatever
    /// transition the event had, direct or simulated.
    pub open spec fn with_direct(self, event: EventName, next: State) -> NodeModel {
        NodeModel {
            direct: self.direct.insert(event, next),
            simulated: self.simulated.remove(event),
        }
    }

    /// The node with a simulated transition for `event`. An event that has a
    /// direct transition keeps it, and the node stays as it is.
    pub open spec fn with_simulated(self, event: EventName, sim: SimModel) -> NodeModel {
        if self.direct.contains_key(event) {
            self
        } else {
            NodeModel { direct: self.direct, simulated: self.simulated.insert(event, sim) }
        }
    }
}

impl LockModel {
    /// A new lock: not initialised, no error, no transitions.
    pub open spec fn initial() -> LockModel {
        LockModel { state: State::NONE, error: None, table: Map::empty() }
    }

    /// An error is recorded exactly while the lock is in `ERROR`, and every
    /// node of the table is well formed.
    pub open spec fn wf(self) -> bool {
        &&& self.error is Some <==> self.state == State::ERROR
        &&& forall|s: State| #[trigger] self.table.contains_key(s) ==> self.table[s].wf()
    }

    /// The node of `given`, or an empty node where the table has none.
    pub open spec fn node(self, given: State) -> NodeModel {
        if self.table.contains_key(given) {
            self.table[given]
        } else {
            NodeModel::empty()
        }
    }

    /// The transition that `event` takes from the current state, if there is
    /// one. A state without a node has none.
    pub open spec fn lookup(self, event: EventName) -> Option<Transition> {
        if self.table.contains_key(self.state) {
            self.table[self.state].lookup(event)
        } else {
            None
        }
    }

    /// The lock in `next`, entered because of `event`: the event is recorded
    /// when `next` is `ERROR`, and no event is recorded otherwise.
    pub open spec fn enter(self, next: State, event: EventName) -> LockModel {
        LockModel {
            state: next,
            error: if next == State::ERROR {
                Some(event)
            } else {
                None
            },
            table: self.table,
        }
    }

    /// The lock after `event`. Without a transition for the event the lock
    /// stays exactly as it is.
    pub open spec fn step(self, event: EventName) -> LockModel {
        match self.lookup(event) {
            Some(t) => self.enter(t.target(), event),
            None => self,
        }
    }

    /// The event that applying `event` schedules: the follow-up of a
    /// simulated transition, and nothing in every other case.
    pub open spec fn follow_up(self, event: EventName) -> Option<FollowUpModel> {
        match self.lookup(event) {
            Some(t) => t.follow_up(),
            None => None,
        }
    }

    /// The lock after one poll of its event queue: stepped by the event that
    /// was waiting, or as it was where the queue was empty.
    pub open spec fn poll(self, pending: Option<EventName>) -> LockModel {
        match pending {
            Some(event) => self.step(event),
            None => self,
        }
    }

    /// The event that one poll of the event queue schedules.
    pub open spec fn poll_follow_up(self, pending: Option<EventName>) -> Option<FollowUpModel> {
        match pending {
            Some(event) => self.follow_up(event),
            None => None,
        }
    }

    /// The lock with a direct transition from `given` on `event` to `next`.
    pub open spec fn with_direct(self, given: State, event: EventName, next: State) -> LockModel {
        LockModel { table: self.table.insert(given, self.node(given).with_direct(event, next)), ..self }
    }

    /// The lock with a simulated transition from `given` on `event`.
    pub open spec fn with_simulated(self, given: State, event: EventName, sim: SimModel)
        -> LockModel {
        LockModel {
            table: self.table.insert(given, self.node(given).with_simulated(event, sim)),
            ..self
        }
    }
}

/// In a state without a node no event changes anything, and none schedules a
/// follow-up.
pub proof fn lemma_state_without_node_ignores_events(lock: LockModel, event: EventName)
    requires
        !lock.table.contains_key(lock.state),
    ensures
        lock.step(event) == lock,
        lock.follow_up(event) is None,
{
}

/// An event without a transition from the current state changes nothing, even
/// where the state has transitions for other events.
pub proof fn lemma_unknown_event_is_ignored(lock: LockModel, event: EventName)
    requires
        lock.lookup(event) is None,
    ensures
        lock.step(event) == lock,
        lock.follow_up(event) is None,
{
}

/// A direct transition moves the lock to its target and leaves the table
/// alone. The same event applied again is looked up in the node of the target
/// state, not of the state the lock came from: it leads where that node says,
/// and changes nothing where that node has no transition for it.
pub proof fn lemma_direct_transition_then_same_event(lock: LockModel, event: EventName)
    requires
        lock.table.contains_key(lock.state),
        lock.table[lock.state].direct.contains_key(event),
    ensures
        ({
            let target = lock.table[lock.state].direct[event];
            let once = lock.step(event);
            let twice = once.step(event);
            &&& once.state == target
            &&& once.table == lock.table
            &&& lock.follow_up(event) is None
            &&& twice.table == lock.table
            &&& twice.state == match lock.node(target).lookup(event) {
                Some(t) => t.target(),
                None => target,
            }
            &&& once.follow_up(event) == match lock.node(target).lookup(event) {
                Some(t) => t.follow_up(),
                None => None,
            }
            &&& lock.node(target).lookup(event) is None ==> twice == once
        }),
{
}

/// A simulated transition moves the lock to the intermediate state at once
/// and schedules exactly one follow-up: the event that the table gives, with
/// the delay that the table gives. The follow-up is an event like any other
/// when it arrives: it is judged by the state `later` that the lock is in
/// then, and where that state has no transition for it, nothing happens.
pub proof fn lemma_simulated_transition_schedules_follow_up(
    lock: LockModel,
    event: EventName,
    later: LockModel,
)
    requires
        lock.table.contains_key(lock.state),
        !lock.table[lock.state].direct.contains_key(event),
        lock.table[lock.state].simulated.contains_key(event),
    ensures
        ({
            let sim = lock.table[lock.state].simulated[event];
            &&& lock.step(event) == lock.enter(sim.intermediate, event)
            &&& lock.step(event).state == sim.intermediate
            &&& lock.step(event).table == lock.table
            &&& lock.follow_up(event) == Some(
                FollowUpModel { delay_ms: sim.delay_ms, event: sim.follow_up },
            )
            &&& later.lookup(sim.follow_up) is None ==> later.step(sim.follow_up) == later
                && later.follow_up(sim.follow_up) is None
            &&& later.lookup(sim.follow_up) matches Some(t) ==> later.step(sim.follow_up)
                == later.enter(t.target(), sim.follow_up)
        }),
{
}

/// Whenever a transition leads into `ERROR`, the event that took it is
/// recorded.
pub proof fn lemma_entering_error_records_event(lock: LockModel, event: EventName)
    requires
        lock.lookup(event) is Some,
        lock.step(event).state == State::ERROR,
    ensures
        lock.step(event).error == Some(event),
{
}

/// Whenever a transition leads out of `ERROR`, nothing stays recorded.
pub proof fn lemma_leaving_error_clears_event(lock: LockModel, event: EventName)
    requires
        lock.state == State::ERROR,
        lock.lookup(event) is Some,
        lock.step(event).state != State::ERROR,
    ensures
        lock.step(event).error is None,
{
}

/// A step keeps a well-formed lock well formed: an error stays recorded
/// exactly while the lock is in `ERROR`.
pub proof fn lemma_step_preserves_wf(lock: LockModel, event: EventName)
    requires
        lock.wf(),
    ensures
        lock.step(event).wf(),
        lock.step(event).table == lock.table,
{
}

/// Adding a transition keeps a well-formed lock well formed, and changes
/// neither its state nor its recorded error.
pub proof fn lemma_adding_transitions_preserves_wf(
    lock: LockModel,
    given: State,
    event: EventName,
    next: State,
    sim: SimModel,
)
    requires
        lock.wf(),
    ensures
        lock.with_direct(given, event, next).wf(),
        lock.with_simulated(given, event, sim).wf(),
        lock.with_direct(given, event, next).state == lock.state,
        lock.with_direct(given, event, next).error == lock.error,
        lock.with_simulated(given, event, sim).state == lock.state,
        lock.with_simulated(given, event, sim).error == lock.error,
{
}

/// Once a direct transition is added for an event it is the one taken,
/// whatever the node held for that event before.
pub proof fn lemma_direct_transition_wins(
    lock: LockModel,
    event: EventName,
    next: State,
    sim: SimModel,
)
    ensures
        lock.with_direct(lock.state, event, next).lookup(event) == Some(Transition::Direct(next)),
        lock.with_direct(lock.state, event, next).with_simulated(lock.state, event, sim)
            == lock.with_direct(lock.state, event, next),
        lock.with_simulated(lock.state, event, sim).with_direct(lock.state, event, next).lookup(
            event,
        ) == Some(Transition::Direct(next)),
{
    let added = lock.with_direct(lock.state, event, next);
    assert(added.with_simulated(lock.state, event, sim).table =~= added.table);
}

} // verus!
