//! The lock itself: its current state, its transition table, and the one
//! operation that changes its state.

use std::collections::hash_map::Entry;
use std::collections::HashMap;
use std::sync::mpsc::Sender;
use vstd::prelude::*;
use crate::model::{FollowUpModel, LockModel, SimModel};
use crate::node::StateNode;
use crate::state::State;

verus! {

/// `std::sync::mpsc::Sender`, the sending half of a channel, as an opaque
/// type: nothing is known of its inside.
#[verifier::external_type_specification]
#[verifier::external_body]
#[verifier::reject_recursive_types(T)]
pub struct ExSender<T>(Sender<T>);

/// An event to deliver to the lock once `delay_ms` milliseconds have passed,
/// with the channel to send it into.
pub struct FollowUp {
    pub delay_ms: u64,
    pub event: String,
    pub tx: Option<Sender<String>>,
}

impl View for FollowUp {
    type V = FollowUpModel;

    open spec fn view(&self) -> FollowUpModel {
        FollowUpModel { delay_ms: self.delay_ms, event: self.event@ }
    }
}

/// The delay and the event of `follow_up`, if there is one.
pub open spec fn follow_up_view(follow_up: Option<FollowUp>) -> Option<FollowUpModel> {
    match follow_up {
        Some(f) => Some(f@),
        None => None,
    }
}

/// `Sender::clone`: one more handle for sending into the channel of `tx`.
/// Nothing is claimed of the handle.
#[verifier::external_body]
fn clone_sender(tx: &Sender<String>) -> (handle: Sender<String>) {
    tx.clone()
}

/// The state the lock is in, together with the event that caused it where
/// the state is `ERROR`.
struct Current {
    state: State,
    error_condition: Option<String>,
}

/// The lock: a state machine driven by named events.
pub struct SmartLock {
    current: Current,
    transitions: HashMap<u8, StateNode>,
    sim_tx: Option<Sender<String>>,
}

impl View for SmartLock {
    type V = LockModel;

    closed spec fn view(&self) -> LockModel {
        LockModel {
            state: self.current.state,
            error: match self.current.error_condition {
                Some(event) => Some(event@),
                None => None,
            },
            table: Map::new(
                |s: State| self.transitions@.contains_key(s.spec_code()),
                |s: State| self.transitions@[s.spec_code()]@,
            ),
        }
    }
}

impl SmartLock {
    #[verifier::type_invariant]
    spec fn inv(&self) -> bool {
        &&& self.current.error_condition is Some <==> self.current.state == State::ERROR
        &&& forall|code: u8| #[trigger]
            self.transitions@.contains_key(code) ==> self.transitions@[code]@.wf()
    }

    /// The channel that follow-up events are to be sent into, if one is
    /// linked.
    pub closed spec fn channel(&self) -> Option<Sender<String>> {
        self.sim_tx
    }

    /// A new lock: in `NONE`, without transitions, without a channel.
    pub fn new() -> (lock: SmartLock)
        ensures
            lock@ == LockModel::initial(),
            lock@.wf(),
            lock.channel() is None,
    {
        let lock = SmartLock {
            current: Current { state: State::NONE, error_condition: None },
            transitions: HashMap::new(),
            sim_tx: None,
        };
        assert(lock@.table =~= LockModel::initial().table);
        lock
    }

    /// Adds a direct transition: in `given_state`, `event` leads to
    /// `next_state` at once.
    pub fn add_transition(&mut self, given_state: State, event: &str, next_state: State) -> (lock:
        &mut Self)
        ensures
            lock@ == old(self)@.with_direct(given_state, event@, next_state),
            lock@.wf(),
            lock.channel() == old(self).channel(),
            *final(self) == *final(lock),
    {
        proof {
            use_type_invariant(&*self);
        }
        let mut table = HashMap::new();
        std::mem::swap(&mut table, &mut self.transitions);
        match table.entry(given_state.code()) {
            Entry::Occupied(mut occupied) => {
                occupied.get_mut().add_state_transition(event.to_owned(), next_state);
            },
            Entry::Vacant(vacant) => {
                vacant.insert(StateNode::new_with_transition(event.to_owned(), next_state));
            },
        }
        self.transitions = table;
        assert(self@.table =~= old(self)@.with_direct(given_state, event@, next_state).table);
        self
    }

    /// Adds a simulated transition: in `given_state`, `event` leads to
    /// `intermediate_state` at once, and `sim_event` is to be delivered
    /// `sim_delay` milliseconds later. Where `event` already has a direct
    /// transition in `given_state`, that one stays and nothing is added.
    pub fn add_sim_transition(
        &mut self,
        given_state: State,
        event: &str,
        intermediate_state: State,
        sim_delay: u64,
        sim_event: &str,
    ) -> (lock: &mut Self)
        ensures
            lock@ == old(self)@.with_simulated(
                given_state,
                event@,
                SimModel {
                    intermediate: intermediate_state,
                    delay_ms: sim_delay,
                    follow_up: sim_event@,
                },
            ),
            lock@.wf(),
            lock.channel() == old(self).channel(),
            *final(self) == *final(lock),
    {
        proof {
            use_type_invariant(&*self);
        }
        let mut table = HashMap::new();
        std::mem::swap(&mut table, &mut self.transitions);
        match table.entry(given_state.code()) {
            Entry::Occupied(mut occupied) => {
                occupied.get_mut().add_sim_state_transition(
                    event.to_owned(),
                    intermediate_state,
                    sim_delay,
                    sim_event,
                );
            },
            Entry::Vacant(vacant) => {
                vacant.insert(
                    StateNode::new_with_sim_transition(
                        event.to_owned(),
                        intermediate_state,
                        sim_delay,
                        sim_event,
                    ),
                );
            },
        }
        self.transitions = table;
        assert(self@.table =~= old(self)@.with_simulated(
            given_state,
            event@,
            SimModel {
                intermediate: intermediate_state,
                delay_ms: sim_delay,
                follow_up: sim_event@,
            },
        ).table);
        self
    }

    /// Links the channel that follow-up events are to be sent into, or
    /// unlinks it with `None`. State and table stay as they are.
    pub fn link_channel(&mut self, tx: Option<Sender<String>>)
        ensures
            final(self).channel() == tx,
            final(self)@ == old(self)@,
            final(self)@.wf(),
    {
        proof {
            use_type_invariant(&*self);
        }
        self.sim_tx = tx;
    }

    /// Enters `state` because of `event`. The event is recorded when the
    /// state is `ERROR`; otherwise nothing stays recorded.
    fn set_state(&mut self, state: State, event: String)
        ensures
            final(self)@ == old(self)@.enter(state, event@),
            final(self).channel() == old(self).channel(),
    {
        proof {
            use_type_invariant(&*self);
        }
        let error_condition = if state == State::ERROR {
            Some(event)
        } else {
            None
        };
        self.current = Current { state, error_condition };
    }

    /// Applies `event`: the one operation that changes the state.
    ///
    /// The node of the current state is looked up. A direct transition for
    /// the event is taken first, a simulated one otherwise; the lock enters
    /// the target (or intermediate) state and records the event if that state
    /// is `ERROR`. A simulated transition also hands back its follow-up: the
    /// caller is to deliver that event after the delay. Where the state has
    /// no node, or the node no transition for the event, nothing changes.
    pub fn apply_event(&mut self, event: String) -> (follow_up: Option<FollowUp>)
        ensures
            final(self)@ == old(self)@.step(event@),
            final(self)@.wf(),
            follow_up_view(follow_up) == old(self)@.follow_up(event@),
            follow_up matches Some(f) ==> (f.tx is Some <==> old(self).channel() is Some),
            final(self).channel() == old(self).channel(),
    {
        let found = match self.transitions.get(&self.current.state.code()) {
            None => None,
            Some(node) => match node.get_next_state(event.as_str()) {
                Some(next_state) => Some((*next_state, None)),
                None => match node.get_next_sim_state(event.as_str()) {
                    None => None,
                    Some(sim) => {
                        let tx = match &self.sim_tx {
                            Some(tx) => Some(clone_sender(tx)),
                            None => None,
                        };
                        Some((sim.0, Some(FollowUp { delay_ms: sim.1, event: sim.2.clone(), tx })))
                    },
                },
            },
        };
        let follow_up = match found {
            None => None,
            Some((state, follow_up)) => {
                self.set_state(state, event);
                follow_up
            },
        };
        proof {
            use_type_invariant(&*self);
        }
        follow_up
    }

    /// The state the lock is in.
    pub fn get_state(&self) -> (state: State)
        ensures
            state == self@.state,
            self@.wf(),
    {
        proof {
            use_type_invariant(self);
        }
        self.current.state
    }

    /// The event that brought the lock into `ERROR`. It is there exactly
    /// while the lock is in `ERROR`.
    pub fn error_condition(&self) -> (error: Option<&String>)
        ensures
            error is Some <==> self@.state == State::ERROR,
            match error {
                Some(event) => self@.error == Some(event@),
                None => self@.error is None,
            },
    {
        proof {
            use_type_invariant(self);
        }
        self.current.error_condition.as_ref()
    }
}

} // verus!
