//! The outgoing transitions of one state, stored by event name.

use vstd::prelude::*;
use vstd::hash_map::StringHashMap;
use crate::model::{NodeModel, SimModel};
use crate::state::State;

verus! {

/// What the table stores for a simulated transition: the intermediate state,
/// the delay in milliseconds, and the name of the follow-up event.
pub type SimEntry = (State, u64, String);

/// The mathematical value of a stored simulated transition.
pub open spec fn sim_model(entry: SimEntry) -> SimModel {
    SimModel { intermediate: entry.0, delay_ms: entry.1, follow_up: entry.2@ }
}

/// The outgoing transitions of one state. No event name is a key of both
/// maps.
pub struct StateNode {
    transitions: StringHashMap<State>,
    sim_transitions: StringHashMap<SimEntry>,
}

impl View for StateNode {
    type V = NodeModel;

    closed spec fn view(&self) -> NodeModel {
        NodeModel {
            direct: self.transitions@,
            simulated: self.sim_transitions@.map_values(|entry: SimEntry| sim_model(entry)),
        }
    }
}

impl StateNode {
    #[verifier::type_invariant]
    spec fn inv(&self) -> bool {
        self.transitions@.dom().disjoint(self.sim_transitions@.dom())
    }

    /// A node whose only transition is a direct one.
    pub fn new_with_transition(event: String, next_state: State) -> (node: StateNode)
        ensures
            node@ == NodeModel::empty().with_direct(event@, next_state),
            node@.wf(),
    {
        let mut transitions = StringHashMap::new();
        transitions.insert(event, next_state);
        let node = StateNode { transitions, sim_transitions: StringHashMap::new() };
        assert(node@.simulated =~= NodeModel::empty().with_direct(event@, next_state).simulated);
        node
    }

    /// A node whose only transition is a simulated one.
    pub fn new_with_sim_transition(
        event: String,
        intermediate_state: State,
        sim_delay: u64,
        sim_event: &str,
    ) -> (node: StateNode)
        ensures
            node@ == NodeModel::empty().with_simulated(
                event@,
                SimModel {
                    intermediate: intermediate_state,
                    delay_ms: sim_delay,
                    follow_up: sim_event@,
                },
            ),
            node@.wf(),
    {
        let mut sim_transitions = StringHashMap::new();
        sim_transitions.insert(event, (intermediate_state, sim_delay, sim_event.to_owned()));
        let node = StateNode { transitions: StringHashMap::new(), sim_transitions };
        assert(node@.simulated =~= NodeModel::empty().with_simulated(
            event@,
            SimModel {
                intermediate: intermediate_state,
                delay_ms: sim_delay,
                follow_up: sim_event@,
            },
        ).simulated);
        node
    }

    /// The target of the direct transition for `event`, if there is one.
    pub fn get_next_state(&self, event: &str) -> (next: Option<&State>)
        ensures
            match next {
                Some(state) => self@.direct.contains_key(event@) && *state == self@.direct[event@],
                None => !self@.direct.contains_key(event@),
            },
    {
        self.transitions.get(event)
    }

    /// The simulated transition for `event`, if there is one.
    pub fn get_next_sim_state(&self, event: &str) -> (next: Option<&SimEntry>)
        ensures
            match next {
                Some(entry) => self@.simulated.contains_key(event@) && sim_model(*entry)
                    == self@.simulated[event@],
                None => !self@.simulated.contains_key(event@),
            },
    {
        self.sim_transitions.get(event)
    }

    /// Adds a direct transition for `event`. It replaces any transition that
    /// the event had, so that the event never has both kinds.
    pub fn add_state_transition(&mut self, event: String, next_state: State)
        ensures
            final(self)@ == old(self)@.with_direct(event@, next_state),
            final(self)@.wf(),
    {
        proof {
            use_type_invariant(&*self);
        }
        let mut direct = StringHashMap::new();
        let mut simulated = StringHashMap::new();
        std::mem::swap(&mut direct, &mut self.transitions);
        std::mem::swap(&mut simulated, &mut self.sim_transitions);
        simulated.remove(event.as_str());
        direct.insert(event, next_state);
        self.sim_transitions = simulated;
        self.transitions = direct;
        assert(self@.simulated =~= old(self)@.with_direct(event@, next_state).simulated);
    }

    /// Adds a simulated transition for `event`: move to `intermediate_state`
    /// at once, and have `next_state` delivered as an event after `sim_delay`
    /// milliseconds. Where the event has a direct transition, that one stays
    /// and nothing is added.
    pub fn add_sim_state_transition(
        &mut self,
        event: String,
        intermediate_state: State,
        sim_delay: u64,
        next_state: &str,
    )
        ensures
            final(self)@ == old(self)@.with_simulated(
                event@,
                SimModel {
                    intermediate: intermediate_state,
                    delay_ms: sim_delay,
                    follow_up: next_state@,
                },
            ),
            final(self)@.wf(),
    {
        proof {
            use_type_invariant(&*self);
        }
        if !self.transitions.contains_key(event.as_str()) {
            let mut simulated = StringHashMap::new();
            std::mem::swap(&mut simulated, &mut self.sim_transitions);
            simulated.insert(event, (intermediate_state, sim_delay, next_state.to_owned()));
            self.sim_transitions = simulated;
            assert(self@.simulated =~= old(self)@.with_simulated(
                event@,
                SimModel {
                    intermediate: intermediate_state,
                    delay_ms: sim_delay,
                    follow_up: next_state@,
                },
            ).simulated);
        }
    }
}

} // verus!
