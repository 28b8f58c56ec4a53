use smart_lock::{State, StateNode};

#[test]
fn node_with_one_direct_transition() {
    let node = StateNode::new_with_transition("open".to_string(), State::UNLOCKED);
    assert_eq!(node.get_next_state("open"), Some(&State::UNLOCKED));
    assert_eq!(node.get_next_state("close"), None);
    assert_eq!(node.get_next_sim_state("open"), None);
}

#[test]
fn node_with_one_simulated_transition() {
    let node =
        StateNode::new_with_sim_transition("open".to_string(), State::UNLOCKING, 1500, "opened");
    assert_eq!(
        node.get_next_sim_state("open"),
        Some(&(State::UNLOCKING, 1500, "opened".to_string()))
    );
    assert_eq!(node.get_next_sim_state("opened"), None);
    assert_eq!(node.get_next_state("open"), None);
}

#[test]
fn node_collects_transitions_of_both_kinds() {
    let mut node = StateNode::new_with_transition("a".to_string(), State::LOCKED);
    node.add_state_transition("b".to_string(), State::UNLOCKED);
    node.add_sim_state_transition("c".to_string(), State::LOCKING, 3, "d");
    assert_eq!(node.get_next_state("a"), Some(&State::LOCKED));
    assert_eq!(node.get_next_state("b"), Some(&State::UNLOCKED));
    assert_eq!(node.get_next_state("c"), None);
    assert_eq!(node.get_next_sim_state("c"), Some(&(State::LOCKING, 3, "d".to_string())));
    assert_eq!(node.get_next_sim_state("a"), None);
}

#[test]
fn adding_a_direct_transition_again_replaces_its_target() {
    let mut node = StateNode::new_with_transition("a".to_string(), State::LOCKED);
    node.add_state_transition("a".to_string(), State::ERROR);
    assert_eq!(node.get_next_state("a"), Some(&State::ERROR));
}

#[test]
fn adding_a_simulated_transition_again_replaces_it() {
    let mut node = StateNode::new_with_sim_transition("a".to_string(), State::LOCKING, 1, "x");
    node.add_sim_state_transition("a".to_string(), State::UNLOCKING, 2, "y");
    assert_eq!(node.get_next_sim_state("a"), Some(&(State::UNLOCKING, 2, "y".to_string())));
}

#[test]
fn direct_transition_displaces_a_simulated_one() {
    let mut node = StateNode::new_with_sim_transition("a".to_string(), State::LOCKING, 1, "x");
    node.add_state_transition("a".to_string(), State::LOCKED);
    assert_eq!(node.get_next_state("a"), Some(&State::LOCKED));
    assert_eq!(node.get_next_sim_state("a"), None);
}

#[test]
fn simulated_transition_does_not_displace_a_direct_one() {
    let mut node = StateNode::new_with_transition("a".to_string(), State::LOCKED);
    node.add_sim_state_transition("a".to_string(), State::LOCKING, 1, "x");
    assert_eq!(node.get_next_state("a"), Some(&State::LOCKED));
    assert_eq!(node.get_next_sim_state("a"), None);
    // Another event is still accepted.
    node.add_sim_state_transition("b".to_string(), State::LOCKING, 1, "x");
    assert_eq!(node.get_next_sim_state("b"), Some(&(State::LOCKING, 1, "x".to_string())));
}

#[test]
fn empty_event_name_is_a_name_like_any_other() {
    let mut node = StateNode::new_with_transition(String::new(), State::LOCKED);
    node.add_sim_state_transition("x".to_string(), State::LOCKING, 0, "");
    assert_eq!(node.get_next_state(""), Some(&State::LOCKED));
    assert_eq!(node.get_next_sim_state("x"), Some(&(State::LOCKING, 0, String::new())));
}
