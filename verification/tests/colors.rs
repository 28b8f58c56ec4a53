use smart_lock::state::{
    make_blue, make_green, make_orange, make_red, make_white, make_yellow, CHANNEL_MAX,
};
use smart_lock::State;

const ALL: [State; 7] = [
    State::NONE,
    State::INITIALIZING,
    State::ERROR,
    State::LOCKED,
    State::LOCKING,
    State::UNLOCKED,
    State::UNLOCKING,
];

fn color_of(state: State) -> [u32; 3] {
    let mut color = [7, 7, 7];
    state.get_color(&mut color);
    color
}

#[test]
fn named_colors() {
    let mut color = [1, 2, 3];
    make_red(&mut color);
    assert_eq!(color, [255, 0, 0]);
    make_green(&mut color);
    assert_eq!(color, [0, 255, 0]);
    make_blue(&mut color);
    assert_eq!(color, [0, 0, 255]);
    make_yellow(&mut color);
    assert_eq!(color, [255, 255, 0]);
    make_orange(&mut color);
    assert_eq!(color, [255, 140, 0]);
    make_white(&mut color);
    assert_eq!(color, [255, 255, 255]);
}

#[test]
fn color_of_each_state() {
    assert_eq!(color_of(State::NONE), [0, 0, 0]);
    assert_eq!(color_of(State::INITIALIZING), [0, 0, 255]);
    assert_eq!(color_of(State::LOCKED), [0, 255, 0]);
    assert_eq!(color_of(State::UNLOCKED), [255, 0, 0]);
    assert_eq!(color_of(State::LOCKING), [255, 255, 0]);
    assert_eq!(color_of(State::UNLOCKING), [255, 255, 0]);
    assert_eq!(color_of(State::ERROR), [255, 0, 0]);
}

#[test]
fn color_does_not_depend_on_what_was_there() {
    for state in ALL {
        let mut a = [0, 0, 0];
        let mut b = [255, 255, 255];
        state.get_color(&mut a);
        state.get_color(&mut b);
        assert_eq!(a, b);
    }
}

#[test]
fn every_channel_is_within_range() {
    assert_eq!(CHANNEL_MAX, 255);
    for state in ALL {
        for channel in color_of(state) {
            assert!(channel <= CHANNEL_MAX);
        }
    }
}

#[test]
fn codes_are_distinct_and_in_order() {
    let codes: Vec<u8> = ALL.iter().map(|s| s.code()).collect();
    assert_eq!(codes, vec![0, 1, 2, 3, 4, 5, 6]);
}

#[test]
fn names_are_the_variant_names() {
    for state in ALL {
        assert_eq!(state.name(), format!("{:?}", state));
    }
    assert_eq!(State::NONE.name(), "NONE");
    assert_eq!(State::UNLOCKING.name(), "UNLOCKING");
}
