//! What the three-channel indicator shows: the colour of the lock's state,
//! blinking while the lock is in `ERROR`.

use vstd::prelude::*;
use crate::lock::{follow_up_view, FollowUp, SmartLock};
use crate::model::event_name;
use crate::state::{is_color, rgb, State, CHANNEL_MAX};

verus! {

/// How long each frame of a tick is shown, in milliseconds.
pub const FRAME_MS: u64 = 500;

/// The duty written to a channel is inverted: the full duty turns the channel
/// off, and no duty at all is its highest intensity.
pub open spec fn inverted(color: Seq<u32>) -> Seq<u32> {
    rgb(
        (CHANNEL_MAX - color[0]) as u32,
        (CHANNEL_MAX - color[1]) as u32,
        (CHANNEL_MAX - color[2]) as u32,
    )
}

/// The duties of the dark frame of a blink: every channel at the full duty.
pub open spec fn dark() -> Seq<u32> {
    rgb(CHANNEL_MAX, CHANNEL_MAX, CHANNEL_MAX)
}

/// The frames of one tick, as duties, in the order in which they are shown:
/// the colour alone, or the dark frame before it when blinking.
pub open spec fn frames_of(color: Seq<u32>, blinking: bool) -> Seq<Seq<u32>> {
    if blinking {
        seq![dark(), inverted(color)]
    } else {
        seq![inverted(color)]
    }
}

/// The frames of `frames`, each as the sequence of its three duties.
pub open spec fn frame_views(frames: Seq<[u32; 3]>) -> Seq<Seq<u32>> {
    frames.map_values(|frame: [u32; 3]| frame@)
}

/// What the indicator shows: a colour, steady or blinking.
pub struct Indicator {
    color: [u32; 3],
    blink: bool,
}

/// What one tick asks of its caller: the follow-up event to schedule, if the
/// tick took a simulated transition, and the frames to show, each for
/// `FRAME_MS` milliseconds.
pub struct Tick {
    pub follow_up: Option<FollowUp>,
    pub frames: Vec<[u32; 3]>,
}

impl Indicator {
    #[verifier::type_invariant]
    spec fn inv(&self) -> bool {
        is_color(self.color@)
    }

    /// The colour shown, as intensities.
    pub closed spec fn color(&self) -> Seq<u32> {
        self.color@
    }

    /// Whether the indicator blinks.
    pub closed spec fn blinking(&self) -> bool {
        self.blink
    }

    /// The indicator shows `state`: its colour, blinking exactly for `ERROR`.
    pub open spec fn shows(&self, state: State) -> bool {
        &&& self.color() == state.color()
        &&& self.blinking() <==> state == State::ERROR
    }

    /// An indicator that shows a lock which has not started: dark and steady.
    pub fn new() -> (indicator: Indicator)
        ensures
            indicator.shows(State::NONE),
    {
        Indicator { color: [0, 0, 0], blink: false }
    }

    /// Takes over what `lock` is to be shown as: the colour of its state,
    /// blinking exactly if it is in `ERROR`.
    pub fn observe(&mut self, lock: &SmartLock)
        ensures
            final(self).shows(lock@.state),
            lock@.wf(),
    {
        let mut color: [u32; 3] = [0, 0, 0];
        lock.get_state().get_color(&mut color);
        self.color = color;
        self.blink = lock.error_condition().is_some();
    }

    /// The duties that show the colour.
    pub fn duty(&self) -> (duty: [u32; 3])
        ensures
            duty@ == inverted(self.color()),
            is_color(duty@),
    {
        proof {
            use_type_invariant(self);
        }
        [CHANNEL_MAX - self.color[0], CHANNEL_MAX - self.color[1], CHANNEL_MAX - self.color[2]]
    }

    /// The frames of one tick, in the order in which they are shown. A steady
    /// indicator has one, the colour; a blinking one has the dark frame first.
    pub fn frames(&self) -> (frames: Vec<[u32; 3]>)
        ensures
            frame_views(frames@) == frames_of(self.color(), self.blinking()),
    {
        let mut frames = Vec::new();
        if self.blink {
            frames.push([CHANNEL_MAX, CHANNEL_MAX, CHANNEL_MAX]);
        }
        frames.push(self.duty());
        frames
    }

    /// One tick of the lock's loop. The event that was waiting, if any, is
    /// applied to the lock; then the indicator takes over the lock's state and
    /// gives the frames to show. The indicator blinks in this tick if and only
    /// if the lock is in `ERROR` after the event.
    pub fn tick(&mut self, lock: &mut SmartLock, event: Option<String>) -> (tick: Tick)
        ensures
            final(lock)@ == old(lock)@.poll(event_name(event)),
            final(lock)@.wf(),
            final(lock).channel() == old(lock).channel(),
            follow_up_view(tick.follow_up) == old(lock)@.poll_follow_up(event_name(event)),
            tick.follow_up matches Some(f) ==> (f.tx is Some <==> old(lock).channel() is Some),
            final(self).shows(final(lock)@.state),
            final(self).blinking() <==> final(lock)@.state == State::ERROR,
            frame_views(tick.frames@) == frames_of(
                final(lock)@.state.color(),
                final(lock)@.state == State::ERROR,
            ),
    {
        let follow_up = match event {
            Some(event) => lock.apply_event(event),
            None => None,
        };
        self.observe(lock);
        Tick { follow_up, frames: self.frames() }
    }
}

} // verus!
