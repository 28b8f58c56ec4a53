//! Operating modes of the lock and the colour that displays each of them.

use vstd::prelude::*;

verus! {

/// Operating mode of the lock. Exactly one is current at any instant.
#[derive(Copy, Clone, Debug, PartialEq, Eq, Hash, Structural)]
pub enum State {
    /// Not yet initialised: the mode a new lock starts in.
    NONE,
    /// Bringing up its connections.
    INITIALIZING,
    /// Something failed; the lock remembers which event brought it here.
    ERROR,
    /// Stable: the bolt is closed.
    LOCKED,
    /// In transit towards `LOCKED`.
    LOCKING,
    /// Stable: the bolt is open.
    UNLOCKED,
    /// In transit towards `UNLOCKED`.
    UNLOCKING,
}

/// Highest intensity of a colour channel.
pub const CHANNEL_MAX: u32 = 255;

/// A colour as a sequence of red, green and blue intensities.
pub open spec fn rgb(red: u32, green: u32, blue: u32) -> Seq<u32> {
    seq![red, green, blue]
}

/// A colour has three channels, none brighter than `CHANNEL_MAX`.
pub open spec fn is_color(c: Seq<u32>) -> bool {
    &&& c.len() == 3
    &&& c[0] <= CHANNEL_MAX
    &&& c[1] <= CHANNEL_MAX
    &&& c[2] <= CHANNEL_MAX
}

/// Sets `color` to red.
pub fn make_red(color: &mut [u32; 3])
    ensures
        final(color)@ == rgb(255, 0, 0),
{
    color[0] = 255;
    color[1] = 0;
    color[2] = 0;
}

/// Sets `color` to green.
pub fn make_green(color: &mut [u32; 3])
    ensures
        final(color)@ == rgb(0, 255, 0),
{
    color[0] = 0;
    color[1] = 255;
    color[2] = 0;
}

/// Sets `color` to blue.
pub fn make_blue(color: &mut [u32; 3])
    ensures
        final(color)@ == rgb(0, 0, 255),
{
    color[0] = 0;
    color[1] = 0;
    color[2] = 255;
}

/// Sets `color` to yellow.
pub fn make_yellow(color: &mut [u32; 3])
    ensures
        final(color)@ == rgb(255, 255, 0),
{
    color[0] = 255;
    color[1] = 255;
    color[2] = 0;
}

/// Sets `color` to orange.
pub fn make_orange(color: &mut [u32; 3])
    ensures
        final(color)@ == rgb(255, 140, 0),
{
    color[0] = 255;
    color[1] = 140;
    color[2] = 0;
}

/// Sets `color` to white.
pub fn make_white(color: &mut [u32; 3])
    ensures
        final(color)@ == rgb(255, 255, 255),
{
    color[0] = 255;
    color[1] = 255;
    color[2] = 255;
}

impl State {
    /// The colour that displays this mode.
    pub open spec fn color(self) -> Seq<u32> {
        match self {
            State::NONE => rgb(0, 0, 0),
            State::INITIALIZING => rgb(0, 0, 255),
            State::ERROR => rgb(255, 0, 0),
            State::LOCKED => rgb(0, 255, 0),
            State::LOCKING => rgb(255, 255, 0),
            State::UNLOCKED => rgb(255, 0, 0),
            State::UNLOCKING => rgb(255, 255, 0),
        }
    }

    /// Writes the colour of this mode into `color`.
    pub fn get_color(self, color: &mut [u32; 3])
        ensures
            final(color)@ == self.color(),
            is_color(final(color)@),
    {
        match self {
            State::NONE => {
                color[0] = 0;
                color[1] = 0;
                color[2] = 0;
            },
            State::INITIALIZING => make_blue(color),
            State::ERROR => make_red(color),
            State::LOCKED => make_green(color),
            State::LOCKING => make_yellow(color),
            State::UNLOCKED => make_red(color),
            State::UNLOCKING => make_yellow(color),
        }
    }

    /// The position of this mode in the declaration, from 0.
    pub open spec fn spec_code(self) -> u8 {
        match self {
            State::NONE => 0,
            State::INITIALIZING => 1,
            State::ERROR => 2,
            State::LOCKED => 3,
            State::LOCKING => 4,
            State::UNLOCKED => 5,
            State::UNLOCKING => 6,
        }
    }

    /// The position of this mode in the declaration, from 0. Distinct modes
    /// have distinct codes, so a code can stand for its mode as a key.
    #[verifier::when_used_as_spec(spec_code)]
    pub fn code(self) -> (code: u8)
        ensures
            code == self.spec_code(),
            code < 7,
    {
        match self {
            State::NONE => 0,
            State::INITIALIZING => 1,
            State::ERROR => 2,
            State::LOCKED => 3,
            State::LOCKING => 4,
            State::UNLOCKED => 5,
            State::UNLOCKING => 6,
        }
    }

    /// The name of this mode, as it is written in status messages.
    pub open spec fn spec_name(self) -> Seq<char> {
        match self {
            State::NONE => "NONE"@,
            State::INITIALIZING => "INITIALIZING"@,
            State::ERROR => "ERROR"@,
            State::LOCKED => "LOCKED"@,
            State::LOCKING => "LOCKING"@,
            State::UNLOCKED => "UNLOCKED"@,
            State::UNLOCKING => "UNLOCKING"@,
        }
    }

    /// The name of this mode, as it is written in status messages.
    pub fn name(self) -> (name: &'static str)
        ensures
            name@ == self.spec_name(),
    {
        match self {
            State::NONE => "NONE",
            State::INITIALIZING => "INITIALIZING",
            State::ERROR => "ERROR",
            State::LOCKED => "LOCKED",
            State::LOCKING => "LOCKING",
            State::UNLOCKED => "UNLOCKED",
            State::UNLOCKING => "UNLOCKING",
        }
    }
}

/// Every mode has a colour of its own kind: three channels within range.
pub proof fn lemma_every_state_has_a_color(s: State)
    ensures
        is_color(s.color()),
{
}

/// Distinct modes have distinct codes.
pub proof fn lemma_code_is_injective(a: State, b: State)
    ensures
        a.spec_code() == b.spec_code() <==> a == b,
{
}

} // verus!
