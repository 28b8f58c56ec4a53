//! Which event a notice from the command source injects into the lock.

use vstd::prelude::*;
use vstd::string::StringExecFns;
use crate::device::READY;
use crate::model::event_name;

verus! {

/// What the connection to the command source reports.
pub enum Notice {
    /// The connection is up.
    Connected,
    /// The subscription to the command topic is confirmed.
    Subscribed,
    /// A message of ours went out.
    Published,
    /// A command came in, with its text.
    Received(String),
    /// Anything else.
    Other,
}

/// The event that `notice` injects: `READY` once the subscription stands, the
/// text of a command that is not empty, and nothing otherwise.
pub open spec fn spec_event_for(notice: Notice) -> Option<Seq<char>> {
    match notice {
        Notice::Subscribed => Some(READY@),
        Notice::Received(text) => if text@.len() > 0 {
            Some(text@)
        } else {
            None
        },
        _ => None,
    }
}

/// The event that `notice` injects into the lock. A command is passed on as
/// it is, known to the lock or not: the lock ignores what it has no
/// transition for.
pub fn event_for(notice: Notice) -> (event: Option<String>)
    ensures
        event_name(event) == spec_event_for(notice),
{
    match notice {
        Notice::Subscribed => Some(String::from_str(READY)),
        Notice::Received(text) => if text.as_str().is_empty() {
            None
        } else {
            Some(text)
        },
        _ => None,
    }
}

} // verus!
