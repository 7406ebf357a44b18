//! The HTTP control surface: translates control requests into
//! orchestrator events.
//!
//! The routes themselves — `/game`, `/online`, `/offline`, `/sync` —
//! are served by the driver; this module decides which orchestrator
//! event a game signal maps to, and rejects unknown signals.

use crate::orchestrator;
use crate::paths;
use vstd::prelude::*;

verus! {

broadcast use vstd::string::group_string_axioms;

/// Events accepted by the server task.
pub enum Event {
    StartShutdown,
}

/// The orchestrator event for a `/game` request: `start` begins a play,
/// `end` finishes one, and anything else is rejected with `None` (a bad
/// request).
pub fn game_event_for(event: &str, file: String) -> (r: Option<orchestrator::Event>)
    ensures
        event@ == "start"@ ==> r == Some(orchestrator::Event::GameStarted(file)),
        event@ == "end"@ ==> r == Some(orchestrator::Event::GameEnded(file)),
        event@ != "start"@ && event@ != "end"@ ==> r is None,
{
    proof {
        reveal_strlit("start");
        reveal_strlit("end");
        assert("start"@.len() == 5);
        assert("end"@.len() == 3);
        assert("start"@ != "end"@);
    }
    if paths::str_eq(event, "start") {
        Some(orchestrator::Event::GameStarted(file))
    } else if paths::str_eq(event, "end") {
        Some(orchestrator::Event::GameEnded(file))
    } else {
        None
    }
}

} // verus!
