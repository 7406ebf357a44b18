//! The LED notifier: maps notification events to blink patterns.
//!
//! The notifier consumes success, error and emergency events and blinks
//! a two-color LED.  This module decides the pattern — how many
//! red/green cycles, how long each phase holds, and the trailing pause —
//! while the driver writes the LED device and sleeps.

use crate::channel::Action;
use vstd::prelude::*;

verus! {

/// Events accepted by the notifier.
pub enum Event {
    /// Something succeeded; `true` asks for the quick variant.
    Success(bool, String),
    /// Something failed but the daemon goes on.
    Error(String),
    /// The daemon cannot go on.
    Emergency(String),
    StartShutdown,
}

/// One blink pattern: `cycles` rounds of red for `red_ms` then green for
/// `green_ms`, followed by a trailing pause.
pub struct BlinkPattern {
    pub cycles: u64,
    pub red_ms: u64,
    pub green_ms: u64,
    pub trailing_ms: u64,
}

/// The notifier's state: where the LED device lives.
pub struct Notify {
    pub led_path: String,
}

impl Notify {
    pub fn new(led_path: String) -> (r: Notify)
        ensures
            r.led_path == led_path,
    {
        Notify { led_path }
    }

    /// Only shutdown preempts pending blinks.
    pub fn is_high_priority(&self, event: &Event) -> (r: bool)
        ensures
            r == (event is StartShutdown),
    {
        match event {
            Event::StartShutdown => true,
            Event::Success(_, _) => false,
            Event::Error(_) => false,
            Event::Emergency(_) => false,
        }
    }

    /// Shutdown halts the loop; every blink continues it.
    pub fn action_for(&self, event: &Event) -> (r: Action)
        ensures
            event is StartShutdown ==> r is Halt,
            !(event is StartShutdown) ==> r is Continue,
    {
        match event {
            Event::StartShutdown => Action::Halt,
            _ => Action::Continue,
        }
    }

    /// The blink pattern for an event: one slow (or quick) cycle for a
    /// success, two medium cycles for an error, nine fast cycles for an
    /// emergency, and nothing for shutdown.
    pub fn blink_pattern(&self, event: &Event) -> (r: Option<BlinkPattern>)
        ensures
            match event {
                Event::Success(quick, _) => r matches Some(p) && p.cycles == 1 && p.red_ms == (
                if *quick {
                    100int
                } else {
                    500int
                }) && p.green_ms == 500 && p.trailing_ms == 0,
                Event::Error(_) => r matches Some(p) && p == (BlinkPattern {
                    cycles: 2u64,
                    red_ms: 250u64,
                    green_ms: 250u64,
                    trailing_ms: 250u64,
                }),
                Event::Emergency(_) => r matches Some(p) && p == (BlinkPattern {
                    cycles: 9u64,
                    red_ms: 100u64,
                    green_ms: 100u64,
                    trailing_ms: 900u64,
                }),
                Event::StartShutdown => r is None,
            },
    {
        match event {
            Event::Success(quick, _) => Some(
                BlinkPattern {
                    cycles: 1,
                    red_ms: if *quick {
                        100
                    } else {
                        500
                    },
                    green_ms: 500,
                    trailing_ms: 0,
                },
            ),
            Event::Error(_) => Some(
                BlinkPattern { cycles: 2, red_ms: 250, green_ms: 250, trailing_ms: 250 },
            ),
            Event::Emergency(_) => Some(
                BlinkPattern { cycles: 9, red_ms: 100, green_ms: 100, trailing_ms: 900 },
            ),
            Event::StartShutdown => None,
        }
    }
}

} // verus!
