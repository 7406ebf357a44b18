//! The priority-retry event channel.
//!
//! Every uploader-style component serializes its work through one of
//! these: a single consumer takes events from a queue, hands them to a
//! handler, and interprets the handler's [`Action`].  High-priority
//! events preempt buffered work; a handler asking for a retry puts the
//! event back at the front of the buffer and sets a backoff deadline.
//! This module holds the scheduling state and its transitions; the
//! driver loop around it performs the actual receiving and sleeping.

use std::collections::VecDeque;
use vstd::prelude::*;

verus! {

/// What the handler asks the loop to do after an event.
pub enum Action {
    /// Event done; clear the matching retry counter and go on.
    Continue,
    /// Event done; clear the retry counters (both of them, when
    /// returned on a high-priority event).
    ResetTimeout,
    /// Terminate the loop.
    Halt,
    /// Could not be handled now; try the same event again after a backoff.
    Retry,
}

/// Seconds of backoff per retry: quick while online, slow while offline.
pub open spec fn spec_base_secs(online: bool) -> int {
    if online {
        5
    } else {
        30
    }
}

/// Retry counts beyond 5 wait no longer than the fifth retry.
pub open spec fn spec_capped(retries: int) -> int {
    if retries > 5 {
        5
    } else {
        retries
    }
}

/// One more retry, saturating at the cap.
pub open spec fn spec_bump(retries: int) -> int {
    if retries >= 5 {
        5
    } else {
        retries + 1
    }
}

/// The backoff wait: `retries * base`, capped at five retries and
/// clamped by the time elapsed since the component started.
pub open spec fn spec_backoff(retries: int, online: bool, elapsed: int) -> int {
    let w = spec_capped(retries) * spec_base_secs(online);
    if elapsed < w {
        elapsed
    } else {
        w
    }
}

/// The backoff never waits longer than the component has been running,
/// and never longer than five offline base intervals.
pub proof fn lemma_backoff_clamped(retries: int, online: bool, elapsed: int)
    requires
        0 <= retries,
        0 <= elapsed,
    ensures
        spec_backoff(retries, online, elapsed) <= elapsed,
        spec_backoff(retries, online, elapsed) <= 150,
{
}

/// How the driver should next listen on its queue.
pub enum RecvMode {
    /// Nothing buffered: block until an event arrives.
    Block,
    /// A retry is pending: block until an event arrives or this deadline
    /// (in seconds on the driver's clock) elapses.
    BlockUntil(u64),
    /// Buffered work but no deadline: poll the queue without blocking.
    Poll,
}

/// The scheduling state of one priority-retry consumer.
pub struct Channel<E> {
    /// Normal-priority events whose handling has been deferred, in FIFO
    /// order; a retrying event sits at the front.
    pub buffer: VecDeque<E>,
    /// Absolute deadlines (online, offline) for retrying the event at the
    /// front of the buffer; the applicable one is chosen at wait time.
    pub retry_deadline: Option<(u64, u64)>,
    /// Consecutive retries of the current high-priority event, saturated
    /// at 5.
    pub priority_retries: u64,
    /// Consecutive retries of the front-of-buffer event, saturated at 5.
    pub normal_retries: u64,
    /// Set once a handler returns [`Action::Halt`]; every later
    /// transition is a no-op.
    pub halted: bool,
}

/// How handling a high-priority event changes the state: `Halt` halts,
/// `Retry` bumps the priority counter and yields the backoff wait,
/// anything else clears the priority counter (`ResetTimeout` clears the
/// normal counter too).  A halted channel does not change.
pub open spec fn priority_action_rel<E>(
    pre: Channel<E>,
    post: Channel<E>,
    action: Action,
    online: bool,
    elapsed: int,
    wait: Option<u64>,
) -> bool {
    if pre.halted {
        post == pre && wait is None
    } else {
        match action {
            Action::Continue => post == Channel { priority_retries: 0u64, ..pre } && wait is None,
            Action::ResetTimeout => post == Channel {
                priority_retries: 0u64,
                normal_retries: 0u64,
                ..pre
            } && wait is None,
            Action::Halt => post == Channel { halted: true, ..pre } && wait is None,
            Action::Retry => {
                let bumped = spec_bump(pre.priority_retries as int);
                &&& post == Channel { priority_retries: bumped as u64, ..pre }
                &&& wait == Some(spec_backoff(bumped, online, elapsed) as u64)
            },
        }
    }
}

/// How handling a normal-priority event changes the state.  `Retry` puts
/// the event back at the front of the buffer, bumps the normal counter
/// and records both candidate deadlines; the other actions leave the
/// buffer alone.  A halted channel does not change.
pub open spec fn normal_action_rel<E>(
    pre: Channel<E>,
    post: Channel<E>,
    event: E,
    action: Action,
    now: int,
    elapsed: int,
) -> bool {
    if pre.halted {
        post == pre
    } else {
        match action {
            Action::Continue => post == Channel { normal_retries: 0u64, ..pre },
            Action::ResetTimeout => post == Channel { normal_retries: 0u64, ..pre },
            Action::Halt => post == Channel { halted: true, ..pre },
            Action::Retry => {
                let bumped = spec_bump(pre.normal_retries as int);
                let online_wait = spec_backoff(bumped, true, elapsed);
                let offline_wait = spec_backoff(bumped, false, elapsed);
                &&& post.buffer@ == pre.buffer@.insert(0, event)
                &&& post.retry_deadline == Some(
                    ((now + online_wait) as u64, (now + offline_wait) as u64),
                )
                &&& post.normal_retries == bumped
                &&& post.priority_retries == pre.priority_retries
                &&& post.halted == pre.halted
            },
        }
    }
}

/// How an arriving event is dispatched: a high-priority event is handed
/// straight to the handler (the `immediate` result) ahead of everything
/// buffered, and a normal one joins the back of the buffer.  A halted
/// channel ignores arrivals.
pub open spec fn arrival_rel<E>(
    pre: Channel<E>,
    post: Channel<E>,
    event: E,
    high_priority: bool,
    immediate: Option<E>,
) -> bool {
    if pre.halted {
        post == pre && immediate is None
    } else if high_priority {
        post == pre && immediate == Some(event)
    } else {
        post == Channel { buffer: post.buffer, ..pre } && post.buffer@ == pre.buffer@.push(event)
            && immediate is None
    }
}

impl<E> Channel<E> {
    /// A fresh channel: empty buffer, no deadline, cleared counters.
    pub fn new() -> (c: Channel<E>)
        ensures
            c.buffer@ == Seq::<E>::empty(),
            c.retry_deadline is None,
            c.priority_retries == 0,
            c.normal_retries == 0,
            !c.halted,
    {
        Channel {
            buffer: VecDeque::new(),
            retry_deadline: None,
            priority_retries: 0,
            normal_retries: 0,
            halted: false,
        }
    }

    /// Whether a handler has halted the loop.
    pub fn is_halted(&self) -> (r: bool)
        ensures
            r == self.halted,
    {
        self.halted
    }

    /// The backoff wait in seconds for the given retry count.
    pub fn backoff_wait(retries: u64, online: bool, elapsed_secs: u64) -> (w: u64)
        ensures
            w == spec_backoff(retries as int, online, elapsed_secs as int),
    {
        let capped: u64 = if retries > 5 {
            5
        } else {
            retries
        };
        let base: u64 = if online {
            5
        } else {
            30
        };
        let w = capped * base;
        if elapsed_secs < w {
            elapsed_secs
        } else {
            w
        }
    }

    /// Dispatches an arriving event: high-priority events are returned
    /// for immediate handling even when the buffer is non-empty; normal
    /// events go to the back of the buffer.
    pub fn on_arrival(&mut self, event: E, high_priority: bool) -> (immediate: Option<E>)
        ensures
            arrival_rel(*old(self), *final(self), event, high_priority, immediate),
    {
        if self.halted {
            return None;
        }
        if high_priority {
            Some(event)
        } else {
            self.buffer.push_back(event);
            None
        }
    }

    /// Records the handler's action on a high-priority event.  On
    /// `Retry` the caller must sleep for the returned number of seconds
    /// and then hand the same event to the handler again.
    pub fn on_priority_action(&mut self, action: Action, online: bool, elapsed_secs: u64) -> (wait:
        Option<u64>)
        ensures
            priority_action_rel(*old(self), *final(self), action, online, elapsed_secs as int, wait),
    {
        if self.halted {
            return None;
        }
        match action {
            Action::Continue => {
                self.priority_retries = 0;
                None
            },
            Action::ResetTimeout => {
                self.priority_retries = 0;
                self.normal_retries = 0;
                None
            },
            Action::Halt => {
                self.halted = true;
                None
            },
            Action::Retry => {
                let bumped: u64 = if self.priority_retries >= 5 {
                    5
                } else {
                    self.priority_retries + 1
                };
                self.priority_retries = bumped;
                Some(Self::backoff_wait(bumped, online, elapsed_secs))
            },
        }
    }

    /// Records the handler's action on a normal-priority event.  On
    /// `Retry` the event returns to the front of the buffer — it will be
    /// the next buffered event handled — and both candidate deadlines
    /// are computed from `now_secs` on the driver's clock.
    pub fn on_normal_action(&mut self, event: E, action: Action, now_secs: u64, elapsed_secs: u64)
        requires
            now_secs <= u64::MAX - 150,
        ensures
            normal_action_rel(
                *old(self),
                *final(self),
                event,
                action,
                now_secs as int,
                elapsed_secs as int,
            ),
    {
        if self.halted {
            return ;
        }
        match action {
            Action::Continue => {
                self.normal_retries = 0;
            },
            Action::ResetTimeout => {
                self.normal_retries = 0;
            },
            Action::Halt => {
                self.halted = true;
            },
            Action::Retry => {
                self.buffer.push_front(event);
                let bumped: u64 = if self.normal_retries >= 5 {
                    5
                } else {
                    self.normal_retries + 1
                };
                self.normal_retries = bumped;
                let online_wait = Self::backoff_wait(bumped, true, elapsed_secs);
                let offline_wait = Self::backoff_wait(bumped, false, elapsed_secs);
                proof {
                    lemma_backoff_clamped(bumped as int, true, elapsed_secs as int);
                    lemma_backoff_clamped(bumped as int, false, elapsed_secs as int);
                    assert(self.buffer@ =~= old(self).buffer@.insert(0, event));
                }
                self.retry_deadline = Some((now_secs + online_wait, now_secs + offline_wait));
            },
        }
    }

    /// Clears the retry deadline once it has elapsed with no arrival; the
    /// front-of-buffer event is then due.
    pub fn on_deadline_elapsed(&mut self)
        ensures
            *final(self) == (Channel { retry_deadline: None::<(u64, u64)>, ..*old(self) }),
    {
        self.retry_deadline = None;
    }

    /// Takes the next buffered event for handling.
    pub fn pop_next(&mut self) -> (e: Option<E>)
        ensures
            *final(self) == (Channel { buffer: final(self).buffer, ..*old(self) }),
            old(self).buffer@.len() == 0 ==> (e is None && final(self).buffer@ == old(
                self,
            ).buffer@),
            old(self).buffer@.len() > 0 ==> (e == Some(old(self).buffer@[0]) && final(self).buffer@
                == old(self).buffer@.drop_first()),
    {
        self.buffer.pop_front()
    }

    /// How the driver should wait for its next event: block when nothing
    /// is buffered, block up to the applicable retry deadline when one is
    /// set, and otherwise just poll.
    pub fn recv_mode(&self, online: bool) -> (m: RecvMode)
        ensures
            self.buffer@.len() == 0 ==> m is Block,
            self.buffer@.len() > 0 ==> match self.retry_deadline {
                Some((online_deadline, offline_deadline)) => m == RecvMode::BlockUntil(
                    if online {
                        online_deadline
                    } else {
                        offline_deadline
                    },
                ),
                None => m is Poll,
            },
    {
        if self.buffer.len() == 0 {
            RecvMode::Block
        } else {
            match self.retry_deadline {
                Some((online_deadline, offline_deadline)) => RecvMode::BlockUntil(
                    if online {
                        online_deadline
                    } else {
                        offline_deadline
                    },
                ),
                None => RecvMode::Poll,
            }
        }
    }
}

/// A second shutdown is a no-op: once a handler's `Halt` has halted the
/// channel, every later transition — another shutdown included — leaves
/// the state exactly as it was.
pub proof fn lemma_shutdown_idempotent<E>(
    c0: Channel<E>,
    c1: Channel<E>,
    c2: Channel<E>,
    action: Action,
    online: bool,
    elapsed: int,
    wait: Option<u64>,
)
    requires
        !c0.halted,
        priority_action_rel(c0, c1, Action::Halt, online, elapsed, None::<u64>),
        priority_action_rel(c1, c2, action, online, elapsed, wait),
    ensures
        c1.halted,
        c2 == c1,
        wait is None,
{
}

} // verus!
