//! The intake submitter: turns session lifecycle events into remote
//! create/finish calls that yield or confirm a remote row identifier.
//!
//! The submitter's state is a map from play identifier to the remote
//! rowid already assigned to it, plus an online flag.  For each event,
//! [`Intake::plan`] says which remote call to make; the driver performs
//! the call and reports its outcome to the matching `handle_*` function,
//! which updates the map and says what to send back to the orchestrator.

use crate::channel::Action;
use crate::game::{Language, LanguageView};
use crate::orchestrator;
use std::collections::HashMap;
use vstd::prelude::*;

verus! {

broadcast use vstd::std_specs::hash::group_hash_axioms;

/// Events accepted by the intake submitter.
pub enum Event {
    /// Recovery found a live session already assigned a remote rowid:
    /// seed the map.
    PreviousGame { play_id: i64, intake_id: String },
    /// Create a remote record for a session that has begun.
    SubmitStarted { play_id: i64, game_label: String, language: Language, start_time: u64 },
    /// Confirm the end of a session whose remote record exists.
    SubmitEnded { play_id: i64, intake_id: String, end_time: u64 },
    /// Submit a finished session: a finish when its record exists, a
    /// combined create otherwise.
    SubmitFull {
        play_id: i64,
        game_label: String,
        language: Language,
        start_time: u64,
        end_time: u64,
    },
    IsOnline(bool),
    ForceSync,
    StartShutdown,
}

/// The remote call an event asks for.
#[allow(inconsistent_fields)]
pub enum Plan {
    /// No remote call: the event only changes local state.
    Local,
    /// Create a remote record with these fields; the response carries the
    /// new rowid.
    Create { game_label: String, language_code: String, start_time: u64, end_time: Option<u64> },
    /// Confirm the end time of the record `intake_id`.
    Finish { intake_id: String, end_time: u64 },
}

/// The language name the remote service expects.  A language outside the
/// known three is reported as English.
pub open spec fn spec_intake_code(l: LanguageView) -> Seq<char> {
    match l {
        LanguageView::English => "English"@,
        LanguageView::Japanese => "日本語"@,
        LanguageView::Cantonese => "廣東話"@,
        LanguageView::Other(_) => "English"@,
    }
}

impl Language {
    /// The language name sent to the intake service.
    pub fn intake_str(&self) -> (r: &str)
        ensures
            r@ == spec_intake_code(self@),
    {
        match self {
            Language::English => "English",
            Language::Japanese => "日本語",
            Language::Cantonese => "廣東話",
            Language::Other(_) => "English",
        }
    }
}

/// The intake submitter's state.
pub struct Intake {
    /// Remote rowid already assigned to each play still in flight.
    pub play_to_intake: HashMap<i64, String>,
    pub is_online: bool,
}

impl Intake {
    /// A fresh submitter with an empty map.
    pub fn new(is_online: bool) -> (r: Intake)
        ensures
            r.play_to_intake@ == Map::<i64, String>::empty(),
            r.is_online == is_online,
    {
        Intake { play_to_intake: HashMap::new(), is_online }
    }

    /// Shutdown, online toggles and force-sync preempt buffered
    /// submissions; the submissions themselves are normal priority.
    pub fn is_high_priority(&self, event: &Event) -> (r: bool)
        ensures
            r == match event {
                Event::StartShutdown => true,
                Event::IsOnline(_) => true,
                Event::ForceSync => true,
                _ => false,
            },
    {
        match event {
            Event::StartShutdown => true,
            Event::IsOnline(_) => true,
            Event::ForceSync => true,
            Event::PreviousGame { .. } => false,
            Event::SubmitStarted { .. } => false,
            Event::SubmitEnded { .. } => false,
            Event::SubmitFull { .. } => false,
        }
    }

    /// Which remote call `event` asks for, given the current map: a
    /// started session is created, an ended one finished, and a full
    /// submission is a finish exactly when the map already holds a rowid
    /// for the play.
    pub fn plan(&self, event: &Event) -> (p: Plan)
        ensures
            match event {
                Event::SubmitStarted { game_label, language, start_time, .. } => p matches
                    Plan::Create {
                    game_label: l,
                    language_code: c,
                    start_time: s,
                    end_time: e,
                } && l@ == game_label@ && c@ == spec_intake_code(language@) && s == start_time
                    && e is None,
                Event::SubmitEnded { intake_id, end_time, .. } => p == Plan::Finish {
                    intake_id: *intake_id,
                    end_time: *end_time,
                },
                Event::SubmitFull { play_id, game_label, language, start_time, end_time } => {
                    if self.play_to_intake@.contains_key(*play_id) {
                        p == Plan::Finish {
                            intake_id: self.play_to_intake@[*play_id],
                            end_time: *end_time,
                        }
                    } else {
                        p matches Plan::Create {
                            game_label: l,
                            language_code: c,
                            start_time: s,
                            end_time: e,
                        } && l@ == game_label@ && c@ == spec_intake_code(language@) && s
                            == start_time && e == Some(*end_time)
                    }
                },
                _ => p is Local,
            },
    {
        match event {
            Event::SubmitStarted { game_label, language, start_time, .. } => Plan::Create {
                game_label: game_label.clone(),
                language_code: language.intake_str().to_owned(),
                start_time: *start_time,
                end_time: None,
            },
            Event::SubmitEnded { intake_id, end_time, .. } => Plan::Finish {
                intake_id: intake_id.clone(),
                end_time: *end_time,
            },
            Event::SubmitFull { play_id, game_label, language, start_time, end_time } => {
                match self.play_to_intake.get(play_id) {
                    Some(intake_id) => Plan::Finish {
                        intake_id: intake_id.clone(),
                        end_time: *end_time,
                    },
                    None => Plan::Create {
                        game_label: game_label.clone(),
                        language_code: language.intake_str().to_owned(),
                        start_time: *start_time,
                        end_time: Some(*end_time),
                    },
                }
            },
            _ => Plan::Local,
        }
    }

    /// Seeds the map with a rowid recovered from the local database.
    pub fn handle_previous_game(&mut self, play_id: i64, intake_id: String) -> (r: Action)
        ensures
            final(self).play_to_intake@ == old(self).play_to_intake@.insert(play_id, intake_id),
            final(self).is_online == old(self).is_online,
            r is Continue,
    {
        self.play_to_intake.insert(play_id, intake_id);
        Action::Continue
    }

    /// Adopts an explicit online/offline report.
    pub fn handle_is_online(&mut self, online: bool) -> (r: Action)
        ensures
            final(self).is_online == online,
            final(self).play_to_intake == old(self).play_to_intake,
            r is Continue,
    {
        self.is_online = online;
        Action::Continue
    }

    /// A forced sync assumes the network is back and clears all backoff.
    pub fn handle_force_sync(&mut self) -> (r: Action)
        ensures
            final(self).is_online,
            final(self).play_to_intake == old(self).play_to_intake,
            r is ResetTimeout,
    {
        self.is_online = true;
        Action::ResetTimeout
    }

    /// Shutdown halts the loop; the state is left as it is.
    pub fn handle_start_shutdown(&self) -> (r: Action)
        ensures
            r is Halt,
    {
        Action::Halt
    }

    /// Applies the outcome of the create call for a started session:
    /// on success the new rowid is recorded and reported back to the
    /// orchestrator with the submission instant; on failure the event is
    /// retried and nothing changes.
    pub fn handle_submit_started(&mut self, play_id: i64, outcome: Option<(String, u64)>) -> (r: (
        Action,
        Option<orchestrator::Event>,
    ))
        ensures
            match outcome {
                Some((rowid, submitted)) => {
                    &&& final(self).play_to_intake@ == old(self).play_to_intake@.insert(
                        play_id,
                        rowid,
                    )
                    &&& r.0 is Continue
                    &&& r.1 == Some(
                        orchestrator::Event::IntakeStarted {
                            play_id,
                            intake_id: rowid,
                            submitted_start: submitted,
                        },
                    )
                },
                None => {
                    &&& *final(self) == *old(self)
                    &&& r.0 is Retry
                    &&& r.1 is None
                },
            },
            final(self).is_online == old(self).is_online,
    {
        match outcome {
            Some((rowid, submitted)) => {
                self.play_to_intake.insert(play_id, rowid.clone());
                let msg = orchestrator::Event::IntakeStarted {
                    play_id,
                    intake_id: rowid,
                    submitted_start: submitted,
                };
                (Action::Continue, Some(msg))
            },
            None => (Action::Retry, None),
        }
    }

    /// Applies the outcome of the finish call for an ended session: on
    /// success the play leaves the map and the confirmed end is reported;
    /// on failure the event is retried and nothing changes.
    pub fn handle_submit_ended(&mut self, play_id: i64, outcome: Option<u64>) -> (r: (
        Action,
        Option<orchestrator::Event>,
    ))
        ensures
            match outcome {
                Some(submitted) => {
                    &&& final(self).play_to_intake@ == old(self).play_to_intake@.remove(play_id)
                    &&& r.0 is Continue
                    &&& r.1 == Some(
                        orchestrator::Event::IntakeEnded { play_id, submitted_end: submitted },
                    )
                },
                None => {
                    &&& *final(self) == *old(self)
                    &&& r.0 is Retry
                    &&& r.1 is None
                },
            },
            final(self).is_online == old(self).is_online,
    {
        match outcome {
            Some(submitted) => {
                self.play_to_intake.remove(&play_id);
                let msg = orchestrator::Event::IntakeEnded { play_id, submitted_end: submitted };
                (Action::Continue, Some(msg))
            },
            None => (Action::Retry, None),
        }
    }

    /// Applies the outcome of the combined create call for a full
    /// submission (the play had no rowid yet).  The same instant confirms
    /// both halves.  The map is not touched: the play is already over.
    pub fn handle_submit_full_created(&mut self, play_id: i64, outcome: Option<(String, u64)>)
        -> (r: (Action, Option<orchestrator::Event>))
        ensures
            *final(self) == *old(self),
            match outcome {
                Some((rowid, submitted)) => {
                    &&& r.0 is Continue
                    &&& r.1 == Some(
                        orchestrator::Event::IntakeFull {
                            play_id,
                            intake_id: rowid,
                            submitted_start: submitted,
                            submitted_end: submitted,
                        },
                    )
                },
                None => r.0 is Retry && r.1 is None,
            },
    {
        match outcome {
            Some((rowid, submitted)) => {
                let msg = orchestrator::Event::IntakeFull {
                    play_id,
                    intake_id: rowid,
                    submitted_start: submitted,
                    submitted_end: submitted,
                };
                (Action::Continue, Some(msg))
            },
            None => (Action::Retry, None),
        }
    }

    /// Accepts a response envelope from the intake service: a non-null
    /// error means failure even on a 2xx status, and success requires
    /// both a message and an object with the rowid.
    pub fn accept_response(
        message: Option<String>,
        error: Option<String>,
        object_rowid: Option<String>,
    ) -> (r: Option<String>)
        ensures
            r == if error is None && message is Some && object_rowid is Some {
                object_rowid
            } else {
                None::<String>
            },
    {
        if error.is_none() && message.is_some() {
            object_rowid
        } else {
            None
        }
    }
}

} // verus!
