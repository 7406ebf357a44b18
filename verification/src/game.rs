//! The domain records: games and play sessions.

use vstd::prelude::*;

verus! {

/// The language a game is played in.
pub enum Language {
    English,
    Japanese,
    Cantonese,
    Other(String),
}

/// The mathematical value of a [`Language`].
pub enum LanguageView {
    English,
    Japanese,
    Cantonese,
    Other(Seq<char>),
}

impl View for Language {
    type V = LanguageView;

    open spec fn view(&self) -> LanguageView {
        match self {
            Language::English => LanguageView::English,
            Language::Japanese => LanguageView::Japanese,
            Language::Cantonese => LanguageView::Cantonese,
            Language::Other(s) => LanguageView::Other(s@),
        }
    }
}

impl Clone for Language {
    fn clone(&self) -> (res: Self)
        ensures
            res == *self,
    {
        match self {
            Language::English => Language::English,
            Language::Japanese => Language::Japanese,
            Language::Cantonese => Language::Cantonese,
            Language::Other(s) => Language::Other(s.clone()),
        }
    }
}

/// Read-only reference data for one game, keyed by its filesystem path.
pub struct Game {
    pub id: i64,
    /// Canonical filesystem path of the game, unique per game.
    pub path: String,
    /// Remote-side directory identifier for artifacts of this game.
    pub directory: String,
    pub language: Language,
    /// Human-readable name.
    pub label: String,
}

impl Clone for Game {
    fn clone(&self) -> (res: Self)
        ensures
            res == *self,
    {
        Game {
            id: self.id,
            path: self.path.clone(),
            directory: self.directory.clone(),
            language: self.language.clone(),
            label: self.label.clone(),
        }
    }
}

/// One recorded play session of a single game.
pub struct Play {
    pub id: i64,
    pub game: Game,
    /// Unix seconds at which the session began.
    pub start_time: u64,
    /// Unix seconds at which the session ended; `None` while live.
    pub end_time: Option<u64>,
    /// Remote-assigned row identifier; `None` until intake creation
    /// succeeds, and never changed once set.
    pub intake_id: Option<String>,
    /// Unix seconds at which intake confirmed the start half.
    pub submitted_start: Option<u64>,
    /// Unix seconds at which intake confirmed the end half; a play with
    /// this set is terminal.
    pub submitted_end: Option<u64>,
    /// Plays marked skipped are excluded from backlog recovery.
    pub skipped: bool,
}

impl Play {
    /// The intake bookkeeping invariant: the start half is confirmed
    /// exactly when a remote row exists, and a confirmed end half
    /// presupposes both.
    pub open spec fn wf(&self) -> bool {
        &&& self.submitted_start is Some <==> self.intake_id is Some
        &&& self.submitted_end is Some ==> self.intake_id is Some && self.submitted_start is Some
    }
}

impl Clone for Play {
    fn clone(&self) -> (res: Self)
        ensures
            res == *self,
    {
        Play {
            id: self.id,
            game: self.game.clone(),
            start_time: self.start_time,
            end_time: self.end_time,
            intake_id: match &self.intake_id {
                Some(s) => Some(s.clone()),
                None => None,
            },
            submitted_start: self.submitted_start,
            submitted_end: self.submitted_end,
            skipped: self.skipped,
        }
    }
}

} // verus!
