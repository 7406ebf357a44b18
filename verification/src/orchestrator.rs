//! The orchestrator: the central session state machine.
//!
//! It owns the current and previous play, reacts to game start/end
//! signals, screenshot and save-file creation, and intake
//! acknowledgements, and decides what to persist, which directories and
//! destinations to use, and which events to hand to the uploaders.  The
//! driver loop around it performs the filesystem, database and queue
//! operations these decisions call for.

use crate::game::Play;
use crate::intake;
use crate::notify;
use crate::paths;
use crate::saves;
use crate::screenshots;
use crate::server;
use crate::watcher;
use vstd::prelude::*;

verus! {

/// Events accepted by the orchestrator.
pub enum Event {
    /// A game began; the payload is the raw path reported by the host.
    GameStarted(String),
    /// A game ended.
    GameEnded(String),
    /// A screenshot file finished writing.
    ScreenshotCreated(String),
    /// A save file finished writing.
    SaveFileCreated(String),
    /// Intake confirmed the start half of a play.
    IntakeStarted { play_id: i64, intake_id: String, submitted_start: u64 },
    /// Intake confirmed the end half of a play.
    IntakeEnded { play_id: i64, submitted_end: u64 },
    /// Intake confirmed both halves at once.
    IntakeFull { play_id: i64, intake_id: String, submitted_start: u64, submitted_end: u64 },
    /// An online/offline observation to fan out to the uploaders.
    IsOnline(bool),
    /// Clear every uploader's backoff and assume the network is back.
    ForceSync,
    /// Begin the cooperative shutdown.
    StartShutdown,
}

/// The orchestrator's state: the two play slots and the configured
/// filesystem layout.
pub struct Orchestrator {
    /// Directory of screenshots awaiting upload, one subdirectory per
    /// game directory identifier.
    pub pending_screenshots: String,
    /// Directory of save files awaiting upload.
    pub pending_saves: String,
    /// Permanent local retention for saves; written, never read back.
    pub keep_saves: String,
    /// Bucket for screenshots that arrive with no play to attach to.
    pub extra_directory: String,
    /// Hard link to the most recent screenshot.
    pub latest_screenshot: String,
    /// Prefix stripped from raw game paths, when configured.
    pub trim_game_prefix: Option<String>,
    /// The play new artifacts attach to.
    pub current_play: Option<Play>,
    /// The previous play, one slot back.
    pub previous_play: Option<Play>,
}

impl Orchestrator {
    /// The play that artifacts should associate with: the current play,
    /// or failing that the previous one.
    pub open spec fn spec_playing(&self) -> Option<Play> {
        if self.current_play is Some {
            self.current_play
        } else {
            self.previous_play
        }
    }

    /// The raw path with the configured prefix stripped; `None` when a
    /// prefix is configured but does not match.
    pub open spec fn spec_trim_game_path(&self, path: Seq<char>) -> Option<Seq<char>> {
        match self.trim_game_prefix {
            Some(pre) => paths::spec_strip_prefix(path, pre@),
            None => Some(path),
        }
    }

    /// A fresh orchestrator around the configured layout, with the play
    /// recovered from the database (if any) as the current play.
    pub fn new(
        pending_screenshots: String,
        pending_saves: String,
        keep_saves: String,
        extra_directory: String,
        latest_screenshot: String,
        trim_game_prefix: Option<String>,
        recovered_play: Option<Play>,
    ) -> (r: Orchestrator)
        ensures
            r.pending_screenshots == pending_screenshots,
            r.pending_saves == pending_saves,
            r.keep_saves == keep_saves,
            r.extra_directory == extra_directory,
            r.latest_screenshot == latest_screenshot,
            r.trim_game_prefix == trim_game_prefix,
            r.current_play == recovered_play,
            r.previous_play is None,
    {
        Orchestrator {
            pending_screenshots,
            pending_saves,
            keep_saves,
            extra_directory,
            latest_screenshot,
            trim_game_prefix,
            current_play: recovered_play,
            previous_play: None,
        }
    }

    /// The play that artifacts should associate with.
    pub fn playing(&self) -> (r: Option<&Play>)
        ensures
            match r {
                Some(p) => self.spec_playing() == Some(*p),
                None => self.spec_playing() is None,
            },
    {
        match &self.current_play {
            Some(p) => Some(p),
            None => match &self.previous_play {
                Some(p) => Some(p),
                None => None,
            },
        }
    }

    /// Whether a play is currently live in the current slot.
    pub fn has_current_play(&self) -> (r: bool)
        ensures
            r == (self.current_play is Some),
    {
        self.current_play.is_some()
    }

    /// The identifier of the current play, for targeted persistence.
    pub fn current_play_id(&self) -> (r: Option<i64>)
        ensures
            match self.current_play {
                Some(p) => r == Some(p.id),
                None => r is None,
            },
    {
        match &self.current_play {
            Some(p) => Some(p.id),
            None => None,
        }
    }

    /// Strips the configured prefix from a raw game path.  `None` asks
    /// the caller to report the mismatch and drop the event.
    pub fn trim_game_path(&self, path: &str) -> (r: Option<String>)
        ensures
            r matches Some(p) ==> self.spec_trim_game_path(path@) == Some(p@),
            r is None ==> self.spec_trim_game_path(path@) is None,
    {
        match &self.trim_game_prefix {
            Some(prefix) => paths::strip_path_prefix(path, prefix.as_str()),
            None => Some(path.to_owned()),
        }
    }

    /// Installs `play` as the current play, moving any prior current
    /// play one slot back, and says which play id to persist as the
    /// currently-playing singleton.
    pub fn set_current_play(&mut self, play: Option<Play>) -> (persist: Option<i64>)
        ensures
            final(self).current_play == play,
            old(self).current_play is Some ==> final(self).previous_play == old(self).current_play,
            old(self).current_play is None ==> final(self).previous_play == old(self).previous_play,
            final(self).config_unchanged(*old(self)),
            persist == match final(self).current_play {
                Some(p) => Some(p.id),
                None => None::<i64>,
            },
    {
        let persist = match &play {
            Some(p) => Some(p.id),
            None => None,
        };
        if self.current_play.is_some() {
            self.previous_play = self.current_play.take();
        }
        self.current_play = play;
        persist
    }

    /// The configuration fields are never touched by event handling.
    pub open spec fn config_unchanged(&self, old_self: Orchestrator) -> bool {
        &&& self.pending_screenshots == old_self.pending_screenshots
        &&& self.pending_saves == old_self.pending_saves
        &&& self.keep_saves == old_self.keep_saves
        &&& self.extra_directory == old_self.extra_directory
        &&& self.latest_screenshot == old_self.latest_screenshot
        &&& self.trim_game_prefix == old_self.trim_game_prefix
    }

    /// Commits a freshly started play: it becomes the current play (the
    /// prior one moves back a slot), its id is persisted as the
    /// singleton, its start is submitted to intake, and the three
    /// per-game directories are prepared.
    pub fn game_started_commit(&mut self, trimmed: &str, play: Play) -> (r: GameStartPlan)
        requires
            play.game.path@ == trimmed@,
        ensures
            final(self).current_play == Some(play),
            old(self).current_play is Some ==> final(self).previous_play == old(self).current_play,
            old(self).current_play is None ==> final(self).previous_play == old(self).previous_play,
            final(self).config_unchanged(*old(self)),
            r.persist_play_id == play.id,
            r.submit == (intake::Event::SubmitStarted {
                play_id: play.id,
                game_label: play.game.label,
                language: play.game.language,
                start_time: play.start_time,
            }),
            r.screenshot_dir@ == paths::spec_path_join(
                old(self).pending_screenshots@,
                play.game.directory@,
            ),
            r.pending_save_dir@ == paths::spec_set_last_extension(
                paths::spec_path_join(old(self).pending_saves@, trimmed@),
                Seq::<char>::empty(),
            ),
            r.keep_save_dir@ == paths::spec_set_last_extension(
                paths::spec_path_join(old(self).keep_saves@, trimmed@),
                Seq::<char>::empty(),
            ),
    {
        let submit = intake::Event::SubmitStarted {
            play_id: play.id,
            game_label: play.game.label.clone(),
            language: play.game.language.clone(),
            start_time: play.start_time,
        };
        let play_id = play.id;
        let screenshot_dir = paths::path_join(
            self.pending_screenshots.as_str(),
            play.game.directory.as_str(),
        );
        self.set_current_play(Some(play));
        let mut pending_save_dir = paths::path_join(self.pending_saves.as_str(), trimmed);
        paths::set_last_extension(&mut pending_save_dir, "");
        let mut keep_save_dir = paths::path_join(self.keep_saves.as_str(), trimmed);
        paths::set_last_extension(&mut keep_save_dir, "");
        proof {
            reveal_strlit("");
            assert(""@ =~= Seq::<char>::empty());
        }
        GameStartPlan {
            persist_play_id: play_id,
            submit,
            screenshot_dir,
            pending_save_dir,
            keep_save_dir,
        }
    }

    /// Whether a game-ended signal matches the current play: there is
    /// one, and it plays the game at the trimmed path.
    pub fn game_ended_matches(&self, trimmed: &str) -> (r: bool)
        ensures
            r == (self.current_play matches Some(p) && p.game.path@ == trimmed@),
    {
        match &self.current_play {
            Some(p) => paths::str_eq(p.game.path.as_str(), trimmed),
            None => false,
        }
    }

    /// Commits the end of the current play: its end time is recorded and
    /// the full session is submitted to intake.  The play stays in the
    /// current slot, so later screenshots and saves still attach to it
    /// until a new game starts.
    pub fn game_ended_commit(&mut self, end_time: u64) -> (r: (i64, intake::Event))
        requires
            self.current_play is Some,
        ensures
            old(self).current_play matches Some(p) ==> {
                &&& final(self).current_play == Some((Play { end_time: Some(end_time), ..p }))
                &&& r.0 == p.id
                &&& r.1 == (intake::Event::SubmitFull {
                    play_id: p.id,
                    game_label: p.game.label,
                    language: p.game.language,
                    start_time: p.start_time,
                    end_time,
                })
            },
            final(self).previous_play == old(self).previous_play,
            final(self).config_unchanged(*old(self)),
    {
        let (play_id, submit, updated) = match &self.current_play {
            Some(p) => {
                let submit = intake::Event::SubmitFull {
                    play_id: p.id,
                    game_label: p.game.label.clone(),
                    language: p.game.language.clone(),
                    start_time: p.start_time,
                    end_time,
                };
                let copy = p.clone();
                (p.id, submit, Play { end_time: Some(end_time), ..copy })
            },
            None => {
                proof {
                    assert(false);
                }
                vstd::pervasive::unreached()
            },
        };
        self.current_play = Some(updated);
        (play_id, submit)
    }

    /// Where a fresh screenshot should go: with a play on record, into
    /// that game's pending directory under a timestamp name with the
    /// source extension (`png` when it has none); with no play at all,
    /// into the extra bucket under its own name, and without touching
    /// any play state.
    pub fn screenshot_plan(&self, path: &str, now_millis: &str) -> (r: ScreenshotPlan)
        ensures
            match self.spec_playing() {
                Some(p) => r matches ScreenshotPlan::ToGame { destination, directory } && ({
                    let ext = match paths::spec_last_extension(path@) {
                        Some(e) => e,
                        None => "png"@,
                    };
                    &&& destination@ == paths::spec_set_last_extension(
                        paths::spec_path_join(
                            paths::spec_path_join(self.pending_screenshots@, p.game.directory@),
                            now_millis@,
                        ),
                        ext,
                    )
                    &&& directory@ == p.game.directory@
                }),
                None => r matches ScreenshotPlan::ToExtra { destination } && destination@
                    == paths::spec_path_join(self.extra_directory@, paths::spec_basename(path@)),
            },
    {
        match self.playing() {
            Some(p) => {
                let dir = paths::path_join(
                    self.pending_screenshots.as_str(),
                    p.game.directory.as_str(),
                );
                let mut destination = paths::path_join(dir.as_str(), now_millis);
                match paths::last_extension(path) {
                    Some(e) => {
                        let ext = e.to_owned();
                        paths::set_last_extension(&mut destination, ext.as_str());
                    },
                    None => {
                        paths::set_last_extension(&mut destination, "png");
                    },
                }
                ScreenshotPlan::ToGame { destination, directory: p.game.directory.clone() }
            },
            None => {
                let name = paths::basename(path);
                ScreenshotPlan::ToExtra {
                    destination: paths::path_join(self.extra_directory.as_str(), name),
                }
            },
        }
    }

    /// Where a fresh save file and its snapshot companion should go.
    /// The relative directory is the trimmed game path shorn of its full
    /// extension; the file name is the date with the save's full
    /// extension; the snapshot companions carry the same name with a
    /// `png` last extension.  A file without an extension, or outside
    /// the configured prefix, is rejected.
    pub fn save_plan(&self, path: &str, today: &str) -> (r: Result<SavePlan, SavePlanError>)
        ensures
            paths::spec_full_extension(path@) is None ==> r == Err::<SavePlan, _>(
                SavePlanError::NoExtension,
            ),
            paths::spec_full_extension(path@) is Some && self.spec_trim_game_path(path@) is None
                ==> r == Err::<SavePlan, _>(SavePlanError::PrefixMismatch),
            paths::spec_full_extension(path@) matches Some(ext)
                ==> self.spec_trim_game_path(path@) matches Some(trimmed) ==> ({
                let rel = paths::spec_remove_full_extension(trimmed);
                let target = paths::spec_set_last_extension(
                    paths::spec_path_join(rel, today@),
                    ext,
                );
                &&& r matches Ok(plan)
                &&& plan.relative_directory@ == rel
                &&& plan.pending_save_destination@ == paths::spec_path_join(
                    self.pending_saves@,
                    target,
                )
                &&& plan.keep_save_destination@ == paths::spec_path_join(self.keep_saves@, target)
                &&& plan.pending_screenshot_destination@ == paths::spec_set_last_extension(
                    paths::spec_path_join(self.pending_saves@, target),
                    "png"@,
                )
                &&& plan.keep_screenshot_destination@ == paths::spec_set_last_extension(
                    paths::spec_path_join(self.keep_saves@, target),
                    "png"@,
                )
            }),
    {
        let ext = match paths::full_extension(path) {
            Some(e) => e.to_owned(),
            None => {
                return Err(SavePlanError::NoExtension);
            },
        };
        let mut rel = match self.trim_game_path(path) {
            Some(t) => t,
            None => {
                return Err(SavePlanError::PrefixMismatch);
            },
        };
        paths::remove_full_extension(&mut rel);
        let mut target = paths::path_join(rel.as_str(), today);
        paths::set_last_extension(&mut target, ext.as_str());
        let pending_save_destination = paths::path_join(
            self.pending_saves.as_str(),
            target.as_str(),
        );
        let keep_save_destination = paths::path_join(self.keep_saves.as_str(), target.as_str());
        let mut pending_screenshot_destination = pending_save_destination.clone();
        paths::set_last_extension(&mut pending_screenshot_destination, "png");
        let mut keep_screenshot_destination = keep_save_destination.clone();
        paths::set_last_extension(&mut keep_screenshot_destination, "png");
        Ok(
            SavePlan {
                relative_directory: rel,
                pending_save_destination,
                keep_save_destination,
                pending_screenshot_destination,
                keep_screenshot_destination,
            },
        )
    }

    /// Adopts intake's confirmation of the start half: the current play
    /// learns its rowid and instant when it is the one confirmed; the
    /// matching database write targets `play_id` either way.
    pub fn apply_intake_started(&mut self, play_id: i64, intake_id: String, submitted_start: u64)
        ensures
            old(self).current_play matches Some(p) ==> p.id == play_id ==> final(self).current_play == Some(
                (Play {
                    intake_id: Some(intake_id),
                    submitted_start: Some(submitted_start),
                    ..p
                }),
            ),
            !(old(self).current_play matches Some(p) && p.id == play_id) ==> final(self).current_play == old(self).current_play,
            final(self).previous_play == old(self).previous_play,
            final(self).config_unchanged(*old(self)),
            old(self).current_play matches Some(p) ==> p.id == play_id ==> (
            final(self).current_play matches Some(q) && q.wf()),
    {
        match &mut self.current_play {
            Some(p) => {
                if p.id == play_id {
                    p.intake_id = Some(intake_id);
                    p.submitted_start = Some(submitted_start);
                }
            },
            None => {},
        }
    }

    /// Adopts intake's confirmation of the end half.
    pub fn apply_intake_ended(&mut self, play_id: i64, submitted_end: u64)
        ensures
            old(self).current_play matches Some(p) ==> p.id == play_id ==> final(self).current_play == Some((Play { submitted_end: Some(submitted_end), ..p })),
            !(old(self).current_play matches Some(p) && p.id == play_id) ==> final(self).current_play == old(self).current_play,
            final(self).previous_play == old(self).previous_play,
            final(self).config_unchanged(*old(self)),
    {
        match &mut self.current_play {
            Some(p) => {
                if p.id == play_id {
                    p.submitted_end = Some(submitted_end);
                }
            },
            None => {},
        }
    }

    /// Adopts intake's combined confirmation of both halves.
    pub fn apply_intake_full(
        &mut self,
        play_id: i64,
        intake_id: String,
        submitted_start: u64,
        submitted_end: u64,
    )
        ensures
            old(self).current_play matches Some(p) ==> p.id == play_id ==> final(self).current_play == Some(
                (Play {
                    intake_id: Some(intake_id),
                    submitted_start: Some(submitted_start),
                    submitted_end: Some(submitted_end),
                    ..p
                }),
            ),
            !(old(self).current_play matches Some(p) && p.id == play_id) ==> final(self).current_play == old(self).current_play,
            final(self).previous_play == old(self).previous_play,
            final(self).config_unchanged(*old(self)),
            old(self).current_play matches Some(p) ==> p.id == play_id ==> (
            final(self).current_play matches Some(q) && q.wf()),
    {
        match &mut self.current_play {
            Some(p) => {
                if p.id == play_id {
                    p.intake_id = Some(intake_id);
                    p.submitted_start = Some(submitted_start);
                    p.submitted_end = Some(submitted_end);
                }
            },
            None => {},
        }
    }
}

/// What starting a play asks the driver to do besides updating state.
pub struct GameStartPlan {
    /// The play id to persist as the currently-playing singleton.
    pub persist_play_id: i64,
    /// The submission to hand to the intake queue.
    pub submit: intake::Event,
    /// Directory to create for this game's pending screenshots.
    pub screenshot_dir: String,
    /// Directory to create for this game's pending saves.
    pub pending_save_dir: String,
    /// Directory to create for this game's kept saves.
    pub keep_save_dir: String,
}

/// Where a fresh screenshot goes.
pub enum ScreenshotPlan {
    /// Move it into the game's pending directory and upload it from
    /// there; the latest-screenshot link is refreshed to point at it.
    ToGame { destination: String, directory: String },
    /// No play to attach to: move it to the extra bucket and upload it
    /// from there.
    ToExtra { destination: String },
}

/// Why a save file could not be planned.
#[derive(Debug)]
pub enum SavePlanError {
    /// Its basename has no extension to carry over.
    NoExtension,
    /// It lies outside the configured game-path prefix.
    PrefixMismatch,
}

/// The destinations for one save file and its snapshot companion.
pub struct SavePlan {
    /// The remote directory the uploads name: the trimmed game path
    /// without its extension.
    pub relative_directory: String,
    pub pending_save_destination: String,
    pub keep_save_destination: String,
    pub pending_screenshot_destination: String,
    pub keep_screenshot_destination: String,
}

/// The outcome of deleting a file, as the driver saw it.
pub enum FsRemoveOutcome {
    Removed,
    /// The file was already gone.
    NotFound,
    /// Any other failure.
    Failed,
}

/// Deleting a file that is already gone is success: only a real failure
/// aborts the event.  The latest-screenshot link in particular may be
/// missing whenever a removal is attempted.
pub fn remove_is_benign(outcome: &FsRemoveOutcome) -> (r: bool)
    ensures
        r == !(outcome is Failed),
{
    match outcome {
        FsRemoveOutcome::Removed => true,
        FsRemoveOutcome::NotFound => true,
        FsRemoveOutcome::Failed => false,
    }
}

/// The intake event that resumes a recovered live session: only a play
/// that has not ended and already holds a rowid seeds the intake map.
pub fn previous_game_event(play: &Play) -> (r: Option<intake::Event>)
    ensures
        play.intake_id matches Some(i) ==> play.end_time is None ==> r == Some(
            intake::Event::PreviousGame { play_id: play.id, intake_id: i },
        ),
        !(play.end_time is None && play.intake_id is Some) ==> r is None,
{
    if play.end_time.is_none() {
        match &play.intake_id {
            Some(intake_id) => Some(
                intake::Event::PreviousGame { play_id: play.id, intake_id: intake_id.clone() },
            ),
            None => None,
        }
    } else {
        None
    }
}

/// The upload event for a screenshot found pending at startup: its
/// remote directory is where it sits relative to the pending root.
pub fn existing_screenshot_event(pending_screenshots: &str, path: &str) -> (r: Option<
    screenshots::Event,
>)
    ensures
        ({
            let dir = if paths::find_last(path@, '/') < 0 {
                Seq::<char>::empty()
            } else {
                path@.take(paths::find_last(path@, '/'))
            };
            match paths::spec_strip_prefix(dir, pending_screenshots@) {
                Some(d) => r matches Some(e) && e matches screenshots::Event::UploadScreenshot(
                    p,
                    dd,
                ) && p@ == path@ && dd@ == d,
                None => r is None,
            }
        }),
{
    let dir = paths::dirname(path);
    match paths::strip_path_prefix(dir, pending_screenshots) {
        Some(directory) => Some(screenshots::Event::UploadScreenshot(path.to_owned(), directory)),
        None => None,
    }
}

/// The upload event for a file found under the pending saves at
/// startup: image files are snapshot companions, anything else with an
/// extension is a save, and extensionless files are skipped.
pub fn existing_save_event(pending_saves: &str, path: &str) -> (r: Option<saves::Event>)
    ensures
        ({
            let dir = if paths::find_last(path@, '/') < 0 {
                Seq::<char>::empty()
            } else {
                path@.take(paths::find_last(path@, '/'))
            };
            match paths::spec_strip_prefix(dir, pending_saves@) {
                Some(d) => match paths::spec_last_extension(path@) {
                    Some(e) => {
                        if e == "png"@ || e == "jpg"@ {
                            r matches Some(ev) && ev matches saves::Event::UploadScreenshot(p, dd)
                                && p@ == path@ && dd@ == d
                        } else {
                            r matches Some(ev) && ev matches saves::Event::UploadSave(p, dd) && p@
                                == path@ && dd@ == d
                        }
                    },
                    None => r is None,
                },
                None => r is None,
            }
        }),
{
    let dir = paths::dirname(path);
    match paths::strip_path_prefix(dir, pending_saves) {
        Some(directory) => {
            match paths::last_extension(path) {
                Some(e) => {
                    if paths::str_eq(e, "png") || paths::str_eq(e, "jpg") {
                        Some(saves::Event::UploadScreenshot(path.to_owned(), directory))
                    } else {
                        Some(saves::Event::UploadSave(path.to_owned(), directory))
                    }
                },
                None => None,
            }
        },
        None => None,
    }
}

/// An online/offline observation fans out to every uploader.
pub fn online_fanout(online: bool) -> (r: (intake::Event, screenshots::Event, saves::Event))
    ensures
        r.0 == intake::Event::IsOnline(online),
        r.1 == screenshots::Event::IsOnline(online),
        r.2 == saves::Event::IsOnline(online),
{
    (
        intake::Event::IsOnline(online),
        screenshots::Event::IsOnline(online),
        saves::Event::IsOnline(online),
    )
}

/// A forced sync fans out to every uploader.
pub fn force_sync_fanout() -> (r: (intake::Event, screenshots::Event, saves::Event))
    ensures
        r.0 is ForceSync,
        r.1 is ForceSync,
        r.2 is ForceSync,
{
    (intake::Event::ForceSync, screenshots::Event::ForceSync, saves::Event::ForceSync)
}

/// Shutdown fans out to every downstream task — uploaders, both
/// watchers, the server, and finally the notifier — before the
/// orchestrator's own loop exits.
pub fn shutdown_fanout() -> (r: (
    intake::Event,
    screenshots::Event,
    saves::Event,
    watcher::Event,
    watcher::Event,
    server::Event,
    notify::Event,
))
    ensures
        r.0 is StartShutdown,
        r.1 is StartShutdown,
        r.2 is StartShutdown,
        r.3 is StartShutdown,
        r.4 is StartShutdown,
        r.5 is StartShutdown,
        r.6 is StartShutdown,
{
    (
        intake::Event::StartShutdown,
        screenshots::Event::StartShutdown,
        saves::Event::StartShutdown,
        watcher::Event::StartShutdown,
        watcher::Event::StartShutdown,
        server::Event::StartShutdown,
        notify::Event::StartShutdown,
    )
}

} // verus!
