//! The database adapter's logic: translating between the plays store's
//! rows and the domain records, and the bookkeeping invariant the
//! intake updates maintain.
//!
//! The store itself is plain SQL driven from outside; this module holds
//! what each operation writes, what the recovery queries mean, and the
//! proof that the intake-submission columns never reach a state where a
//! play is finished remotely but was never started there.

use crate::game::{Game, Language, Play};
use crate::intake;
use vstd::prelude::*;

verus! {

/// The abstract value of one row of the plays store.
pub struct RowState {
    pub game_path: Seq<char>,
    pub start_time: u64,
    pub end_time: Option<u64>,
    pub intake_id: Option<Seq<char>>,
    pub submitted_start: Option<u64>,
    pub submitted_end: Option<u64>,
    pub skipped: bool,
}

/// The intake bookkeeping invariant on a row: the start half is
/// confirmed exactly when a remote rowid exists, and a confirmed end
/// half presupposes both — never a "finished but never started" record.
pub open spec fn spec_row_wf(r: RowState) -> bool {
    &&& r.submitted_start is Some <==> r.intake_id is Some
    &&& r.submitted_end is Some ==> r.intake_id is Some && r.submitted_start is Some
}

/// The row inserted when a play begins.
pub open spec fn spec_new_row(game_path: Seq<char>, start_time: u64) -> RowState {
    RowState {
        game_path,
        start_time,
        end_time: None,
        intake_id: None,
        submitted_start: None,
        submitted_end: None,
        skipped: false,
    }
}

/// What finishing a play writes: the end time, nothing else.
pub open spec fn spec_finish_row(r: RowState, end_time: u64) -> RowState {
    RowState { end_time: Some(end_time), ..r }
}

/// What confirming the start half writes: the rowid and the instant.
pub open spec fn spec_initial_intake(r: RowState, intake_id: Seq<char>, submitted_start: u64)
    -> RowState {
    RowState { intake_id: Some(intake_id), submitted_start: Some(submitted_start), ..r }
}

/// What confirming the end half writes: the instant alone.
pub open spec fn spec_final_intake(r: RowState, submitted_end: u64) -> RowState {
    RowState { submitted_end: Some(submitted_end), ..r }
}

/// What a combined confirmation writes: rowid and both instants.
pub open spec fn spec_full_intake(
    r: RowState,
    intake_id: Seq<char>,
    submitted_start: u64,
    submitted_end: u64,
) -> RowState {
    RowState {
        intake_id: Some(intake_id),
        submitted_start: Some(submitted_start),
        submitted_end: Some(submitted_end),
        ..r
    }
}

/// Whether backlog recovery considers a row at all: only plays whose
/// remote submission is unacknowledged and that are not marked skipped.
pub open spec fn spec_in_backlog(r: RowState) -> bool {
    r.submitted_end is None && !r.skipped
}

/// Every write path preserves the intake bookkeeping invariant: a fresh
/// row satisfies it; finishing a play keeps it; confirming the start
/// half establishes it; confirming the end half keeps it provided the
/// row already has its rowid; and a combined confirmation establishes
/// it outright.
pub proof fn lemma_intake_updates_preserve_wf(
    r: RowState,
    game_path: Seq<char>,
    intake_id: Seq<char>,
    start: u64,
    s: u64,
    e: u64,
)
    ensures
        spec_row_wf(spec_new_row(game_path, start)),
        spec_row_wf(r) ==> spec_row_wf(spec_finish_row(r, e)),
        r.submitted_end is None ==> spec_row_wf(spec_initial_intake(r, intake_id, s)),
        spec_row_wf(r) && r.intake_id is Some ==> spec_row_wf(spec_final_intake(r, e)),
        spec_row_wf(spec_full_intake(r, intake_id, s, e)),
{
}

/// An acknowledged or skipped play never re-enters the backlog: the
/// recovery filter excludes any row a final or full confirmation has
/// been written to, so replaying the backlog cannot duplicate a remote
/// submission.
pub proof fn lemma_acknowledged_rows_leave_backlog(
    r: RowState,
    intake_id: Seq<char>,
    s: u64,
    e: u64,
)
    ensures
        !spec_in_backlog(spec_final_intake(r, e)),
        !spec_in_backlog(spec_full_intake(r, intake_id, s, e)),
        r.skipped ==> !spec_in_backlog(r),
{
}

/// One row of the plays store, as read back.
pub struct PlayRow {
    pub rowid: i64,
    pub game_path: String,
    pub start_time: u64,
    pub end_time: Option<u64>,
    pub intake_id: Option<String>,
    pub submitted_start: Option<u64>,
    pub submitted_end: Option<u64>,
    pub skipped: bool,
}

impl View for PlayRow {
    type V = RowState;

    open spec fn view(&self) -> RowState {
        RowState {
            game_path: self.game_path@,
            start_time: self.start_time,
            end_time: self.end_time,
            intake_id: match self.intake_id {
                Some(s) => Some(s@),
                None => None,
            },
            submitted_start: self.submitted_start,
            submitted_end: self.submitted_end,
            skipped: self.skipped,
        }
    }
}

/// The language stored in a game row, decoded from its column value.
pub fn language_from_code(code: &str) -> (r: Language)
    ensures
        code@ == "en"@ ==> r is English,
        code@ == "ja"@ ==> r is Japanese,
        code@ == "can"@ ==> r is Cantonese,
        code@ != "en"@ && code@ != "ja"@ && code@ != "can"@ ==> (r matches Language::Other(s) && s@
            == code@),
{
    proof {
        reveal_strlit("en");
        reveal_strlit("ja");
        reveal_strlit("can");
        assert("en"@.len() == 2 && "ja"@.len() == 2 && "can"@.len() == 3);
        assert("en"@[0] == 'e' && "ja"@[0] == 'j');
        assert("en"@ != "ja"@);
    }
    if crate::paths::str_eq(code, "en") {
        Language::English
    } else if crate::paths::str_eq(code, "ja") {
        Language::Japanese
    } else if crate::paths::str_eq(code, "can") {
        Language::Cantonese
    } else {
        Language::Other(code.to_owned())
    }
}

/// The play a row describes, joined with its game.
pub fn play_from_row(row: PlayRow, game: Game) -> (p: Play)
    requires
        game.path@ == row.game_path@,
    ensures
        p.id == row.rowid,
        p.game == game,
        p.start_time == row.start_time,
        p.end_time == row.end_time,
        p.intake_id == row.intake_id,
        p.submitted_start == row.submitted_start,
        p.submitted_end == row.submitted_end,
        p.skipped == row.skipped,
{
    Play {
        id: row.rowid,
        game,
        start_time: row.start_time,
        end_time: row.end_time,
        intake_id: row.intake_id,
        submitted_start: row.submitted_start,
        submitted_end: row.submitted_end,
        skipped: row.skipped,
    }
}

/// The in-memory play for a freshly inserted row: started now, nothing
/// else set.  Mirrors [`spec_new_row`].
pub fn new_play(id: i64, game: Game, start_time: u64) -> (p: Play)
    ensures
        p.id == id,
        p.game == game,
        p.start_time == start_time,
        p.end_time is None,
        p.intake_id is None,
        p.submitted_start is None,
        p.submitted_end is None,
        !p.skipped,
        p.wf(),
{
    Play {
        id,
        game,
        start_time,
        end_time: None,
        intake_id: None,
        submitted_start: None,
        submitted_end: None,
        skipped: false,
    }
}

/// The in-memory play after its end time is written.  Mirrors
/// [`spec_finish_row`].
pub fn finish_play(play: Play, end_time: u64) -> (p: Play)
    ensures
        p == (Play { end_time: Some(end_time), ..play }),
{
    Play { end_time: Some(end_time), ..play }
}

/// The intake event a backlog row asks to replay, per the recovery
/// table: an acknowledged or skipped row yields nothing; a live row
/// already assigned a rowid resumes through the orchestrator instead; a
/// row never submitted replays its start (and its end too, once ended);
/// an ended row with a rowid replays only its end.
pub fn backlog_event_for_row(row: &PlayRow, game_label: String, language: Language) -> (r: Option<
    intake::Event,
>)
    ensures
        !spec_in_backlog(row@) ==> r is None,
        spec_in_backlog(row@) ==> r == match (row.end_time, &row.intake_id) {
            (None, Some(_)) => None::<intake::Event>,
            (None, None) => Some(
                intake::Event::SubmitStarted {
                    play_id: row.rowid,
                    game_label,
                    language,
                    start_time: row.start_time,
                },
            ),
            (Some(end_time), Some(intake_id)) => Some(
                intake::Event::SubmitEnded {
                    play_id: row.rowid,
                    intake_id: *intake_id,
                    end_time,
                },
            ),
            (Some(end_time), None) => Some(
                intake::Event::SubmitFull {
                    play_id: row.rowid,
                    game_label,
                    language,
                    start_time: row.start_time,
                    end_time,
                },
            ),
        },
{
    if row.submitted_end.is_some() || row.skipped {
        return None;
    }
    match (row.end_time, &row.intake_id) {
        (None, Some(_)) => None,
        (None, None) => Some(
            intake::Event::SubmitStarted {
                play_id: row.rowid,
                game_label,
                language,
                start_time: row.start_time,
            },
        ),
        (Some(end_time), Some(intake_id)) => Some(
            intake::Event::SubmitEnded {
                play_id: row.rowid,
                intake_id: intake_id.clone(),
                end_time,
            },
        ),
        (Some(end_time), None) => Some(
            intake::Event::SubmitFull {
                play_id: row.rowid,
                game_label,
                language,
                start_time: row.start_time,
                end_time,
            },
        ),
    }
}

/// Whether some element of `v` reads `p`.
pub open spec fn spec_has_path(v: Seq<String>, p: Seq<char>) -> bool {
    exists|i: int| 0 <= i < v.len() && (#[trigger] v[i])@ == p
}

/// Whether some row of `rows` names the game path `p`.
pub open spec fn spec_row_has_path(rows: Seq<PlayRow>, p: Seq<char>) -> bool {
    exists|k: int| 0 <= k < rows.len() && (#[trigger] rows[k]).game_path@ == p
}

proof fn lemma_has_path_push(v: Seq<String>, x: String, p: Seq<char>)
    ensures
        spec_has_path(v, p) ==> spec_has_path(v.push(x), p),
        spec_has_path(v.push(x), x@),
{
    if spec_has_path(v, p) {
        let i = choose|i: int| 0 <= i < v.len() && (#[trigger] v[i])@ == p;
        assert(v.push(x)[i]@ == p);
    }
    assert(v.push(x)[v.len() as int]@ == x@);
}

/// Whether some element of `v` reads `s`.
fn contains_str(v: &Vec<String>, s: &str) -> (r: bool)
    ensures
        r == spec_has_path(v@, s@),
{
    let n = v.len();
    let mut i: usize = 0;
    while i < n
        invariant
            0 <= i <= n,
            n == v@.len(),
            forall|j: int| 0 <= j < i ==> (#[trigger] v@[j])@ != s@,
        decreases n - i,
    {
        if crate::paths::str_eq(v[i].as_str(), s) {
            assert(spec_has_path(v@, s@));
            return true;
        }
        i = i + 1;
    }
    false
}

/// The distinct game paths among `rows`, each once, for the recovery
/// join against the games store.
pub fn unique_game_paths(rows: &Vec<PlayRow>) -> (r: Vec<String>)
    ensures
        forall|a: int, b: int| 0 <= a < b < r@.len() ==> (#[trigger] r@[a])@ != (#[trigger] r@[b])@,
        forall|k: int|
            0 <= k < rows@.len() ==> spec_has_path(r@, (#[trigger] rows@[k]).game_path@),
        forall|a: int| 0 <= a < r@.len() ==> spec_row_has_path(rows@, (#[trigger] r@[a])@),
{
    let n = rows.len();
    let mut out: Vec<String> = Vec::new();
    let mut k: usize = 0;
    while k < n
        invariant
            0 <= k <= n,
            n == rows@.len(),
            forall|a: int, b: int| 0 <= a < b < out@.len() ==> (#[trigger] out@[a])@ != (
            #[trigger] out@[b])@,
            forall|j: int| 0 <= j < k ==> spec_has_path(out@, (#[trigger] rows@[j]).game_path@),
            forall|a: int| 0 <= a < out@.len() ==> spec_row_has_path(rows@, (#[trigger] out@[a])@),
        decreases n - k,
    {
        let ghost prev = out@;
        let path = &rows[k].game_path;
        let seen = contains_str(&out, path.as_str());
        if !seen {
            out.push(path.clone());
            proof {
                assert forall|a: int, b: int| 0 <= a < b < out@.len() implies (#[trigger] out@[a])@
                    != (#[trigger] out@[b])@ by {
                    if b < prev.len() {
                        assert(out@[a] == prev[a] && out@[b] == prev[b]);
                    } else {
                        assert(out@[b]@ == rows@[k as int].game_path@);
                        assert(out@[a] == prev[a]);
                    }
                }
            }
        }
        proof {
            assert forall|j: int| 0 <= j < k + 1 implies spec_has_path(
                out@,
                (#[trigger] rows@[j]).game_path@,
            ) by {
                if seen {
                    assert(out@ == prev);
                } else {
                    lemma_has_path_push(prev, out@[prev.len() as int], rows@[j].game_path@);
                    assert(out@ == prev.push(out@[prev.len() as int]));
                }
                if j == k {
                    if seen {
                        assert(spec_has_path(out@, rows@[j].game_path@));
                    } else {
                        assert(out@[prev.len() as int]@ == rows@[k as int].game_path@);
                        assert(spec_has_path(out@, rows@[j].game_path@));
                    }
                }
            }
            assert forall|a: int| 0 <= a < out@.len() implies spec_row_has_path(
                rows@,
                (#[trigger] out@[a])@,
            ) by {
                if a < prev.len() {
                    assert(out@[a] == prev[a]);
                } else {
                    assert(out@[a]@ == (#[trigger] rows@[k as int]).game_path@);
                }
            }
        }
        k = k + 1;
    }
    out
}

} // verus!
