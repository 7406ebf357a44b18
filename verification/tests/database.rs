use study_sync::database::{
    backlog_event_for_row, finish_play, language_from_code, new_play, play_from_row,
    unique_game_paths, PlayRow,
};
use study_sync::game::{Game, Language};
use study_sync::intake::Event;

fn game_a() -> Game {
    Game {
        id: 1,
        path: "gameA.gba".to_owned(),
        directory: "dirA".to_owned(),
        language: Language::English,
        label: "Game A".to_owned(),
    }
}

fn row(
    rowid: i64,
    end_time: Option<u64>,
    intake_id: Option<&str>,
    submitted_end: Option<u64>,
    skipped: bool,
) -> PlayRow {
    PlayRow {
        rowid,
        game_path: "gameA.gba".to_owned(),
        start_time: 10,
        end_time,
        intake_id: intake_id.map(|s| s.to_owned()),
        submitted_start: intake_id.map(|_| 11),
        submitted_end,
        skipped,
    }
}

#[test]
fn language_codes_decode() {
    assert!(matches!(language_from_code("en"), Language::English));
    assert!(matches!(language_from_code("ja"), Language::Japanese));
    assert!(matches!(language_from_code("can"), Language::Cantonese));
    match language_from_code("fr") {
        Language::Other(s) => assert_eq!(s, "fr"),
        _ => panic!("expected Other"),
    }
}

#[test]
fn fresh_and_finished_plays() {
    let p = new_play(4, game_a(), 100);
    assert_eq!(p.id, 4);
    assert_eq!(p.start_time, 100);
    assert_eq!(p.end_time, None);
    assert_eq!(p.intake_id, None);
    assert!(!p.skipped);

    let p = finish_play(p, 150);
    assert_eq!(p.end_time, Some(150));
    assert_eq!(p.start_time, 100);
}

#[test]
fn plays_come_back_from_rows() {
    let r = row(9, Some(20), Some("R2"), None, false);
    let p = play_from_row(r, game_a());
    assert_eq!(p.id, 9);
    assert_eq!(p.game.label, "Game A");
    assert_eq!(p.end_time, Some(20));
    assert_eq!(p.intake_id.as_deref(), Some("R2"));
    assert_eq!(p.submitted_start, Some(11));
    assert_eq!(p.submitted_end, None);
}

#[test]
fn backlog_replays_only_unacknowledged_rows() {
    // acknowledged or skipped rows replay nothing
    assert!(backlog_event_for_row(&row(1, Some(20), Some("R1"), Some(30), false),
        "Game A".to_owned(), Language::English).is_none());
    assert!(backlog_event_for_row(&row(1, Some(20), Some("R1"), None, true),
        "Game A".to_owned(), Language::English).is_none());
    // a live session with a rowid resumes through the orchestrator, not
    // the backlog
    assert!(backlog_event_for_row(&row(2, None, Some("R2"), None, false),
        "Game A".to_owned(), Language::English).is_none());
}

#[test]
fn backlog_event_shapes() {
    match backlog_event_for_row(&row(3, None, None, None, false),
        "Game A".to_owned(), Language::English) {
        Some(Event::SubmitStarted { play_id, game_label, start_time, .. }) => {
            assert_eq!(play_id, 3);
            assert_eq!(game_label, "Game A");
            assert_eq!(start_time, 10);
        }
        _ => panic!("expected SubmitStarted"),
    }
    match backlog_event_for_row(&row(4, Some(20), Some("R4"), None, false),
        "Game A".to_owned(), Language::English) {
        Some(Event::SubmitEnded { play_id, intake_id, end_time }) => {
            assert_eq!(play_id, 4);
            assert_eq!(intake_id, "R4");
            assert_eq!(end_time, 20);
        }
        _ => panic!("expected SubmitEnded"),
    }
    match backlog_event_for_row(&row(5, Some(20), None, None, false),
        "Game A".to_owned(), Language::English) {
        Some(Event::SubmitFull { play_id, start_time, end_time, .. }) => {
            assert_eq!(play_id, 5);
            assert_eq!(start_time, 10);
            assert_eq!(end_time, 20);
        }
        _ => panic!("expected SubmitFull"),
    }
}

#[test]
fn game_paths_deduplicate() {
    let mut a = row(1, None, None, None, false);
    a.game_path = "x".to_owned();
    let mut b = row(2, None, None, None, false);
    b.game_path = "y".to_owned();
    let mut c = row(3, None, None, None, false);
    c.game_path = "x".to_owned();
    let paths = unique_game_paths(&vec![a, b, c]);
    assert_eq!(paths, vec!["x".to_owned(), "y".to_owned()]);
}
