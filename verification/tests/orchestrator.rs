use study_sync::database::new_play;
use study_sync::game::{Game, Language};
use study_sync::intake;
use study_sync::orchestrator::{
    existing_save_event, existing_screenshot_event, force_sync_fanout, online_fanout,
    previous_game_event, remove_is_benign, shutdown_fanout, FsRemoveOutcome, Orchestrator,
    SavePlanError, ScreenshotPlan,
};
use study_sync::saves;
use study_sync::screenshots;

fn orchestrator(prefix: Option<&str>) -> Orchestrator {
    Orchestrator::new(
        "ps".to_owned(),
        "pv".to_owned(),
        "kv".to_owned(),
        "extra".to_owned(),
        "ps/latest.png".to_owned(),
        prefix.map(|s| s.to_owned()),
        None,
    )
}

fn game_a() -> Game {
    Game {
        id: 1,
        path: "gameA.gba".to_owned(),
        directory: "dirA".to_owned(),
        language: Language::English,
        label: "Game A".to_owned(),
    }
}

#[test]
fn cold_start_one_play() {
    // game started: path trimmed, play installed, start submitted,
    // directories derived
    let mut o = orchestrator(Some("/roms"));
    let trimmed = o.trim_game_path("/roms/gameA.gba").unwrap();
    assert_eq!(trimmed, "gameA.gba");

    let play = new_play(1, game_a(), 1000);
    let plan = o.game_started_commit(&trimmed, play);
    assert_eq!(plan.persist_play_id, 1);
    assert_eq!(plan.screenshot_dir, "ps/dirA");
    assert_eq!(plan.pending_save_dir, "pv/gameA");
    assert_eq!(plan.keep_save_dir, "kv/gameA");
    match plan.submit {
        intake::Event::SubmitStarted { play_id, game_label, start_time, .. } => {
            assert_eq!(play_id, 1);
            assert_eq!(game_label, "Game A");
            assert_eq!(start_time, 1000);
        }
        _ => panic!("expected SubmitStarted"),
    }
    assert_eq!(o.current_play_id(), Some(1));

    // a screenshot lands in the game's pending directory under a
    // timestamp name
    match o.screenshot_plan("/snap/shot1.png", "1234567") {
        ScreenshotPlan::ToGame { destination, directory } => {
            assert_eq!(destination, "ps/dirA/1234567.png");
            assert_eq!(directory, "dirA");
        }
        _ => panic!("expected a game destination"),
    }

    // game ended: end recorded, full session submitted, play kept
    assert!(o.game_ended_matches("gameA.gba"));
    let (play_id, submit) = o.game_ended_commit(2000);
    assert_eq!(play_id, 1);
    match submit {
        intake::Event::SubmitFull { play_id, start_time, end_time, .. } => {
            assert_eq!(play_id, 1);
            assert_eq!(start_time, 1000);
            assert_eq!(end_time, 2000);
        }
        _ => panic!("expected SubmitFull"),
    }

    // the combined confirmation fills all three columns in memory
    o.apply_intake_full(1, "R7".to_owned(), 2100, 2100);
    let p = o.playing().unwrap();
    assert_eq!(p.intake_id.as_deref(), Some("R7"));
    assert_eq!(p.submitted_start, Some(2100));
    assert_eq!(p.submitted_end, Some(2100));
}

#[test]
fn game_ended_mismatch_changes_nothing() {
    let mut o = orchestrator(None);
    let play = new_play(1, game_a(), 1000);
    o.game_started_commit("gameA.gba", play);
    // a mismatched path is rejected; the current play stays
    assert!(!o.game_ended_matches("other.gba"));
    assert_eq!(o.current_play_id(), Some(1));

    // and with no current play at all, nothing matches
    let o2 = orchestrator(None);
    assert!(!o2.game_ended_matches("gameA.gba"));
}

#[test]
fn second_start_moves_current_one_back() {
    let mut o = orchestrator(None);
    o.game_started_commit("gameA.gba", new_play(1, game_a(), 1000));
    let game_b = Game {
        id: 2,
        path: "gameB.gba".to_owned(),
        directory: "dirB".to_owned(),
        language: Language::Japanese,
        label: "Game B".to_owned(),
    };
    o.game_started_commit("gameB.gba", new_play(2, game_b, 3000));
    assert_eq!(o.current_play_id(), Some(2));
    // the prior play is still addressable one slot back
    assert_eq!(o.playing().unwrap().id, 2);
}

#[test]
fn stray_screenshot_goes_to_the_extra_bucket() {
    let o = orchestrator(None);
    match o.screenshot_plan("/snap/stray.png", "1234567") {
        ScreenshotPlan::ToExtra { destination } => {
            assert_eq!(destination, "extra/stray.png");
        }
        _ => panic!("expected the extra bucket"),
    }
    // no play state existed, and none was created
    assert!(o.playing().is_none());
}

#[test]
fn save_with_compound_extension() {
    let mut o = Orchestrator::new(
        "ps".to_owned(),
        "pending_saves".to_owned(),
        "keep_saves".to_owned(),
        "extra".to_owned(),
        "ps/latest.png".to_owned(),
        None,
        None,
    );
    o.game_started_commit("gameB/rom.gba", {
        let g = Game {
            id: 2,
            path: "gameB/rom.gba".to_owned(),
            directory: "dirB".to_owned(),
            language: Language::English,
            label: "Game B".to_owned(),
        };
        new_play(2, g, 100)
    });
    let plan = o.save_plan("gameB/rom.state.auto", "2024-05-06").unwrap();
    assert_eq!(plan.relative_directory, "gameB/rom");
    assert_eq!(plan.pending_save_destination, "pending_saves/gameB/rom/2024-05-06.state.auto");
    assert_eq!(plan.keep_save_destination, "keep_saves/gameB/rom/2024-05-06.state.auto");
    assert_eq!(
        plan.pending_screenshot_destination,
        "pending_saves/gameB/rom/2024-05-06.state.png"
    );
    assert_eq!(plan.keep_screenshot_destination, "keep_saves/gameB/rom/2024-05-06.state.png");
}

#[test]
fn save_plan_rejections() {
    let o = orchestrator(Some("/roms"));
    assert!(matches!(
        o.save_plan("/roms/gameB/rom", "2024-05-06"),
        Err(SavePlanError::NoExtension)
    ));
    assert!(matches!(
        o.save_plan("/elsewhere/rom.srm", "2024-05-06"),
        Err(SavePlanError::PrefixMismatch)
    ));
}

#[test]
fn missing_latest_screenshot_is_benign() {
    assert!(remove_is_benign(&FsRemoveOutcome::Removed));
    assert!(remove_is_benign(&FsRemoveOutcome::NotFound));
    assert!(!remove_is_benign(&FsRemoveOutcome::Failed));
}

#[test]
fn intake_confirmations_update_the_matching_play_only() {
    let mut o = orchestrator(None);
    o.game_started_commit("gameA.gba", new_play(1, game_a(), 1000));
    // a confirmation for some other play changes nothing
    o.apply_intake_started(9, "R9".to_owned(), 50);
    assert_eq!(o.playing().unwrap().intake_id, None);
    // the matching confirmation lands
    o.apply_intake_started(1, "R1".to_owned(), 60);
    assert_eq!(o.playing().unwrap().intake_id.as_deref(), Some("R1"));
    assert_eq!(o.playing().unwrap().submitted_start, Some(60));
    o.apply_intake_ended(1, 70);
    assert_eq!(o.playing().unwrap().submitted_end, Some(70));
}

#[test]
fn recovered_live_session_seeds_intake() {
    let mut p = new_play(7, game_a(), 10);
    p.intake_id = Some("R42".to_owned());
    p.submitted_start = Some(11);
    match previous_game_event(&p) {
        Some(intake::Event::PreviousGame { play_id, intake_id }) => {
            assert_eq!(play_id, 7);
            assert_eq!(intake_id, "R42");
        }
        _ => panic!("expected PreviousGame"),
    }
    // an ended session, or one without a rowid, seeds nothing
    let ended = study_sync::database::finish_play(p, 20);
    assert!(previous_game_event(&ended).is_none());
    assert!(previous_game_event(&new_play(8, game_a(), 10)).is_none());
}

#[test]
fn startup_scans_classify_pending_files() {
    match existing_screenshot_event("ps", "ps/dirA/123.png") {
        Some(screenshots::Event::UploadScreenshot(path, dir)) => {
            assert_eq!(path, "ps/dirA/123.png");
            assert_eq!(dir, "dirA");
        }
        _ => panic!("expected an upload"),
    }
    assert!(existing_screenshot_event("ps", "elsewhere/dirA/123.png").is_none());

    match existing_save_event("pv", "pv/gameB/rom/2024-05-06.state.auto") {
        Some(saves::Event::UploadSave(path, dir)) => {
            assert_eq!(path, "pv/gameB/rom/2024-05-06.state.auto");
            assert_eq!(dir, "gameB/rom");
        }
        _ => panic!("expected a save upload"),
    }
    match existing_save_event("pv", "pv/gameB/rom/2024-05-06.state.png") {
        Some(saves::Event::UploadScreenshot(path, dir)) => {
            assert_eq!(path, "pv/gameB/rom/2024-05-06.state.png");
            assert_eq!(dir, "gameB/rom");
        }
        _ => panic!("expected a screenshot upload"),
    }
    assert!(existing_save_event("pv", "pv/gameB/rom/noextension").is_none());
}

#[test]
fn fanouts_reach_every_uploader() {
    let (i, sc, sv) = online_fanout(false);
    assert!(matches!(i, intake::Event::IsOnline(false)));
    assert!(matches!(sc, screenshots::Event::IsOnline(false)));
    assert!(matches!(sv, saves::Event::IsOnline(false)));

    let (i, sc, sv) = force_sync_fanout();
    assert!(matches!(i, intake::Event::ForceSync));
    assert!(matches!(sc, screenshots::Event::ForceSync));
    assert!(matches!(sv, saves::Event::ForceSync));

    let (i, sc, sv, w1, w2, srv, n) = shutdown_fanout();
    assert!(matches!(i, intake::Event::StartShutdown));
    assert!(matches!(sc, screenshots::Event::StartShutdown));
    assert!(matches!(sv, saves::Event::StartShutdown));
    assert!(matches!(w1, study_sync::watcher::Event::StartShutdown));
    assert!(matches!(w2, study_sync::watcher::Event::StartShutdown));
    assert!(matches!(srv, study_sync::server::Event::StartShutdown));
    assert!(matches!(n, study_sync::notify::Event::StartShutdown));
}
