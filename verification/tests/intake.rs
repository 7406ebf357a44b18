use study_sync::channel::Action;
use study_sync::game::Language;
use study_sync::intake::{Event, Intake, Plan};
use study_sync::orchestrator;

#[test]
fn control_events_are_high_priority() {
    let intake = Intake::new(true);
    assert!(intake.is_high_priority(&Event::StartShutdown));
    assert!(intake.is_high_priority(&Event::IsOnline(false)));
    assert!(intake.is_high_priority(&Event::ForceSync));
    assert!(!intake.is_high_priority(&Event::PreviousGame {
        play_id: 1,
        intake_id: "R1".to_owned(),
    }));
    assert!(!intake.is_high_priority(&Event::SubmitStarted {
        play_id: 1,
        game_label: "Game A".to_owned(),
        language: Language::English,
        start_time: 10,
    }));
}

#[test]
fn language_intake_names() {
    assert_eq!(Language::English.intake_str(), "English");
    assert_eq!(Language::Japanese.intake_str(), "日本語");
    assert_eq!(Language::Cantonese.intake_str(), "廣東話");
    assert_eq!(Language::Other("tlh".to_owned()).intake_str(), "English");
}

#[test]
fn started_session_plans_a_create() {
    let intake = Intake::new(true);
    let plan = intake.plan(&Event::SubmitStarted {
        play_id: 3,
        game_label: "Game A".to_owned(),
        language: Language::Japanese,
        start_time: 42,
    });
    match plan {
        Plan::Create { game_label, language_code, start_time, end_time } => {
            assert_eq!(game_label, "Game A");
            assert_eq!(language_code, "日本語");
            assert_eq!(start_time, 42);
            assert_eq!(end_time, None);
        }
        _ => panic!("expected a create"),
    }
}

#[test]
fn warm_start_resumes_at_the_recovered_rowid() {
    // a recovered live session seeds the map, so finishing it patches
    // the existing remote record instead of creating a second one
    let mut intake = Intake::new(true);
    let action = intake.handle_previous_game(7, "R42".to_owned());
    assert!(matches!(action, Action::Continue));

    let full = Event::SubmitFull {
        play_id: 7,
        game_label: "Game A".to_owned(),
        language: Language::English,
        start_time: 42,
        end_time: 90,
    };
    match intake.plan(&full) {
        Plan::Finish { intake_id, end_time } => {
            assert_eq!(intake_id, "R42");
            assert_eq!(end_time, 90);
        }
        _ => panic!("expected a finish for a mapped play"),
    }

    let (action, emitted) = intake.handle_submit_ended(7, Some(100));
    assert!(matches!(action, Action::Continue));
    match emitted {
        Some(orchestrator::Event::IntakeEnded { play_id, submitted_end }) => {
            assert_eq!(play_id, 7);
            assert_eq!(submitted_end, 100);
        }
        _ => panic!("expected an IntakeEnded"),
    }

    // the play has left the map: a replay would create anew
    assert!(matches!(intake.plan(&full), Plan::Create { .. }));
}

#[test]
fn network_blip_retries_then_reports_full() {
    let mut intake = Intake::new(true);
    let (action, emitted) = intake.handle_submit_full_created(5, None);
    assert!(matches!(action, Action::Retry));
    assert!(emitted.is_none());

    let (action, emitted) = intake.handle_submit_full_created(5, Some(("R9".to_owned(), 77)));
    assert!(matches!(action, Action::Continue));
    match emitted {
        Some(orchestrator::Event::IntakeFull {
            play_id,
            intake_id,
            submitted_start,
            submitted_end,
        }) => {
            assert_eq!(play_id, 5);
            assert_eq!(intake_id, "R9");
            assert_eq!(submitted_start, 77);
            assert_eq!(submitted_end, 77);
        }
        _ => panic!("expected an IntakeFull"),
    }
}

#[test]
fn started_outcome_records_the_rowid() {
    let mut intake = Intake::new(true);
    let (action, emitted) = intake.handle_submit_started(2, None);
    assert!(matches!(action, Action::Retry));
    assert!(emitted.is_none());

    let (action, emitted) = intake.handle_submit_started(2, Some(("R5".to_owned(), 50)));
    assert!(matches!(action, Action::Continue));
    match emitted {
        Some(orchestrator::Event::IntakeStarted { play_id, intake_id, submitted_start }) => {
            assert_eq!(play_id, 2);
            assert_eq!(intake_id, "R5");
            assert_eq!(submitted_start, 50);
        }
        _ => panic!("expected an IntakeStarted"),
    }

    // the rowid is now mapped, so ending the play is a patch
    let ended = Event::SubmitEnded {
        play_id: 2,
        intake_id: "R5".to_owned(),
        end_time: 60,
    };
    assert!(matches!(intake.plan(&ended), Plan::Finish { .. }));
}

#[test]
fn control_events_update_the_online_flag() {
    let mut intake = Intake::new(true);
    assert!(matches!(intake.handle_is_online(false), Action::Continue));
    assert!(!intake.is_online);
    assert!(matches!(intake.handle_force_sync(), Action::ResetTimeout));
    assert!(intake.is_online);
    assert!(matches!(intake.handle_start_shutdown(), Action::Halt));
}

#[test]
fn response_envelope_acceptance() {
    // an explicit error is failure even alongside a message
    assert_eq!(
        Intake::accept_response(
            Some("ok".to_owned()),
            Some("boom".to_owned()),
            Some("R1".to_owned()),
        ),
        None
    );
    // success needs both a message and the rowid object
    assert_eq!(
        Intake::accept_response(Some("ok".to_owned()), None, Some("R1".to_owned())),
        Some("R1".to_owned())
    );
    assert_eq!(Intake::accept_response(None, None, Some("R1".to_owned())), None);
    assert_eq!(Intake::accept_response(Some("ok".to_owned()), None, None), None);
}
