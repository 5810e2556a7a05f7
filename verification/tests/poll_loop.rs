use tracker_agent::ai_matcher::{build_prompt, AIMatchResult};
use tracker_agent::events::{LogLevel, LoopCommand, LoopStep, NoticeKind, TrackingUpdate};
use tracker_agent::freelo::FreeloTask;
use tracker_agent::poll_loop::{LoopPhase, LoopState, PendingStart};
use tracker_agent::tracker::{Tracker, TrackerConfig};

fn config(classifier: Option<&str>) -> TrackerConfig {
    TrackerConfig {
        interval_seconds: 15,
        freelo_email: "me@example.com".to_string(),
        freelo_api_key: "SECRET-REDACTED".to_string(),
        openrouter_api_key: classifier.map(|k| k.to_string()),
    }
}

fn task(id: i32, name: &str, project: &str) -> FreeloTask {
    FreeloTask { id, name: name.to_string(), project_id: 1, project_name: project.to_string() }
}

fn kinds(step: &LoopStep) -> Vec<NoticeKind> {
    step.notices.iter().map(|n| n.kind).collect()
}

/// A running engine whose loop has fetched `tasks` and waits for the timer.
fn running(classifier: Option<&str>, tasks: Vec<FreeloTask>) -> (Tracker, LoopState) {
    let mut tracker = Tracker::new();
    tracker.set_config(config(classifier));
    tracker.start().unwrap();
    let mut lp = LoopState::new();
    lp.begin(&mut tracker);
    lp.tasks_fetched(&mut tracker, Ok(tasks));
    (tracker, lp)
}

/// The same, with the sample taken and being read.
fn reading(classifier: Option<&str>, tasks: Vec<FreeloTask>) -> (Tracker, LoopState) {
    let (mut tracker, mut lp) = running(classifier, tasks);
    lp.tick(&tracker);
    lp.captured(Ok("c2NyZWVu".to_string()));
    assert_eq!(lp.phase, LoopPhase::Reading);
    let _ = &mut tracker;
    (tracker, lp)
}

#[test]
fn loop_without_configuration_ends_and_stops_the_engine() {
    let mut tracker = Tracker::new();
    tracker.start().unwrap();
    let mut lp = LoopState::new();
    let step = lp.begin(&mut tracker);
    assert_eq!(step.command, LoopCommand::Exit);
    assert_eq!(kinds(&step), vec![NoticeKind::ConfigMissing]);
    assert_eq!(step.notices[0].kind.level(), LogLevel::Error);
    assert_eq!(lp.phase, LoopPhase::Finished);
    assert!(!tracker.is_running());
    assert_eq!(tracker.start(), Ok(()));
}

#[test]
fn loop_begins_by_fetching_the_tasks_with_the_credentials() {
    let mut tracker = Tracker::new();
    tracker.set_config(config(Some("or-key")));
    tracker.start().unwrap();
    let mut lp = LoopState::new();
    let step = lp.begin(&mut tracker);
    assert_eq!(
        step.command,
        LoopCommand::FetchTasks {
            email: "me@example.com".to_string(),
            api_key: "SECRET-REDACTED".to_string()
        }
    );
    assert_eq!(kinds(&step), vec![NoticeKind::LoadingTasks]);
    assert_eq!(step.update, None);
    assert_eq!(lp.interval_seconds, 15);
    assert_eq!(lp.openrouter_api_key, Some("or-key".to_string()));
    assert_eq!(lp.phase, LoopPhase::LoadingTasks);
    assert!(tracker.is_running());
}

#[test]
fn fetched_tasks_fill_the_cache_and_start_the_timer() {
    let mut tracker = Tracker::new();
    tracker.set_config(config(None));
    tracker.start().unwrap();
    let mut lp = LoopState::new();
    lp.begin(&mut tracker);
    let tasks = vec![task(1, "a", "p"), task(2, "b", "p")];
    let step = lp.tasks_fetched(&mut tracker, Ok(tasks.clone()));
    assert_eq!(step.command, LoopCommand::WaitTick { seconds: 15 });
    assert_eq!(kinds(&step), vec![NoticeKind::TasksLoaded, NoticeKind::LoopStarted]);
    assert_eq!(step.notices[0].count, 2);
    assert_eq!(step.notices[0].kind.level(), LogLevel::Success);
    assert_eq!(step.notices[1].count, 15);
    assert_eq!(*tracker.tasks(), tasks);
    assert_eq!(lp.phase, LoopPhase::Waiting);
}

#[test]
fn failed_fetch_ends_the_loop_and_stops_the_engine() {
    let mut tracker = Tracker::new();
    tracker.set_config(config(None));
    tracker.start().unwrap();
    let mut lp = LoopState::new();
    lp.begin(&mut tracker);
    let step = lp.tasks_fetched(&mut tracker, Err("401".to_string()));
    assert_eq!(step.command, LoopCommand::Exit);
    assert_eq!(kinds(&step), vec![NoticeKind::TasksLoadFailed]);
    assert_eq!(step.notices[0].text, "401");
    assert_eq!(lp.phase, LoopPhase::Finished);
    assert!(!tracker.is_running());
    assert!(tracker.tasks().is_empty());
}

#[test]
fn configuration_set_during_a_run_waits_for_the_next_start() {
    let (mut tracker, mut lp) = running(None, vec![]);
    let mut later = config(Some("or-key"));
    later.interval_seconds = 99;
    tracker.set_config(later);
    let step = lp.tick(&tracker);
    assert_eq!(step.command, LoopCommand::Capture);
    let step = lp.captured(Err("no screen".to_string()));
    assert_eq!(step.command, LoopCommand::WaitTick { seconds: 15 });
    assert_eq!(lp.openrouter_api_key, None);
    tracker.stop().unwrap();
    assert_eq!(lp.tick(&tracker).command, LoopCommand::Exit);
    tracker.start().unwrap();
    let mut next = LoopState::new();
    next.begin(&mut tracker);
    assert_eq!(next.interval_seconds, 99);
    assert_eq!(next.openrouter_api_key, Some("or-key".to_string()));
}

#[test]
fn tick_with_the_flag_down_ends_the_loop() {
    let (mut tracker, mut lp) = running(None, vec![]);
    tracker.stop().unwrap();
    let step = lp.tick(&tracker);
    assert_eq!(step.command, LoopCommand::Exit);
    assert_eq!(kinds(&step), vec![NoticeKind::LoopEnded]);
    assert_eq!(lp.phase, LoopPhase::Finished);
    assert_eq!(lp.tick(&tracker).command, LoopCommand::Pending);
}

#[test]
fn flag_is_only_looked_at_on_a_tick() {
    let (mut tracker, mut lp) = running(None, vec![]);
    assert_eq!(lp.tick(&tracker).command, LoopCommand::Capture);
    tracker.stop().unwrap();
    let step = lp.captured(Ok("c2NyZWVu".to_string()));
    assert_eq!(step.command, LoopCommand::ExtractText { screenshot: "c2NyZWVu".to_string() });
    let step = lp.text_extracted(&mut tracker, Ok("Slack".to_string()));
    assert!(matches!(step.command, LoopCommand::StartSession { .. }));
    lp.session_started(&mut tracker, Ok("uuid-late".to_string()), 1);
    assert!(tracker.active_tracking().is_some());
    assert_eq!(lp.tick(&tracker).command, LoopCommand::Exit);
}

#[test]
fn failed_capture_skips_the_tick() {
    let (tracker, mut lp) = running(None, vec![]);
    lp.tick(&tracker);
    let step = lp.captured(Err("permission".to_string()));
    assert_eq!(step.command, LoopCommand::WaitTick { seconds: 15 });
    assert_eq!(kinds(&step), vec![NoticeKind::CaptureFailed]);
    assert_eq!(step.notices[0].text, "permission");
    assert_eq!(lp.phase, LoopPhase::Waiting);
    assert_eq!(*tracker.active_tracking(), None);
    let mut lp2 = lp.clone();
    assert_eq!(lp2.tick(&tracker).command, LoopCommand::Capture);
}

#[test]
fn failed_reading_skips_the_tick_and_leaves_the_session() {
    let (mut tracker, mut lp) = reading(None, vec![]);
    lp.text_extracted(&mut tracker, Ok("Slack".to_string()));
    lp.session_started(&mut tracker, Ok("uuid-1".to_string()), 1);
    let before = tracker.active_tracking().clone();
    lp.tick(&tracker);
    lp.captured(Ok("c2NyZWVu".to_string()));
    let step = lp.text_extracted(&mut tracker, Err("engine missing".to_string()));
    assert_eq!(step.command, LoopCommand::WaitTick { seconds: 15 });
    assert_eq!(kinds(&step), vec![NoticeKind::ReadingFailed]);
    assert_eq!(step.update, None);
    assert_eq!(*tracker.active_tracking(), before);
}

#[test]
fn without_classifier_the_keyword_matcher_decides() {
    let tasks = vec![task(7, "Fix login page", "Website")];
    let (mut tracker, mut lp) = reading(None, tasks);
    let step = lp.text_extracted(&mut tracker, Ok("fix login page".to_string()));
    assert_eq!(
        kinds(&step),
        vec![
            NoticeKind::TextRead,
            NoticeKind::KeywordMatching,
            NoticeKind::MatchSummary,
            NoticeKind::MatchedKeywords
        ]
    );
    assert_eq!(step.notices[0].count, 14);
    assert_eq!(step.notices[2].text, "Unknown Application");
    assert_eq!(step.notices[2].detail, Some("Fix login page".to_string()));
    assert_eq!(step.notices[2].count, 700_000);
    assert_eq!(step.notices[3].text, "login, page");
    assert_eq!(step.notices[3].count, 2);
    assert_eq!(
        step.update,
        Some(TrackingUpdate {
            application: "Unknown Application".to_string(),
            activity: "Unknown Application - fix login page".to_string(),
            task: Some("Fix login page".to_string()),
        })
    );
    assert_eq!(
        step.command,
        LoopCommand::StartSession {
            task_id: Some("7".to_string()),
            note: "Unknown Application - fix login page".to_string()
        }
    );
    assert_eq!(
        lp.phase,
        LoopPhase::Starting {
            pending: PendingStart {
                key: "7".to_string(),
                task_id: Some("7".to_string()),
                application: "Unknown Application".to_string(),
                activity: "Unknown Application - fix login page".to_string(),
                restart: false,
            }
        }
    );
}

#[test]
fn text_size_is_counted_in_bytes() {
    let (mut tracker, mut lp) = reading(None, vec![]);
    let step = lp.text_extracted(&mut tracker, Ok("úkol".to_string()));
    assert_eq!(step.notices[0].kind, NoticeKind::TextRead);
    assert_eq!(step.notices[0].count, 5);
}

#[test]
fn with_classifier_the_question_is_put() {
    let tasks = vec![task(7, "Fix login page", "Website")];
    let (mut tracker, mut lp) = reading(Some("or-key"), tasks.clone());
    let step = lp.text_extracted(&mut tracker, Ok("fix login page".to_string()));
    assert_eq!(kinds(&step), vec![NoticeKind::TextRead, NoticeKind::AskingClassifier]);
    assert_eq!(
        step.command,
        LoopCommand::AskClassifier {
            prompt: build_prompt("fix login page", &tasks),
            api_key: "or-key".to_string()
        }
    );
    assert_eq!(step.update, None);
    assert_eq!(lp.phase, LoopPhase::Matching { ocr_text: "fix login page".to_string() });
    assert_eq!(*tracker.active_tracking(), None);
}

#[test]
fn classifier_answer_becomes_the_match() {
    let tasks = vec![task(7, "Fix login page", "Website")];
    let (mut tracker, mut lp) = reading(Some("or-key"), tasks);
    lp.text_extracted(&mut tracker, Ok("some screen".to_string()));
    let answer = AIMatchResult {
        task_id: Some(7),
        confidence: 850_000,
        reasoning: "the login page is open".to_string(),
        activity_description: "Editing the login page".to_string(),
    };
    let step = lp.classifier_answered(&mut tracker, Ok(answer));
    assert_eq!(kinds(&step), vec![NoticeKind::ClassifierAnswered, NoticeKind::MatchSummary]);
    assert_eq!(step.notices[0].count, 850_000);
    assert_eq!(step.notices[0].text, "Editing the login page");
    assert_eq!(step.notices[1].text, "AI Detection");
    assert_eq!(
        step.update,
        Some(TrackingUpdate {
            application: "AI Detection".to_string(),
            activity: "Editing the login page".to_string(),
            task: Some("Fix login page".to_string()),
        })
    );
    assert_eq!(
        step.command,
        LoopCommand::StartSession {
            task_id: Some("7".to_string()),
            note: "Editing the login page".to_string()
        }
    );
}

#[test]
fn failed_classifier_falls_back_to_the_keyword_matcher() {
    let tasks = vec![task(7, "Fix login page", "Website")];
    let (mut tracker, mut lp) = reading(Some("or-key"), tasks);
    lp.text_extracted(&mut tracker, Ok("fix login page".to_string()));
    let step = lp.classifier_answered(&mut tracker, Err("429".to_string()));
    assert_eq!(
        kinds(&step),
        vec![
            NoticeKind::ClassifierFailed,
            NoticeKind::FallbackMatching,
            NoticeKind::MatchSummary,
            NoticeKind::MatchedKeywords
        ]
    );
    assert_eq!(step.notices[0].text, "429");
    assert_eq!(step.notices[0].kind.level(), LogLevel::Warning);
    assert_eq!(
        step.command,
        LoopCommand::StartSession {
            task_id: Some("7".to_string()),
            note: "Unknown Application - fix login page".to_string()
        }
    );
}

#[test]
fn events_that_are_not_awaited_change_nothing() {
    let (mut tracker, mut lp) = running(None, vec![]);
    let before = lp.clone();
    let idle = LoopStep { notices: vec![], update: None, command: LoopCommand::Pending };
    assert_eq!(lp.begin(&mut tracker), idle);
    assert_eq!(lp.tasks_fetched(&mut tracker, Ok(vec![task(1, "a", "b")])), idle);
    assert_eq!(lp.captured(Ok("x".to_string())), idle);
    assert_eq!(lp.text_extracted(&mut tracker, Ok("x".to_string())), idle);
    assert_eq!(lp.classifier_answered(&mut tracker, Err("x".to_string())), idle);
    assert_eq!(lp.session_stopped(Ok(())), idle);
    assert_eq!(lp.session_started(&mut tracker, Ok("u".to_string()), 1), idle);
    assert_eq!(lp, before);
    assert!(tracker.tasks().is_empty());
    assert_eq!(*tracker.active_tracking(), None);
    assert!(tracker.is_running());
    let mut fresh = LoopState::new();
    assert_eq!(fresh.tick(&tracker), idle);
    assert_eq!(fresh.phase, LoopPhase::NotStarted);
}

#[test]
fn levels_of_the_notices() {
    assert_eq!(NoticeKind::LoadingTasks.level(), LogLevel::Info);
    assert_eq!(NoticeKind::Restarting.level(), LogLevel::Info);
    assert_eq!(NoticeKind::TaskStarted.level(), LogLevel::Success);
    assert_eq!(NoticeKind::TaskContinues.level(), LogLevel::Success);
    assert_eq!(NoticeKind::AwaitingStability.level(), LogLevel::Warning);
    assert_eq!(NoticeKind::ClassifierFailed.level(), LogLevel::Warning);
    assert_eq!(NoticeKind::StopFailed.level(), LogLevel::Error);
    assert_eq!(NoticeKind::StartFailed.level(), LogLevel::Error);
    assert_eq!(NoticeKind::CaptureFailed.level(), LogLevel::Error);
    assert_eq!(NoticeKind::ReadingFailed.level(), LogLevel::Error);
    assert_eq!(NoticeKind::TasksLoadFailed.level(), LogLevel::Error);
    assert_eq!(NoticeKind::ConfigMissing.level(), LogLevel::Error);
}

#[test]
fn a_whole_run_keeps_one_session() {
    let tasks = vec![task(7, "Fix login page", "Website"), task(8, "Write weekly report", "Office")];
    let (mut tracker, mut lp) = running(None, tasks);
    let mut opened: Vec<String> = vec![];
    let mut closed: Vec<String> = vec![];
    let screens = [
        "fix login page",
        "fix login page",
        "fix login page now",
        "fix login page again",
        "fix login page again",
        "write weekly report",
        "fix login page once",
        "fix login page twice",
    ];
    let mut n = 0;
    for screen in screens {
        assert_eq!(lp.tick(&tracker).command, LoopCommand::Capture);
        lp.captured(Ok("c2NyZWVu".to_string()));
        let mut step = lp.text_extracted(&mut tracker, Ok(screen.to_string()));
        loop {
            match step.command.clone() {
                LoopCommand::StopSession { uuid } => {
                    assert_eq!(*tracker.active_tracking(), None);
                    closed.push(uuid);
                    step = lp.session_stopped(Ok(()));
                },
                LoopCommand::StartSession { .. } => {
                    assert_eq!(*tracker.active_tracking(), None);
                    assert_eq!(opened.len(), closed.len());
                    n += 1;
                    let uuid = format!("uuid-{}", n);
                    opened.push(uuid.clone());
                    step = lp.session_started(&mut tracker, Ok(uuid), n);
                },
                LoopCommand::WaitTick { seconds } => {
                    assert_eq!(seconds, 15);
                    break;
                },
                other => panic!("unexpected command {:?}", other),
            }
        }
        let held = tracker.active_tracking().clone().unwrap();
        assert_eq!(Some(&held.uuid), opened.last());
        assert_eq!(opened.len(), closed.len() + 1);
        assert!(held.unstable_count <= 2);
    }
    assert_eq!(closed, opened[..opened.len() - 1].to_vec());
    assert!(opened.len() >= 2);
}

#[test]
fn configuration_with_an_interval_of_zero_is_none_to_run_with() {
    let mut tracker = Tracker::new();
    let mut zero = config(None);
    zero.interval_seconds = 0;
    tracker.set_config(zero);
    tracker.start().unwrap();
    let mut lp = LoopState::new();
    let step = lp.begin(&mut tracker);
    assert_eq!(step.command, LoopCommand::Exit);
    assert_eq!(kinds(&step), vec![NoticeKind::ConfigMissing]);
    assert_eq!(lp.phase, LoopPhase::Finished);
    assert!(!tracker.is_running());
    let mut one = config(None);
    one.interval_seconds = 1;
    tracker.set_config(one);
    tracker.start().unwrap();
    let mut next = LoopState::new();
    assert!(matches!(next.begin(&mut tracker).command, LoopCommand::FetchTasks { .. }));
    assert_eq!(next.interval_seconds, 1);
}

#[test]
fn match_without_a_task_has_no_name_in_its_summary() {
    let (mut tracker, mut lp) = reading(None, vec![]);
    let step = lp.text_extracted(&mut tracker, Ok("Slack".to_string()));
    assert_eq!(step.notices[2].kind, NoticeKind::MatchSummary);
    assert_eq!(step.notices[2].text, "Slack");
    assert_eq!(step.notices[2].detail, None);
}
