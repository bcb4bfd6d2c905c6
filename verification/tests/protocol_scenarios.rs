use asvz_bot::api::{
    AsvzError, Count, Data, EventList, Facility, Language, LessonData, SearchResult,
};
use asvz_bot::ids::LessonID;
use asvz_bot::outcome::ExistStatus;
use asvz_bot::protocol::{transform_msg, EnrollmentProtocol, JobMode, ProtocolAction, SubmitOutcome};

fn lesson(from: &str, until: &str, max: i64, count: i64) -> LessonData {
    LessonData {
        data: Data {
            enrollment_from: from.to_string(),
            enrollment_until: until.to_string(),
            starts: from.to_string(),
            participants_max: max,
            participant_count: count,
            sport_name: "Fitness".to_string(),
            facilities: vec![Facility {
                facility_id: 45613,
                name_short: "SZ".to_string(),
                name: "Sport Center".to_string(),
                url: "https://www.asvz.ch/anlage/45613-sport-center".to_string(),
            }],
            instructors: vec![],
            language: Language {
                id: "1".to_string(),
                code: "de".to_string(),
                name: "Deutsch".to_string(),
            },
        },
    }
}

// Epoch-based datetime strings keep the arithmetic readable:
// 90s  -> 1970-01-01T00:01:30+0000
// 101s -> 1970-01-01T00:01:41+0000
// 600s -> 1970-01-01T00:10:00+0000
// 1200s -> 1970-01-01T00:20:00+0000
// 86400s -> 1970-01-02T00:00:00+0000

fn id(s: &str) -> LessonID {
    LessonID::from_str(s).unwrap()
}

fn reply_text(a: &ProtocolAction) -> String {
    match a {
        ProtocolAction::Reply(m) => m.clone(),
        other => panic!("expected a reply, got {:?}", other),
    }
}

fn finish_outcome(a: ProtocolAction) -> ExistStatus {
    match a {
        ProtocolAction::Finish(o) => o,
        other => panic!("expected a finish, got {:?}", other),
    }
}

#[test]
fn watch_closed_window_fails_without_any_submission() {
    // Scenario: the close timestamp passed before dispatch.
    let (mut m, a) = EnrollmentProtocol::start(JobMode::Watch, false, id("196346"));
    assert_eq!(a, ProtocolAction::Fetch);
    let data = lesson("1970-01-01T00:10:00+0000", "1970-01-01T00:20:00+0000", 20, 20);
    let a = m.on_fetched(2000, Ok(data));
    assert_eq!(
        finish_outcome(a),
        ExistStatus::Failure("You can no longer enroll.".to_string())
    );
    assert!(m.is_done());
}

#[test]
fn register_closed_window_fails_without_any_submission() {
    let (mut m, a) = EnrollmentProtocol::start(JobMode::Register, false, id("196346"));
    // Register authenticates first; no submission can have happened yet.
    assert_eq!(a, ProtocolAction::Authenticate);
    let a = m.on_authenticated(2000, Ok(()));
    assert_eq!(a, ProtocolAction::Fetch);
    let data = lesson("1970-01-01T00:10:00+0000", "1970-01-01T00:20:00+0000", 20, 20);
    let a = m.on_fetched(2000, Ok(data));
    assert_eq!(
        finish_outcome(a),
        ExistStatus::Failure("You can no longer enroll".to_string())
    );
    assert!(m.is_done());
}

#[test]
fn watch_full_then_one_spot_frees() {
    // Scenario: the window opens in 90 seconds, capacity is full at the
    // open, and one spot frees after some polling.
    let (mut m, a) = EnrollmentProtocol::start(JobMode::Watch, false, id("196346"));
    assert_eq!(a, ProtocolAction::Fetch);
    let full = || lesson("1970-01-01T00:01:30+0000", "1970-01-02T00:00:00+0000", 20, 20);
    // 90 seconds out, watch lead is 60: announce a 30 second wait.
    let a = m.on_fetched(0, Ok(full()));
    assert_eq!(
        reply_text(&a),
        "I will remind you to enroll in 30 seconds."
    );
    let a = m.on_replied();
    assert_eq!(a, ProtocolAction::SleepSecs(30));
    let a = m.on_slept(90);
    assert_eq!(a, ProtocolAction::Fetch);
    // Full at the open: the one-time notice, then the poll interval.
    let a = m.on_fetched(90, Ok(full()));
    assert_eq!(
        reply_text(&a),
        "This lesson is already full. I will notify you, when a spot opens up."
    );
    let a = m.on_replied();
    assert_eq!(a, ProtocolAction::SleepSecs(10));
    let a = m.on_slept(100);
    assert_eq!(a, ProtocolAction::Fetch);
    // Still full: no second notice, straight back to sleep.
    let a = m.on_fetched(100, Ok(full()));
    assert_eq!(a, ProtocolAction::SleepSecs(10));
    let a = m.on_slept(110);
    assert_eq!(a, ProtocolAction::Fetch);
    // One spot freed: success within one poll cycle.
    let freed = lesson("1970-01-01T00:01:30+0000", "1970-01-02T00:00:00+0000", 20, 19);
    let a = m.on_fetched(110, Ok(freed));
    assert_eq!(
        finish_outcome(a),
        ExistStatus::Success("There are currently 1 free spots.".to_string())
    );
    assert!(m.is_done());
}

#[test]
fn register_burst_of_unprocessable_then_created() {
    // Scenario: register mode sees "unprocessable" forty times in the
    // tight burst, then "created": one success, no error.
    let (mut m, a) = EnrollmentProtocol::start(JobMode::Register, false, id("196346"));
    assert_eq!(a, ProtocolAction::Authenticate);
    let a = m.on_authenticated(100, Ok(()));
    assert_eq!(a, ProtocolAction::Fetch);
    // Window opens at 101, one second out; register lead is 30.
    let data = lesson("1970-01-01T00:01:41+0000", "1970-01-01T02:46:40+0000", 20, 20);
    let a = m.on_fetched(100, Ok(data));
    assert_eq!(reply_text(&a), "I will enroll you in 1 seconds");
    let a = m.on_replied();
    assert_eq!(a, ProtocolAction::SleepSecs(0));
    let a = m.on_slept(100);
    assert_eq!(a, ProtocolAction::Authenticate);
    let a = m.on_authenticated(100, Ok(()));
    assert_eq!(a, ProtocolAction::SleepSecs(0));
    let a = m.on_slept(101);
    assert_eq!(a, ProtocolAction::Submit);
    let mut replies = 0;
    for _ in 0..40 {
        // Within the grace period the burst re-submits with no delay.
        let a = m.on_submitted(103, Ok(SubmitOutcome::Unprocessable));
        assert_eq!(a, ProtocolAction::Submit);
        replies += 1;
    }
    assert_eq!(replies, 40);
    let a = m.on_submitted(104, Ok(SubmitOutcome::Created));
    assert_eq!(
        finish_outcome(a),
        ExistStatus::Success("I successfully enrolled you".to_string())
    );
    assert!(m.is_done());
}

#[test]
fn watch_deadline_passes_during_polling() {
    let (mut m, _) = EnrollmentProtocol::start(JobMode::Watch, false, id("196346"));
    // Window open, closing at 1200, still full.
    let full = lesson("1970-01-01T00:10:00+0000", "1970-01-01T00:20:00+0000", 20, 20);
    let a = m.on_fetched(700, Ok(full.clone()));
    assert_eq!(a, ProtocolAction::Fetch);
    let a = m.on_fetched(700, Ok(full));
    assert_eq!(
        reply_text(&a),
        "This lesson is already full. I will notify you, when a spot opens up."
    );
    m.on_replied();
    // The deadline passes while asleep: the next wake-up fails the run.
    let a = m.on_slept(1201);
    assert_eq!(
        finish_outcome(a),
        ExistStatus::Failure("You can no longer enroll.".to_string())
    );
    assert!(m.is_done());
}

#[test]
fn register_first_authentication_failure_aborts() {
    // Scenario: the very first authentication call fails; the run ends
    // with the login failure and nothing is relaunched.
    let (mut m, a) = EnrollmentProtocol::start(JobMode::Register, false, id("196346"));
    assert_eq!(a, ProtocolAction::Authenticate);
    let a = m.on_authenticated(0, Err("Http error: boom".to_string()));
    assert_eq!(
        finish_outcome(a),
        ExistStatus::Error("Unable to log in: Http error: boom".to_string())
    );
    assert!(m.is_done());
}

#[test]
fn register_rate_limit_backoffs() {
    let (mut m, _) = EnrollmentProtocol::start(JobMode::Register, false, id("196346"));
    m.on_authenticated(100, Ok(()));
    let data = lesson("1970-01-01T00:01:41+0000", "1970-01-01T02:46:40+0000", 20, 20);
    m.on_fetched(100, Ok(data));
    m.on_replied();
    m.on_slept(100);
    m.on_authenticated(100, Ok(()));
    m.on_slept(101);
    // Tight burst: a rate limit backs off briefly, then re-submits.
    let a = m.on_submitted(102, Ok(SubmitOutcome::TooManyRequests));
    assert_eq!(a, ProtocolAction::SleepMillis(300));
    let a = m.on_slept(102);
    assert_eq!(a, ProtocolAction::Submit);
    // Past the grace period the burst hands over to the slow loop.
    let a = m.on_submitted(107, Ok(SubmitOutcome::Unprocessable));
    assert_eq!(a, ProtocolAction::Submit);
    // Slow loop: the longer backoff, then the one-time full notice.
    let a = m.on_submitted(108, Ok(SubmitOutcome::TooManyRequests));
    assert_eq!(a, ProtocolAction::SleepMillis(500));
    let a = m.on_slept(108);
    assert_eq!(
        reply_text(&a),
        "It's already full. I will try to enroll you, when something opens up"
    );
    let a = m.on_replied();
    assert_eq!(a, ProtocolAction::SleepSecs(10));
    // A stale token mid-loop re-authenticates and keeps going.
    let a = m.on_slept(120);
    assert_eq!(a, ProtocolAction::Submit);
    let a = m.on_submitted(120, Ok(SubmitOutcome::Unauthorized));
    assert_eq!(a, ProtocolAction::Authenticate);
    let a = m.on_authenticated(120, Ok(()));
    assert_eq!(a, ProtocolAction::SleepSecs(10));
}

#[test]
fn register_unexpected_status_ends_the_run() {
    let (mut m, _) = EnrollmentProtocol::start(JobMode::Register, false, id("196346"));
    m.on_authenticated(500, Ok(()));
    let data = lesson("1970-01-01T00:01:41+0000", "1970-01-01T02:46:40+0000", 20, 20);
    // Window already open at 500: straight into the slow loop.
    let a = m.on_fetched(500, Ok(data));
    assert_eq!(a, ProtocolAction::Submit);
    let a = m.on_submitted(500, Ok(SubmitOutcome::Other(500)));
    assert_eq!(
        finish_outcome(a),
        ExistStatus::Error("Got unexpected status code: 500".to_string())
    );
}

#[test]
fn register_submit_transport_error_aborts_run() {
    let (mut m, _) = EnrollmentProtocol::start(JobMode::Register, false, id("196346"));
    m.on_authenticated(500, Ok(()));
    let data = lesson("1970-01-01T00:01:41+0000", "1970-01-01T02:46:40+0000", 20, 20);
    let a = m.on_fetched(500, Ok(data));
    assert_eq!(a, ProtocolAction::Submit);
    let a = m.on_submitted(500, Err(AsvzError::HttpMiddleware("retries exhausted".to_string())));
    assert_eq!(
        finish_outcome(a),
        ExistStatus::Error("I got an unexpected error: Http error: retries exhausted".to_string())
    );
    assert!(m.is_done());
}

#[test]
fn watch_fetch_error_aborts_run() {
    let (mut m, _) = EnrollmentProtocol::start(JobMode::Watch, false, id("196346"));
    let a = m.on_fetched(0, Err(AsvzError::Http("boom".to_string())));
    assert_eq!(
        finish_outcome(a),
        ExistStatus::Error("I got an unexpected error: Http error: boom".to_string())
    );
}

#[test]
fn watch_unreadable_window_aborts_run() {
    let (mut m, _) = EnrollmentProtocol::start(JobMode::Watch, false, id("196346"));
    let bad = lesson("whenever", "1970-01-02T00:00:00+0000", 20, 20);
    let a = m.on_fetched(0, Ok(bad));
    assert_eq!(
        finish_outcome(a),
        ExistStatus::Error(
            "I got an unexpected error: Unexpected Response from the Server".to_string()
        )
    );
}

fn found(next: &str) -> EventList {
    EventList {
        results: vec![SearchResult {
            nid: 1,
            title: "Fitness".to_string(),
            url: format!("https://schalter.asvz.ch/tn/lessons/{}", next),
        }],
        count: Count { total: 1, limit: 1, offset: 0 },
        facets: vec![],
    }
}

fn nothing_found() -> EventList {
    EventList {
        results: vec![],
        count: Count { total: 0, limit: 1, offset: 0 },
        facets: vec![],
    }
}

/// Runs one weekly watch round to its outcome: a free spot right away.
fn run_watch_round(m: &mut EnrollmentProtocol, now: i64) -> ProtocolAction {
    let open = lesson("1970-01-01T00:00:01+0000", "1970-01-02T00:00:00+0000", 20, 10);
    let a = m.on_fetched(now, Ok(open.clone()));
    assert_eq!(a, ProtocolAction::Fetch);
    m.on_fetched(now, Ok(open))
}

#[test]
fn weekly_chain_runs_until_no_next_lesson() {
    // Scenario: two found searches, then none: three runs in all, every
    // found search re-enters the protocol exactly once, and the chain
    // ends with the definitive failure.
    let (mut m, a) = EnrollmentProtocol::start(JobMode::Watch, true, id("111"));
    assert_eq!(a, ProtocolAction::Fetch);
    let mut runs = 1;
    for next in ["222", "333"] {
        // The round succeeds; the weekly machine relays the message ...
        let a = run_watch_round(&mut m, 100);
        assert_eq!(
            reply_text(&a),
            "There are currently 10 free spots."
        );
        assert!(!m.is_done());
        // ... then searches for next week's lesson.
        let a = m.on_replied();
        assert_eq!(a, ProtocolAction::Search);
        let a = m.on_search_result(Ok(found(next)));
        assert_eq!(
            reply_text(&a),
            format!("Found next week's lesson: {}", next)
        );
        // The delivered notice re-enters the protocol: one more run.
        let a = m.on_replied();
        assert_eq!(a, ProtocolAction::Fetch);
        runs += 1;
    }
    let a = run_watch_round(&mut m, 100);
    assert_eq!(reply_text(&a), "There are currently 10 free spots.");
    let a = m.on_replied();
    assert_eq!(a, ProtocolAction::Search);
    let a = m.on_search_result(Ok(nothing_found()));
    assert_eq!(
        finish_outcome(a),
        ExistStatus::Failure("Unable to find next lesson".to_string())
    );
    assert!(m.is_done());
    assert_eq!(runs, 3);
}

#[test]
fn replies_carry_the_target_prefix() {
    assert_eq!(transform_msg(&id("196346"), "hello"), "[196346] hello");
    assert_eq!(transform_msg(&id("7"), ""), "[7] ");
}

#[test]
fn weekly_chain_ends_immediately_on_error() {
    // An aborted run ends the chain without searching.
    let (mut m, _) = EnrollmentProtocol::start(JobMode::Register, true, id("111"));
    let a = m.on_authenticated(0, Err("down".to_string()));
    assert_eq!(
        finish_outcome(a),
        ExistStatus::Error("Unable to log in: down".to_string())
    );
    assert!(m.is_done());
}

#[test]
fn weekly_chain_search_error_aborts() {
    let (mut m, _) = EnrollmentProtocol::start(JobMode::Watch, true, id("111"));
    let a = run_watch_round(&mut m, 100);
    assert_eq!(reply_text(&a), "There are currently 10 free spots.");
    let a = m.on_replied();
    assert_eq!(a, ProtocolAction::Search);
    let a = m.on_search_result(Err(AsvzError::Http("offline".to_string())));
    assert_eq!(
        finish_outcome(a),
        ExistStatus::Error("I got an unexpected error: Http error: offline".to_string())
    );
}
