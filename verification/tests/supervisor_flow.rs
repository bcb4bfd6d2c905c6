use asvz_bot::cmd::{CmdParseError, Command};
use asvz_bot::protocol::JobMode;
use asvz_bot::ids::{LessonID, Password, Username};
use asvz_bot::supervisor::{InternalJob, JobError, JobKind, State};
use asvz_bot::users::{UrlAction, UserId};

fn id(s: &str) -> LessonID {
    LessonID::from_str(s).unwrap()
}

fn user(n: i64) -> UserId {
    UserId(n)
}

fn creds(u: &str, p: &str) -> (Username, Password) {
    (Username::from_str(u).unwrap(), Password::from_str(p).unwrap())
}

fn msg_of(kind: &JobKind) -> &str {
    match kind {
        JobKind::Internal(InternalJob::MsgUser(m)) => m.as_str(),
        JobKind::Internal(InternalJob::DeleteMsgUser(m)) => m.as_str(),
        _ => panic!("expected a housekeeping job"),
    }
}

#[test]
fn cancel_all_touches_only_the_owner() {
    let mut st = State::new();
    let (un, pw) = creds("nora", "pw");
    let h1 = st.register_job(JobKind::Notify(id("111")), user(1));
    let h2 = st.register_job(JobKind::Enroll(id("222"), un, pw), user(1));
    let _h3 = st.register_job(JobKind::Internal(InternalJob::MsgUser("hi".to_string())), user(1));
    let h4 = st.register_job(JobKind::Notify(id("333")), user(2));
    // Only operator 1's two real jobs are named, in order.
    assert_eq!(st.cancel_jobs(user(1)), vec![h1, h2]);
    // Operator 2 keeps their own single job.
    assert_eq!(st.cancel_jobs(user(2)), vec![h4]);
    // The count reported back matches the aborted set.
    let action = st.handle_cmd(Command::CancelAll, user(1));
    assert_eq!(action.abort_handles, vec![h1, h2]);
    assert_eq!(msg_of(&action.request.kind), "Canceled 2 Jobs.");
}

#[test]
fn relaunch_strictly_increments_the_retry_count() {
    let st = State::new();
    let err = JobError::new(JobKind::Notify(id("111")), user(7), 0, None);
    let plan1 = st.handle_err(err);
    assert_eq!(plan1.request.retry_count, 1);
    assert_eq!(plan1.delay_secs, 0);
    assert_eq!(
        plan1.request.pre_msg.as_deref(),
        Some("An unexpected error occurred. Restarting your Job")
    );
    // Relaunched a second time: the count reaches two.
    let err2 = JobError::new(plan1.request.kind, plan1.request.user_id, plan1.request.retry_count, None);
    let plan2 = st.handle_err(err2);
    assert_eq!(plan2.request.retry_count, 2);
    // A remote cool-down is honored with the safety margin.
    let err3 = JobError::new(JobKind::Notify(id("111")), user(7), 2, Some(30));
    assert_eq!(st.handle_err(err3).delay_secs, 35);
}

#[test]
fn login_logout_round_trip() {
    let mut st = State::new();
    let (un, pw) = creds("nora", "pw");
    let a = st.handle_cmd(Command::Login { username: un, password: pw }, user(1));
    assert_eq!(msg_of(&a.request.kind), "Stored credentials");
    assert!(matches!(
        a.request.kind,
        JobKind::Internal(InternalJob::DeleteMsgUser(_))
    ));
    // A second login updates.
    let (un, pw) = creds("nora", "pw2");
    let a = st.handle_cmd(Command::Login { username: un, password: pw }, user(1));
    assert_eq!(msg_of(&a.request.kind), "Updated credentials");
    // Enrolling now uses the stored credentials.
    let a = st.handle_cmd(Command::Enroll { lesson_id: id("196346") }, user(1));
    match &a.request.kind {
        JobKind::Enroll(l, u, p) => {
            assert_eq!(l.as_str(), "196346");
            assert_eq!(u.as_str(), "nora");
            assert_eq!(p.as_str_dangerous(), "pw2");
        },
        _ => panic!("expected an enroll job"),
    }
    // Logout clears them.
    let a = st.handle_cmd(Command::Logout, user(1));
    assert_eq!(msg_of(&a.request.kind), "Deleted your credentials");
    let a = st.handle_cmd(Command::Logout, user(1));
    assert_eq!(msg_of(&a.request.kind), "You have no credentials stored");
    // Enrolling without credentials only explains.
    let a = st.handle_cmd(Command::Enroll { lesson_id: id("196346") }, user(1));
    assert_eq!(
        msg_of(&a.request.kind),
        "You need to be logged in to directly enroll\nSee /help for more info."
    );
}

#[test]
fn url_reaction_follows_setting_and_credentials() {
    let mut st = State::new();
    // No credentials, default behavior: a notification job.
    let r = st.handle_url(id("196346"), user(1));
    assert!(matches!(r.kind, JobKind::Notify(_)));
    assert_eq!(
        r.pre_msg.as_deref(),
        Some(
            "Found lesson url. Starting a notification job. If you wanted to enroll you can change the default behavior. See /help."
        )
    );
    // With credentials, default behavior: an enrollment job.
    let (un, pw) = creds("nora", "pw");
    st.handle_cmd(Command::Login { username: un, password: pw }, user(1));
    let r = st.handle_url(id("196346"), user(1));
    assert!(matches!(r.kind, JobKind::Enroll(_, _, _)));
    assert_eq!(
        r.pre_msg.as_deref(),
        Some(
            "Found lesson url. Starting an enrollment job. If you wanted to get notified you can change the default behavior. See /help."
        )
    );
    // Forced to notify despite credentials.
    let a = st.handle_cmd(Command::UrlAction { url_action: UrlAction::Notify }, user(1));
    assert_eq!(msg_of(&a.request.kind), "Changed your url_action to Notify.");
    let r = st.handle_url(id("196346"), user(1));
    assert!(matches!(r.kind, JobKind::Notify(_)));
    // Forced to enroll without credentials: only an explanation.
    st.handle_cmd(Command::Logout, user(1));
    st.handle_cmd(Command::UrlAction { url_action: UrlAction::Enroll }, user(1));
    let r = st.handle_url(id("196346"), user(1));
    assert_eq!(
        msg_of(&r.kind),
        "I can't enroll you without you being logged in. See /help for more info."
    );
    assert!(r.pre_msg.is_none());
}

#[test]
fn listing_names_the_operators_jobs() {
    let mut st = State::new();
    let (un, pw) = creds("nora", "pw");
    st.register_job(JobKind::Notify(id("111")), user(1));
    st.register_job(JobKind::EnrollWeekly(id("222"), un, pw), user(1));
    st.register_job(JobKind::Internal(InternalJob::MsgUser("x".to_string())), user(1));
    st.register_job(JobKind::Notify(id("999")), user(2));
    assert_eq!(
        st.current_jobs(user(1)),
        "Current Jobs:\nNotify 111\nEnrollWeekly 222"
    );
    assert_eq!(st.current_jobs(user(3)), "Current Jobs:");
    let a = st.handle_cmd(Command::Jobs, user(1));
    assert_eq!(
        msg_of(&a.request.kind),
        "Current Jobs:\nNotify 111\nEnrollWeekly 222"
    );
}

#[test]
fn finished_jobs_leave_the_set() {
    let mut st = State::new();
    let h1 = st.register_job(JobKind::Notify(id("111")), user(1));
    let h2 = st.register_job(JobKind::NotifyWeekly(id("222")), user(1));
    st.job_finished(h1);
    assert_eq!(st.cancel_jobs(user(1)), vec![h2]);
    assert_eq!(st.current_jobs(user(1)), "Current Jobs:\nNotifyWeekly 222");
    // An unknown handle changes nothing.
    st.job_finished(12345);
    assert_eq!(st.cancel_jobs(user(1)), vec![h2]);
}

#[test]
fn start_and_help_texts() {
    let mut st = State::new();
    let a = st.handle_cmd(Command::Start, user(1));
    assert!(msg_of(&a.request.kind).starts_with("Welcome to the ASVZ telegram bot."));
    let a = st.handle_cmd(Command::Help, user(1));
    let help = msg_of(&a.request.kind).to_string();
    assert!(help.starts_with("The following commands are supported:"));
    assert!(help.contains("/enrollweekly <lesson_id>"));
}

#[test]
fn parse_error_replies() {
    let st = State::new();
    let r = st.handle_cmd_err(CmdParseError::UnknownCommand, user(1));
    assert_eq!(
        msg_of(&r.kind),
        "Unknown Command. See /help for available commands."
    );
    let r = st.handle_cmd_err(
        CmdParseError::TooFewArguments { expected: 2, found: 1 },
        user(1),
    );
    assert_eq!(
        msg_of(&r.kind),
        "Expected 2 arguments but got 1. See /help for more info."
    );
    let r = st.handle_cmd_err(
        CmdParseError::IncorrectFormat("bad digit".to_string()),
        user(1),
    );
    assert_eq!(
        msg_of(&r.kind),
        "Arguments are not formatted correctly: bad digit!"
    );
    let r = st.handle_cmd_err(
        CmdParseError::Custom("A lesson_id may only contain numbers!".to_string()),
        user(1),
    );
    assert_eq!(
        msg_of(&r.kind),
        "A lesson_id may only contain numbers!. See /help for more info."
    );
}

#[test]
fn job_kinds_map_to_their_protocols() {
    let (un, pw) = creds("nora", "pw");
    let p = JobKind::Notify(id("1")).to_protocol().unwrap();
    assert!(matches!(p.0, JobMode::Watch) && !p.1);
    let p = JobKind::NotifyWeekly(id("2")).to_protocol().unwrap();
    assert!(matches!(p.0, JobMode::Watch) && p.1);
    let p = JobKind::Enroll(id("3"), un, pw).to_protocol().unwrap();
    assert!(matches!(p.0, JobMode::Register) && !p.1);
    assert_eq!(p.2.as_str(), "3");
    assert!(JobKind::Internal(InternalJob::MsgUser("x".to_string())).to_protocol().is_none());
    assert!(JobKind::Internal(InternalJob::MsgUser("x".to_string())).is_internal());
    assert!(!JobKind::Notify(id("1")).is_internal());
}
