//! The per-target enrollment protocol: a state machine that drives one
//! lesson id from "window not open yet" to a terminal outcome.
//!
//! The machine never performs I/O.  Each call hands it the present clock
//! reading and the result of the action it last requested; it answers with
//! the next action: send a reply, sleep, fetch metadata, authenticate,
//! submit a registration, search for next week's lesson, or finish.  The
//! runner outside performs the action and feeds the result back in.
//!
//! Watch mode polls the lesson's occupancy and only notifies; register
//! mode submits registration calls, first in a tight burst right after the
//! window opens, then at a polite poll interval.  A weekly machine chains
//! into next week's occurrence of the same lesson when a run ends.

use vstd::prelude::*;

use crate::api::{valid_ts, AsvzError, EventList, LessonData, MAX_TIMESTAMP};
use crate::api::url_lesson_id;
use crate::ids::{lesson_id_chars, LessonID};
use crate::outcome::{ExistStatus, OutcomeView};
use crate::text::{dec_seq, u64_to_string};

verus! {

/// Lead seconds before window open at which a watch job wakes up.
pub const WATCH_LEAD_SECS: i64 = 60;

/// Lead seconds before window open at which a register job refreshes its
/// token.
pub const ENROLL_LEAD_SECS: i64 = 30;

/// Lead seconds of the final nap right before the window opens.
pub const ENROLL_FINAL_LEAD_SECS: i64 = 2;

/// How long past window open the tight submission burst keeps going.
pub const ENROLL_GRACE_SECS: i64 = 5;

/// The polite poll interval of the slow phase.
pub const POLL_INTERVAL_SECS: u64 = 10;

/// Backoff after a rate-limit answer during the tight burst.
pub const TIGHT_BACKOFF_MILLIS: u64 = 300;

/// Backoff after a rate-limit answer during the slow phase.
pub const SLOW_BACKOFF_MILLIS: u64 = 500;

/// What a job does once the window opens: notify only, or register.
#[derive(Debug, Clone, Copy, PartialEq, Eq, Structural)]
pub enum JobMode {
    Watch,
    Register,
}

/// The classified status of one registration submission.
#[derive(Debug, Clone, Copy, PartialEq, Eq, Structural)]
pub enum SubmitOutcome {
    /// The registration was created.
    Created,
    /// Capacity full or window not open: keep trying.
    Unprocessable,
    /// Rate limited: back off briefly.
    TooManyRequests,
    /// The bearer token expired: authenticate again.
    Unauthorized,
    /// Any other status ends the run.
    Other(u16),
}

/// Where the machine stands; each variant waits for exactly one event.
#[derive(Debug, Clone, Copy, PartialEq, Eq, Structural)]
pub enum ProtoState {
    /// Register: waiting for the initial authentication.
    AwaitAuth,
    /// Waiting for the initial metadata fetch.
    AwaitFetch,
    /// Told the operator how long until the window opens.
    AwaitLeadReply { from: i64, until: i64, wait: u64 },
    /// Sleeping until shortly before the window opens.
    AwaitLeadSleep { from: i64, until: i64 },
    /// Register: waiting for the token refresh after the lead sleep.
    AwaitReAuth { from: i64, until: i64 },
    /// Register: the final nap right before the window opens.
    AwaitFinalSleep { from: i64, until: i64 },
    /// Register: a submission of the tight burst is in flight.
    AwaitTightSubmit { from: i64, until: i64 },
    /// Register: rate-limit backoff inside the tight burst.
    AwaitTightSleep { from: i64, until: i64 },
    /// Register: re-authentication inside the tight burst.
    AwaitTightAuth { from: i64, until: i64 },
    /// Watch: a poll fetch is in flight.
    AwaitPollFetch { until: i64, first: bool },
    /// Register: a submission of the slow phase is in flight.
    AwaitSlowSubmit { until: i64, first: bool },
    /// The one-time "it's full" notice is being delivered.
    AwaitFullReply { until: i64 },
    /// The poll-interval sleep of the slow phase.
    AwaitPollSleep { until: i64 },
    /// Register: rate-limit backoff inside the slow phase.
    AwaitSlowBackoff { until: i64, first: bool },
    /// Register: re-authentication inside the slow phase.
    AwaitSlowAuth { until: i64, first: bool },
    /// Weekly: the finished run's message is being delivered.
    AwaitOutcomeReply,
    /// Weekly: the search for next week's lesson is in flight.
    AwaitSearch,
    /// Weekly: the "found next week's lesson" notice is being delivered.
    AwaitFoundReply,
    /// The run is over; no further event is expected.
    Done,
}

/// What the machine asks its runner to do next.
#[derive(Debug, Clone, PartialEq, Eq)]
pub enum ProtocolAction {
    /// Send this text to the operator (prefixed with the target id).
    Reply(String),
    /// Sleep this many seconds, then report back.
    SleepSecs(u64),
    /// Sleep this many milliseconds, then report back.
    SleepMillis(u64),
    /// Fetch the target's metadata.
    Fetch,
    /// Obtain a fresh bearer token.
    Authenticate,
    /// Submit one registration call.
    Submit,
    /// Search for next week's occurrence of the current target.
    Search,
    /// The run is over with this outcome.
    Finish(ExistStatus),
}

/// The mathematical value of an action.
pub enum ActionView {
    Reply(Seq<char>),
    SleepSecs(u64),
    SleepMillis(u64),
    Fetch,
    Authenticate,
    Submit,
    Search,
    Finish(OutcomeView),
}

impl View for ProtocolAction {
    type V = ActionView;

    open spec fn view(&self) -> ActionView {
        match self {
            ProtocolAction::Reply(m) => ActionView::Reply(m@),
            ProtocolAction::SleepSecs(s) => ActionView::SleepSecs(*s),
            ProtocolAction::SleepMillis(s) => ActionView::SleepMillis(*s),
            ProtocolAction::Fetch => ActionView::Fetch,
            ProtocolAction::Authenticate => ActionView::Authenticate,
            ProtocolAction::Submit => ActionView::Submit,
            ProtocolAction::Search => ActionView::Search,
            ProtocolAction::Finish(o) => ActionView::Finish(o@),
        }
    }
}

// ---------------------------------------------------------------------
// Reply texts.
// ---------------------------------------------------------------------

pub open spec fn remind_msg(wait: nat) -> Seq<char> {
    "I will remind you to enroll in "@ + dec_seq(wait) + " seconds."@
}

pub open spec fn will_enroll_msg(secs: nat) -> Seq<char> {
    "I will enroll you in "@ + dec_seq(secs) + " seconds"@
}

pub open spec fn free_spots_msg(n: nat) -> Seq<char> {
    "There are currently "@ + dec_seq(n) + " free spots."@
}

pub open spec fn unexpected_status_msg(code: nat) -> Seq<char> {
    "Got unexpected status code: "@ + dec_seq(code)
}

pub open spec fn login_failed_msg(e: Seq<char>) -> Seq<char> {
    "Unable to log in: "@ + e
}

pub open spec fn remote_error_msg(e: Seq<char>) -> Seq<char> {
    "I got an unexpected error: "@ + e
}

pub open spec fn found_next_msg(id: Seq<char>) -> Seq<char> {
    "Found next week's lesson: "@ + id
}

pub open spec fn watch_full_msg() -> Seq<char> {
    "This lesson is already full. I will notify you, when a spot opens up."@
}

pub open spec fn enroll_full_msg() -> Seq<char> {
    "It's already full. I will try to enroll you, when something opens up"@
}

pub open spec fn enrolled_msg() -> Seq<char> {
    "I successfully enrolled you"@
}

pub open spec fn no_next_msg() -> Seq<char> {
    "Unable to find next lesson"@
}

/// The deadline notice; watch mode ends its sentence with a period.
pub open spec fn deadline_msg(mode: JobMode) -> Seq<char> {
    if mode is Watch {
        "You can no longer enroll."@
    } else {
        "You can no longer enroll"@
    }
}

fn build_remind_msg(wait: u64) -> (r: String)
    ensures
        r@ == remind_msg(wait as nat),
{
    "I will remind you to enroll in ".to_owned().concat(u64_to_string(wait).as_str()).concat(
        " seconds.",
    )
}

fn build_will_enroll_msg(secs: u64) -> (r: String)
    ensures
        r@ == will_enroll_msg(secs as nat),
{
    "I will enroll you in ".to_owned().concat(u64_to_string(secs).as_str()).concat(" seconds")
}

fn build_free_spots_msg(n: u64) -> (r: String)
    ensures
        r@ == free_spots_msg(n as nat),
{
    "There are currently ".to_owned().concat(u64_to_string(n).as_str()).concat(" free spots.")
}

fn build_unexpected_status_msg(code: u16) -> (r: String)
    ensures
        r@ == unexpected_status_msg(code as nat),
{
    "Got unexpected status code: ".to_owned().concat(u64_to_string(code as u64).as_str())
}

fn build_login_failed_msg(e: &str) -> (r: String)
    ensures
        r@ == login_failed_msg(e@),
{
    "Unable to log in: ".to_owned().concat(e)
}

fn build_remote_error_msg(e: &AsvzError) -> (r: String)
    ensures
        r@ == remote_error_msg(e.msg()),
{
    "I got an unexpected error: ".to_owned().concat(e.message().as_str())
}

fn build_found_next_msg(id: &LessonID) -> (r: String)
    ensures
        r@ == found_next_msg(id@),
{
    "Found next week's lesson: ".to_owned().concat(id.as_str())
}

// ---------------------------------------------------------------------
// The machine and its mathematical model.
// ---------------------------------------------------------------------

/// One protocol run in progress.
pub struct EnrollmentProtocol {
    /// Notify only, or submit registrations.
    pub mode: JobMode,
    /// Chain into next week's lesson when a run ends.
    pub weekly: bool,
    /// The current target; weekly chaining rebinds it.
    pub id: LessonID,
    /// Which event the machine waits for.
    pub state: ProtoState,
}

/// The mathematical value of a machine.
pub struct MachineView {
    pub mode: JobMode,
    pub weekly: bool,
    pub id: Seq<char>,
    pub state: ProtoState,
}

impl View for EnrollmentProtocol {
    type V = MachineView;

    open spec fn view(&self) -> MachineView {
        MachineView { mode: self.mode, weekly: self.weekly, id: self.id@, state: self.state }
    }
}

/// A timestamp the machine works with.
pub open spec fn ts_ok(t: i64) -> bool {
    0 <= t <= MAX_TIMESTAMP
}

/// Window timestamps stored in a state are in range.
pub open spec fn state_wf(s: ProtoState) -> bool {
    match s {
        ProtoState::AwaitLeadReply { from, until, .. } => ts_ok(from) && ts_ok(until),
        ProtoState::AwaitLeadSleep { from, until } => ts_ok(from) && ts_ok(until),
        ProtoState::AwaitReAuth { from, until } => ts_ok(from) && ts_ok(until),
        ProtoState::AwaitFinalSleep { from, until } => ts_ok(from) && ts_ok(until),
        ProtoState::AwaitTightSubmit { from, until } => ts_ok(from) && ts_ok(until),
        ProtoState::AwaitTightSleep { from, until } => ts_ok(from) && ts_ok(until),
        ProtoState::AwaitTightAuth { from, until } => ts_ok(from) && ts_ok(until),
        ProtoState::AwaitPollFetch { until, .. } => ts_ok(until),
        ProtoState::AwaitSlowSubmit { until, .. } => ts_ok(until),
        ProtoState::AwaitFullReply { until } => ts_ok(until),
        ProtoState::AwaitPollSleep { until } => ts_ok(until),
        ProtoState::AwaitSlowBackoff { until, .. } => ts_ok(until),
        ProtoState::AwaitSlowAuth { until, .. } => ts_ok(until),
        _ => true,
    }
}

/// Register-only and watch-only states sit with the right mode, and the
/// chain states only in a weekly machine.
pub open spec fn mode_state_ok(mode: JobMode, weekly: bool, s: ProtoState) -> bool {
    match s {
        ProtoState::AwaitAuth => mode is Register,
        ProtoState::AwaitReAuth { .. } => mode is Register,
        ProtoState::AwaitFinalSleep { .. } => mode is Register,
        ProtoState::AwaitTightSubmit { .. } => mode is Register,
        ProtoState::AwaitTightSleep { .. } => mode is Register,
        ProtoState::AwaitTightAuth { .. } => mode is Register,
        ProtoState::AwaitSlowSubmit { .. } => mode is Register,
        ProtoState::AwaitSlowBackoff { .. } => mode is Register,
        ProtoState::AwaitSlowAuth { .. } => mode is Register,
        ProtoState::AwaitPollFetch { .. } => mode is Watch,
        ProtoState::AwaitOutcomeReply => weekly,
        ProtoState::AwaitSearch => weekly,
        ProtoState::AwaitFoundReply => weekly,
        _ => true,
    }
}

impl MachineView {
    /// The machine is well formed.
    pub open spec fn wf(&self) -> bool {
        &&& lesson_id_chars(self.id)
        &&& state_wf(self.state)
        &&& mode_state_ok(self.mode, self.weekly, self.state)
    }

    /// The same job with another state.
    pub open spec fn at(&self, s: ProtoState) -> MachineView {
        MachineView { mode: self.mode, weekly: self.weekly, id: self.id, state: s }
    }
}

// ---------------------------------------------------------------------
// Which event each state expects.
// ---------------------------------------------------------------------

pub open spec fn expects_authenticated(s: ProtoState) -> bool {
    s is AwaitAuth || s is AwaitReAuth || s is AwaitTightAuth || s is AwaitSlowAuth
}

pub open spec fn expects_fetched(s: ProtoState) -> bool {
    s is AwaitFetch || s is AwaitPollFetch
}

pub open spec fn expects_replied(s: ProtoState) -> bool {
    s is AwaitLeadReply || s is AwaitFullReply || s is AwaitOutcomeReply || s is AwaitFoundReply
}

pub open spec fn expects_slept(s: ProtoState) -> bool {
    s is AwaitLeadSleep || s is AwaitFinalSleep || s is AwaitTightSleep || s is AwaitPollSleep
        || s is AwaitSlowBackoff
}

pub open spec fn expects_submitted(s: ProtoState) -> bool {
    s is AwaitTightSubmit || s is AwaitSlowSubmit
}

pub open spec fn expects_search(s: ProtoState) -> bool {
    s is AwaitSearch
}

// ---------------------------------------------------------------------
// The transition functions.
// ---------------------------------------------------------------------

/// The first action of a run: register authenticates, watch fetches.
pub open spec fn start_step(m: MachineView) -> (MachineView, ActionView) {
    match m.mode {
        JobMode::Register => (m.at(ProtoState::AwaitAuth), ActionView::Authenticate),
        JobMode::Watch => (m.at(ProtoState::AwaitFetch), ActionView::Fetch),
    }
}

/// Ends a run.  A weekly machine relays a success or definitive failure
/// to the operator and will then search for next week's lesson; an error,
/// or any outcome of a one-shot machine, finishes the job.
pub open spec fn conclude_step(m: MachineView, o: OutcomeView) -> (MachineView, ActionView) {
    if !m.weekly {
        (m.at(ProtoState::Done), ActionView::Finish(o))
    } else {
        match o {
            OutcomeView::Error(t) => (m.at(ProtoState::Done), ActionView::Finish(o)),
            OutcomeView::Success(t) => (m.at(ProtoState::AwaitOutcomeReply), ActionView::Reply(t)),
            OutcomeView::Failure(t) => (m.at(ProtoState::AwaitOutcomeReply), ActionView::Reply(t)),
        }
    }
}

/// The top of the slow loop: the run fails once the deadline has passed;
/// otherwise watch fetches the occupancy and register submits.
pub open spec fn poll_entry_step(m: MachineView, now: i64, until: i64, first: bool) -> (
    MachineView,
    ActionView,
) {
    if now > until {
        conclude_step(m, OutcomeView::Failure(deadline_msg(m.mode)))
    } else if m.mode is Watch {
        (m.at(ProtoState::AwaitPollFetch { until, first }), ActionView::Fetch)
    } else {
        (m.at(ProtoState::AwaitSlowSubmit { until, first }), ActionView::Submit)
    }
}

/// The top of the tight burst: submit while within the grace period past
/// window open, else fall through to the slow loop.
pub open spec fn tight_entry_step(m: MachineView, now: i64, from: i64, until: i64) -> (
    MachineView,
    ActionView,
) {
    if now < from + ENROLL_GRACE_SECS {
        (m.at(ProtoState::AwaitTightSubmit { from, until }), ActionView::Submit)
    } else {
        poll_entry_step(m, now, until, true)
    }
}

/// After a slow-loop submission that neither succeeded nor failed for
/// good: deliver the one-time "it's full" notice, else sleep the poll
/// interval.
pub open spec fn slow_post_step(m: MachineView, until: i64, first: bool) -> (
    MachineView,
    ActionView,
) {
    if first {
        (m.at(ProtoState::AwaitFullReply { until }), ActionView::Reply(enroll_full_msg()))
    } else {
        (m.at(ProtoState::AwaitPollSleep { until }), ActionView::SleepSecs(POLL_INTERVAL_SECS))
    }
}

/// The seconds to sleep to wake `lead` seconds before `from`.
pub open spec fn lead_wait(from: i64, now: i64, lead: i64) -> u64 {
    if from - now > lead {
        (from - now - lead) as u64
    } else {
        0
    }
}

/// Reaction to an authentication result.
pub open spec fn authenticated_step(m: MachineView, now: i64, r: Result<(), String>) -> (
    MachineView,
    ActionView,
) {
    match m.state {
        ProtoState::AwaitAuth => match r {
            Ok(_) => (m.at(ProtoState::AwaitFetch), ActionView::Fetch),
            Err(e) => conclude_step(m, OutcomeView::Error(login_failed_msg(e@))),
        },
        ProtoState::AwaitReAuth { from, until } => match r {
            Ok(_) => (
                m.at(ProtoState::AwaitFinalSleep { from, until }),
                ActionView::SleepSecs(lead_wait(from, now, ENROLL_FINAL_LEAD_SECS)),
            ),
            Err(e) => conclude_step(m, OutcomeView::Error(login_failed_msg(e@))),
        },
        ProtoState::AwaitTightAuth { from, until } => match r {
            Ok(_) => tight_entry_step(m, now, from, until),
            Err(e) => conclude_step(m, OutcomeView::Error(login_failed_msg(e@))),
        },
        ProtoState::AwaitSlowAuth { until, first } => match r {
            Ok(_) => slow_post_step(m, until, first),
            Err(e) => conclude_step(m, OutcomeView::Error(login_failed_msg(e@))),
        },
        _ => arbitrary(),
    }
}

/// Reaction to a metadata fetch result.
pub open spec fn fetched_step(m: MachineView, now: i64, r: Result<LessonData, AsvzError>) -> (
    MachineView,
    ActionView,
) {
    match m.state {
        ProtoState::AwaitFetch => match r {
            Err(e) => conclude_step(m, OutcomeView::Error(remote_error_msg(e.msg()))),
            Ok(d) => match (valid_ts(d.data.enrollment_until@), valid_ts(
                d.data.enrollment_from@,
            )) {
                (Some(until), Some(from)) => {
                    if from > now {
                        if m.mode is Watch {
                            let wait = lead_wait(from, now, WATCH_LEAD_SECS);
                            (
                                m.at(ProtoState::AwaitLeadReply { from, until, wait }),
                                ActionView::Reply(remind_msg(wait as nat)),
                            )
                        } else {
                            let wait = lead_wait(from, now, ENROLL_LEAD_SECS);
                            (
                                m.at(ProtoState::AwaitLeadReply { from, until, wait }),
                                ActionView::Reply(will_enroll_msg((from - now) as nat)),
                            )
                        }
                    } else {
                        poll_entry_step(m, now, until, true)
                    }
                },
                _ => conclude_step(
                    m,
                    OutcomeView::Error(remote_error_msg(AsvzError::UnexpectedFormat.msg())),
                ),
            },
        },
        ProtoState::AwaitPollFetch { until, first } => match r {
            Err(e) => conclude_step(m, OutcomeView::Error(remote_error_msg(e.msg()))),
            Ok(d) => {
                let free = d.data.participants_max - d.data.participant_count;
                if free > 0 {
                    conclude_step(m, OutcomeView::Success(free_spots_msg(free as nat)))
                } else if first {
                    (
                        m.at(ProtoState::AwaitFullReply { until }),
                        ActionView::Reply(watch_full_msg()),
                    )
                } else {
                    (
                        m.at(ProtoState::AwaitPollSleep { until }),
                        ActionView::SleepSecs(POLL_INTERVAL_SECS),
                    )
                }
            },
        },
        _ => arbitrary(),
    }
}

/// Reaction to a delivered reply.
pub open spec fn replied_step(m: MachineView) -> (MachineView, ActionView) {
    match m.state {
        ProtoState::AwaitLeadReply { from, until, wait } => (
            m.at(ProtoState::AwaitLeadSleep { from, until }),
            ActionView::SleepSecs(wait),
        ),
        ProtoState::AwaitFullReply { until } => (
            m.at(ProtoState::AwaitPollSleep { until }),
            ActionView::SleepSecs(POLL_INTERVAL_SECS),
        ),
        ProtoState::AwaitOutcomeReply => (m.at(ProtoState::AwaitSearch), ActionView::Search),
        ProtoState::AwaitFoundReply => start_step(m),
        _ => arbitrary(),
    }
}

/// Reaction to an elapsed sleep.
pub open spec fn slept_step(m: MachineView, now: i64) -> (MachineView, ActionView) {
    match m.state {
        ProtoState::AwaitLeadSleep { from, until } => match m.mode {
            JobMode::Watch => poll_entry_step(m, now, until, true),
            JobMode::Register => (
                m.at(ProtoState::AwaitReAuth { from, until }),
                ActionView::Authenticate,
            ),
        },
        ProtoState::AwaitFinalSleep { from, until } => tight_entry_step(m, now, from, until),
        ProtoState::AwaitTightSleep { from, until } => tight_entry_step(m, now, from, until),
        ProtoState::AwaitPollSleep { until } => poll_entry_step(m, now, until, false),
        ProtoState::AwaitSlowBackoff { until, first } => slow_post_step(m, until, first),
        _ => arbitrary(),
    }
}

/// Reaction to one registration submission: its classified status, or
/// the transport error that ended the attempt.
pub open spec fn submitted_step(m: MachineView, now: i64, r: Result<SubmitOutcome, AsvzError>) -> (
    MachineView,
    ActionView,
) {
    match m.state {
        ProtoState::AwaitTightSubmit { from, until } => match r {
            Err(e) => conclude_step(m, OutcomeView::Error(remote_error_msg(e.msg()))),
            Ok(o) => match o {
                SubmitOutcome::Created => conclude_step(m, OutcomeView::Success(enrolled_msg())),
                SubmitOutcome::Unprocessable => tight_entry_step(m, now, from, until),
                SubmitOutcome::TooManyRequests => (
                    m.at(ProtoState::AwaitTightSleep { from, until }),
                    ActionView::SleepMillis(TIGHT_BACKOFF_MILLIS),
                ),
                SubmitOutcome::Unauthorized => (
                    m.at(ProtoState::AwaitTightAuth { from, until }),
                    ActionView::Authenticate,
                ),
                SubmitOutcome::Other(code) => conclude_step(
                    m,
                    OutcomeView::Error(unexpected_status_msg(code as nat)),
                ),
            },
        },
        ProtoState::AwaitSlowSubmit { until, first } => match r {
            Err(e) => conclude_step(m, OutcomeView::Error(remote_error_msg(e.msg()))),
            Ok(o) => match o {
                SubmitOutcome::Created => conclude_step(m, OutcomeView::Success(enrolled_msg())),
                SubmitOutcome::Unauthorized => (
                    m.at(ProtoState::AwaitSlowAuth { until, first }),
                    ActionView::Authenticate,
                ),
                SubmitOutcome::Unprocessable => slow_post_step(m, until, first),
                SubmitOutcome::TooManyRequests => (
                    m.at(ProtoState::AwaitSlowBackoff { until, first }),
                    ActionView::SleepMillis(SLOW_BACKOFF_MILLIS),
                ),
                SubmitOutcome::Other(code) => conclude_step(
                    m,
                    OutcomeView::Error(unexpected_status_msg(code as nat)),
                ),
            },
        },
        _ => arbitrary(),
    }
}

/// Reaction to the forward-search result: rebind to next week's lesson
/// and re-enter the protocol, or end the chain.
pub open spec fn search_step(m: MachineView, r: Result<EventList, AsvzError>) -> (
    MachineView,
    ActionView,
) {
    match m.state {
        ProtoState::AwaitSearch => match r {
            Err(e) => (
                m.at(ProtoState::Done),
                ActionView::Finish(OutcomeView::Error(remote_error_msg(e.msg()))),
            ),
            Ok(list) => {
                if list.results@.len() > 0 && url_lesson_id(list.results@[0].url@) is Some {
                    let d = url_lesson_id(list.results@[0].url@)->Some_0;
                    (
                        MachineView {
                            mode: m.mode,
                            weekly: m.weekly,
                            id: d,
                            state: ProtoState::AwaitFoundReply,
                        },
                        ActionView::Reply(found_next_msg(d)),
                    )
                } else {
                    (
                        m.at(ProtoState::Done),
                        ActionView::Finish(OutcomeView::Failure(no_next_msg())),
                    )
                }
            },
        },
        _ => arbitrary(),
    }
}

// ---------------------------------------------------------------------
// The executable machine.
// ---------------------------------------------------------------------

impl EnrollmentProtocol {
    /// The machine is well formed.
    pub open spec fn wf(&self) -> bool {
        self@.wf()
    }

    /// Starts a run for `id` and returns the machine with its first
    /// action.
    pub fn start(mode: JobMode, weekly: bool, id: LessonID) -> (r: (
        EnrollmentProtocol,
        ProtocolAction,
    ))
        requires
            id.wf(),
        ensures
            r.0.wf(),
            (r.0@, r.1@) == start_step(
                MachineView { mode, weekly, id: id@, state: ProtoState::Done },
            ),
            r.0@.mode == mode && r.0@.weekly == weekly && r.0@.id == id@,
    {
        match mode {
            JobMode::Register => (
                EnrollmentProtocol { mode, weekly, id, state: ProtoState::AwaitAuth },
                ProtocolAction::Authenticate,
            ),
            JobMode::Watch => (
                EnrollmentProtocol { mode, weekly, id, state: ProtoState::AwaitFetch },
                ProtocolAction::Fetch,
            ),
        }
    }

    /// Whether the run is over.
    pub fn is_done(&self) -> (r: bool)
        ensures
            r == (self@.state is Done),
    {
        match self.state {
            ProtoState::Done => true,
            _ => false,
        }
    }

    /// Ends the run through the weekly chain rules.
    fn conclude(&mut self, outcome: ExistStatus) -> (a: ProtocolAction)
        ensures
            (final(self)@, a@) == conclude_step(old(self)@, outcome@),
    {
        if !self.weekly {
            self.state = ProtoState::Done;
            ProtocolAction::Finish(outcome)
        } else {
            match outcome {
                ExistStatus::Error(m) => {
                    self.state = ProtoState::Done;
                    ProtocolAction::Finish(ExistStatus::Error(m))
                },
                ExistStatus::Success(m) => {
                    self.state = ProtoState::AwaitOutcomeReply;
                    ProtocolAction::Reply(m)
                },
                ExistStatus::Failure(m) => {
                    self.state = ProtoState::AwaitOutcomeReply;
                    ProtocolAction::Reply(m)
                },
            }
        }
    }

    /// The top of the slow loop.
    fn enter_poll(&mut self, now: i64, until: i64, first: bool) -> (a: ProtocolAction)
        ensures
            (final(self)@, a@) == poll_entry_step(old(self)@, now, until, first),
    {
        if now > until {
            let msg = match self.mode {
                JobMode::Watch => "You can no longer enroll.".to_owned(),
                JobMode::Register => "You can no longer enroll".to_owned(),
            };
            self.conclude(ExistStatus::Failure(msg))
        } else {
            match self.mode {
                JobMode::Watch => {
                    self.state = ProtoState::AwaitPollFetch { until, first };
                    ProtocolAction::Fetch
                },
                JobMode::Register => {
                    self.state = ProtoState::AwaitSlowSubmit { until, first };
                    ProtocolAction::Submit
                },
            }
        }
    }

    /// The top of the tight burst.
    fn enter_tight(&mut self, now: i64, from: i64, until: i64) -> (a: ProtocolAction)
        requires
            ts_ok(from),
        ensures
            (final(self)@, a@) == tight_entry_step(old(self)@, now, from, until),
    {
        if now < from + ENROLL_GRACE_SECS {
            self.state = ProtoState::AwaitTightSubmit { from, until };
            ProtocolAction::Submit
        } else {
            self.enter_poll(now, until, true)
        }
    }

    /// After a slow-loop submission that keeps the run going.
    fn slow_post(&mut self, until: i64, first: bool) -> (a: ProtocolAction)
        ensures
            (final(self)@, a@) == slow_post_step(old(self)@, until, first),
    {
        if first {
            self.state = ProtoState::AwaitFullReply { until };
            ProtocolAction::Reply(
                "It's already full. I will try to enroll you, when something opens up".to_owned(),
            )
        } else {
            self.state = ProtoState::AwaitPollSleep { until };
            ProtocolAction::SleepSecs(POLL_INTERVAL_SECS)
        }
    }

    /// Feeds the result of an authentication.
    pub fn on_authenticated(&mut self, now: i64, result: Result<(), String>) -> (a: ProtocolAction)
        requires
            old(self).wf(),
            expects_authenticated(old(self)@.state),
            now >= 0,
        ensures
            final(self).wf(),
            (final(self)@, a@) == authenticated_step(old(self)@, now, result),
            a@ is Finish <==> final(self)@.state is Done,
    {
        match self.state {
            ProtoState::AwaitAuth => match result {
                Ok(_) => {
                    self.state = ProtoState::AwaitFetch;
                    ProtocolAction::Fetch
                },
                Err(e) => {
                    let msg = build_login_failed_msg(e.as_str());
                    self.conclude(ExistStatus::Error(msg))
                },
            },
            ProtoState::AwaitReAuth { from, until } => match result {
                Ok(_) => {
                    let wait: u64 = if from > now {
                        let d = from - now;
                        if d > ENROLL_FINAL_LEAD_SECS {
                            (d - ENROLL_FINAL_LEAD_SECS) as u64
                        } else {
                            0
                        }
                    } else {
                        0
                    };
                    self.state = ProtoState::AwaitFinalSleep { from, until };
                    ProtocolAction::SleepSecs(wait)
                },
                Err(e) => {
                    let msg = build_login_failed_msg(e.as_str());
                    self.conclude(ExistStatus::Error(msg))
                },
            },
            ProtoState::AwaitTightAuth { from, until } => match result {
                Ok(_) => self.enter_tight(now, from, until),
                Err(e) => {
                    let msg = build_login_failed_msg(e.as_str());
                    self.conclude(ExistStatus::Error(msg))
                },
            },
            ProtoState::AwaitSlowAuth { until, first } => match result {
                Ok(_) => self.slow_post(until, first),
                Err(e) => {
                    let msg = build_login_failed_msg(e.as_str());
                    self.conclude(ExistStatus::Error(msg))
                },
            },
            _ => {
                proof {
                    assert(false);
                }
                ProtocolAction::Fetch
            },
        }
    }

    /// Feeds the result of a metadata fetch.
    pub fn on_fetched(&mut self, now: i64, result: Result<LessonData, AsvzError>) -> (a:
        ProtocolAction)
        requires
            old(self).wf(),
            expects_fetched(old(self)@.state),
            now >= 0,
        ensures
            final(self).wf(),
            (final(self)@, a@) == fetched_step(old(self)@, now, result),
            a@ is Finish <==> final(self)@.state is Done,
    {
        match self.state {
            ProtoState::AwaitFetch => match result {
                Err(e) => {
                    let msg = build_remote_error_msg(&e);
                    self.conclude(ExistStatus::Error(msg))
                },
                Ok(d) => {
                    let until_o = d.enroll_until_timestamp();
                    let from_o = d.enroll_from_timestamp();
                    match (until_o, from_o) {
                        (Some(until), Some(from)) => {
                            if from > now {
                                let diff = from - now;
                                match self.mode {
                                    JobMode::Watch => {
                                        let wait: u64 = if diff > WATCH_LEAD_SECS {
                                            (diff - WATCH_LEAD_SECS) as u64
                                        } else {
                                            0
                                        };
                                        let msg = build_remind_msg(wait);
                                        self.state = ProtoState::AwaitLeadReply {
                                            from,
                                            until,
                                            wait,
                                        };
                                        ProtocolAction::Reply(msg)
                                    },
                                    JobMode::Register => {
                                        let wait: u64 = if diff > ENROLL_LEAD_SECS {
                                            (diff - ENROLL_LEAD_SECS) as u64
                                        } else {
                                            0
                                        };
                                        let msg = build_will_enroll_msg(diff as u64);
                                        self.state = ProtoState::AwaitLeadReply {
                                            from,
                                            until,
                                            wait,
                                        };
                                        ProtocolAction::Reply(msg)
                                    },
                                }
                            } else {
                                self.enter_poll(now, until, true)
                            }
                        },
                        _ => {
                            let msg = build_remote_error_msg(&AsvzError::UnexpectedFormat);
                            self.conclude(ExistStatus::Error(msg))
                        },
                    }
                },
            },
            ProtoState::AwaitPollFetch { until, first } => match result {
                Err(e) => {
                    let msg = build_remote_error_msg(&e);
                    self.conclude(ExistStatus::Error(msg))
                },
                Ok(d) => {
                    let max128: i128 = d.data.participants_max as i128;
                    let count128: i128 = d.data.participant_count as i128;
                    let free: i128 = max128 - count128;
                    if free > 0 {
                        let msg = build_free_spots_msg(free as u64);
                        self.conclude(ExistStatus::Success(msg))
                    } else if first {
                        self.state = ProtoState::AwaitFullReply { until };
                        ProtocolAction::Reply(
                            "This lesson is already full. I will notify you, when a spot opens up.".to_owned(),
                        )
                    } else {
                        self.state = ProtoState::AwaitPollSleep { until };
                        ProtocolAction::SleepSecs(POLL_INTERVAL_SECS)
                    }
                },
            },
            _ => {
                proof {
                    assert(false);
                }
                ProtocolAction::Fetch
            },
        }
    }

    /// Feeds the completion of a reply delivery.
    pub fn on_replied(&mut self) -> (a: ProtocolAction)
        requires
            old(self).wf(),
            expects_replied(old(self)@.state),
        ensures
            final(self).wf(),
            (final(self)@, a@) == replied_step(old(self)@),
            a@ is Finish <==> final(self)@.state is Done,
    {
        match self.state {
            ProtoState::AwaitLeadReply { from, until, wait } => {
                self.state = ProtoState::AwaitLeadSleep { from, until };
                ProtocolAction::SleepSecs(wait)
            },
            ProtoState::AwaitFullReply { until } => {
                self.state = ProtoState::AwaitPollSleep { until };
                ProtocolAction::SleepSecs(POLL_INTERVAL_SECS)
            },
            ProtoState::AwaitOutcomeReply => {
                self.state = ProtoState::AwaitSearch;
                ProtocolAction::Search
            },
            ProtoState::AwaitFoundReply => match self.mode {
                JobMode::Register => {
                    self.state = ProtoState::AwaitAuth;
                    ProtocolAction::Authenticate
                },
                JobMode::Watch => {
                    self.state = ProtoState::AwaitFetch;
                    ProtocolAction::Fetch
                },
            },
            _ => {
                proof {
                    assert(false);
                }
                ProtocolAction::Fetch
            },
        }
    }

    /// Feeds the end of a sleep.
    pub fn on_slept(&mut self, now: i64) -> (a: ProtocolAction)
        requires
            old(self).wf(),
            expects_slept(old(self)@.state),
            now >= 0,
        ensures
            final(self).wf(),
            (final(self)@, a@) == slept_step(old(self)@, now),
            a@ is Finish <==> final(self)@.state is Done,
    {
        match self.state {
            ProtoState::AwaitLeadSleep { from, until } => match self.mode {
                JobMode::Watch => self.enter_poll(now, until, true),
                JobMode::Register => {
                    self.state = ProtoState::AwaitReAuth { from, until };
                    ProtocolAction::Authenticate
                },
            },
            ProtoState::AwaitFinalSleep { from, until } => self.enter_tight(now, from, until),
            ProtoState::AwaitTightSleep { from, until } => self.enter_tight(now, from, until),
            ProtoState::AwaitPollSleep { until } => self.enter_poll(now, until, false),
            ProtoState::AwaitSlowBackoff { until, first } => self.slow_post(until, first),
            _ => {
                proof {
                    assert(false);
                }
                ProtocolAction::Fetch
            },
        }
    }

    /// Feeds the result of a registration submission.
    pub fn on_submitted(&mut self, now: i64, outcome: Result<SubmitOutcome, AsvzError>) -> (a:
        ProtocolAction)
        requires
            old(self).wf(),
            expects_submitted(old(self)@.state),
            now >= 0,
        ensures
            final(self).wf(),
            (final(self)@, a@) == submitted_step(old(self)@, now, outcome),
            a@ is Finish <==> final(self)@.state is Done,
    {
        match self.state {
            ProtoState::AwaitTightSubmit { from, until } => match outcome {
                Err(e) => {
                    let msg = build_remote_error_msg(&e);
                    self.conclude(ExistStatus::Error(msg))
                },
                Ok(o) => match o {
                    SubmitOutcome::Created => {
                        self.conclude(
                            ExistStatus::Success("I successfully enrolled you".to_owned()),
                        )
                    },
                    SubmitOutcome::Unprocessable => self.enter_tight(now, from, until),
                    SubmitOutcome::TooManyRequests => {
                        self.state = ProtoState::AwaitTightSleep { from, until };
                        ProtocolAction::SleepMillis(TIGHT_BACKOFF_MILLIS)
                    },
                    SubmitOutcome::Unauthorized => {
                        self.state = ProtoState::AwaitTightAuth { from, until };
                        ProtocolAction::Authenticate
                    },
                    SubmitOutcome::Other(code) => {
                        let msg = build_unexpected_status_msg(code);
                        self.conclude(ExistStatus::Error(msg))
                    },
                },
            },
            ProtoState::AwaitSlowSubmit { until, first } => match outcome {
                Err(e) => {
                    let msg = build_remote_error_msg(&e);
                    self.conclude(ExistStatus::Error(msg))
                },
                Ok(o) => match o {
                    SubmitOutcome::Created => {
                        self.conclude(
                            ExistStatus::Success("I successfully enrolled you".to_owned()),
                        )
                    },
                    SubmitOutcome::Unauthorized => {
                        self.state = ProtoState::AwaitSlowAuth { until, first };
                        ProtocolAction::Authenticate
                    },
                    SubmitOutcome::Unprocessable => self.slow_post(until, first),
                    SubmitOutcome::TooManyRequests => {
                        self.state = ProtoState::AwaitSlowBackoff { until, first };
                        ProtocolAction::SleepMillis(SLOW_BACKOFF_MILLIS)
                    },
                    SubmitOutcome::Other(code) => {
                        let msg = build_unexpected_status_msg(code);
                        self.conclude(ExistStatus::Error(msg))
                    },
                },
            },
            _ => {
                proof {
                    assert(false);
                }
                ProtocolAction::Fetch
            },
        }
    }

    /// Feeds the result of the forward search for next week's lesson.
    pub fn on_search_result(&mut self, result: Result<EventList, AsvzError>) -> (a: ProtocolAction)
        requires
            old(self).wf(),
            expects_search(old(self)@.state),
        ensures
            final(self).wf(),
            (final(self)@, a@) == search_step(old(self)@, result),
            a@ is Finish <==> final(self)@.state is Done,
    {
        match self.state {
            ProtoState::AwaitSearch => match result {
                Err(e) => {
                    let msg = build_remote_error_msg(&e);
                    self.state = ProtoState::Done;
                    ProtocolAction::Finish(ExistStatus::Error(msg))
                },
                Ok(list) => match list.lesson_id() {
                    Some(next) => {
                        proof {
                            crate::scan::lemma_captured_digits_shape(
                                list.results@[0].url@,
                                "/tn/lessons/"@,
                                false,
                            );
                        }
                        let msg = build_found_next_msg(&next);
                        self.id = next;
                        self.state = ProtoState::AwaitFoundReply;
                        ProtocolAction::Reply(msg)
                    },
                    None => {
                        self.state = ProtoState::Done;
                        ProtocolAction::Finish(
                            ExistStatus::Failure("Unable to find next lesson".to_owned()),
                        )
                    },
                },
            },
            _ => {
                proof {
                    assert(false);
                }
                ProtocolAction::Fetch
            },
        }
    }
}

/// The text of a reply as it is sent: prefixed with the job's target,
/// so interleaved output of concurrent jobs stays readable.
pub open spec fn prefixed_msg(id: Seq<char>, text: Seq<char>) -> Seq<char> {
    "["@ + id + "] "@ + text
}

/// Prefixes a reply with the job's target id.
pub fn transform_msg(id: &LessonID, text: &str) -> (r: String)
    ensures
        r@ == prefixed_msg(id@, text@),
{
    "[".to_owned().concat(id.as_str()).concat("] ").concat(text)
}

} // verus!
