//! The job supervisor: the live set of jobs, the per-operator directory,
//! and the decisions behind every inbound command.
//!
//! Spawning and cancelling tasks is the runner's business; the supervisor
//! tracks each job under a numeric handle, answers listings, names the
//! handles to abort, and turns a crashed job into a relaunch request with
//! its retry count raised.

use vstd::prelude::*;

use crate::cmd::{descriptions_text, start_text, CmdParseError, Command};
use crate::ids::LessonID;
use crate::text::{dec_seq, u64_to_string};
use crate::users::{
    default_user, LoginCredentials, Settings, UserId, UserState, UserStateView, UrlAction,
};

verus! {

/// A housekeeping job: deliver a message, nothing remote.
#[derive(Clone, PartialEq, Eq, Debug)]
pub enum InternalJob {
    /// Send this text.
    MsgUser(String),
    /// Send this text, then delete the operator's triggering message.
    DeleteMsgUser(String),
}

/// The mathematical value of a housekeeping job.
pub enum InternalView {
    MsgUser(Seq<char>),
    DeleteMsgUser(Seq<char>),
}

impl View for InternalJob {
    type V = InternalView;

    open spec fn view(&self) -> InternalView {
        match self {
            InternalJob::MsgUser(m) => InternalView::MsgUser(m@),
            InternalJob::DeleteMsgUser(m) => InternalView::DeleteMsgUser(m@),
        }
    }
}

/// What a job does.  The weekly variants re-bind their lesson id as the
/// chain advances; the variant itself never changes.
#[derive(Clone)]
pub enum JobKind {
    Notify(LessonID),
    NotifyWeekly(LessonID),
    Enroll(LessonID, crate::ids::Username, crate::ids::Password),
    EnrollWeekly(LessonID, crate::ids::Username, crate::ids::Password),
    Internal(InternalJob),
}

/// The mathematical value of a job kind.
pub enum JobKindView {
    Notify(Seq<char>),
    NotifyWeekly(Seq<char>),
    Enroll(Seq<char>, Seq<char>, Seq<char>),
    EnrollWeekly(Seq<char>, Seq<char>, Seq<char>),
    Internal(InternalView),
}

impl View for JobKind {
    type V = JobKindView;

    open spec fn view(&self) -> JobKindView {
        match self {
            JobKind::Notify(id) => JobKindView::Notify(id@),
            JobKind::NotifyWeekly(id) => JobKindView::NotifyWeekly(id@),
            JobKind::Enroll(id, u, p) => JobKindView::Enroll(id@, u@, p@),
            JobKind::EnrollWeekly(id, u, p) => JobKindView::EnrollWeekly(id@, u@, p@),
            JobKind::Internal(i) => JobKindView::Internal(i@),
        }
    }
}

impl JobKind {
    /// Housekeeping jobs are not operator-facing jobs.
    pub fn is_internal(&self) -> (r: bool)
        ensures
            r == (self@ is Internal),
    {
        match self {
            JobKind::Internal(_) => true,
            _ => false,
        }
    }

    /// The protocol a job of this kind runs: its mode, whether it chains
    /// weekly, and its target.  Housekeeping jobs run none.
    pub fn to_protocol(&self) -> (r: Option<(crate::protocol::JobMode, bool, LessonID)>)
        ensures
            r is Some <==> !(self@ is Internal),
            match r {
                Some(p) => {
                    &&& p.2@ == match self@ {
                        JobKindView::Notify(id) => id,
                        JobKindView::NotifyWeekly(id) => id,
                        JobKindView::Enroll(id, _, _) => id,
                        JobKindView::EnrollWeekly(id, _, _) => id,
                        JobKindView::Internal(_) => Seq::<char>::empty(),
                    }
                    &&& (p.0 is Watch <==> (self@ is Notify || self@ is NotifyWeekly))
                    &&& (p.1 <==> (self@ is NotifyWeekly || self@ is EnrollWeekly))
                },
                None => true,
            },
    {
        match self {
            JobKind::Notify(id) => Some((crate::protocol::JobMode::Watch, false, id.duplicate())),
            JobKind::NotifyWeekly(id) => Some(
                (crate::protocol::JobMode::Watch, true, id.duplicate()),
            ),
            JobKind::Enroll(id, _, _) => Some(
                (crate::protocol::JobMode::Register, false, id.duplicate()),
            ),
            JobKind::EnrollWeekly(id, _, _) => Some(
                (crate::protocol::JobMode::Register, true, id.duplicate()),
            ),
            JobKind::Internal(_) => None,
        }
    }
}

/// One live job: what it does, whose it is, and the handle under which
/// the runner knows its task.
pub struct Job {
    pub kind: JobKind,
    pub user_id: UserId,
    pub handle: u64,
}

/// A job the supervisor wants spawned.
pub struct JobRequest {
    pub user_id: UserId,
    pub kind: JobKind,
    /// Delivered to the operator before the protocol starts.
    pub pre_msg: Option<String>,
    /// How often this logical job has been relaunched already.
    pub retry_count: u32,
}

/// The mathematical value of a job request.
pub struct RequestView {
    pub user_id: UserId,
    pub kind: JobKindView,
    pub pre_msg: Option<Seq<char>>,
    pub retry_count: u32,
}

impl View for JobRequest {
    type V = RequestView;

    open spec fn view(&self) -> RequestView {
        RequestView {
            user_id: self.user_id,
            kind: self.kind@,
            pre_msg: match &self.pre_msg {
                Some(m) => Some(m@),
                None => None,
            },
            retry_count: self.retry_count,
        }
    }
}

/// The supervisor's reaction to one command: a job to spawn, and the
/// handles to abort first.
pub struct CmdAction {
    pub request: JobRequest,
    pub abort_handles: Vec<u64>,
}

/// A job's escape: it ended in an error the protocol did not classify.
pub struct JobError {
    pub kind: JobKind,
    pub user_id: UserId,
    pub retry_count: u32,
    /// A cool-down the remote side asked for, in seconds.
    pub retry_after: Option<u64>,
}

/// The mathematical value of a job error.
pub struct JobErrorView {
    pub kind: JobKindView,
    pub user_id: UserId,
    pub retry_count: u32,
    pub retry_after: Option<u64>,
}

impl View for JobError {
    type V = JobErrorView;

    open spec fn view(&self) -> JobErrorView {
        JobErrorView {
            kind: self.kind@,
            user_id: self.user_id,
            retry_count: self.retry_count,
            retry_after: self.retry_after,
        }
    }
}

impl JobError {
    pub fn new(kind: JobKind, user_id: UserId, retry_count: u32, retry_after: Option<u64>) -> (r:
        JobError)
        ensures
            r@ == (JobErrorView { kind: kind@, user_id, retry_count, retry_after }),
    {
        JobError { kind, user_id, retry_count, retry_after }
    }
}

/// How to bring a crashed job back: wait out the cool-down, then spawn
/// the request.
pub struct RelaunchPlan {
    pub delay_secs: u64,
    pub request: JobRequest,
}

// ---------------------------------------------------------------------
// Spec: listings, cancellation, user-directory arithmetic.
// ---------------------------------------------------------------------

/// Whether `cancel_all` touches this job: owned by the operator and not
/// housekeeping.
pub open spec fn job_cancellable(j: Job, uid: UserId) -> bool {
    j.user_id == uid && !(j.kind@ is Internal)
}

/// The handles that cancelling for `uid` aborts, in job order.
pub open spec fn cancel_handles(jobs: Seq<Job>, uid: UserId) -> Seq<u64>
    decreases jobs.len(),
{
    if jobs.len() == 0 {
        Seq::empty()
    } else {
        cancel_handles(jobs.drop_last(), uid) + (if job_cancellable(jobs.last(), uid) {
            seq![jobs.last().handle]
        } else {
            Seq::empty()
        })
    }
}

/// How many jobs cancelling for `uid` aborts.
pub open spec fn cancellable_count(jobs: Seq<Job>, uid: UserId) -> nat
    decreases jobs.len(),
{
    if jobs.len() == 0 {
        0
    } else {
        cancellable_count(jobs.drop_last(), uid) + (if job_cancellable(jobs.last(), uid) {
            1nat
        } else {
            0nat
        })
    }
}

/// One job's line in the listing; empty for other operators' jobs and
/// for housekeeping.
pub open spec fn job_line(j: Job, uid: UserId) -> Seq<char> {
    if j.user_id != uid {
        Seq::empty()
    } else {
        match j.kind@ {
            JobKindView::Notify(id) => "\nNotify "@ + id,
            JobKindView::NotifyWeekly(id) => "\nNotifyWeekly "@ + id,
            JobKindView::Enroll(id, _, _) => "\nEnroll "@ + id,
            JobKindView::EnrollWeekly(id, _, _) => "\nEnrollWeekly "@ + id,
            JobKindView::Internal(_) => Seq::empty(),
        }
    }
}

/// The lines of the listing, in job order.
pub open spec fn jobs_listing(jobs: Seq<Job>, uid: UserId) -> Seq<char>
    decreases jobs.len(),
{
    if jobs.len() == 0 {
        Seq::empty()
    } else {
        jobs_listing(jobs.drop_last(), uid) + job_line(jobs.last(), uid)
    }
}

/// The whole listing text.
pub open spec fn current_jobs_text(jobs: Seq<Job>, uid: UserId) -> Seq<char> {
    "Current Jobs:"@ + jobs_listing(jobs, uid)
}

/// No two directory entries share an operator.
pub open spec fn unique_keys(users: Seq<(UserId, UserStateView)>) -> bool {
    forall|i: int, j: int|
        0 <= i < j < users.len() ==> (#[trigger] users[i]).0 != (#[trigger] users[j]).0
}

/// Whether the directory holds an entry for `uid`.
pub open spec fn has_user(users: Seq<(UserId, UserStateView)>, uid: UserId) -> bool {
    exists|i: int| 0 <= i < users.len() && (#[trigger] users[i]).0 == uid
}

/// The entry for `uid`, where one exists.
pub open spec fn user_view_of(users: Seq<(UserId, UserStateView)>, uid: UserId) -> UserStateView {
    let i = choose|i: int| 0 <= i < users.len() && (#[trigger] users[i]).0 == uid;
    users[i].1
}

/// The directory after looking `uid` up, creating the entry on first
/// contact.
pub open spec fn ensured_users(users: Seq<(UserId, UserStateView)>, uid: UserId) -> Seq<
    (UserId, UserStateView),
> {
    if has_user(users, uid) {
        users
    } else {
        users.push((uid, default_user()))
    }
}

/// The directory with `uid`'s entry replaced by `st`.
pub open spec fn updated_users(
    users: Seq<(UserId, UserStateView)>,
    uid: UserId,
    st: UserStateView,
) -> Seq<(UserId, UserStateView)> {
    Seq::new(users.len(), |i: int| if users[i].0 == uid { (uid, st) } else { users[i] })
}

/// The entry for `uid` after a command ran: login stores, logout clears,
/// the url-action command sets the default behavior.
pub open spec fn cmd_user_after(u: UserStateView, cmd: Command) -> UserStateView {
    match cmd {
        Command::Login { username, password } => UserStateView {
            credentials: Some((username@, password@)),
            url_action: u.url_action,
        },
        Command::Logout => UserStateView { credentials: None, url_action: u.url_action },
        Command::UrlAction { url_action } => UserStateView {
            credentials: u.credentials,
            url_action,
        },
        _ => u,
    }
}

pub open spec fn need_login_text() -> Seq<char> {
    "You need to be logged in to directly enroll\nSee /help for more info."@
}

pub open spec fn canceled_msg(n: nat) -> Seq<char> {
    "Canceled "@ + dec_seq(n) + " Jobs."@
}

pub open spec fn url_action_changed_msg(a: UrlAction) -> Seq<char> {
    "Changed your url_action to "@ + a.name() + "."@
}

/// The job each command asks for, given the operator's state before the
/// command and the live jobs.
pub open spec fn cmd_request_view(
    u: UserStateView,
    jobs: Seq<Job>,
    cmd: Command,
    uid: UserId,
) -> RequestView {
    RequestView {
        user_id: uid,
        retry_count: 0,
        pre_msg: None,
        kind: match cmd {
            Command::Start => JobKindView::Internal(InternalView::MsgUser(start_text())),
            Command::Help => JobKindView::Internal(InternalView::MsgUser(descriptions_text())),
            Command::Notify { lesson_id } => JobKindView::Notify(lesson_id@),
            Command::NotifyWeekly { lesson_id } => JobKindView::NotifyWeekly(lesson_id@),
            Command::Enroll { lesson_id } => match u.credentials {
                Some(c) => JobKindView::Enroll(lesson_id@, c.0, c.1),
                None => JobKindView::Internal(InternalView::MsgUser(need_login_text())),
            },
            Command::EnrollWeekly { lesson_id } => match u.credentials {
                Some(c) => JobKindView::EnrollWeekly(lesson_id@, c.0, c.1),
                None => JobKindView::Internal(InternalView::MsgUser(need_login_text())),
            },
            Command::Login { .. } => JobKindView::Internal(
                InternalView::DeleteMsgUser(
                    if u.credentials is Some {
                        "Updated credentials"@
                    } else {
                        "Stored credentials"@
                    },
                ),
            ),
            Command::Logout => JobKindView::Internal(
                InternalView::MsgUser(
                    if u.credentials is Some {
                        "Deleted your credentials"@
                    } else {
                        "You have no credentials stored"@
                    },
                ),
            ),
            Command::UrlAction { url_action } => JobKindView::Internal(
                InternalView::MsgUser(url_action_changed_msg(url_action)),
            ),
            Command::Jobs => JobKindView::Internal(
                InternalView::MsgUser(current_jobs_text(jobs, uid)),
            ),
            Command::CancelAll => JobKindView::Internal(
                InternalView::MsgUser(canceled_msg(cancel_handles(jobs, uid).len())),
            ),
        },
    }
}

pub open spec fn url_enroll_text() -> Seq<char> {
    "Found lesson url. Starting an enrollment job. If you wanted to get notified you can change the default behavior. See /help."@
}

pub open spec fn url_notify_text() -> Seq<char> {
    "Found lesson url. Starting a notification job. If you wanted to enroll you can change the default behavior. See /help."@
}

pub open spec fn url_cannot_enroll_text() -> Seq<char> {
    "I can't enroll you without you being logged in. See /help for more info."@
}

/// The job a pasted lesson url asks for, by the operator's default
/// behavior and stored credentials.
pub open spec fn url_request_view(u: UserStateView, id: Seq<char>, uid: UserId) -> RequestView {
    if u.credentials is Some && !(u.url_action is Notify) {
        RequestView {
            user_id: uid,
            retry_count: 0,
            pre_msg: Some(url_enroll_text()),
            kind: JobKindView::Enroll(
                id,
                u.credentials->Some_0.0,
                u.credentials->Some_0.1,
            ),
        }
    } else if u.credentials is None && u.url_action is Enroll {
        RequestView {
            user_id: uid,
            retry_count: 0,
            pre_msg: None,
            kind: JobKindView::Internal(InternalView::MsgUser(url_cannot_enroll_text())),
        }
    } else {
        RequestView {
            user_id: uid,
            retry_count: 0,
            pre_msg: Some(url_notify_text()),
            kind: JobKindView::Notify(id),
        }
    }
}

pub open spec fn expect_args_msg(expected: u64, found: u64) -> Seq<char> {
    "Expected "@ + dec_seq(expected as nat) + " arguments but got "@ + dec_seq(found as nat)
        + ". See /help for more info."@
}

/// The text sent back for an unparsable command.
pub open spec fn parse_err_text(e: CmdParseError) -> Seq<char> {
    match e {
        CmdParseError::UnknownCommand => "Unknown Command. See /help for available commands."@,
        CmdParseError::IncorrectFormat(s) => "Arguments are not formatted correctly: "@ + s@
            + "!"@,
        CmdParseError::TooFewArguments { expected, found } => expect_args_msg(expected, found),
        CmdParseError::TooManyArguments { expected, found } => expect_args_msg(expected, found),
        CmdParseError::Custom(s) => s@ + ". See /help for more info."@,
    }
}

pub open spec fn restart_text() -> Seq<char> {
    "An unexpected error occurred. Restarting your Job"@
}

/// How long to wait before relaunching: the remote cool-down plus a
/// safety margin, or nothing.
pub open spec fn relaunch_delay(retry_after: Option<u64>) -> u64 {
    match retry_after {
        Some(w) => (w + 5) as u64,
        None => 0,
    }
}

/// The relaunch of a crashed job: the same kind and owner, announced,
/// with the retry count raised by one.
pub open spec fn relaunched_request(e: JobErrorView) -> RequestView {
    RequestView {
        user_id: e.user_id,
        kind: e.kind,
        pre_msg: Some(restart_text()),
        retry_count: (e.retry_count + 1) as u32,
    }
}

// ---------------------------------------------------------------------
// The supervisor.
// ---------------------------------------------------------------------

/// The live set of jobs and the operator directory.
pub struct State {
    jobs: Vec<Job>,
    users: Vec<(UserId, UserState)>,
    next_handle: u64,
}

impl State {
    /// The live jobs, in spawn order.
    pub closed spec fn job_seq(&self) -> Seq<Job> {
        self.jobs@
    }

    /// The operator directory.
    pub closed spec fn users_view(&self) -> Seq<(UserId, UserStateView)> {
        self.users@.map_values(|p: (UserId, UserState)| (p.0, p.1@))
    }

    /// The handle the next registered job will get.
    pub closed spec fn next_handle(&self) -> u64 {
        self.next_handle
    }

    /// Directory keys are unique; job handles are unique and below the
    /// next handle.
    pub open spec fn wf(&self) -> bool {
        &&& unique_keys(self.users_view())
        &&& forall|i: int|
            0 <= i < self.job_seq().len() ==> (#[trigger] self.job_seq()[i]).handle
                < self.next_handle()
        &&& forall|i: int, j: int|
            0 <= i < j < self.job_seq().len() ==> (#[trigger] self.job_seq()[i]).handle != (
            #[trigger] self.job_seq()[j]).handle
    }

    /// An empty supervisor.
    pub fn new() -> (r: State)
        ensures
            r.wf(),
            r.job_seq() == Seq::<Job>::empty(),
            r.users_view() == Seq::<(UserId, UserStateView)>::empty(),
            r.next_handle() == 0,
    {
        let r = State { jobs: Vec::new(), users: Vec::new(), next_handle: 0 };
        proof {
            assert(r.users_view() =~= Seq::<(UserId, UserStateView)>::empty());
        }
        r
    }

    /// Whether a fresh handle is still available.
    pub fn can_register(&self) -> (r: bool)
        ensures
            r == (self.next_handle() < u64::MAX),
    {
        self.next_handle < u64::MAX
    }

    /// Adds a job under a fresh handle and returns that handle.
    pub fn register_job(&mut self, kind: JobKind, user_id: UserId) -> (h: u64)
        requires
            old(self).wf(),
            old(self).next_handle() < u64::MAX,
        ensures
            final(self).wf(),
            h == old(self).next_handle(),
            final(self).next_handle() == old(self).next_handle() + 1,
            final(self).job_seq() == old(self).job_seq().push(Job { kind: kind, user_id, handle: h }),
            final(self).users_view() == old(self).users_view(),
    {
        let h = self.next_handle;
        self.next_handle = h + 1;
        self.jobs.push(Job { kind, user_id, handle: h });
        h
    }

    /// Drops the finished job with this handle, if it is still tracked.
    pub fn job_finished(&mut self, handle: u64)
        requires
            old(self).wf(),
        ensures
            final(self).wf(),
            final(self).users_view() == old(self).users_view(),
            final(self).next_handle() == old(self).next_handle(),
            ({
                let jobs = old(self).job_seq();
                if exists|i: int| 0 <= i < jobs.len() && (#[trigger] jobs[i]).handle == handle {
                    final(self).job_seq() == jobs.remove(
                        choose|i: int| 0 <= i < jobs.len() && (#[trigger] jobs[i]).handle
                            == handle,
                    )
                } else {
                    final(self).job_seq() == jobs
                }
            }),
    {
        let ghost jobs0 = self.jobs@;
        let n = self.jobs.len();
        let mut i: usize = 0;
        while i < n
            invariant
                0 <= i <= n,
                n == self.jobs@.len(),
                self.jobs@ == jobs0,
                self.users@ == old(self).users@,
                self.next_handle() == old(self).next_handle(),
                old(self).wf(),
                jobs0 == old(self).job_seq(),
                forall|t: int| 0 <= t < i ==> (#[trigger] jobs0[t]).handle != handle,
            decreases n - i,
        {
            if self.jobs[i].handle == handle {
                self.jobs.remove(i);
                proof {
                    let w = choose|t: int|
                        0 <= t < jobs0.len() && (#[trigger] jobs0[t]).handle == handle;
                    if w < i as int {
                        assert(old(self).job_seq()[w].handle != old(self).job_seq()[
                            i as int
                        ].handle);
                    }
                    if w > i as int {
                        assert(old(self).job_seq()[i as int].handle != old(self).job_seq()[
                            w
                        ].handle);
                    }
                    assert(w == i);
                    assert(self.jobs@ == jobs0.remove(i as int));
                    assert forall|a: int, b: int|
                        0 <= a < b < self.jobs@.len() implies (#[trigger] self.jobs@[a]).handle
                        != (#[trigger] self.jobs@[b]).handle by {
                        let a0: int = if a < i as int {
                            a
                        } else {
                            a + 1
                        };
                        let b0: int = if b < i as int {
                            b
                        } else {
                            b + 1
                        };
                        assert(self.jobs@[a] == old(self).job_seq()[a0]);
                        assert(self.jobs@[b] == old(self).job_seq()[b0]);
                        assert(old(self).job_seq()[a0].handle != old(self).job_seq()[b0].handle);
                    }
                    assert forall|a: int|
                        0 <= a < self.jobs@.len() implies (#[trigger] self.jobs@[a]).handle
                        < self.next_handle() by {
                        let a0: int = if a < i as int {
                            a
                        } else {
                            a + 1
                        };
                        assert(self.jobs@[a] == old(self).job_seq()[a0]);
                        assert(old(self).job_seq()[a0].handle < old(self).next_handle());
                    }
                }
                return ;
            }
            i = i + 1;
        }
    }

    /// The operator's listing of their running jobs.
    pub fn current_jobs(&self, user_id: UserId) -> (r: String)
        ensures
            r@ == current_jobs_text(self.job_seq(), user_id),
    {
        let mut r = "Current Jobs:".to_owned();
        let n = self.jobs.len();
        let mut i: usize = 0;
        proof {
            assert(self.job_seq().take(0) =~= Seq::<Job>::empty());
        }
        while i < n
            invariant
                0 <= i <= n,
                n == self.job_seq().len(),
                r@ == "Current Jobs:"@ + jobs_listing(self.job_seq().take(i as int), user_id),
            decreases n - i,
        {
            proof {
                assert(self.job_seq().take(i + 1).drop_last() =~= self.job_seq().take(i as int));
                assert(self.job_seq().take(i + 1).last() == self.job_seq()[i as int]);
            }
            let job = &self.jobs[i];
            if job.user_id == user_id {
                match &job.kind {
                    JobKind::Notify(id) => {
                        r.append("\nNotify ");
                        r.append(id.as_str());
                    },
                    JobKind::NotifyWeekly(id) => {
                        r.append("\nNotifyWeekly ");
                        r.append(id.as_str());
                    },
                    JobKind::Enroll(id, _, _) => {
                        r.append("\nEnroll ");
                        r.append(id.as_str());
                    },
                    JobKind::EnrollWeekly(id, _, _) => {
                        r.append("\nEnrollWeekly ");
                        r.append(id.as_str());
                    },
                    JobKind::Internal(_) => {},
                }
            }
            i = i + 1;
        }
        proof {
            assert(self.job_seq().take(n as int) =~= self.job_seq());
        }
        r
    }

    /// The handles that cancelling this operator's jobs must abort:
    /// exactly their non-housekeeping jobs, in order.
    pub fn cancel_jobs(&self, user_id: UserId) -> (r: Vec<u64>)
        ensures
            r@ == cancel_handles(self.job_seq(), user_id),
    {
        let mut r: Vec<u64> = Vec::new();
        let n = self.jobs.len();
        let mut i: usize = 0;
        proof {
            assert(self.job_seq().take(0) =~= Seq::<Job>::empty());
            assert(r@ =~= cancel_handles(self.job_seq().take(0), user_id));
        }
        while i < n
            invariant
                0 <= i <= n,
                n == self.job_seq().len(),
                r@ == cancel_handles(self.job_seq().take(i as int), user_id),
            decreases n - i,
        {
            proof {
                assert(self.job_seq().take(i + 1).drop_last() =~= self.job_seq().take(i as int));
                assert(self.job_seq().take(i + 1).last() == self.job_seq()[i as int]);
            }
            let job = &self.jobs[i];
            if job.user_id == user_id && !job.kind.is_internal() {
                r.push(job.handle);
            }
            i = i + 1;
        }
        proof {
            assert(self.job_seq().take(n as int) =~= self.job_seq());
        }
        r
    }

    /// Finds the operator's directory entry, creating it on first
    /// contact; returns its position.
    fn ensure_user(&mut self, user_id: UserId) -> (i: usize)
        requires
            old(self).wf(),
        ensures
            final(self).wf(),
            final(self).users_view() == ensured_users(old(self).users_view(), user_id),
            final(self).job_seq() == old(self).job_seq(),
            final(self).next_handle() == old(self).next_handle(),
            i < final(self).users_view().len(),
            final(self).users_view()[i as int].0 == user_id,
            final(self).users_view()[i as int].1 == (if has_user(old(self).users_view(), user_id) {
                user_view_of(old(self).users_view(), user_id)
            } else {
                default_user()
            }),
    {
        let n = self.users.len();
        let mut k: usize = 0;
        while k < n
            invariant
                0 <= k <= n,
                n == self.users@.len(),
                self.users@ == old(self).users@,
                self.jobs@ == old(self).jobs@,
                self.next_handle() == old(self).next_handle(),
                old(self).wf(),
                forall|t: int| 0 <= t < k ==> (#[trigger] self.users@[t]).0 != user_id,
            decreases n - k,
        {
            if self.users[k].0 == user_id {
                proof {
                    let users = self.users_view();
                    assert(users[k as int].0 == user_id);
                    let w = choose|i: int|
                        0 <= i < users.len() && (#[trigger] users[i]).0 == user_id;
                    if w < k as int {
                        assert(users[w].0 != users[k as int].0);
                    }
                    if w > k as int {
                        assert(users[k as int].0 != users[w].0);
                    }
                    assert(w == k);
                }
                return k;
            }
            k = k + 1;
        }
        proof {
            assert forall|t: int|
                0 <= t < self.users_view().len() implies (#[trigger] self.users_view()[t]).0
                != user_id by {
                assert(self.users@[t].0 != user_id);
            }
            assert(!has_user(self.users_view(), user_id));
        }
        self.users.push((user_id, UserState::new()));
        proof {
            assert(self.users_view() =~= old(self).users_view().push(
                (user_id, default_user()),
            ));
            assert forall|a: int, b: int|
                0 <= a < b < self.users_view().len() implies (#[trigger] self.users_view()[
                a
            ]).0 != (#[trigger] self.users_view()[b]).0 by {
                if b < self.users_view().len() - 1 {
                    assert(old(self).users_view()[a].0 != old(self).users_view()[b].0);
                } else {
                    assert(old(self).users@[a].0 != user_id);
                }
            }
        }
        n
    }

    /// Replaces the directory entry at `i`.
    fn set_user_state(&mut self, i: usize, st: UserState)
        requires
            old(self).wf(),
            i < old(self).users_view().len(),
        ensures
            final(self).wf(),
            final(self).users_view() == updated_users(
                old(self).users_view(),
                old(self).users_view()[i as int].0,
                st@,
            ),
            final(self).job_seq() == old(self).job_seq(),
            final(self).next_handle() == old(self).next_handle(),
    {
        let entry = self.users.remove(i);
        self.users.insert(i, (entry.0, st));
        proof {
            let uid = old(self).users_view()[i as int].0;
            assert forall|j: int|
                0 <= j < old(self).users_view().len() && j != i implies old(
                self,
            ).users_view()[j].0 != uid by {
                if j < i {
                    assert(old(self).users_view()[j].0 != old(self).users_view()[i as int].0);
                }
            }
            assert(self.users_view() =~= updated_users(old(self).users_view(), uid, st@));
        }
    }

    /// Decides one command: possibly updates the operator's entry, and
    /// answers with the job to spawn plus the handles to abort.
    pub fn handle_cmd(&mut self, cmd: Command, user_id: UserId) -> (r: CmdAction)
        requires
            old(self).wf(),
        ensures
            final(self).wf(),
            final(self).job_seq() == old(self).job_seq(),
            final(self).next_handle() == old(self).next_handle(),
            ({
                let pre = if has_user(old(self).users_view(), user_id) {
                    user_view_of(old(self).users_view(), user_id)
                } else {
                    default_user()
                };
                &&& final(self).users_view() == updated_users(
                    ensured_users(old(self).users_view(), user_id),
                    user_id,
                    cmd_user_after(pre, cmd),
                )
                &&& r.request@ == cmd_request_view(pre, old(self).job_seq(), cmd, user_id)
                &&& r.abort_handles@ == (if cmd is CancelAll {
                    cancel_handles(old(self).job_seq(), user_id)
                } else {
                    Seq::<u64>::empty()
                })
            }),
    {
        let idx = self.ensure_user(user_id);
        let ghost users0 = self.users_view();
        let ghost pre = users0[idx as int].1;
        proof {
            lemma_updated_same(users0, user_id, idx as int, pre);
        }
        match cmd {
            Command::Start => {
                proof {
                    assert(self.users_view() =~= updated_users(users0, user_id, pre));
                }
                CmdAction {
                    request: JobRequest {
                        user_id,
                        kind: JobKind::Internal(InternalJob::MsgUser(Command::start_message())),
                        pre_msg: None,
                        retry_count: 0,
                    },
                    abort_handles: Vec::new(),
                }
            },
            Command::Help => {
                proof {
                    assert(self.users_view() =~= updated_users(users0, user_id, pre));
                }
                CmdAction {
                    request: JobRequest {
                        user_id,
                        kind: JobKind::Internal(InternalJob::MsgUser(Command::descriptions())),
                        pre_msg: None,
                        retry_count: 0,
                    },
                    abort_handles: Vec::new(),
                }
            },
            Command::Notify { lesson_id } => {
                proof {
                    assert(self.users_view() =~= updated_users(users0, user_id, pre));
                }
                CmdAction {
                    request: JobRequest {
                        user_id,
                        kind: JobKind::Notify(lesson_id),
                        pre_msg: None,
                        retry_count: 0,
                    },
                    abort_handles: Vec::new(),
                }
            },
            Command::NotifyWeekly { lesson_id } => {
                proof {
                    assert(self.users_view() =~= updated_users(users0, user_id, pre));
                }
                CmdAction {
                    request: JobRequest {
                        user_id,
                        kind: JobKind::NotifyWeekly(lesson_id),
                        pre_msg: None,
                        retry_count: 0,
                    },
                    abort_handles: Vec::new(),
                }
            },
            Command::Enroll { lesson_id } => {
                proof {
                    assert(self.users_view() =~= updated_users(users0, user_id, pre));
                }
                let kind = match &self.users[idx].1.credentials {
                    Some(cred) => JobKind::Enroll(
                        lesson_id,
                        cred.username.duplicate(),
                        cred.password.duplicate(),
                    ),
                    None => JobKind::Internal(
                        InternalJob::MsgUser(
                            "You need to be logged in to directly enroll\nSee /help for more info.".to_owned(),
                        ),
                    ),
                };
                CmdAction {
                    request: JobRequest { user_id, kind, pre_msg: None, retry_count: 0 },
                    abort_handles: Vec::new(),
                }
            },
            Command::EnrollWeekly { lesson_id } => {
                proof {
                    assert(self.users_view() =~= updated_users(users0, user_id, pre));
                }
                let kind = match &self.users[idx].1.credentials {
                    Some(cred) => JobKind::EnrollWeekly(
                        lesson_id,
                        cred.username.duplicate(),
                        cred.password.duplicate(),
                    ),
                    None => JobKind::Internal(
                        InternalJob::MsgUser(
                            "You need to be logged in to directly enroll\nSee /help for more info.".to_owned(),
                        ),
                    ),
                };
                CmdAction {
                    request: JobRequest { user_id, kind, pre_msg: None, retry_count: 0 },
                    abort_handles: Vec::new(),
                }
            },
            Command::Login { username, password } => {
                let had = self.users[idx].1.credentials.is_some();
                let msg = if had {
                    "Updated credentials".to_owned()
                } else {
                    "Stored credentials".to_owned()
                };
                let ua = self.users[idx].1.settings.url_action;
                self.set_user_state(
                    idx,
                    UserState {
                        credentials: Some(LoginCredentials { username, password }),
                        settings: Settings { url_action: ua },
                    },
                );
                CmdAction {
                    request: JobRequest {
                        user_id,
                        kind: JobKind::Internal(InternalJob::DeleteMsgUser(msg)),
                        pre_msg: None,
                        retry_count: 0,
                    },
                    abort_handles: Vec::new(),
                }
            },
            Command::Logout => {
                let had = self.users[idx].1.credentials.is_some();
                let msg = if had {
                    "Deleted your credentials".to_owned()
                } else {
                    "You have no credentials stored".to_owned()
                };
                let ua = self.users[idx].1.settings.url_action;
                self.set_user_state(
                    idx,
                    UserState { credentials: None, settings: Settings { url_action: ua } },
                );
                CmdAction {
                    request: JobRequest {
                        user_id,
                        kind: JobKind::Internal(InternalJob::MsgUser(msg)),
                        pre_msg: None,
                        retry_count: 0,
                    },
                    abort_handles: Vec::new(),
                }
            },
            Command::UrlAction { url_action } => {
                let msg = "Changed your url_action to ".to_owned().concat(
                    url_action.name_str(),
                ).concat(".");
                let creds = match &self.users[idx].1.credentials {
                    Some(cred) => Some(
                        LoginCredentials {
                            username: cred.username.duplicate(),
                            password: cred.password.duplicate(),
                        },
                    ),
                    None => None,
                };
                self.set_user_state(
                    idx,
                    UserState { credentials: creds, settings: Settings { url_action } },
                );
                CmdAction {
                    request: JobRequest {
                        user_id,
                        kind: JobKind::Internal(InternalJob::MsgUser(msg)),
                        pre_msg: None,
                        retry_count: 0,
                    },
                    abort_handles: Vec::new(),
                }
            },
            Command::Jobs => {
                proof {
                    assert(self.users_view() =~= updated_users(users0, user_id, pre));
                }
                let msg = self.current_jobs(user_id);
                CmdAction {
                    request: JobRequest {
                        user_id,
                        kind: JobKind::Internal(InternalJob::MsgUser(msg)),
                        pre_msg: None,
                        retry_count: 0,
                    },
                    abort_handles: Vec::new(),
                }
            },
            Command::CancelAll => {
                proof {
                    assert(self.users_view() =~= updated_users(users0, user_id, pre));
                }
                let aborts = self.cancel_jobs(user_id);
                let msg = "Canceled ".to_owned().concat(
                    u64_to_string(aborts.len() as u64).as_str(),
                ).concat(" Jobs.");
                CmdAction {
                    request: JobRequest {
                        user_id,
                        kind: JobKind::Internal(InternalJob::MsgUser(msg)),
                        pre_msg: None,
                        retry_count: 0,
                    },
                    abort_handles: aborts,
                }
            },
        }
    }

    /// Decides what a pasted lesson url starts for this operator.
    pub fn handle_url(&mut self, lesson_id: LessonID, user_id: UserId) -> (r: JobRequest)
        requires
            old(self).wf(),
        ensures
            final(self).wf(),
            final(self).job_seq() == old(self).job_seq(),
            final(self).next_handle() == old(self).next_handle(),
            final(self).users_view() == ensured_users(old(self).users_view(), user_id),
            ({
                let pre = if has_user(old(self).users_view(), user_id) {
                    user_view_of(old(self).users_view(), user_id)
                } else {
                    default_user()
                };
                r@ == url_request_view(pre, lesson_id@, user_id)
            }),
    {
        let idx = self.ensure_user(user_id);
        let ua = self.users[idx].1.settings.url_action;
        let creds = match &self.users[idx].1.credentials {
            Some(cred) => Some((cred.username.duplicate(), cred.password.duplicate())),
            None => None,
        };
        match creds {
            Some((un, pw)) => {
                if matches!(ua, UrlAction::Notify) {
                    JobRequest {
                        user_id,
                        kind: JobKind::Notify(lesson_id),
                        pre_msg: Some(
                            "Found lesson url. Starting a notification job. If you wanted to enroll you can change the default behavior. See /help.".to_owned(),
                        ),
                        retry_count: 0,
                    }
                } else {
                    JobRequest {
                        user_id,
                        kind: JobKind::Enroll(lesson_id, un, pw),
                        pre_msg: Some(
                            "Found lesson url. Starting an enrollment job. If you wanted to get notified you can change the default behavior. See /help.".to_owned(),
                        ),
                        retry_count: 0,
                    }
                }
            },
            None => {
                if matches!(ua, UrlAction::Enroll) {
                    JobRequest {
                        user_id,
                        kind: JobKind::Internal(
                            InternalJob::MsgUser(
                                "I can't enroll you without you being logged in. See /help for more info.".to_owned(),
                            ),
                        ),
                        pre_msg: None,
                        retry_count: 0,
                    }
                } else {
                    JobRequest {
                        user_id,
                        kind: JobKind::Notify(lesson_id),
                        pre_msg: Some(
                            "Found lesson url. Starting a notification job. If you wanted to enroll you can change the default behavior. See /help.".to_owned(),
                        ),
                        retry_count: 0,
                    }
                }
            },
        }
    }

    /// The reply for a command that did not parse.
    pub fn handle_cmd_err(&self, err: CmdParseError, user_id: UserId) -> (r: JobRequest)
        ensures
            r@.user_id == user_id,
            r@.retry_count == 0,
            r@.pre_msg is None,
            r@.kind == JobKindView::Internal(InternalView::MsgUser(parse_err_text(err))),
    {
        let msg = match &err {
            CmdParseError::UnknownCommand => {
                "Unknown Command. See /help for available commands.".to_owned()
            },
            CmdParseError::IncorrectFormat(s) => {
                "Arguments are not formatted correctly: ".to_owned().concat(s.as_str()).concat(
                    "!",
                )
            },
            CmdParseError::TooFewArguments { expected, found } => build_expect_args_msg(
                *expected,
                *found,
            ),
            CmdParseError::TooManyArguments { expected, found } => build_expect_args_msg(
                *expected,
                *found,
            ),
            CmdParseError::Custom(s) => {
                s.clone().concat(". See /help for more info.")
            },
        };
        JobRequest {
            user_id,
            kind: JobKind::Internal(InternalJob::MsgUser(msg)),
            pre_msg: None,
            retry_count: 0,
        }
    }

    /// Plans the relaunch of a crashed job: the same kind and owner,
    /// with a "restarting" notice, the retry count raised by one, and
    /// any remote cool-down honored with a safety margin.
    pub fn handle_err(&self, err: JobError) -> (r: RelaunchPlan)
        requires
            err.retry_count < u32::MAX,
            err.retry_after matches Some(w) ==> w <= u64::MAX - 5,
        ensures
            r.request@ == relaunched_request(err@),
            r.delay_secs == relaunch_delay(err@.retry_after),
    {
        let delay_secs: u64 = match err.retry_after {
            Some(w) => w + 5,
            None => 0,
        };
        RelaunchPlan {
            delay_secs,
            request: JobRequest {
                user_id: err.user_id,
                kind: err.kind,
                pre_msg: Some("An unexpected error occurred. Restarting your Job".to_owned()),
                retry_count: err.retry_count + 1,
            },
        }
    }
}

fn build_expect_args_msg(expected: u64, found: u64) -> (r: String)
    ensures
        r@ == expect_args_msg(expected, found),
{
    "Expected ".to_owned().concat(u64_to_string(expected).as_str()).concat(
        " arguments but got ",
    ).concat(u64_to_string(found).as_str()).concat(". See /help for more info.")
}

/// Replacing an entry by its own value changes nothing.
proof fn lemma_updated_same(
    users: Seq<(UserId, UserStateView)>,
    uid: UserId,
    i: int,
    st: UserStateView,
)
    requires
        unique_keys(users),
        0 <= i < users.len(),
        users[i].0 == uid,
        users[i].1 == st,
    ensures
        updated_users(users, uid, st) =~= users,
{
    assert forall|j: int| 0 <= j < users.len() && j != i implies users[j].0 != uid by {
        if j < i {
            assert(users[j].0 != users[i].0);
        } else {
            assert(users[i].0 != users[j].0);
        }
    }
}

} // verus!
