//! The library's laws: properties that hold across functions, stated and
//! proved over the same spec functions the contracts use.

use vstd::prelude::*;

use crate::api::{valid_ts, url_lesson_id, AsvzError, EventList, LessonData};
use crate::outcome::OutcomeView;
use crate::protocol::{
    authenticated_step, deadline_msg, expects_authenticated, expects_fetched, expects_replied,
    expects_search, expects_slept, expects_submitted, fetched_step, found_next_msg, no_next_msg,
    replied_step, search_step, slept_step, start_step, submitted_step, ActionView, MachineView,
    ProtoState, SubmitOutcome,
};
use crate::supervisor::{
    cancel_handles, cancellable_count, job_cancellable, relaunched_request, Job, JobErrorView,
};
use crate::users::UserId;

verus! {

/// A target whose window already closed fails definitively at the first
/// fetch, before any registration submission: the step out of the
/// initial fetch is the terminal failure itself.
pub proof fn lemma_closed_window_fails_at_start(m: MachineView, now: i64, d: LessonData)
    requires
        m.state is AwaitFetch,
        !m.weekly,
        valid_ts(d.data.enrollment_until@) matches Some(until) && now > until,
        valid_ts(d.data.enrollment_from@) matches Some(from) && from <= now,
    ensures
        fetched_step(m, now, Ok(d)).1 == ActionView::Finish(
            OutcomeView::Failure(deadline_msg(m.mode)),
        ),
        fetched_step(m, now, Ok(d)).0.state is Done,
{
}

/// Before the first fetch a run performs no submission: starting emits
/// an authentication or a fetch, and the initial authentication emits a
/// fetch or finishes.  With the previous law: a window closed at
/// dispatch means zero submission calls.
pub proof fn lemma_no_submit_before_first_fetch(m: MachineView, now: i64, r: Result<(), String>)
    ensures
        !(start_step(m).1 is Submit),
        m.state is AwaitAuth ==> !(authenticated_step(m, now, r).1 is Submit),
{
}

/// A done machine expects no event, and every event handler answers
/// with a terminal outcome exactly when it moves the machine to done
/// (so each run resolves to exactly one terminal outcome).
pub proof fn lemma_done_expects_no_event(s: ProtoState)
    requires
        s is Done,
    ensures
        !expects_authenticated(s),
        !expects_fetched(s),
        !expects_replied(s),
        !expects_slept(s),
        !expects_submitted(s),
        !expects_search(s),
{
}

/// A successful forward search re-binds the machine to the found lesson,
/// announces it, and the delivered announcement re-enters the protocol:
/// each found search yields exactly one further protocol run.
pub proof fn lemma_chain_found_restarts(m: MachineView, list: EventList)
    requires
        m.state is AwaitSearch,
        list.results@.len() > 0,
        url_lesson_id(list.results@[0].url@) is Some,
    ensures
        ({
            let d = url_lesson_id(list.results@[0].url@)->Some_0;
            let (m1, a1) = search_step(m, Ok(list));
            &&& m1.state is AwaitFoundReply
            &&& m1.id == d
            &&& m1.mode == m.mode && m1.weekly == m.weekly
            &&& a1 == ActionView::Reply(found_next_msg(d))
            &&& replied_step(m1) == start_step(m1)
        }),
{
}

/// A search without a next lesson ends the chain right there with the
/// definitive failure; no further run starts.
pub proof fn lemma_chain_not_found_ends(m: MachineView, list: EventList)
    requires
        m.state is AwaitSearch,
        list.results@.len() == 0 || url_lesson_id(list.results@[0].url@) is None,
    ensures
        search_step(m, Ok(list)).0.state is Done,
        search_step(m, Ok(list)).1 == ActionView::Finish(OutcomeView::Failure(no_next_msg())),
{
}

/// Cancelling for an operator names exactly as many handles as the
/// operator has non-housekeeping jobs; every named handle belongs to
/// such a job of that operator (never to another operator), and every
/// such job is named.
pub proof fn lemma_cancel_handles_exact(jobs: Seq<Job>, uid: UserId)
    ensures
        cancel_handles(jobs, uid).len() == cancellable_count(jobs, uid),
        forall|k: int|
            0 <= k < cancel_handles(jobs, uid).len() ==> exists|i: int|
                0 <= i < jobs.len() && (#[trigger] jobs[i]).handle == #[trigger] cancel_handles(
                    jobs,
                    uid,
                )[k] && job_cancellable(jobs[i], uid),
        forall|i: int|
            0 <= i < jobs.len() && job_cancellable(#[trigger] jobs[i], uid) ==> cancel_handles(
                jobs,
                uid,
            ).contains(jobs[i].handle),
    decreases jobs.len(),
{
    if jobs.len() == 0 {
    } else {
        let rest = jobs.drop_last();
        lemma_cancel_handles_exact(rest, uid);
        let ch = cancel_handles(jobs, uid);
        let chr = cancel_handles(rest, uid);
        assert forall|k: int|
            0 <= k < ch.len() implies exists|i: int|
            0 <= i < jobs.len() && (#[trigger] jobs[i]).handle == #[trigger] ch[k]
                && job_cancellable(jobs[i], uid) by {
            if k < chr.len() {
                assert(ch[k] == chr[k]);
                let i = choose|i: int|
                    0 <= i < rest.len() && (#[trigger] rest[i]).handle == chr[k]
                        && job_cancellable(rest[i], uid);
                assert(jobs[i] == rest[i]);
                assert(jobs[i].handle == ch[k] && job_cancellable(jobs[i], uid));
            } else {
                assert(job_cancellable(jobs.last(), uid));
                assert(ch[k] == jobs.last().handle);
                assert(jobs[jobs.len() - 1] == jobs.last());
                assert(jobs[jobs.len() - 1].handle == ch[k] && job_cancellable(
                    jobs[jobs.len() - 1],
                    uid,
                ));
            }
        }
        assert forall|i: int|
            0 <= i < jobs.len() && job_cancellable(#[trigger] jobs[i], uid) implies ch.contains(
            jobs[i].handle,
        ) by {
            if i < jobs.len() - 1 {
                assert(rest[i] == jobs[i]);
                assert(chr.contains(jobs[i].handle));
                let k = choose|k: int| 0 <= k < chr.len() && chr[k] == jobs[i].handle;
                assert(ch[k] == jobs[i].handle);
            } else {
                assert(ch[ch.len() - 1] == jobs.last().handle);
            }
        }
    }
}

// ---------------------------------------------------------------------
// The weekly chain over whole traces.
// ---------------------------------------------------------------------

/// One event fed to a machine, with the data it carries.
pub enum ProtocolEvent {
    Authenticated(i64, Result<(), String>),
    Fetched(i64, Result<LessonData, AsvzError>),
    Replied,
    Slept(i64),
    Submitted(i64, Result<SubmitOutcome, AsvzError>),
    SearchResult(Result<EventList, AsvzError>),
}

/// The event is the one the machine waits for.
pub open spec fn event_expected(s: ProtoState, e: ProtocolEvent) -> bool {
    match e {
        ProtocolEvent::Authenticated(..) => expects_authenticated(s),
        ProtocolEvent::Fetched(..) => expects_fetched(s),
        ProtocolEvent::Replied => expects_replied(s),
        ProtocolEvent::Slept(..) => expects_slept(s),
        ProtocolEvent::Submitted(..) => expects_submitted(s),
        ProtocolEvent::SearchResult(..) => expects_search(s),
    }
}

/// The machine after one event.
pub open spec fn dispatch(m: MachineView, e: ProtocolEvent) -> MachineView {
    match e {
        ProtocolEvent::Authenticated(now, r) => authenticated_step(m, now, r).0,
        ProtocolEvent::Fetched(now, r) => fetched_step(m, now, r).0,
        ProtocolEvent::Replied => replied_step(m).0,
        ProtocolEvent::Slept(now) => slept_step(m, now).0,
        ProtocolEvent::Submitted(now, r) => submitted_step(m, now, r).0,
        ProtocolEvent::SearchResult(r) => search_step(m, r).0,
    }
}

/// The machine after a whole trace of events.
pub open spec fn final_machine(m: MachineView, es: Seq<ProtocolEvent>) -> MachineView
    decreases es.len(),
{
    if es.len() == 0 {
        m
    } else {
        final_machine(dispatch(m, es[0]), es.drop_first())
    }
}

/// Every event of the trace is the one its machine waits for.
pub open spec fn valid_trace(m: MachineView, es: Seq<ProtocolEvent>) -> bool
    decreases es.len(),
{
    es.len() == 0 || (event_expected(m.state, es[0]) && valid_trace(
        dispatch(m, es[0]),
        es.drop_first(),
    ))
}

/// A search answer that names next week's lesson.
pub open spec fn is_found_search(e: ProtocolEvent) -> bool {
    e matches ProtocolEvent::SearchResult(Ok(list)) && list.results@.len() > 0 && url_lesson_id(
        list.results@[0].url@,
    ) is Some
}

/// How many successful forward searches the trace answers.
pub open spec fn count_found(m: MachineView, es: Seq<ProtocolEvent>) -> nat
    decreases es.len(),
{
    if es.len() == 0 {
        0
    } else {
        (if m.state is AwaitSearch && is_found_search(es[0]) {
            1nat
        } else {
            0nat
        }) + count_found(dispatch(m, es[0]), es.drop_first())
    }
}

/// How often the trace re-enters the protocol: a delivered
/// "found next week's lesson" notice starts the next run.
pub open spec fn count_restarts(m: MachineView, es: Seq<ProtocolEvent>) -> nat
    decreases es.len(),
{
    if es.len() == 0 {
        0
    } else {
        (if m.state is AwaitFoundReply && es[0] is Replied {
            1nat
        } else {
            0nat
        }) + count_restarts(dispatch(m, es[0]), es.drop_first())
    }
}

/// A pending re-entry: the found notice is out but not yet delivered.
pub open spec fn pending_restart(m: MachineView) -> nat {
    if m.state is AwaitFoundReply {
        1
    } else {
        0
    }
}

/// One expected event moves the found-notice bookkeeping by exactly the
/// searches answered and the notices delivered: nothing else ever enters
/// or leaves the found-notice state.
proof fn lemma_step_balance(m: MachineView, e: ProtocolEvent)
    requires
        event_expected(m.state, e),
    ensures
        (if m.state is AwaitFoundReply && e is Replied {
            1nat
        } else {
            0nat
        }) + pending_restart(dispatch(m, e)) == (if m.state is AwaitSearch && is_found_search(e) {
            1nat
        } else {
            0nat
        }) + pending_restart(m),
{
}

/// The chain's balance law: over any trace of expected events, the
/// number of re-entries and the still-pending notice account exactly for
/// the successful searches.  In particular, over a whole chain (no
/// notice pending at either end) there is exactly one further protocol
/// run per successful search: fed N successful searches and then one
/// empty one, a weekly job performs N+1 runs and, by
/// `lemma_chain_not_found_ends`, ends with the definitive failure.
pub proof fn lemma_weekly_chain_balance(m: MachineView, es: Seq<ProtocolEvent>)
    requires
        valid_trace(m, es),
    ensures
        count_restarts(m, es) + pending_restart(final_machine(m, es)) == count_found(m, es)
            + pending_restart(m),
    decreases es.len(),
{
    if es.len() > 0 {
        lemma_step_balance(m, es[0]);
        lemma_weekly_chain_balance(dispatch(m, es[0]), es.drop_first());
    }
}

/// Relaunching strictly increments the retry count: a job relaunched
/// once carries count one, and relaunched from there, count two.
pub proof fn lemma_relaunch_twice(e0: JobErrorView, e1: JobErrorView)
    requires
        e0.retry_count == 0,
        e1.kind == e0.kind,
        e1.user_id == e0.user_id,
        e1.retry_count == relaunched_request(e0).retry_count,
    ensures
        relaunched_request(e0).retry_count == 1,
        relaunched_request(e1).retry_count == 2,
{
}

} // verus!

