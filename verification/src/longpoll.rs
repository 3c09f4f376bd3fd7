//! The lifecycle of one long poll: look at the inbox, register a waiter
//! when nothing is there, look again, wait to be woken or time out, look a
//! last time, and answer. Each step takes what the store or the wait
//! brought and says what to do next; a poll that registered its waiter
//! takes it out of the registry again before it answers.

use vstd::prelude::*;
use crate::connection::{PollItem, PollReply, poll_key, poll_register, poll_reply, spec_poll_pending};
use crate::proto::{ServerMsg, err_owned, is_error};
use crate::sessions::SessionInfo;
use crate::waiters::{PollKey, PollWaiters, poll_key_view, spec_poll_limit, spec_poll_timeout};

verus! {

/// Where a long poll stands: which answer it waits for.
#[derive(Debug, Clone, Copy)]
pub enum PollPhase {
    /// The first look at the inbox.
    First,
    /// A wake-up channel to register as the waiter.
    Unregistered,
    /// The look made right after registering.
    Registered,
    /// The end of the wait.
    Waiting,
    /// The last look, after the wait; whether the wait timed out.
    Last(bool),
}

/// A long poll in progress: whose, with what raw timeout and limit, and
/// where it stands.
#[derive(Debug)]
pub struct PollState {
    pub key: PollKey,
    pub timeout_ms: u64,
    pub limit: u32,
    pub phase: PollPhase,
}

/// What the previous action brought.
pub enum PollEvent<T, I> {
    /// A look at the inbox: the items found, or the store's error.
    Queried(Result<Vec<PollItem<I>>, String>),
    /// The sending half of a fresh wake-up channel.
    Channel(T),
    /// The wait ended; whether it timed out.
    WaitEnded(bool),
}

/// What the poll does next.
#[derive(Debug)]
pub enum PollNext<I> {
    /// Look at the inbox (with `poll_query`).
    Query,
    /// Open a wake-up channel and hand its sending half back.
    OpenChannel,
    /// Wait this many milliseconds to be woken.
    Wait(u64),
    /// Answer with this reply, after marking these ids delivered.
    Reply(PollReply<I>, Vec<String>),
    /// Answer with this error.
    Fail(ServerMsg),
}

/// Whether the event is the one the phase waits for.
pub open spec fn poll_event_fits<T, I>(phase: PollPhase, ev: PollEvent<T, I>) -> bool {
    match phase {
        PollPhase::Unregistered => ev is Channel,
        PollPhase::Waiting => ev is WaitEnded,
        _ => ev is Queried,
    }
}

/// Whether the poll's own waiter is in the registry in this phase.
pub open spec fn poll_holds_waiter(phase: PollPhase) -> bool {
    phase is Registered || phase is Waiting || phase is Last
}

/// Whether the poll has answered.
pub open spec fn poll_answered<I>(n: PollNext<I>) -> bool {
    n is Reply || n is Fail
}

/// `rep` and `mark` are the reply built from these items and the ids among
/// them to mark delivered.
pub open spec fn is_poll_reply<I>(
    rep: PollReply<I>,
    mark: Vec<String>,
    timeout_ms: u64,
    limit: u32,
    items: Vec<PollItem<I>>,
    timed_out: bool,
) -> bool {
    &&& rep.limit == spec_poll_limit(limit)
    &&& rep.timeout_ms == spec_poll_timeout(timeout_ms)
    &&& rep.empty == (items@.len() == 0)
    &&& rep.timed_out == timed_out
    &&& rep.messages == items
    &&& crate::text::string_views(mark@) == spec_poll_pending(items@)
}

/// Starts the long poll of a connection. One without a session is refused
/// with `auth_required`; otherwise the poll first looks at the inbox.
pub fn poll_start(session: &Option<SessionInfo>, timeout_ms: u64, limit: u32) -> (r: Result<PollState, ServerMsg>)
    ensures
        session is None ==> (r matches Err(e) && is_error(e, "auth_required"@, "PollInbox 需要 session 鉴权"@)),
        session matches Some(info) ==> (r matches Ok(st) && poll_key_view(st.key) == (
            info.workspace_id@,
            info.participant_id@,
        ) && st.timeout_ms == timeout_ms && st.limit == limit && st.phase is First),
{
    match poll_key(session) {
        Err(e) => Err(e),
        Ok(key) => Ok(PollState { key, timeout_ms, limit, phase: PollPhase::First }),
    }
}

fn release<T>(waiters: &mut PollWaiters<T>, key: &PollKey)
    requires
        old(waiters).wf(),
    ensures
        final(waiters).wf(),
        final(waiters).view() == old(waiters).view().remove(poll_key_view(*key)),
{
    let _ = waiters.take(key.workspace_id.as_str(), key.participant_id.as_str());
}

/// One step of a long poll. The first look answers at once with what it
/// found, else the poll registers a waiter (refused with
/// `poll_already_active` while the participant has one pending) and looks
/// again; if that look finds nothing it waits, then looks a last time and
/// answers with what it found and whether the wait timed out. A failed look
/// answers `poll_inbox_failed`. Whenever a poll that registered its waiter
/// answers, that waiter has left the registry and no other was touched.
pub fn poll_step<T, I>(waiters: &mut PollWaiters<T>, st: PollState, ev: PollEvent<T, I>) -> (r: (
    PollState,
    PollNext<I>,
))
    requires
        old(waiters).wf(),
        poll_event_fits(st.phase, ev),
    ensures
        final(waiters).wf(),
        poll_key_view(r.0.key) == poll_key_view(st.key),
        r.0.timeout_ms == st.timeout_ms,
        r.0.limit == st.limit,
        poll_answered(r.1) && poll_holds_waiter(st.phase) ==> final(waiters).view() == old(waiters).view().remove(
            poll_key_view(st.key),
        ),
        poll_answered(r.1) && poll_holds_waiter(st.phase) ==> !final(waiters).view().contains_key(
            poll_key_view(st.key),
        ),
        !(poll_answered(r.1) && poll_holds_waiter(st.phase)) && !(ev is Channel) ==> final(waiters).view()
            == old(waiters).view(),
        ev matches PollEvent::Queried(Err(m)) ==> (r.1 matches PollNext::Fail(e) && is_error(
            e,
            "poll_inbox_failed"@,
            m@,
        )),
        ev matches PollEvent::Queried(Ok(items)) ==> match st.phase {
            PollPhase::Last(t) => r.1 matches PollNext::Reply(rep, mark) && is_poll_reply(
                rep,
                mark,
                st.timeout_ms,
                st.limit,
                items,
                t,
            ),
            _ => if items@.len() > 0 {
                r.1 matches PollNext::Reply(rep, mark) && is_poll_reply(
                    rep,
                    mark,
                    st.timeout_ms,
                    st.limit,
                    items,
                    false,
                )
            } else if st.phase is First {
                r.0.phase is Unregistered && r.1 is OpenChannel
            } else {
                r.0.phase is Waiting && r.1 == PollNext::<I>::Wait(spec_poll_timeout(st.timeout_ms))
            },
        },
        ev matches PollEvent::Channel(tx) ==> if old(waiters).view().contains_key(poll_key_view(st.key)) {
            (r.1 matches PollNext::Fail(e) && is_error(
                e,
                "poll_already_active"@,
                "当前 participant 已有一个挂起中的 PollInbox 请求"@,
            )) && final(waiters).view() == old(waiters).view()
        } else {
            r.0.phase is Registered && r.1 is Query && final(waiters).view() == old(waiters).view().insert(
                poll_key_view(st.key),
                tx,
            )
        },
        ev matches PollEvent::WaitEnded(t) ==> r.0.phase == PollPhase::Last(t) && r.1 is Query,
{
    let phase = st.phase;
    match ev {
        PollEvent::Queried(Err(m)) => {
            match phase {
                PollPhase::First => {},
                _ => release(waiters, &st.key),
            }
            (st, PollNext::Fail(err_owned("poll_inbox_failed", m)))
        },
        PollEvent::Queried(Ok(items)) => {
            match phase {
                PollPhase::Last(t) => {
                    release(waiters, &st.key);
                    let (rep, mark) = poll_reply(st.timeout_ms, st.limit, items, t);
                    (st, PollNext::Reply(rep, mark))
                },
                _ => {
                    if items.len() > 0 {
                        match phase {
                            PollPhase::First => {},
                            _ => release(waiters, &st.key),
                        }
                        let (rep, mark) = poll_reply(st.timeout_ms, st.limit, items, false);
                        (st, PollNext::Reply(rep, mark))
                    } else {
                        match phase {
                            PollPhase::First => (PollState { phase: PollPhase::Unregistered, ..st }, PollNext::OpenChannel),
                            _ => {
                                let (t, _) = crate::waiters::normalize_poll_params(st.timeout_ms, st.limit);
                                (PollState { phase: PollPhase::Waiting, ..st }, PollNext::Wait(t))
                            },
                        }
                    }
                },
            }
        },
        PollEvent::Channel(tx) => {
            let key = PollKey {
                workspace_id: String::from_str(st.key.workspace_id.as_str()),
                participant_id: String::from_str(st.key.participant_id.as_str()),
            };
            match poll_register(waiters, key, tx) {
                Err((_, e)) => (st, PollNext::Fail(e)),
                Ok(()) => (PollState { phase: PollPhase::Registered, ..st }, PollNext::Query),
            }
        },
        PollEvent::WaitEnded(t) => (PollState { phase: PollPhase::Last(t), ..st }, PollNext::Query),
    }
}

} // verus!
