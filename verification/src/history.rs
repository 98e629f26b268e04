//! What has happened on the wrappers of one physical device, and what holds
//! of the handles at every point of it.
//!
//! Which session exists is the native layer's state, and this crate does not
//! keep a copy of it. What it can say is how its handles follow the replies:
//! a handle exists for exactly the sessions the native layer has created and
//! not yet seen closed. Where the native layer grants the device to one
//! session at a time, it follows that at most one handle is alive.

use vstd::prelude::*;

use crate::device::opened;
use crate::error::{UvcError, UVC_ERROR_BUSY, UVC_SUCCESS};
use crate::native::OpenReply;

verus! {

/// One step in the life of the wrappers of one physical device.
pub enum SessionEvent {
    /// `Device::open` was called on one of the wrappers with this reply of
    /// the native layer.
    Open(OpenReply),
    /// `DeviceHandle::close` was called on the handle of this session, and
    /// the session was closed at the native layer.
    Close(usize),
}

/// The sessions with a handle after one more event.
pub open spec fn handles_after(before: Set<usize>, event: SessionEvent) -> Set<usize> {
    match event {
        SessionEvent::Open(reply) => match opened(reply) {
            Ok(session) => before.insert(session),
            Err(_) => before,
        },
        SessionEvent::Close(session) => before.remove(session),
    }
}

/// The sessions for which a handle is alive after the events: those that an
/// `open` gave a handle for and no `close` has ended since.
pub open spec fn handles(events: Seq<SessionEvent>) -> Set<usize>
    decreases events.len(),
{
    if events.len() == 0 {
        Set::empty()
    } else {
        handles_after(handles(events.drop_last()), events.last())
    }
}

/// The sessions that exist at the native layer after one more event.
pub open spec fn native_sessions_after(before: Set<usize>, event: SessionEvent) -> Set<usize> {
    match event {
        SessionEvent::Open(reply) => if reply.status == UVC_SUCCESS {
            before.insert(reply.session)
        } else {
            before
        },
        SessionEvent::Close(session) => before.remove(session),
    }
}

/// The sessions that exist at the native layer after the events: those it
/// reported as created and has not been asked to close since.
pub open spec fn native_sessions(events: Seq<SessionEvent>) -> Set<usize>
    decreases events.len(),
{
    if events.len() == 0 {
        Set::empty()
    } else {
        native_sessions_after(native_sessions(events.drop_last()), events.last())
    }
}

/// No session is in the set.
pub open spec fn none_alive(sessions: Set<usize>) -> bool {
    forall|s: usize| !sessions.contains(s)
}

/// No two sessions are in the set.
pub open spec fn at_most_one_alive(sessions: Set<usize>) -> bool {
    forall|s: usize, t: usize| sessions.contains(s) && sessions.contains(t) ==> s == t
}

/// Whether an event can follow the events before it, on a device that is
/// attached and within reach, at a native layer that grants the device to one
/// session at a time: an open is answered with a new session where none
/// exists and with busy where one does, and what is closed is a session with
/// a handle.
pub open spec fn may_follow(past: Seq<SessionEvent>, event: SessionEvent) -> bool {
    match event {
        SessionEvent::Open(reply) => if none_alive(native_sessions(past)) {
            reply.status == UVC_SUCCESS && reply.session != 0
        } else {
            reply.status == UVC_ERROR_BUSY
        },
        SessionEvent::Close(session) => handles(past).contains(session),
    }
}

/// Whether every event of the sequence can follow the ones before it.
pub open spec fn exclusive(events: Seq<SessionEvent>) -> bool {
    forall|i: int| 0 <= i < events.len() ==> may_follow(events.take(i), #[trigger] events[i])
}

/// Whatever the native layer answers, the handles are its sessions: every
/// session it created has a handle until that handle is closed, and there is
/// no handle without a session.
pub proof fn handles_are_the_native_sessions(events: Seq<SessionEvent>)
    ensures
        handles(events) == native_sessions(events),
    decreases events.len(),
{
    if events.len() > 0 {
        handles_are_the_native_sessions(events.drop_last());
    }
}

/// On a device that the native layer grants to one session at a time, at most
/// one handle is alive at every point, over any opens and closes on any
/// number of wrappers. Each open gives a handle exactly when no handle was
/// alive at that point, and `Busy` when one was.
pub proof fn at_most_one_handle_is_alive(events: Seq<SessionEvent>)
    requires
        exclusive(events),
    ensures
        forall|n: int| 0 <= n <= events.len() ==> at_most_one_alive(#[trigger] handles(events.take(n))),
        forall|i: int|
            0 <= i < events.len() ==> (#[trigger] events[i] matches SessionEvent::Open(reply) ==> {
                &&& opened(reply) is Ok <==> none_alive(handles(events.take(i)))
                &&& !none_alive(handles(events.take(i))) ==> opened(reply) == Err::<usize, _>(
                    UvcError::Busy,
                )
            }),
{
    assert forall|n: int| 0 <= n <= events.len() implies at_most_one_alive(
        #[trigger] handles(events.take(n)),
    ) by {
        one_handle_so_far(events, n);
    }
    assert forall|i: int| 0 <= i < events.len() implies (#[trigger] events[i] matches SessionEvent::Open(
        reply,
    ) ==> {
        &&& opened(reply) is Ok <==> none_alive(handles(events.take(i)))
        &&& !none_alive(handles(events.take(i))) ==> opened(reply) == Err::<usize, _>(
            UvcError::Busy,
        )
    }) by {
        handles_are_the_native_sessions(events.take(i));
        assert(may_follow(events.take(i), events[i]));
    }
}

/// The first `n` events of an exclusive sequence leave at most one handle.
proof fn one_handle_so_far(events: Seq<SessionEvent>, n: int)
    requires
        exclusive(events),
        0 <= n <= events.len(),
    ensures
        at_most_one_alive(handles(events.take(n))),
    decreases n,
{
    if n > 0 {
        let past = events.take(n - 1);
        one_handle_so_far(events, n - 1);
        handles_are_the_native_sessions(past);
        assert(events.take(n).drop_last() =~= past);
        assert(events.take(n).last() == events[n - 1]);
        assert(may_follow(past, events[n - 1]));
    }
}

} // verus!
