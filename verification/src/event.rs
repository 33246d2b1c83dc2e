//! Events: synchronization points recordable on streams.
//!
//! An [`Event`] is recorded on a stream and becomes complete once that
//! stream has completed all work enqueued before the record.  Another
//! stream that waits on the event will not start any work enqueued after
//! the wait until the event is complete; the host can poll or block on it.

use vstd::prelude::*;

use crate::device::Device;
use crate::runtime::core_eq;
use crate::runtime::eq_except_log_fail;
use crate::runtime::lemma_sched_core_refl;
use crate::runtime::lemma_sched_core_trans;
use crate::runtime::lemma_wf_push_barrier;
use crate::runtime::lemma_wf_push_event;
use crate::runtime::lemma_wf_record;
use crate::runtime::lemma_wf_same_shape;
use crate::runtime::native_call;
use crate::runtime::sync_post;
use crate::runtime::Barrier;
use crate::runtime::Error;
use crate::runtime::EventMark;
use crate::runtime::EventState;
use crate::runtime::NativeCall;
use crate::runtime::Runtime;
use crate::stream::Stream;

verus! {

/// An owned handle to one native synchronization event.
#[derive(Debug)]
pub struct Event {
    /// The event's index in the runtime.
    pub id: usize,
}

impl Event {
    /// Whether this handle refers to a live event of the runtime.
    pub open spec fn wf(self, rt: Runtime) -> bool {
        &&& self.id < rt.events@.len()
        &&& rt.events@[self.id as int].alive
    }
}

/// The relation for successfully creating event `e`: a fresh, unrecorded
/// event appears and one native call is logged.
pub open spec fn event_create_post(pre: Runtime, post: Runtime, e: Event) -> bool {
    &&& e.id == pre.events@.len()
    &&& post.events@.len() == pre.events@.len() + 1
    &&& forall|i: int| 0 <= i < pre.events@.len() ==> #[trigger] post.events@[i] == pre.events@[i]
    &&& post.events@.last().alive
    &&& post.events@.last().recorded is None
    &&& post.log@ == pre.log@.push(NativeCall::EventCreate)
    &&& !post.fail_next
    &&& post.allocs == pre.allocs
    &&& post.host_allocs == pre.host_allocs
    &&& post.streams == pre.streams
    &&& post.initialized == pre.initialized
    &&& post.active == pre.active
    &&& post.handles == pre.handles
    &&& post.tensors == pre.tensors
    &&& post.descriptors == pre.descriptors
}

impl Device {
    /// Creates a new event against this device, initially unrecorded.
    pub fn event(&self, rt: &mut Runtime) -> (r: Result<Event, Error>)
        requires
            old(rt).wf(),
        ensures
            final(rt).wf(),
            r is Ok <==> !old(rt).fail_next,
            r matches Ok(e) ==> event_create_post(*old(rt), *final(rt), e) && e.wf(*final(rt)),
            r is Err ==> r == Result::<Event, Error>::Err(Error::NativeFailure)
                && final(rt).log@ == old(rt).log@.push(NativeCall::EventCreate)
                && !final(rt).fail_next
                && eq_except_log_fail(*old(rt), *final(rt)),
    {
        native_call(rt, NativeCall::EventCreate)?;
        let id = rt.events.len();
        rt.events.push(EventState { alive: true, recorded: None });
        proof {
            lemma_wf_push_event(*old(rt), *rt);
        }
        Ok(Event { id })
    }
}

impl Event {
    /// Destroys this event.  A failing native status is unrecoverable
    /// for the program and is reported for the embedding to abort on.
    pub fn destroy(self, rt: &mut Runtime) -> (r: Result<(), Error>)
        requires
            old(rt).wf(),
            self.wf(*old(rt)),
        ensures
            final(rt).wf(),
            final(rt).log@ == old(rt).log@.push(NativeCall::EventDestroy),
            !final(rt).fail_next,
            r is Ok <==> !old(rt).fail_next,
            r is Ok ==> !final(rt).events@[self.id as int].alive
                && final(rt).events@.len() == old(rt).events@.len()
                && (forall|i: int|
                    0 <= i < old(rt).events@.len() && i != self.id
                        ==> #[trigger] final(rt).events@[i] == old(rt).events@[i])
                && final(rt).events@[self.id as int].recorded == old(rt).events@[
                    self.id as int
                ].recorded
                && final(rt).allocs == old(rt).allocs
                && final(rt).host_allocs == old(rt).host_allocs
                && final(rt).streams == old(rt).streams
                && final(rt).initialized == old(rt).initialized
                && final(rt).active == old(rt).active
                && final(rt).handles == old(rt).handles
                && final(rt).tensors == old(rt).tensors
                && final(rt).descriptors == old(rt).descriptors,
            r is Err ==> r == Result::<(), Error>::Err(Error::NativeFailure)
                && eq_except_log_fail(*old(rt), *final(rt)),
    {
        native_call(rt, NativeCall::EventDestroy)?;
        rt.events[self.id].alive = false;
        proof {
            lemma_wf_same_shape(*old(rt), *rt);
        }
        Ok(())
    }

    /// Polls whether this event has completed, without blocking: a
    /// recorded event is complete once the stream it was recorded on has
    /// completed everything enqueued before the record.  Polling an event
    /// that was never recorded is not defined by the native layer and is
    /// ruled out here.
    pub fn is_complete(&self, rt: &mut Runtime) -> (r: Result<bool, Error>)
        requires
            old(rt).wf(),
            self.wf(*old(rt)),
            old(rt).events@[self.id as int].recorded is Some,
        ensures
            final(rt).wf(),
            final(rt).log@ == old(rt).log@.push(NativeCall::EventQuery),
            !final(rt).fail_next,
            eq_except_log_fail(*old(rt), *final(rt)),
            r is Ok <==> !old(rt).fail_next,
            r matches Ok(b) ==> b == old(rt).event_complete(
                old(rt).events@[self.id as int].recorded.unwrap(),
            ),
            r is Err ==> r == Result::<bool, Error>::Err(Error::NativeFailure),
    {
        native_call(rt, NativeCall::EventQuery)?;
        let m = match rt.events[self.id].recorded {
            Some(m) => m,
            None => {
                proof {
                    assert(false);
                }
                return Ok(false);
            },
        };
        Ok(rt.streams[m.stream].completed >= m.pos)
    }

    /// Blocks the host until this event completes.  In the model the
    /// scheduler runs until nothing can make progress; if the event is
    /// then still incomplete, the wait could never finish, which is
    /// reported as a deadlock.  Synchronizing on an event that was never
    /// recorded is not defined by the native layer and is ruled out here.
    pub fn synchronize(&self, rt: &mut Runtime) -> (r: Result<(), Error>)
        requires
            old(rt).wf(),
            self.wf(*old(rt)),
            old(rt).events@[self.id as int].recorded is Some,
        ensures
            final(rt).wf(),
            final(rt).log@ == old(rt).log@.push(NativeCall::EventSynchronize),
            !final(rt).fail_next,
            old(rt).fail_next ==> r == Result::<(), Error>::Err(Error::NativeFailure)
                && eq_except_log_fail(*old(rt), *final(rt)),
            !old(rt).fail_next ==> sync_post(*old(rt), *final(rt), NativeCall::EventSynchronize)
                && (r is Ok <==> final(rt).event_complete(
                old(rt).events@[self.id as int].recorded.unwrap(),
            )) && (r is Err ==> r == Result::<(), Error>::Err(Error::Deadlock)),
    {
        let ghost pre = *old(rt);
        native_call(rt, NativeCall::EventSynchronize)?;
        let ghost mid = *rt;
        rt.run_all();
        proof {
            lemma_sched_core_refl(pre, mid);
            lemma_sched_core_trans(pre, mid, *rt);
        }
        let m = match rt.events[self.id].recorded {
            Some(m) => m,
            None => {
                proof {
                    assert(false);
                }
                return Ok(());
            },
        };
        if rt.streams[m.stream].completed >= m.pos {
            Ok(())
        } else {
            Err(Error::Deadlock)
        }
    }
}

/// The relation for successfully recording event `eid` on stream `sid`:
/// the event's mark is set to the stream's current queue length and one
/// native call is logged.
pub open spec fn record_post(pre: Runtime, post: Runtime, sid: int, eid: int) -> bool {
    &&& post.events@.len() == pre.events@.len()
    &&& forall|i: int|
        0 <= i < pre.events@.len() && i != eid ==> #[trigger] post.events@[i] == pre.events@[i]
    &&& post.events@[eid].alive == pre.events@[eid].alive
    &&& post.events@[eid].recorded matches Some(m) && m.stream == sid && m.pos == pre.streams@[
        sid
    ].ops@.len()
    &&& post.log@ == pre.log@.push(NativeCall::EventRecord)
    &&& !post.fail_next
    &&& post.allocs == pre.allocs
    &&& post.host_allocs == pre.host_allocs
    &&& post.streams == pre.streams
    &&& post.initialized == pre.initialized
    &&& post.active == pre.active
    &&& post.handles == pre.handles
    &&& post.tensors == pre.tensors
    &&& post.descriptors == pre.descriptors
}

/// The relation for successfully making stream `sid` wait on event
/// `eid`: if the event is recorded, a barrier holding back the stream's
/// future ops until the recorded point appears; waiting on an unrecorded
/// event only logs the call.
pub open spec fn wait_post(pre: Runtime, post: Runtime, sid: int, eid: int) -> bool {
    &&& post.log@ == pre.log@.push(NativeCall::StreamWaitEvent)
    &&& !post.fail_next
    &&& post.allocs == pre.allocs
    &&& post.host_allocs == pre.host_allocs
    &&& core_eq(pre, post)
    &&& match pre.events@[eid].recorded {
        Option::None => post.streams == pre.streams,
        Option::Some(m) => {
            &&& post.streams@.len() == pre.streams@.len()
            &&& forall|i: int|
                0 <= i < pre.streams@.len() && i != sid ==> #[trigger] post.streams@[i]
                    == pre.streams@[i]
            &&& post.streams@[sid].ops == pre.streams@[sid].ops
            &&& post.streams@[sid].completed == pre.streams@[sid].completed
            &&& post.streams@[sid].alive == pre.streams@[sid].alive
            &&& post.streams@[sid].barriers@.len() == pre.streams@[sid].barriers@.len() + 1
            &&& forall|j: int|
                0 <= j < pre.streams@[sid].barriers@.len() ==> #[trigger] post.streams@[
                    sid
                ].barriers@[j] == pre.streams@[sid].barriers@[j]
            &&& post.streams@[sid].barriers@.last().pos == pre.streams@[sid].ops@.len()
            &&& post.streams@[sid].barriers@.last().src_stream == m.stream
            &&& post.streams@[sid].barriers@.last().src_pos == m.pos
        },
    }
}

impl Stream {
    /// Records `event` on this stream: the event completes once this
    /// stream has completed all work enqueued before this call.  A
    /// second record moves the event's mark.
    pub fn record(&self, rt: &mut Runtime, event: &Event) -> (r: Result<(), Error>)
        requires
            old(rt).wf(),
            self.wf(*old(rt)),
            event.wf(*old(rt)),
        ensures
            final(rt).wf(),
            final(rt).log@ == old(rt).log@.push(NativeCall::EventRecord),
            !final(rt).fail_next,
            r is Ok <==> !old(rt).fail_next,
            r is Ok ==> record_post(*old(rt), *final(rt), self.id as int, event.id as int),
            r is Err ==> r == Result::<(), Error>::Err(Error::NativeFailure)
                && eq_except_log_fail(*old(rt), *final(rt)),
    {
        native_call(rt, NativeCall::EventRecord)?;
        let pos = rt.streams[self.id].ops.len();
        let m = EventMark { stream: self.id, pos };
        rt.events[event.id].recorded = Some(m);
        proof {
            lemma_wf_record(*old(rt), *rt, event.id as int, m);
        }
        Ok(())
    }

    /// Makes this stream's future enqueued work wait until `event` is
    /// complete, without blocking the host.  If the event was never
    /// recorded, the wait has no effect beyond the native call.
    pub fn wait(&self, rt: &mut Runtime, event: &Event) -> (r: Result<(), Error>)
        requires
            old(rt).wf(),
            self.wf(*old(rt)),
            event.wf(*old(rt)),
        ensures
            final(rt).wf(),
            final(rt).log@ == old(rt).log@.push(NativeCall::StreamWaitEvent),
            !final(rt).fail_next,
            r is Ok <==> !old(rt).fail_next,
            r is Ok ==> wait_post(*old(rt), *final(rt), self.id as int, event.id as int),
            r is Err ==> r == Result::<(), Error>::Err(Error::NativeFailure)
                && eq_except_log_fail(*old(rt), *final(rt)),
    {
        native_call(rt, NativeCall::StreamWaitEvent)?;
        let rec = rt.events[event.id].recorded;
        match rec {
            None => Ok(()),
            Some(m) => {
                let pos = rt.streams[self.id].ops.len();
                let bar = Barrier { pos, src_stream: m.stream, src_pos: m.pos };
                let ghost mid = *rt;
                rt.streams[self.id].barriers.push(bar);
                proof {
                    assert(mid.stream_wf(self.id as int));
                    lemma_wf_push_barrier(mid, *rt, self.id as int, bar);
                }
                Ok(())
            },
        }
    }
}

/// Event ordering: in a well-formed runtime, once a stream has passed a
/// barrier — that is, completed any op at or beyond the barrier's
/// position — the stream the barrier waits for has necessarily completed
/// everything up to the waited-for point.  With the barrier placed by
/// [`Stream::wait`] on an event recorded by [`Stream::record`], work
/// enqueued after the wait never starts before the work enqueued before
/// the record has completed.
pub proof fn lemma_event_ordering(rt: Runtime, sid: int, j: int)
    requires
        rt.wf(),
        0 <= sid < rt.streams@.len(),
        0 <= j < rt.streams@[sid].barriers@.len(),
        rt.streams@[sid].completed > rt.streams@[sid].barriers@[j].pos,
    ensures
        rt.streams@[rt.streams@[sid].barriers@[j].src_stream as int].completed >= rt.streams@[
            sid
        ].barriers@[j].src_pos,
{
    assert(rt.stream_wf(sid));
}

/// Event ordering, end to end: record an event on stream `a_sid`, then
/// make stream `b_sid` wait on it.  In any later well-formed state the
/// scheduler can reach, if `b_sid` has completed any work enqueued after
/// the wait, then `a_sid` has completed all work enqueued before the
/// record.  Work enqueued after the wait therefore never runs before the
/// work the event was recorded behind.
pub proof fn lemma_record_then_wait_orders_streams(
    s0: Runtime,
    s1: Runtime,
    s2: Runtime,
    later: Runtime,
    a_sid: int,
    b_sid: int,
    eid: int,
)
    requires
        0 <= a_sid < s0.streams@.len(),
        0 <= b_sid < s0.streams@.len(),
        0 <= eid < s0.events@.len(),
        record_post(s0, s1, a_sid, eid),
        wait_post(s1, s2, b_sid, eid),
        later.wf(),
        crate::runtime::sched_evolves(s2, later),
        later.streams@[b_sid].completed > s1.streams@[b_sid].ops@.len(),
    ensures
        later.streams@[a_sid].completed >= s0.streams@[a_sid].ops@.len(),
{
    let j = s1.streams@[b_sid].barriers@.len() as int;
    let bar = s2.streams@[b_sid].barriers@[j];
    assert(bar.pos == s1.streams@[b_sid].ops@.len());
    assert(bar.src_stream == a_sid);
    assert(bar.src_pos == s0.streams@[a_sid].ops@.len());
    assert(later.streams@[b_sid].barriers == s2.streams@[b_sid].barriers);
    lemma_event_ordering(later, b_sid, j);
}

} // verus!
