//! The frame pacer's state machine. A background worker acquires the next
//! swap-chain index; the render thread asks, without blocking, whether one is
//! ready. The shared state is one index and one ready flag: the flag is false
//! exactly while an acquisition is in flight, and the index may be read only
//! while the flag is set. The blocking waits, the worker thread and the
//! wake-up signals live outside the library; every decision they act on is
//! taken here.

use vstd::prelude::*;

verus! {

/// The cross-thread state of the pacer: the swap-chain index last proven
/// safe to render into, and whether it is current. `ready == false` exactly
/// while an acquisition is in flight.
#[derive(Debug, Clone, Copy, PartialEq, Eq, Structural)]
pub struct RenderControl {
    pub next_index: u32,
    pub ready: bool,
}

/// State right after construction: one acquisition was performed inline on
/// the constructing thread, so the very first frame has a valid index.
pub open spec fn spec_init(initial_index: u32) -> RenderControl {
    RenderControl { next_index: initial_index, ready: true }
}

/// Requesting the next acquisition clears the flag; the stale index stays
/// behind it, unreadable.
pub open spec fn spec_begin_acquire(s: RenderControl) -> RenderControl {
    RenderControl { next_index: s.next_index, ready: false }
}

/// The worker finished an acquisition: it stores the returned index, then
/// sets the flag.
pub open spec fn spec_complete_acquire(s: RenderControl, acquired: u32) -> RenderControl {
    RenderControl { next_index: acquired, ready: true }
}

/// What the non-blocking query answers: the index only while the flag is
/// set, nothing while an acquisition is in flight.
pub open spec fn spec_check(s: RenderControl) -> Option<u32> {
    if s.ready {
        Some(s.next_index)
    } else {
        None
    }
}

impl RenderControl {
    /// Seeds the pacer with the index of the acquisition performed inline at
    /// construction time.
    pub fn init(initial_index: u32) -> (r: Self)
        ensures
            r == spec_init(initial_index),
    {
        RenderControl { next_index: initial_index, ready: true }
    }

    /// Starts a new acquisition: callable only from the idle-ready state,
    /// clears the ready flag, and the caller then signals the worker. Never
    /// blocks.
    pub fn begin_acquire_next(&mut self)
        requires
            old(self).ready,
        ensures
            *final(self) == spec_begin_acquire(*old(self)),
    {
        self.ready = false;
    }

    /// The worker's completion of an acquisition that is in flight: records
    /// the acquired index and raises the ready flag; the worker then signals
    /// "render ready".
    pub fn complete_acquire(&mut self, acquired: u32)
        requires
            !old(self).ready,
        ensures
            *final(self) == spec_complete_acquire(*old(self), acquired),
    {
        self.next_index = acquired;
        self.ready = true;
    }

    /// Non-blocking: the current index if it is safe to render into, nothing
    /// while an acquisition is in flight. The render loop uses it to skip
    /// one tick without stalling.
    pub fn check_ready_next(&self) -> (r: Option<u32>)
        ensures
            r == spec_check(*self),
    {
        if self.ready {
            Some(self.next_index)
        } else {
            None
        }
    }

    /// One tick of the render loop's decision: when an index is ready, hand
    /// it out for submission and presentation and immediately begin the next
    /// acquisition; otherwise change nothing and report that this tick
    /// submits no frame.
    pub fn do_render_step(&mut self) -> (r: Option<u32>)
        ensures
            old(self).ready ==> r == Some(old(self).next_index) && *final(self)
                == spec_begin_acquire(*old(self)),
            !old(self).ready ==> r is None && *final(self) == *old(self),
    {
        if self.ready {
            let n = self.next_index;
            self.begin_acquire_next();
            Some(n)
        } else {
            None
        }
    }
}

/// The blocking wait, under the one guarantee asked of the worker: that it
/// eventually signals ready. The completions the worker delivers stand as
/// input — when nothing is ready now, at least one is on its way — and the
/// first of them already satisfies the retry, so the wait returns once the
/// worker catches up; it never stalls with the flag set.
pub fn wait_last_render_completion(control: &mut RenderControl, completions: &Vec<u32>) -> (r:
    u32)
    requires
        !old(control).ready ==> completions@.len() >= 1,
    ensures
        final(control).ready,
        r == final(control).next_index,
        old(control).ready ==> *final(control) == *old(control),
        !old(control).ready ==> *final(control) == spec_complete_acquire(
            *old(control),
            completions@[0],
        ),
{
    let ready_now = control.check_ready_next();
    match ready_now {
        Some(n) => n,
        None => {
            control.complete_acquire(completions[0]);
            control.next_index
        },
    }
}

/// Once an acquisition has been begun, the query returns nothing — never the
/// index left over from the previous frame — until the worker completes; and
/// after the worker completes with an index, the query returns exactly that
/// index.
pub proof fn lemma_check_never_stale(s: RenderControl, acquired: u32)
    requires
        s.ready,
    ensures
        spec_check(spec_begin_acquire(s)) is None,
        spec_check(spec_complete_acquire(spec_begin_acquire(s), acquired)) == Some(acquired),
{
}

/// The blocking wait retries its non-blocking query each time the worker
/// signals "render ready"; one completed acquisition makes the query answer,
/// so the wait returns as soon as the worker catches up.
pub proof fn lemma_wait_returns_after_completion(s: RenderControl, acquired: u32)
    requires
        !s.ready,
    ensures
        spec_check(s) is None,
        spec_check(spec_complete_acquire(s, acquired)) == Some(acquired),
{
}

/// What reaches the worker, in the order it wakes up: either a request to
/// acquire — carrying the index the hardware hands back when that
/// acquisition completes — or the shutdown request.
#[derive(Debug, Clone, Copy, PartialEq, Eq, Structural)]
pub enum WorkerEvent {
    AcquireNext(u32),
    Shutdown,
}

/// What the worker does after waking: it serves an acquisition request
/// first, and exits only when woken solely for shutdown — so it never
/// abandons an acquisition that was requested before teardown began.
#[derive(Debug, Clone, Copy, PartialEq, Eq, Structural)]
pub enum WorkerAction {
    StartAcquire,
    Exit,
}

/// The worker's decision after a wake-up on either signal.
pub fn worker_decide(acquire_signaled: bool, shutdown_signaled: bool) -> (r: WorkerAction)
    requires
        acquire_signaled || shutdown_signaled,
    ensures
        r == (if acquire_signaled {
            WorkerAction::StartAcquire
        } else {
            WorkerAction::Exit
        }),
{
    if acquire_signaled {
        WorkerAction::StartAcquire
    } else {
        WorkerAction::Exit
    }
}

/// The events the worker serves before exiting: everything up to the first
/// shutdown request. An acquisition already requested when shutdown arrives
/// is in this prefix, so it still completes.
pub open spec fn served_events(events: Seq<WorkerEvent>) -> Seq<WorkerEvent>
    decreases events.len(),
{
    if events.len() == 0 {
        Seq::empty()
    } else if events.first() is Shutdown {
        Seq::empty()
    } else {
        seq![events.first()] + served_events(events.drop_first())
    }
}

/// The pacer state after the worker has served a sequence of events,
/// completing each requested acquisition in turn.
pub open spec fn run_events(s: RenderControl, events: Seq<WorkerEvent>) -> RenderControl
    decreases events.len(),
{
    if events.len() == 0 {
        s
    } else {
        let rest = run_events(s, events.drop_last());
        match events.last() {
            WorkerEvent::AcquireNext(n) => spec_complete_acquire(spec_begin_acquire(rest), n),
            WorkerEvent::Shutdown => rest,
        }
    }
}

/// The served prefix is the longest prefix before the first shutdown
/// request: every event in it is an acquisition request, it copies the
/// incoming events one for one, and when it is shorter than the whole list
/// the event right after it is the shutdown that ends the session.
pub proof fn lemma_served_events_shape(events: Seq<WorkerEvent>)
    ensures
        served_events(events).len() <= events.len(),
        forall|j: int|
            0 <= j < served_events(events).len() ==> #[trigger] served_events(events)[j]
                == events[j] && !(events[j] is Shutdown),
        served_events(events).len() < events.len() ==> events[served_events(
            events,
        ).len() as int] is Shutdown,
    decreases events.len(),
{
    if events.len() > 0 && !(events.first() is Shutdown) {
        lemma_served_events_shape(events.drop_first());
        let s = served_events(events);
        let rest = served_events(events.drop_first());
        assert forall|j: int|
            0 <= j < s.len() implies #[trigger] s[j] == events[j] && !(events[j] is Shutdown) by {
            if j == 0 {
                assert(s[0] == events.first());
            } else {
                assert(s[j] == rest[j - 1]);
                assert(events.drop_first()[j - 1] == events[j]);
            }
        }
        if s.len() < events.len() {
            assert(events.drop_first()[rest.len() as int] == events[s.len() as int]);
        }
    }
}

/// A run that ends on a completed acquisition leaves the pacer ready with
/// exactly that acquisition's index: no index from earlier in the run — and
/// not the seed index either — survives as the answer.
pub proof fn lemma_run_ends_on_last_acquisition(s: RenderControl, events: Seq<WorkerEvent>)
    requires
        events.len() > 0,
        events.last() is AcquireNext,
    ensures
        run_events(s, events).ready,
        run_events(s, events).next_index == events.last()->AcquireNext_0,
        spec_check(run_events(s, events)) == Some(events.last()->AcquireNext_0),
{
}

/// One whole session of the worker loop, serialized at the handshake's
/// synchronization points: for each event in order, the render thread's
/// request clears the flag and wakes the worker, which completes the
/// acquisition; a shutdown request makes the worker exit — but only between
/// acquisitions, never during one, so an acquisition already in flight when
/// shutdown arrives still lands in the final state. Returns how many events
/// were consumed: the served prefix plus the shutdown that ended it, when
/// one did. It always terminates — teardown is bounded by the one
/// acquisition that may be mid-flight.
pub fn run_session(control: &mut RenderControl, events: &Vec<WorkerEvent>) -> (consumed: usize)
    requires
        old(control).ready,
    ensures
        *final(control) == run_events(*old(control), served_events(events@)),
        consumed == if served_events(events@).len() < events@.len() {
            served_events(events@).len() + 1
        } else {
            events@.len()
        },
{
    proof {
        lemma_served_events_shape(events@);
    }
    let ghost orig = *control;
    let ghost served = served_events(events@);
    let mut j: usize = 0;
    while j < events.len()
        invariant
            orig == *old(control),
            served == served_events(events@),
            served.len() <= events@.len(),
            forall|i: int|
                0 <= i < served.len() ==> #[trigger] served[i] == events@[i] && !(
                events@[i] is Shutdown),
            served.len() < events@.len() ==> events@[served.len() as int] is Shutdown,
            0 <= j <= served.len(),
            *control == run_events(orig, served.take(j as int)),
            control.ready,
        decreases events@.len() - j,
    {
        match events[j] {
            WorkerEvent::AcquireNext(n) => {
                proof {
                    if j == served.len() {
                        assert(events@[j as int] is Shutdown);
                    }
                    assert(served.take(j as int + 1).drop_last() =~= served.take(j as int));
                    assert(served.take(j as int + 1).last() == events@[j as int]);
                }
                control.begin_acquire_next();
                control.complete_acquire(n);
                j = j + 1;
            },
            WorkerEvent::Shutdown => {
                proof {
                    if j < served.len() {
                        assert(served[j as int] == events@[j as int]);
                        assert(false);
                    }
                    assert(served.take(j as int) =~= served);
                }
                return j + 1;
            },
        }
    }
    proof {
        assert(j == served.len());
        assert(served.take(j as int) =~= served);
    }
    j
}

} // verus!
