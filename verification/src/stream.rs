//! The lifecycle of a watch stream: created, started, stopped.
//!
//! A stream is created for one path, with the event id from which the native
//! facility is to report. Starting it yields the request for the native
//! subscription and the native calls that bring it up, and hands the
//! callback context over to the native side. Stopping it yields the native
//! calls that take the subscription down, in the order in which they must be
//! made; only the first stop yields any.
//!
//! The native calls themselves are made by the embedding code. A stream is a
//! plain value: shared between threads it sits behind a lock, which makes
//! each `stop` a single step.

use vstd::prelude::*;
use crate::flags::{LATENCY_MILLIS, SUBSCRIPTION_FLAGS};

verus! {

/// Where a stream stands in its life. The order is fixed and there is no way
/// back: `Created`, then `Started`, then `Stopped`; a stream that was never
/// started goes from `Created` to `Stopped`.
#[derive(Clone, Copy, Debug, PartialEq, Eq, Structural)]
pub enum StreamState {
    /// Made, not subscribed. The stream holds its queue and its context.
    Created,
    /// Subscribed: events are delivered, and the native side holds the
    /// context.
    Started,
    /// Taken down. Nothing is held any more.
    Stopped,
}

/// One call into the native facility.
#[derive(Clone, Copy, Debug, PartialEq, Eq, Structural)]
pub enum NativeCall {
    /// Create the subscription that the request describes, with the
    /// callback, the context's handle and the release hook.
    CreateStream,
    /// Bind the subscription to the stream's dispatch queue.
    AttachQueue,
    /// Start the delivery of events.
    StartStream,
    /// Stop the delivery of events.
    StopStream,
    /// Take the subscription off its dispatch queue.
    DetachQueue,
    /// Invalidate the subscription.
    InvalidateStream,
    /// Release the dispatch queue.
    ReleaseQueue,
    /// Release the subscription handle. With it the native side lets go of
    /// the callback context, through the release hook.
    ReleaseStream,
    /// Release the callback context from the stream's side, for a stream
    /// that never handed it over.
    ReclaimContext,
}

/// What the native facility is asked for when a stream starts.
#[derive(Clone, Debug, PartialEq, Eq)]
pub struct SubscriptionRequest {
    /// The one root that is watched, with all below it.
    pub path: String,
    /// The event id from which events are reported.
    pub since_when: u64,
    /// The window within which changes are merged, in milliseconds.
    pub latency_millis: u64,
    /// The creation flags.
    pub flags: u32,
    /// The handle of the callback context. The native side gets it together
    /// with the release hook and is from then on the one to let go of it.
    pub context: usize,
}

/// What starting a stream asks of the embedding code.
#[derive(Clone, Debug, PartialEq, Eq)]
pub struct Startup {
    /// What the subscription is created from.
    pub request: SubscriptionRequest,
    /// The native calls that bring the subscription up, in their order.
    pub calls: Vec<NativeCall>,
}

/// What a stream is, seen from outside.
pub struct StreamView {
    pub state: StreamState,
    pub path: Seq<char>,
    pub since_when: u64,
    pub context: usize,
}

/// A watch stream for one path.
pub struct NativeEventStream {
    since_when: u64,
    closed: bool,
    path: String,
    subscribed: bool,
    info: usize,
}

/// The native calls that bring a subscription up, in the order in which they
/// are made: it is created, bound to the queue, and only then started.
pub open spec fn startup() -> Seq<NativeCall> {
    seq![NativeCall::CreateStream, NativeCall::AttachQueue, NativeCall::StartStream]
}

/// The native calls that take a stream down from a given state, in the
/// order in which they are made. The subscription is stopped, detached and
/// invalidated before the queue is released; a stream without a
/// subscription releases its queue and its context; a stopped stream has
/// nothing left to take down.
pub open spec fn teardown(state: StreamState) -> Seq<NativeCall> {
    match state {
        StreamState::Created => seq![NativeCall::ReleaseQueue, NativeCall::ReclaimContext],
        StreamState::Started => seq![
            NativeCall::StopStream,
            NativeCall::DetachQueue,
            NativeCall::InvalidateStream,
            NativeCall::ReleaseQueue,
            NativeCall::ReleaseStream,
        ],
        StreamState::Stopped => Seq::empty(),
    }
}

/// All native calls that `count` stops in a row yield, the first of them
/// finding the stream in `state`.
pub open spec fn calls_of_stops(state: StreamState, count: nat) -> Seq<NativeCall>
    decreases count,
{
    if count == 0 {
        Seq::empty()
    } else {
        teardown(state) + calls_of_stops(StreamState::Stopped, (count - 1) as nat)
    }
}

/// How often a call stands in a list of calls.
pub open spec fn occurrences(calls: Seq<NativeCall>, call: NativeCall) -> nat {
    calls.filter(|c: NativeCall| c == call).len()
}

/// The native calls that take a stream down from `state`.
pub fn teardown_calls(state: StreamState) -> (calls: Vec<NativeCall>)
    ensures
        calls@ == teardown(state),
{
    let mut calls: Vec<NativeCall> = Vec::new();
    match state {
        StreamState::Created => {
            calls.push(NativeCall::ReleaseQueue);
            calls.push(NativeCall::ReclaimContext);
        },
        StreamState::Started => {
            calls.push(NativeCall::StopStream);
            calls.push(NativeCall::DetachQueue);
            calls.push(NativeCall::InvalidateStream);
            calls.push(NativeCall::ReleaseQueue);
            calls.push(NativeCall::ReleaseStream);
        },
        StreamState::Stopped => {},
    }
    assert(calls@ =~= teardown(state));
    calls
}

impl View for NativeEventStream {
    type V = StreamView;

    closed spec fn view(&self) -> StreamView {
        StreamView {
            state: if self.closed {
                StreamState::Stopped
            } else if self.subscribed {
                StreamState::Started
            } else {
                StreamState::Created
            },
            path: self.path@,
            since_when: self.since_when,
            context: self.info,
        }
    }
}

impl NativeEventStream {
    /// A stream for `path` that will report events from `since_when` on and
    /// whose callback context has the handle `context`. Nothing is
    /// subscribed yet.
    pub fn new(path: String, since_when: u64, context: usize) -> (stream: Self)
        ensures
            stream@ == (StreamView {
                state: StreamState::Created,
                path: path@,
                since_when,
                context,
            }),
    {
        NativeEventStream { since_when, closed: false, path, subscribed: false, info: context }
    }

    /// Starts the stream: yields the request for the native subscription
    /// and the calls that bring it up, and passes the context on to the
    /// native side. To be called once, on a stream that was neither started
    /// nor stopped.
    pub fn start(&mut self) -> (startup: Startup)
        requires
            old(self)@.state == StreamState::Created,
        ensures
            final(self)@ == (StreamView { state: StreamState::Started, ..old(self)@ }),
            startup.request.path@ == old(self)@.path,
            startup.request.since_when == old(self)@.since_when,
            startup.request.latency_millis == LATENCY_MILLIS,
            startup.request.flags == SUBSCRIPTION_FLAGS,
            startup.request.context == old(self)@.context,
            startup.calls@ == self::startup(),
    {
        self.subscribed = true;
        let request = SubscriptionRequest {
            path: self.path.clone(),
            since_when: self.since_when,
            latency_millis: LATENCY_MILLIS,
            flags: SUBSCRIPTION_FLAGS,
            context: self.info,
        };
        let mut calls: Vec<NativeCall> = Vec::new();
        calls.push(NativeCall::CreateStream);
        calls.push(NativeCall::AttachQueue);
        calls.push(NativeCall::StartStream);
        assert(calls@ =~= self::startup());
        Startup { request, calls }
    }

    /// Stops the stream and yields the native calls that take it down. The
    /// first stop yields the teardown of the state it finds; every later
    /// one finds the stream stopped, yields nothing and changes nothing.
    pub fn stop(&mut self) -> (calls: Vec<NativeCall>)
        ensures
            final(self)@ == (StreamView { state: StreamState::Stopped, ..old(self)@ }),
            calls@ == teardown(old(self)@.state),
    {
        let found = self.state();
        self.closed = true;
        teardown_calls(found)
    }

    /// Where the stream stands in its life.
    pub fn state(&self) -> (state: StreamState)
        ensures
            state == self@.state,
    {
        if self.closed {
            StreamState::Stopped
        } else if self.subscribed {
            StreamState::Started
        } else {
            StreamState::Created
        }
    }

    /// The watched path.
    pub fn path(&self) -> (path: &String)
        ensures
            path@ == self@.path,
    {
        &self.path
    }

    /// The event id from which the stream reports.
    pub fn since_when(&self) -> (id: u64)
        ensures
            id == self@.since_when,
    {
        self.since_when
    }

    /// The handle of the stream's callback context.
    pub fn context(&self) -> (handle: usize)
        ensures
            handle == self@.context,
    {
        self.info
    }
}

/// Stopping is idempotent: a stopped stream has nothing to take down, so a
/// stop after a stop yields no call.
pub proof fn lemma_stopped_is_absorbing()
    ensures
        teardown(StreamState::Stopped) == Seq::<NativeCall>::empty(),
        forall|count: nat| calls_of_stops(StreamState::Stopped, count) == Seq::<NativeCall>::empty(),
{
    assert forall|count: nat| calls_of_stops(StreamState::Stopped, count) == Seq::<
        NativeCall,
    >::empty() by {
        lemma_stops_of_stopped(count);
    }
}

/// Any number of stops of a stopped stream yields no call.
pub proof fn lemma_stops_of_stopped(count: nat)
    ensures
        calls_of_stops(StreamState::Stopped, count) == Seq::<NativeCall>::empty(),
    decreases count,
{
    if count > 0 {
        lemma_stops_of_stopped((count - 1) as nat);
        assert(calls_of_stops(StreamState::Stopped, count) =~= Seq::<NativeCall>::empty());
    }
}

/// The teardown happens once: however many stops follow one another, their
/// calls together are the teardown of the state that the first one found.
pub proof fn lemma_teardown_happens_once(state: StreamState, count: nat)
    requires
        count >= 1,
    ensures
        calls_of_stops(state, count) == teardown(state),
{
    lemma_stops_of_stopped((count - 1) as nat);
    assert(calls_of_stops(state, count) =~= teardown(state));
}

/// Whichever way a stream reaches `Stopped`, its queue is released once.
pub proof fn lemma_queue_released_once(state: StreamState)
    requires
        state != StreamState::Stopped,
    ensures
        occurrences(teardown(state), NativeCall::ReleaseQueue) == 1,
{
    reveal_with_fuel(Seq::filter, 6);
    let released = |c: NativeCall| c == NativeCall::ReleaseQueue;
    match state {
        StreamState::Created => {
            assert(teardown(state).filter(released) =~= seq![NativeCall::ReleaseQueue]);
        },
        StreamState::Started => {
            assert(teardown(state).filter(released) =~= seq![NativeCall::ReleaseQueue]);
        },
        StreamState::Stopped => {},
    }
}

/// The queue is released only after the subscription was stopped, detached
/// and invalidated: no callback in flight finds its queue gone.
pub proof fn lemma_queue_outlives_subscription(state: StreamState, i: int, j: int)
    requires
        0 <= i < teardown(state).len(),
        0 <= j < teardown(state).len(),
        teardown(state)[i] == NativeCall::ReleaseQueue,
        teardown(state)[j] == NativeCall::StopStream || teardown(state)[j]
            == NativeCall::DetachQueue || teardown(state)[j] == NativeCall::InvalidateStream,
    ensures
        j < i,
{
}

/// The context is let go of once: by the native side, when a started stream
/// releases its subscription, or by the stream itself, when it was never
/// started. Never by both, and never by neither.
pub proof fn lemma_context_reclaimed_once(state: StreamState)
    requires
        state != StreamState::Stopped,
    ensures
        occurrences(teardown(state), NativeCall::ReleaseStream) + occurrences(
            teardown(state),
            NativeCall::ReclaimContext,
        ) == 1,
        state == StreamState::Started <==> occurrences(teardown(state), NativeCall::ReleaseStream)
            == 1,
{
    reveal_with_fuel(Seq::filter, 6);
    let native = |c: NativeCall| c == NativeCall::ReleaseStream;
    let own = |c: NativeCall| c == NativeCall::ReclaimContext;
    match state {
        StreamState::Created => {
            assert(teardown(state).filter(native) =~= Seq::<NativeCall>::empty());
            assert(teardown(state).filter(own) =~= seq![NativeCall::ReclaimContext]);
        },
        StreamState::Started => {
            assert(teardown(state).filter(native) =~= seq![NativeCall::ReleaseStream]);
            assert(teardown(state).filter(own) =~= Seq::<NativeCall>::empty());
        },
        StreamState::Stopped => {},
    }
}

} // verus!
