use vstd::prelude::*;

use crate::polled::Polled;
use crate::repeating::{answer, armed, settled, AdapterState, RepeatingFuture};
use crate::underlying::Phase;
use vstd::std_specs::convert::FromSpec;
use vstd::std_specs::convert::FromSpecImpl;

verus! {

/// The element a sequence yields for `outcome` when every result is an element.
pub open spec fn next_element<O, T>(outcome: Polled<(O, T)>) -> Polled<Option<O>> {
    match answer(outcome) {
        Polled::Pending => Polled::Pending,
        Polled::Ready(o) => Polled::Ready(Some(o)),
    }
}

/// The element a sequence yields for `outcome` when a failed result ends it.
pub open spec fn next_until_failure<V, E, T>(outcome: Polled<(Result<V, E>, T)>) -> Polled<Option<V>> {
    match answer(outcome) {
        Polled::Pending => Polled::Pending,
        Polled::Ready(Ok(v)) => Polled::Ready(Some(v)),
        Polled::Ready(Err(_)) => Polled::Ready(None),
    }
}

/// An endless sequence of the results of a repeating operation: every result,
/// a failure included, is one element, and the sequence never ends by itself.
pub struct FutureStream<T, O, F, G> {
    future: RepeatingFuture<T, O, F, G>,
}

impl<T, O, F, G: Fn(T) -> F> FutureStream<T, O, F, G> {
    pub closed spec fn view(&self) -> AdapterState<T, O, F> {
        self.future@
    }

    pub closed spec fn wf(&self) -> bool {
        self.future.wf()
    }

    /// The getter given at construction.
    pub closed spec fn getter(&self) -> G {
        self.future.getter()
    }

    /// Starts idle with `item`; no element has been produced yet.
    pub fn new(item: T, getter: G) -> (r: Self)
        requires
            forall|t: T| call_requires(getter, (t,)),
        ensures
            r.wf(),
            r.getter() == getter,
            r@ == (AdapterState::<T, O, F> {
                phase: Phase::Idle(item),
                started: 0,
                results: seq![],
            }),
    {
        FutureStream { future: RepeatingFuture::new(item, getter) }
    }

    /// Streams the results of an existing repeating operation, in its state.
    pub fn from_future(future: RepeatingFuture<T, O, F, G>) -> (r: Self)
        requires
            future.wf(),
        ensures
            r.wf(),
            r.getter() == future.getter(),
            r@ == future@,
    {
        FutureStream { future }
    }

    /// The operation to poll for the next element; see
    /// [`RepeatingFuture::operation`].
    pub fn operation(&mut self) -> (op: &mut F)
        requires
            old(self).wf(),
        ensures
            final(self).wf(),
            final(self).getter() == old(self).getter(),
            final(self)@ == armed(old(self)@, *final(op)),
            match old(self)@.phase {
                Phase::Idle(t) => call_ensures(old(self).getter(), (t,), *op),
                Phase::InFlight(f) => *op == f,
            },
    {
        self.future.operation()
    }

    /// The next element, for the outcome of polling the in-flight operation:
    /// pending while it is pending, and otherwise its result. The sequence
    /// never answers that it has ended.
    pub fn poll_next(&mut self, outcome: Polled<(O, T)>) -> (r: Polled<Option<O>>)
        requires
            old(self).wf(),
            old(self)@.phase is InFlight,
        ensures
            final(self).wf(),
            final(self).getter() == old(self).getter(),
            final(self)@ == settled(old(self)@, outcome),
            r == next_element(outcome),
            r != Polled::<Option<O>>::Ready(None),
    {
        match self.future.poll(outcome) {
            Polled::Pending => Polled::Pending,
            Polled::Ready(result) => Polled::Ready(Some(result)),
        }
    }
}

impl<T, O, F, G: Fn(T) -> F> From<RepeatingFuture<T, O, F, G>> for FutureStream<T, O, F, G> {
    /// Streams the results of an existing repeating operation, in its state.
    fn from(future: RepeatingFuture<T, O, F, G>) -> (r: Self) {
        FutureStream { future }
    }
}

impl<T, O, F, G: Fn(T) -> F> FromSpecImpl<RepeatingFuture<T, O, F, G>> for FutureStream<T, O, F, G> {
    open spec fn obeys_from_spec() -> bool {
        true
    }

    closed spec fn from_spec(future: RepeatingFuture<T, O, F, G>) -> Self {
        FutureStream { future }
    }
}

/// Converting a repeating operation into a stream with `From` keeps its state
/// and its getter, and a valid operation gives a valid stream.
pub proof fn lemma_from_keeps_state<T, O, F, G: Fn(T) -> F>(future: RepeatingFuture<T, O, F, G>)
    ensures
        <FutureStream<T, O, F, G> as FromSpec<RepeatingFuture<T, O, F, G>>>::obeys_from_spec(),
        <FutureStream<T, O, F, G> as FromSpec<RepeatingFuture<T, O, F, G>>>::from_spec(future)@
            == future@,
        <FutureStream<T, O, F, G> as FromSpec<RepeatingFuture<T, O, F, G>>>::from_spec(
            future,
        ).getter() == future.getter(),
        future.wf() ==> <FutureStream<T, O, F, G> as FromSpec<
            RepeatingFuture<T, O, F, G>,
        >>::from_spec(future).wf(),
{
}

/// A sequence of the successful results of a repeating operation whose results
/// are `Result`s: the first failure ends it, and it stays ended.
pub struct FallibleStream<T, V, E, F, G> {
    future: RepeatingFuture<T, Result<V, E>, F, G>,
    ended: bool,
}

impl<T, V, E, F, G: Fn(T) -> F> FallibleStream<T, V, E, F, G> {
    pub closed spec fn view(&self) -> AdapterState<T, Result<V, E>, F> {
        self.future@
    }

    pub closed spec fn wf(&self) -> bool {
        self.future.wf()
    }

    /// The getter given at construction.
    pub closed spec fn getter(&self) -> G {
        self.future.getter()
    }

    /// Whether a failure has ended the sequence.
    pub closed spec fn ended(&self) -> bool {
        self.ended
    }

    /// Starts idle with `item`, not ended.
    pub fn new(item: T, getter: G) -> (r: Self)
        requires
            forall|t: T| call_requires(getter, (t,)),
        ensures
            r.wf(),
            !r.ended(),
            r.getter() == getter,
            r@ == (AdapterState::<T, Result<V, E>, F> {
                phase: Phase::Idle(item),
                started: 0,
                results: seq![],
            }),
    {
        FallibleStream { future: RepeatingFuture::new(item, getter), ended: false }
    }

    /// Streams the successes of an existing repeating operation, in its state.
    pub fn from_future(future: RepeatingFuture<T, Result<V, E>, F, G>) -> (r: Self)
        requires
            future.wf(),
        ensures
            r.wf(),
            !r.ended(),
            r.getter() == future.getter(),
            r@ == future@,
    {
        FallibleStream { future, ended: false }
    }

    /// Whether a failure has ended the sequence.
    pub fn is_ended(&self) -> (r: bool)
        ensures
            r == self.ended(),
    {
        self.ended
    }

    /// The operation to poll for the next element, while the sequence has not
    /// ended; see [`RepeatingFuture::operation`].
    pub fn operation(&mut self) -> (op: &mut F)
        requires
            old(self).wf(),
            !old(self).ended(),
        ensures
            final(self).wf(),
            !final(self).ended(),
            final(self).getter() == old(self).getter(),
            final(self)@ == armed(old(self)@, *final(op)),
            match old(self)@.phase {
                Phase::Idle(t) => call_ensures(old(self).getter(), (t,), *op),
                Phase::InFlight(f) => *op == f,
            },
    {
        self.future.operation()
    }

    /// The next element, for the outcome of polling the in-flight operation:
    /// pending while it is pending, the value of a success, and the end of the
    /// sequence for a failure, after which the sequence stays ended.
    pub fn poll_next(&mut self, outcome: Polled<(Result<V, E>, T)>) -> (r: Polled<Option<V>>)
        requires
            old(self).wf(),
            !old(self).ended(),
            old(self)@.phase is InFlight,
        ensures
            final(self).wf(),
            final(self).getter() == old(self).getter(),
            final(self)@ == settled(old(self)@, outcome),
            r == next_until_failure(outcome),
            final(self).ended() == (r == Polled::<Option<V>>::Ready(None)),
    {
        match self.future.poll(outcome) {
            Polled::Pending => Polled::Pending,
            Polled::Ready(Ok(value)) => Polled::Ready(Some(value)),
            Polled::Ready(Err(_)) => {
                self.ended = true;
                Polled::Ready(None)
            },
        }
    }

    /// What an ended sequence answers to every further request: its end, with
    /// nothing driven.
    pub fn poll_ended(&self) -> (r: Polled<Option<V>>)
        requires
            self.ended(),
        ensures
            r == Polled::<Option<V>>::Ready(None),
    {
        Polled::Ready(None)
    }
}

} // verus!
