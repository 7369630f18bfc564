use vstd::prelude::*;

use crate::polled::Polled;
use crate::underlying::{Phase, UnderlyingObjectFuture};

verus! {

/// What an adapter is, as far as its users can tell: which slot holds the
/// object, how many operations the getter has made, and every result handed
/// out so far, oldest first.
pub struct AdapterState<T, O, F> {
    pub phase: Phase<T, F>,
    pub started: nat,
    pub results: Seq<O>,
}

/// One operation is in flight for every cycle started and not yet settled:
/// exactly one while in flight, none while idle.
pub open spec fn accounted<T, O, F>(s: AdapterState<T, O, F>) -> bool {
    s.started == s.results.len() + if s.phase is InFlight { 1nat } else { 0nat }
}

/// The state after the operation is handed to the driver, which leaves `op`
/// in the operation slot: a new cycle starts only when idle.
pub open spec fn armed<T, O, F>(s: AdapterState<T, O, F>, op: F) -> AdapterState<T, O, F> {
    AdapterState {
        phase: Phase::InFlight(op),
        started: if s.phase is Idle { s.started + 1 } else { s.started },
        results: s.results,
    }
}

/// The state after the driver reports `outcome`: nothing changes while the
/// operation is pending; once it settles with a result and the object, the
/// object returns to its slot and the result is appended.
pub open spec fn settled<T, O, F>(s: AdapterState<T, O, F>, outcome: Polled<(O, T)>) -> AdapterState<T, O, F> {
    match outcome {
        Polled::Pending => s,
        Polled::Ready((o, t)) => AdapterState {
            phase: Phase::Idle(t),
            started: s.started,
            results: s.results.push(o),
        },
    }
}

/// What the adapter answers for `outcome`: the settled result, or pending.
pub open spec fn answer<O, T>(outcome: Polled<(O, T)>) -> Polled<O> {
    match outcome {
        Polled::Pending => Polled::Pending,
        Polled::Ready((o, _)) => Polled::Ready(o),
    }
}

/// One drive: arm (leaving `op` in flight), then settle with `outcome`.
pub open spec fn driven<T, O, F>(s: AdapterState<T, O, F>, op: F, outcome: Polled<(O, T)>) -> AdapterState<T, O, F> {
    settled(armed(s, op), outcome)
}

/// The state after a run of drives, each given as the operation left in flight
/// and the outcome reported for it.
pub open spec fn run<T, O, F>(s: AdapterState<T, O, F>, drives: Seq<(F, Polled<(O, T)>)>) -> AdapterState<T, O, F>
    decreases drives.len(),
{
    if drives.len() == 0 {
        s
    } else {
        run(driven(s, drives[0].0, drives[0].1), drives.drop_first())
    }
}

/// The results that a run of drives settles with, in the order they settle.
pub open spec fn settled_results<T, O, F>(drives: Seq<(F, Polled<(O, T)>)>) -> Seq<O>
    decreases drives.len(),
{
    if drives.len() == 0 {
        Seq::empty()
    } else {
        let rest = settled_results(drives.drop_first());
        match drives[0].1 {
            Polled::Pending => rest,
            Polled::Ready((o, _)) => seq![o].add(rest),
        }
    }
}

/// Whether every outcome of a run is pending.
pub open spec fn all_pending<T, O, F>(drives: Seq<(F, Polled<(O, T)>)>) -> bool {
    forall|i: int| 0 <= i < drives.len() ==> drives[i].1 is Pending
}

/// Every run of drives keeps the accounting: the object is handed out once per
/// cycle and comes back once per result, so after any run the operations
/// started equal the results produced, plus one while an operation is in
/// flight.
pub proof fn lemma_ownership_round_trips<T, O, F>(
    s: AdapterState<T, O, F>,
    drives: Seq<(F, Polled<(O, T)>)>,
)
    requires
        accounted(s),
    ensures
        accounted(run(s, drives)),
        run(s, drives).results.len() == s.results.len() + settled_results(drives).len(),
    decreases drives.len(),
{
    if drives.len() > 0 {
        lemma_ownership_round_trips(driven(s, drives[0].0, drives[0].1), drives.drop_first());
    }
}

/// Results come out in the order their operations settle: a run appends
/// exactly the settled results, in order, to those produced before it.
pub proof fn lemma_results_in_settlement_order<T, O, F>(
    s: AdapterState<T, O, F>,
    drives: Seq<(F, Polled<(O, T)>)>,
)
    ensures
        run(s, drives).results == s.results + settled_results(drives),
    decreases drives.len(),
{
    if drives.len() == 0 {
        assert(s.results + Seq::<O>::empty() =~= s.results);
    } else {
        let next = driven(s, drives[0].0, drives[0].1);
        lemma_results_in_settlement_order(next, drives.drop_first());
        match drives[0].1 {
            Polled::Pending => {},
            Polled::Ready((o, _)) => {
                assert(s.results.push(o) + settled_results(drives.drop_first()) =~= s.results
                    + seq![o].add(settled_results(drives.drop_first())));
            },
        }
    }
}

/// Polling an in-flight operation any number of times before it settles starts
/// no new operation, produces nothing and keeps the object out of its slot.
pub proof fn lemma_pending_polls_start_nothing<T, O, F>(
    s: AdapterState<T, O, F>,
    drives: Seq<(F, Polled<(O, T)>)>,
)
    requires
        s.phase is InFlight,
        all_pending(drives),
    ensures
        run(s, drives).started == s.started,
        run(s, drives).results == s.results,
        run(s, drives).phase is InFlight,
    decreases drives.len(),
{
    if drives.len() > 0 {
        let rest = drives.drop_first();
        assert(drives[0].1 is Pending);
        assert forall|i: int| 0 <= i < rest.len() implies rest[i].1 is Pending by {
            assert(rest[i] == drives[i + 1]);
        }
        lemma_pending_polls_start_nothing(driven(s, drives[0].0, drives[0].1), rest);
    }
}

/// An operation that can be awaited over and over: each time it settles it
/// yields one result, takes the object back and is ready to call the getter
/// again on the next drive.
pub struct RepeatingFuture<T, O, F, G> {
    owned_future: UnderlyingObjectFuture<T, F, G>,
    started: Ghost<nat>,
    results: Ghost<Seq<O>>,
}

impl<T, O, F, G: Fn(T) -> F> RepeatingFuture<T, O, F, G> {
    pub closed spec fn view(&self) -> AdapterState<T, O, F> {
        AdapterState {
            phase: self.owned_future.phase(),
            started: self.started@,
            results: self.results@,
        }
    }

    /// The slots are consistent and every started cycle is accounted for.
    pub closed spec fn wf(&self) -> bool {
        &&& self.owned_future.wf()
        &&& accounted(self@)
    }

    /// The getter given at construction.
    pub closed spec fn getter(&self) -> G {
        self.owned_future.getter()
    }

    /// A valid adapter has started one operation per result it produced, plus
    /// one while an operation is in flight.
    pub proof fn lemma_wf_accounted(&self)
        requires
            self.wf(),
        ensures
            accounted(self@),
    {
    }

    /// Starts idle with `item`; nothing has been started or produced yet.
    pub fn new(item: T, getter: G) -> (r: Self)
        requires
            forall|t: T| call_requires(getter, (t,)),
        ensures
            r.wf(),
            accounted(r@),
            r@ == (AdapterState::<T, O, F> { phase: Phase::Idle(item), started: 0, results: seq![] }),
            r.getter() == getter,
    {
        RepeatingFuture {
            owned_future: UnderlyingObjectFuture::new(item, getter),
            started: Ghost(0),
            results: Ghost(Seq::empty()),
        }
    }

    /// Hands the in-flight operation to the driver, which polls it once and
    /// reports the outcome to `poll`. When idle the getter is called on the
    /// held object first; when in flight the same operation comes back and no
    /// new one is started.
    pub fn operation(&mut self) -> (op: &mut F)
        requires
            old(self).wf(),
        ensures
            final(self).wf(),
            accounted(final(self)@),
            final(self).getter() == old(self).getter(),
            final(self)@ == armed(old(self)@, *final(op)),
            match old(self)@.phase {
                Phase::Idle(t) => call_ensures(old(self).getter(), (t,), *op),
                Phase::InFlight(f) => *op == f,
            },
    {
        let ghost was_idle = self@.phase is Idle;
        proof {
            if was_idle {
                self.started@ = self.started@ + 1;
            }
        }
        self.owned_future.take()
    }

    /// Takes the outcome of polling the in-flight operation. While it is
    /// pending nothing changes; once it settles the object goes back to its
    /// slot and the result is handed out.
    pub fn poll(&mut self, outcome: Polled<(O, T)>) -> (r: Polled<O>)
        requires
            old(self).wf(),
            old(self)@.phase is InFlight,
        ensures
            final(self).wf(),
            accounted(final(self)@),
            final(self).getter() == old(self).getter(),
            final(self)@ == settled(old(self)@, outcome),
            r == answer(outcome),
    {
        match outcome {
            Polled::Pending => Polled::Pending,
            Polled::Ready((result, item)) => {
                self.owned_future.reset(item);
                proof {
                    self.results@ = self.results@.push(result);
                }
                Polled::Ready(result)
            },
        }
    }
}

} // verus!
