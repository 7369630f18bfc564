use vstd::prelude::*;

verus! {

/// Which of the two slots holds the object: the object itself while idle, or
/// the operation derived from it while that operation is in flight.
pub enum Phase<T, F> {
    Idle(T),
    InFlight(F),
}

/// Holds an object and, once armed, the operation computed from it by the
/// getter. The object moves into the operation and comes back only when the
/// operation settles, so the object outlives every operation derived from it.
pub struct UnderlyingObjectFuture<T, F, G> {
    left: Option<T>,
    right: Option<F>,
    getter: G,
}

impl<T, F, G: Fn(T) -> F> UnderlyingObjectFuture<T, F, G> {
    /// Exactly one slot is occupied, and the getter accepts every object.
    pub closed spec fn wf(&self) -> bool {
        &&& self.left.is_some() != self.right.is_some()
        &&& forall|t: T| call_requires(self.getter, (t,))
    }

    /// The occupied slot.
    pub closed spec fn phase(&self) -> Phase<T, F> {
        match self.left {
            Some(t) => Phase::Idle(t),
            None => Phase::InFlight(self.right.unwrap()),
        }
    }

    /// The getter given at construction.
    pub closed spec fn getter(&self) -> G {
        self.getter
    }

    /// Starts idle, holding `object`.
    pub fn new(object: T, getter: G) -> (r: Self)
        requires
            forall|t: T| call_requires(getter, (t,)),
        ensures
            r.wf(),
            r.phase() == Phase::<T, F>::Idle(object),
            r.getter() == getter,
    {
        UnderlyingObjectFuture { left: Some(object), right: None, getter }
    }

    /// Hands out the in-flight operation. When idle, the object is first moved
    /// into a fresh operation made by the getter; when already in flight, the
    /// same operation is handed out again and the getter is not called.
    pub fn take(&mut self) -> (op: &mut F)
        requires
            old(self).wf(),
        ensures
            final(self).wf(),
            final(self).getter() == old(self).getter(),
            final(self).phase() == Phase::<T, F>::InFlight(*final(op)),
            match old(self).phase() {
                Phase::Idle(t) => call_ensures(old(self).getter(), (t,), *op),
                Phase::InFlight(f) => *op == f,
            },
    {
        if let Some(left) = self.left.take() {
            self.right = Some((self.getter)(left));
        }
        match &mut self.right {
            Some(op) => op,
            None => unreached(),
        }
    }

    /// Puts `left` back as the held object and drops the operation, if any.
    pub fn reset(&mut self, left: T)
        requires
            old(self).wf(),
        ensures
            final(self).wf(),
            final(self).getter() == old(self).getter(),
            final(self).phase() == Phase::<T, F>::Idle(left),
    {
        self.left = Some(left);
        self.right = None;
    }
}

} // verus!
