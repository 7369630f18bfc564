use vstd::prelude::*;

verus! {

/// The answer of one non-blocking check: either not settled yet, or settled
/// with a value.
#[derive(Debug, PartialEq, Eq)]
pub enum Polled<V> {
    Pending,
    Ready(V),
}

impl<V> Polled<V> {
    /// Whether the check found the work settled.
    pub fn is_ready(&self) -> (r: bool)
        ensures
            r == (self is Ready),
    {
        match self {
            Polled::Pending => false,
            Polled::Ready(_) => true,
        }
    }
}

} // verus!
