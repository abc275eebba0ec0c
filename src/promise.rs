//! The state of an operation that runs elsewhere.
use vstd::prelude::*;

use crate::data::Data;

verus! {

/// The outcome of an asynchronous operation: not started, in flight with a
/// request token `D`, succeeded with a result `T`, or failed with an error `E`.
#[derive(Clone, Debug, PartialEq, Eq)]
pub enum Promise<T, D, E> {
    Empty,
    Deferred(D),
    Resolved(T),
    Rejected(E),
}

impl<T: Data, D: Data, E: Data> Data for Promise<T, D, E> {
    fn duplicate(&self) -> (r: Self) {
        match self {
            Promise::Empty => Promise::Empty,
            Promise::Deferred(d) => Promise::Deferred(d.duplicate()),
            Promise::Resolved(t) => Promise::Resolved(t.duplicate()),
            Promise::Rejected(e) => Promise::Rejected(e.duplicate()),
        }
    }
}

} // verus!
