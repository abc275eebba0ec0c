//! Values that can be copied exactly.
use vstd::prelude::*;

verus! {

/// A value with an exact copy: what a lens hands out when it reads.
pub trait Data: Sized {
    /// A fresh value equal to `self`.
    fn duplicate(&self) -> (r: Self)
        ensures
            r == *self,
    ;
}

impl Data for () {
    fn duplicate(&self) -> (r: Self) {
        ()
    }
}

impl Data for bool {
    fn duplicate(&self) -> (r: Self) {
        *self
    }
}

impl Data for char {
    fn duplicate(&self) -> (r: Self) {
        *self
    }
}

impl Data for u8 {
    fn duplicate(&self) -> (r: Self) {
        *self
    }
}

impl Data for u32 {
    fn duplicate(&self) -> (r: Self) {
        *self
    }
}

impl Data for u64 {
    fn duplicate(&self) -> (r: Self) {
        *self
    }
}

impl Data for i32 {
    fn duplicate(&self) -> (r: Self) {
        *self
    }
}

impl Data for i64 {
    fn duplicate(&self) -> (r: Self) {
        *self
    }
}

impl Data for String {
    fn duplicate(&self) -> (r: Self) {
        self.clone()
    }
}

impl<A: Data> Data for Option<A> {
    fn duplicate(&self) -> (r: Self) {
        match self {
            Some(a) => Some(a.duplicate()),
            None => None,
        }
    }
}

} // verus!
