//! Lenses: a read of a slice of a state, and a write that puts it back.
use vstd::prelude::*;

use crate::data::Data;

verus! {

/// A lens from a state `S` to a slice `V` of it.
///
/// `spec_get` and `spec_put` are the mathematical read and write; `get` and
/// `put` compute them.
pub trait Lens<S, V>: Sized {
    /// The slice that a read of `s` gives.
    spec fn spec_get(&self, s: S) -> V;

    /// The state that writing `v` into `s` gives.
    spec fn spec_put(&self, s: S, v: V) -> S;

    /// Reads the slice out of `s`.
    fn get(&self, s: &S) -> (r: V)
        ensures
            r == self.spec_get(*s),
    ;

    /// Writes `v` into `s` in place.
    fn put(&self, s: &mut S, v: V)
        ensures
            *final(s) == self.spec_put(*old(s), v),
    ;
}

/// Writing back what was read leaves the state as it was.
pub open spec fn get_put<S, V, L: Lens<S, V>>(l: L) -> bool {
    forall|s: S| #[trigger] l.spec_put(s, l.spec_get(s)) == s
}

/// Reading after a write gives what was written.
pub open spec fn put_get<S, V, L: Lens<S, V>>(l: L) -> bool {
    forall|s: S, v: V| #[trigger] l.spec_get(l.spec_put(s, v)) == v
}

/// Both lens laws hold.
pub open spec fn lawful<S, V, L: Lens<S, V>>(l: L) -> bool {
    get_put(l) && put_get(l)
}

/// A write through `w` never changes what `r` reads.
pub open spec fn preserves<S, A, B, LR: Lens<S, A>, LW: Lens<S, B>>(r: LR, w: LW) -> bool {
    forall|s: S, v: B| #[trigger] r.spec_get(w.spec_put(s, v)) == r.spec_get(s)
}

/// Two lenses have the same read and the same write.
pub open spec fn same_lens<S, V, L1: Lens<S, V>, L2: Lens<S, V>>(l1: L1, l2: L2) -> bool {
    &&& forall|s: S| #[trigger] l1.spec_get(s) == l2.spec_get(s)
    &&& forall|s: S, v: V| #[trigger] l1.spec_put(s, v) == l2.spec_put(s, v)
}

/// The lens whose slice is the whole state.
pub struct Identity;

impl<S: Data> Lens<S, S> for Identity {
    open spec fn spec_get(&self, s: S) -> S {
        s
    }

    open spec fn spec_put(&self, s: S, v: S) -> S {
        v
    }

    fn get(&self, s: &S) -> (r: S) {
        s.duplicate()
    }

    fn put(&self, s: &mut S, v: S) {
        *s = v;
    }
}

/// The identity lens satisfies both laws.
pub proof fn lemma_identity_lawful<S: Data>()
    ensures
        lawful::<S, S, Identity>(Identity),
{
}

/// `left` followed by `right`: a lens from `S` through `U` to `V`.
pub struct Then<LA, LB, U> {
    pub left: LA,
    pub right: LB,
    pub mid: core::marker::PhantomData<U>,
}

impl<LA, LB, U> Then<LA, LB, U> {
    /// The composition of `left` and then `right`.
    pub fn new(left: LA, right: LB) -> (r: Self)
        ensures
            r.left == left,
            r.right == right,
    {
        Then { left, right, mid: core::marker::PhantomData }
    }
}

impl<S, U, V, LA: Lens<S, U>, LB: Lens<U, V>> Lens<S, V> for Then<LA, LB, U> {
    open spec fn spec_get(&self, s: S) -> V {
        self.right.spec_get(self.left.spec_get(s))
    }

    open spec fn spec_put(&self, s: S, v: V) -> S {
        self.left.spec_put(s, self.right.spec_put(self.left.spec_get(s), v))
    }

    fn get(&self, s: &S) -> (r: V) {
        let u = self.left.get(s);
        self.right.get(&u)
    }

    fn put(&self, s: &mut S, v: V) {
        let mut u = self.left.get(s);
        self.right.put(&mut u, v);
        self.left.put(s, u);
    }
}

/// Composing two lawful lenses gives a lawful lens.
pub proof fn lemma_then_lawful<S, U, V, LA: Lens<S, U>, LB: Lens<U, V>>(left: LA, right: LB)
    requires
        lawful(left),
        lawful(right),
    ensures
        lawful::<S, V, Then<LA, LB, U>>(
            Then { left, right, mid: core::marker::PhantomData },
        ),
{
    let t = Then::<LA, LB, U> { left, right, mid: core::marker::PhantomData };
    assert forall|s: S| #[trigger] t.spec_put(s, t.spec_get(s)) == s by {
        let u = left.spec_get(s);
        assert(right.spec_put(u, right.spec_get(u)) == u);
        assert(left.spec_put(s, left.spec_get(s)) == s);
    }
    assert forall|s: S, v: V| #[trigger] t.spec_get(t.spec_put(s, v)) == v by {
        let u2 = right.spec_put(left.spec_get(s), v);
        assert(left.spec_get(left.spec_put(s, u2)) == u2);
        assert(right.spec_get(u2) == v);
    }
}

} // verus!
