//! A value paired with a context, and the lenses that build and take apart
//! such pairs.
use vstd::prelude::*;

use core::marker::PhantomData;

use crate::data::Data;
use crate::lens::Lens;
use crate::promise::Promise;

verus! {

/// A payload `data` together with the context `ctx` it is seen in.
#[derive(Clone, Debug, PartialEq, Eq)]
pub struct Ctx<C, T> {
    pub ctx: C,
    pub data: T,
}

impl<C: Data, T: Data> Data for Ctx<C, T> {
    fn duplicate(&self) -> (r: Self) {
        Ctx { ctx: self.ctx.duplicate(), data: self.data.duplicate() }
    }
}

/// The lens that reads a `Ctx` from one state through two lenses: `cl` for the
/// context and `tl` for the payload.
pub struct CtxMake<CL, TL> {
    pub cl: CL,
    pub tl: TL,
}

/// The lens onto the context of a `Ctx`.
pub struct CtxField<C, T> {
    pub marker: PhantomData<(C, T)>,
}

/// The lens onto the payload of a `Ctx`.
pub struct DataField<C, T> {
    pub marker: PhantomData<(C, T)>,
}

/// The lens that sends the payload of a `Ctx` through `map` and keeps the
/// context beside it.
pub struct CtxMap<M, C> {
    pub map: M,
    pub marker: PhantomData<C>,
}

/// The lens that moves the context of a `Ctx` around a `Promise` into the
/// case of the promise that is present.
pub struct InPromise<C, A, B, E> {
    pub marker: PhantomData<(C, A, B, E)>,
}

impl<C: Data, T: Data> Ctx<C, T> {
    /// Pairs the context `c` with the payload `t`.
    pub fn new(c: C, t: T) -> (r: Self)
        ensures
            r.ctx == c,
            r.data == t,
    {
        Ctx { ctx: c, data: t }
    }

    /// The lens that reads the context through `cl` and the payload through
    /// `tl`, and writes the context first and then the payload.
    pub fn make<S, CL: Lens<S, C>, TL: Lens<S, T>>(cl: CL, tl: TL) -> (r: CtxMake<CL, TL>)
        ensures
            r.cl == cl,
            r.tl == tl,
            forall|s: S| #[trigger] r.spec_get(s) == (Ctx { ctx: cl.spec_get(s), data: tl.spec_get(s) }),
            forall|s: S, v: Ctx<C, T>| #[trigger] r.spec_put(s, v) == tl.spec_put(cl.spec_put(s, v.ctx), v.data),
    {
        CtxMake { cl, tl }
    }

    /// The lens onto the context.
    pub fn ctx() -> (r: CtxField<C, T>)
        ensures
            forall|s: Ctx<C, T>| #[trigger] r.spec_get(s) == s.ctx,
            forall|s: Ctx<C, T>, v: C| #[trigger] r.spec_put(s, v) == (Ctx { ctx: v, data: s.data }),
    {
        CtxField { marker: PhantomData }
    }

    /// The lens onto the payload.
    pub fn data() -> (r: DataField<C, T>)
        ensures
            forall|s: Ctx<C, T>| #[trigger] r.spec_get(s) == s.data,
            forall|s: Ctx<C, T>, v: T| #[trigger] r.spec_put(s, v) == (Ctx { ctx: s.ctx, data: v }),
    {
        DataField { marker: PhantomData }
    }

    /// The lens that applies `map` to the payload and carries the context
    /// along; a write takes the context from the value written.
    pub fn map<U, M: Lens<T, U>>(map: M) -> (r: CtxMap<M, C>)
        ensures
            r.map == map,
            forall|s: Ctx<C, T>| #[trigger] r.spec_get(s) == (Ctx { ctx: s.ctx, data: map.spec_get(s.data) }),
            forall|s: Ctx<C, T>, v: Ctx<C, U>| #[trigger] r.spec_put(s, v) == (Ctx { ctx: v.ctx, data: map.spec_put(s.data, v.data) }),
    {
        CtxMap { map, marker: PhantomData }
    }
}

impl<C, T, S, CL: Lens<S, C>, TL: Lens<S, T>> Lens<S, Ctx<C, T>> for CtxMake<CL, TL> {
    open spec fn spec_get(&self, s: S) -> Ctx<C, T> {
        Ctx { ctx: self.cl.spec_get(s), data: self.tl.spec_get(s) }
    }

    open spec fn spec_put(&self, s: S, v: Ctx<C, T>) -> S {
        self.tl.spec_put(self.cl.spec_put(s, v.ctx), v.data)
    }

    fn get(&self, s: &S) -> (r: Ctx<C, T>) {
        let c = self.cl.get(s);
        let t = self.tl.get(s);
        Ctx { ctx: c, data: t }
    }

    fn put(&self, s: &mut S, v: Ctx<C, T>) {
        let Ctx { ctx, data } = v;
        self.cl.put(s, ctx);
        self.tl.put(s, data);
    }
}

impl<C: Data, T> Lens<Ctx<C, T>, C> for CtxField<C, T> {
    open spec fn spec_get(&self, s: Ctx<C, T>) -> C {
        s.ctx
    }

    open spec fn spec_put(&self, s: Ctx<C, T>, v: C) -> Ctx<C, T> {
        Ctx { ctx: v, data: s.data }
    }

    fn get(&self, s: &Ctx<C, T>) -> (r: C) {
        s.ctx.duplicate()
    }

    fn put(&self, s: &mut Ctx<C, T>, v: C) {
        s.ctx = v;
    }
}

impl<C, T: Data> Lens<Ctx<C, T>, T> for DataField<C, T> {
    open spec fn spec_get(&self, s: Ctx<C, T>) -> T {
        s.data
    }

    open spec fn spec_put(&self, s: Ctx<C, T>, v: T) -> Ctx<C, T> {
        Ctx { ctx: s.ctx, data: v }
    }

    fn get(&self, s: &Ctx<C, T>) -> (r: T) {
        s.data.duplicate()
    }

    fn put(&self, s: &mut Ctx<C, T>, v: T) {
        s.data = v;
    }
}

impl<C: Data, T, U, M: Lens<T, U>> Lens<Ctx<C, T>, Ctx<C, U>> for CtxMap<M, C> {
    open spec fn spec_get(&self, s: Ctx<C, T>) -> Ctx<C, U> {
        Ctx { ctx: s.ctx, data: self.map.spec_get(s.data) }
    }

    open spec fn spec_put(&self, s: Ctx<C, T>, v: Ctx<C, U>) -> Ctx<C, T> {
        Ctx { ctx: v.ctx, data: self.map.spec_put(s.data, v.data) }
    }

    fn get(&self, s: &Ctx<C, T>) -> (r: Ctx<C, U>) {
        let u = self.map.get(&s.data);
        Ctx { ctx: s.ctx.duplicate(), data: u }
    }

    fn put(&self, s: &mut Ctx<C, T>, v: Ctx<C, U>) {
        let Ctx { ctx, data } = v;
        self.map.put(&mut s.data, data);
        s.ctx = ctx;
    }
}

impl<C: Data, A: Data, B: Data, E: Data> Ctx<C, Promise<A, B, E>> {
    /// The lens that moves the context into the case of the promise that is
    /// present. A read of `Empty` gives `Empty`; a write of `Empty` empties
    /// the promise and keeps the context, and a write of any other case sets
    /// both the context and the promise from the value written.
    pub fn in_promise() -> (r: InPromise<C, A, B, E>)
        ensures
            forall|s: Ctx<C, Promise<A, B, E>>| #[trigger] r.spec_get(s) == spread(s),
            forall|s: Ctx<C, Promise<A, B, E>>, v: Promise<Ctx<C, A>, Ctx<C, B>, Ctx<C, E>>| #[trigger] r.spec_put(s, v) == gather(s, v),
    {
        InPromise { marker: PhantomData }
    }
}

/// The promise of `s.data` with the context of `s` inside its case.
pub open spec fn spread<C, A, B, E>(s: Ctx<C, Promise<A, B, E>>) -> Promise<Ctx<C, A>, Ctx<C, B>, Ctx<C, E>> {
    match s.data {
        Promise::Empty => Promise::Empty,
        Promise::Deferred(b) => Promise::Deferred(Ctx { ctx: s.ctx, data: b }),
        Promise::Resolved(a) => Promise::Resolved(Ctx { ctx: s.ctx, data: a }),
        Promise::Rejected(e) => Promise::Rejected(Ctx { ctx: s.ctx, data: e }),
    }
}

/// `s` with its promise set to the case of `v`, and its context taken from
/// inside `v` unless `v` is `Empty`.
pub open spec fn gather<C, A, B, E>(
    s: Ctx<C, Promise<A, B, E>>,
    v: Promise<Ctx<C, A>, Ctx<C, B>, Ctx<C, E>>,
) -> Ctx<C, Promise<A, B, E>> {
    match v {
        Promise::Empty => Ctx { ctx: s.ctx, data: Promise::Empty },
        Promise::Deferred(p) => Ctx { ctx: p.ctx, data: Promise::Deferred(p.data) },
        Promise::Resolved(p) => Ctx { ctx: p.ctx, data: Promise::Resolved(p.data) },
        Promise::Rejected(p) => Ctx { ctx: p.ctx, data: Promise::Rejected(p.data) },
    }
}

impl<C: Data, A: Data, B: Data, E: Data> Lens<
    Ctx<C, Promise<A, B, E>>,
    Promise<Ctx<C, A>, Ctx<C, B>, Ctx<C, E>>,
> for InPromise<C, A, B, E> {
    open spec fn spec_get(&self, s: Ctx<C, Promise<A, B, E>>) -> Promise<Ctx<C, A>, Ctx<C, B>, Ctx<C, E>> {
        spread(s)
    }

    open spec fn spec_put(
        &self,
        s: Ctx<C, Promise<A, B, E>>,
        v: Promise<Ctx<C, A>, Ctx<C, B>, Ctx<C, E>>,
    ) -> Ctx<C, Promise<A, B, E>> {
        gather(s, v)
    }

    fn get(&self, s: &Ctx<C, Promise<A, B, E>>) -> (r: Promise<Ctx<C, A>, Ctx<C, B>, Ctx<C, E>>) {
        match &s.data {
            Promise::Empty => Promise::Empty,
            Promise::Resolved(res) => Promise::Resolved(Ctx { ctx: s.ctx.duplicate(), data: res.duplicate() }),
            Promise::Deferred(def) => Promise::Deferred(Ctx { ctx: s.ctx.duplicate(), data: def.duplicate() }),
            Promise::Rejected(err) => Promise::Rejected(Ctx { ctx: s.ctx.duplicate(), data: err.duplicate() }),
        }
    }

    fn put(&self, s: &mut Ctx<C, Promise<A, B, E>>, v: Promise<Ctx<C, A>, Ctx<C, B>, Ctx<C, E>>) {
        match v {
            Promise::Empty => {
                s.data = Promise::Empty;
            },
            Promise::Resolved(pc) => {
                s.data = Promise::Resolved(pc.data);
                s.ctx = pc.ctx;
            },
            Promise::Deferred(pc) => {
                s.data = Promise::Deferred(pc.data);
                s.ctx = pc.ctx;
            },
            Promise::Rejected(pc) => {
                s.data = Promise::Rejected(pc.data);
                s.ctx = pc.ctx;
            },
        }
    }
}

} // verus!
