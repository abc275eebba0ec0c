//! The algebraic laws of the `Ctx` lenses.
use vstd::prelude::*;

use core::marker::PhantomData;

use crate::ctx::{Ctx, CtxField, CtxMake, CtxMap, DataField, InPromise};
use crate::data::Data;
use crate::lens::{get_put, lawful, lemma_then_lawful, preserves, put_get, same_lens, Identity, Lens, Then};
use crate::promise::Promise;

verus! {

/// The lenses onto the context and onto the payload are lawful, and a write
/// through either leaves what the other reads unchanged.
pub proof fn lemma_fields_lawful<C: Data, T: Data>()
    ensures
        lawful::<Ctx<C, T>, C, CtxField<C, T>>(CtxField { marker: PhantomData }),
        lawful::<Ctx<C, T>, T, DataField<C, T>>(DataField { marker: PhantomData }),
        preserves::<Ctx<C, T>, C, T, CtxField<C, T>, DataField<C, T>>(
            CtxField { marker: PhantomData },
            DataField { marker: PhantomData },
        ),
        preserves::<Ctx<C, T>, T, C, DataField<C, T>, CtxField<C, T>>(
            DataField { marker: PhantomData },
            CtxField { marker: PhantomData },
        ),
{
}

/// `make` of two lawful lenses is lawful when a write of the payload never
/// changes the context that is read.
pub proof fn lemma_make_lawful<S, C, T, CL: Lens<S, C>, TL: Lens<S, T>>(cl: CL, tl: TL)
    requires
        lawful(cl),
        lawful(tl),
        preserves(cl, tl),
    ensures
        lawful::<S, Ctx<C, T>, CtxMake<CL, TL>>(CtxMake { cl, tl }),
{
    let m = CtxMake { cl, tl };
    assert forall|s: S| #[trigger] m.spec_put(s, m.spec_get(s)) == s by {
        assert(cl.spec_put(s, cl.spec_get(s)) == s);
        assert(tl.spec_put(s, tl.spec_get(s)) == s);
    }
    assert forall|s: S, v: Ctx<C, T>| #[trigger] m.spec_get(m.spec_put(s, v)) == v by {
        let s1 = cl.spec_put(s, v.ctx);
        assert(cl.spec_get(s1) == v.ctx);
        assert(cl.spec_get(tl.spec_put(s1, v.data)) == cl.spec_get(s1));
        assert(tl.spec_get(tl.spec_put(s1, v.data)) == v.data);
    }
}

/// A write through `make` of two independent lenses sets each part to what
/// was written, and leaves alone whatever a third lens reads, provided that
/// writes through the two never change what that lens reads.
pub proof fn lemma_make_independent<S, C, T, X, CL: Lens<S, C>, TL: Lens<S, T>, OL: Lens<S, X>>(
    cl: CL,
    tl: TL,
    other: OL,
    s: S,
    v: Ctx<C, T>,
)
    requires
        put_get(cl),
        put_get(tl),
        preserves(cl, tl),
        preserves(other, cl),
        preserves(other, tl),
    ensures
        (CtxMake { cl, tl }).spec_put(s, v) == tl.spec_put(cl.spec_put(s, v.ctx), v.data),
        cl.spec_get((CtxMake { cl, tl }).spec_put(s, v)) == v.ctx,
        tl.spec_get((CtxMake { cl, tl }).spec_put(s, v)) == v.data,
        other.spec_get((CtxMake { cl, tl }).spec_put(s, v)) == other.spec_get(s),
{
    let s1 = cl.spec_put(s, v.ctx);
    assert(cl.spec_get(s1) == v.ctx);
    assert(cl.spec_get(tl.spec_put(s1, v.data)) == cl.spec_get(s1));
    assert(tl.spec_get(tl.spec_put(s1, v.data)) == v.data);
    assert(other.spec_get(s1) == other.spec_get(s));
    assert(other.spec_get(tl.spec_put(s1, v.data)) == other.spec_get(s1));
}

/// `make` of the two field lenses of a `Ctx` writes exactly what setting the
/// two fields directly would.
pub proof fn lemma_make_fields<C: Data, T: Data>(s: Ctx<C, T>, v: Ctx<C, T>)
    ensures
        (CtxMake {
            cl: CtxField::<C, T> { marker: PhantomData },
            tl: DataField::<C, T> { marker: PhantomData },
        }).spec_put(s, v) == (Ctx { ctx: v.ctx, data: v.data }),
        (CtxMake {
            cl: CtxField::<C, T> { marker: PhantomData },
            tl: DataField::<C, T> { marker: PhantomData },
        }).spec_get(s) == s,
{
}

/// `map` of a lawful lens is lawful.
pub proof fn lemma_map_lawful<C: Data, T, U, M: Lens<T, U>>(map: M)
    requires
        lawful(map),
    ensures
        lawful::<Ctx<C, T>, Ctx<C, U>, CtxMap<M, C>>(CtxMap { map, marker: PhantomData }),
{
    let m = CtxMap::<M, C> { map, marker: PhantomData };
    assert forall|s: Ctx<C, T>| #[trigger] m.spec_put(s, m.spec_get(s)) == s by {
        assert(map.spec_put(s.data, map.spec_get(s.data)) == s.data);
    }
    assert forall|s: Ctx<C, T>, v: Ctx<C, U>| #[trigger] m.spec_get(m.spec_put(s, v)) == v by {
        assert(map.spec_get(map.spec_put(s.data, v.data)) == v.data);
    }
}

/// `map` of the identity lens is the identity lens on `Ctx`.
pub proof fn lemma_map_identity<C: Data, T: Data>()
    ensures
        same_lens::<Ctx<C, T>, Ctx<C, T>, CtxMap<Identity, C>, Identity>(
            CtxMap { map: Identity, marker: PhantomData },
            Identity,
        ),
{
}

/// `map(g)` followed by `map(f)` is `map` of `g` followed by `f`.
pub proof fn lemma_map_compose<C: Data, T, U, W, G: Lens<T, U>, F: Lens<U, W>>(g: G, f: F)
    ensures
        same_lens::<Ctx<C, T>, Ctx<C, W>, Then<CtxMap<G, C>, CtxMap<F, C>, Ctx<C, U>>, CtxMap<Then<G, F, U>, C>>(
            Then {
                left: CtxMap { map: g, marker: PhantomData },
                right: CtxMap { map: f, marker: PhantomData },
                mid: PhantomData,
            },
            CtxMap { map: Then { left: g, right: f, mid: PhantomData }, marker: PhantomData },
        ),
{
}

/// A read through `map` keeps the context it was given.
pub proof fn lemma_map_keeps_ctx<C: Data, T, U, M: Lens<T, U>>(map: M, s: Ctx<C, T>)
    ensures
        (CtxMap::<M, C> { map, marker: PhantomData }).spec_get(s).ctx == s.ctx,
{
}

/// `in_promise` is lawful, for every promise case.
pub proof fn lemma_in_promise_lawful<C: Data, A: Data, B: Data, E: Data>()
    ensures
        lawful::<Ctx<C, Promise<A, B, E>>, Promise<Ctx<C, A>, Ctx<C, B>, Ctx<C, E>>, InPromise<C, A, B, E>>(
            InPromise { marker: PhantomData },
        ),
{
}

/// Writing `Empty` through `in_promise` keeps the context; on an empty promise
/// a read gives `Empty` and writing it back changes nothing.
pub proof fn lemma_in_promise_empty<C: Data, A: Data, B: Data, E: Data>(s: Ctx<C, Promise<A, B, E>>)
    ensures
        (InPromise::<C, A, B, E> { marker: PhantomData }).spec_put(s, Promise::Empty).ctx == s.ctx,
        s.data is Empty ==> (InPromise::<C, A, B, E> { marker: PhantomData }).spec_get(s) is Empty,
        s.data is Empty ==> (InPromise::<C, A, B, E> { marker: PhantomData }).spec_put(s, Promise::Empty) == s,
{
}

/// The chain `make`, then `map`, then `in_promise` is lawful when its parts
/// are.
pub proof fn lemma_deep_lawful<S, C: Data, T, A: Data, B: Data, E: Data, CL: Lens<S, C>, TL: Lens<S, T>, M: Lens<T, Promise<A, B, E>>>(
    cl: CL,
    tl: TL,
    map: M,
)
    requires
        lawful(cl),
        lawful(tl),
        preserves(cl, tl),
        lawful(map),
    ensures
        lawful::<S, Promise<Ctx<C, A>, Ctx<C, B>, Ctx<C, E>>, Then<Then<CtxMake<CL, TL>, CtxMap<M, C>, Ctx<C, T>>, InPromise<C, A, B, E>, Ctx<C, Promise<A, B, E>>>>(
            Then {
                left: Then {
                    left: CtxMake { cl, tl },
                    right: CtxMap { map, marker: PhantomData },
                    mid: PhantomData,
                },
                right: InPromise { marker: PhantomData },
                mid: PhantomData,
            },
        ),
{
    let mk = CtxMake { cl, tl };
    let mp = CtxMap::<M, C> { map, marker: PhantomData };
    lemma_make_lawful::<S, C, T, CL, TL>(cl, tl);
    lemma_map_lawful::<C, T, Promise<A, B, E>, M>(map);
    lemma_then_lawful::<S, Ctx<C, T>, Ctx<C, Promise<A, B, E>>, CtxMake<CL, TL>, CtxMap<M, C>>(mk, mp);
    lemma_in_promise_lawful::<C, A, B, E>();
    lemma_then_lawful::<S, Ctx<C, Promise<A, B, E>>, Promise<Ctx<C, A>, Ctx<C, B>, Ctx<C, E>>, Then<CtxMake<CL, TL>, CtxMap<M, C>, Ctx<C, T>>, InPromise<C, A, B, E>>(
        Then { left: mk, right: mp, mid: PhantomData },
        InPromise { marker: PhantomData },
    );
}

} // verus!
