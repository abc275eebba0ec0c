use ctx_lens::{Ctx, Data, Identity, Lens, Promise, Then};

type P = Promise<i32, (), String>;
type PC = Promise<Ctx<String, i32>, Ctx<String, ()>, Ctx<String, String>>;

fn pv(c: &str, p: P) -> Ctx<String, P> {
    Ctx::new(c.to_string(), p)
}

#[test]
fn new_pairs_context_and_payload() {
    let c = Ctx::new(3u32, "x".to_string());
    assert_eq!(c.ctx, 3);
    assert_eq!(c.data, "x");
}

#[test]
fn duplicate_is_equal() {
    let c = Ctx::new("a".to_string(), Promise::<i32, u8, String>::Deferred(9));
    assert_eq!(c.duplicate(), c);
    let o: Option<i64> = Some(-4);
    assert_eq!(o.duplicate(), Some(-4));
}

#[test]
fn field_lenses_read_and_write_one_field() {
    let s = Ctx::new(1i32, "b".to_string());
    let cl = Ctx::<i32, String>::ctx();
    let dl = Ctx::<i32, String>::data();
    assert_eq!(cl.get(&s), 1);
    assert_eq!(dl.get(&s), "b");
    let mut t = s.clone();
    cl.put(&mut t, 5);
    assert_eq!(t, Ctx::new(5, "b".to_string()));
    dl.put(&mut t, "z".to_string());
    assert_eq!(t, Ctx::new(5, "z".to_string()));
}

#[test]
fn make_reads_both_parts() {
    let s = Ctx::new(1i32, "b".to_string());
    let m = Ctx::<i32, String>::make(Ctx::<i32, String>::ctx(), Ctx::<i32, String>::data());
    assert_eq!(m.get(&s), Ctx::new(1, "b".to_string()));
}

#[test]
fn make_writes_both_fields_like_direct_mutation() {
    let s = Ctx::new(1i32, "b".to_string());
    let m = Ctx::<i32, String>::make(Ctx::<i32, String>::ctx(), Ctx::<i32, String>::data());
    let mut through_lens = s.clone();
    m.put(&mut through_lens, Ctx::new(7, "new".to_string()));
    let mut direct = s.clone();
    direct.ctx = 7;
    direct.data = "new".to_string();
    assert_eq!(through_lens, direct);
    assert_eq!(m.get(&through_lens), Ctx::new(7, "new".to_string()));
}

#[test]
fn make_leaves_other_fields_alone() {
    // state: (name, (count, flag)); the pair is (name, count), the flag stays.
    let s = Ctx::new("n".to_string(), Ctx::new(4u32, true));
    let cl = Ctx::<String, Ctx<u32, bool>>::ctx();
    let tl = Then::new(Ctx::<String, Ctx<u32, bool>>::data(), Ctx::<u32, bool>::ctx());
    let m = Ctx::<String, u32>::make(cl, tl);
    assert_eq!(m.get(&s), Ctx::new("n".to_string(), 4));
    let mut t = s.clone();
    m.put(&mut t, Ctx::new("m".to_string(), 8));
    assert_eq!(t, Ctx::new("m".to_string(), Ctx::new(8, true)));
}

#[test]
fn map_read_keeps_context() {
    let s = Ctx::new(9u8, Ctx::new(2i64, 'q'));
    let m = Ctx::<u8, Ctx<i64, char>>::map(Ctx::<i64, char>::data());
    let r = m.get(&s);
    assert_eq!(r.ctx, s.ctx);
    assert_eq!(r, Ctx::new(9, 'q'));
}

#[test]
fn map_write_takes_context_from_value() {
    let s = Ctx::new(9u8, Ctx::new(2i64, 'q'));
    let m = Ctx::<u8, Ctx<i64, char>>::map(Ctx::<i64, char>::data());
    let mut t = s.clone();
    m.put(&mut t, Ctx::new(1, 'w'));
    assert_eq!(t, Ctx::new(1, Ctx::new(2, 'w')));
}

#[test]
fn map_of_identity_is_identity() {
    let s = Ctx::new("c".to_string(), 17u64);
    let m = Ctx::<String, u64>::map(Identity);
    assert_eq!(m.get(&s), s);
    let mut t = s.clone();
    m.put(&mut t, Ctx::new("d".to_string(), 18));
    assert_eq!(t, Ctx::new("d".to_string(), 18));
}

#[test]
fn map_composition_matches_map_of_composition() {
    type Inner = Ctx<u32, Ctx<bool, i64>>;
    let s: Ctx<String, Inner> = Ctx::new("c".to_string(), Ctx::new(3, Ctx::new(false, -5)));
    let g = Ctx::<u32, Ctx<bool, i64>>::data;
    let f = Ctx::<bool, i64>::data;
    let two_maps = Then::new(Ctx::<String, Inner>::map(g()), Ctx::<String, Ctx<bool, i64>>::map(f()));
    let one_map = Ctx::<String, Inner>::map(Then::new(g(), f()));
    assert_eq!(two_maps.get(&s), Ctx::new("c".to_string(), -5));
    assert_eq!(two_maps.get(&s), one_map.get(&s));
    let mut a = s.clone();
    let mut b = s.clone();
    two_maps.put(&mut a, Ctx::new("e".to_string(), 40));
    one_map.put(&mut b, Ctx::new("e".to_string(), 40));
    assert_eq!(a, b);
    assert_eq!(a, Ctx::new("e".to_string(), Ctx::new(3, Ctx::new(false, 40))));
}

#[test]
fn in_promise_resolved_round_trip() {
    let l = Ctx::<String, P>::in_promise();
    let s = pv("u1", Promise::Resolved(42));
    let r: PC = l.get(&s);
    assert_eq!(r, Promise::Resolved(Ctx::new("u1".to_string(), 42)));
    let mut t = s.clone();
    l.put(&mut t, Promise::Resolved(Ctx::new("u2".to_string(), 43)));
    assert_eq!(t, pv("u2", Promise::Resolved(43)));
}

#[test]
fn in_promise_empty_keeps_context() {
    let l = Ctx::<String, P>::in_promise();
    let s = pv("u1", Promise::Empty);
    assert_eq!(l.get(&s), Promise::Empty);
    let mut t = s.clone();
    l.put(&mut t, Promise::Empty);
    assert_eq!(t, pv("u1", Promise::Empty));
}

#[test]
fn in_promise_writing_empty_over_resolved_keeps_context() {
    let l = Ctx::<String, P>::in_promise();
    let mut t = pv("u1", Promise::Resolved(5));
    l.put(&mut t, Promise::Empty);
    assert_eq!(t, pv("u1", Promise::Empty));
}

#[test]
fn in_promise_deferred_case() {
    let l = Ctx::<String, P>::in_promise();
    let s = pv("u1", Promise::Deferred(()));
    assert_eq!(l.get(&s), Promise::Deferred(Ctx::new("u1".to_string(), ())));
    let mut t = s.clone();
    l.put(&mut t, Promise::Deferred(Ctx::new("u3".to_string(), ())));
    assert_eq!(t, pv("u3", Promise::Deferred(())));
}

#[test]
fn in_promise_rejected_case() {
    let l = Ctx::<String, P>::in_promise();
    let s = pv("u1", Promise::Rejected("boom".to_string()));
    assert_eq!(l.get(&s), Promise::Rejected(Ctx::new("u1".to_string(), "boom".to_string())));
    let mut t = s.clone();
    l.put(&mut t, Promise::Rejected(Ctx::new("u4".to_string(), "bang".to_string())));
    assert_eq!(t, pv("u4", Promise::Rejected("bang".to_string())));
}

#[test]
fn in_promise_write_changes_case() {
    let l = Ctx::<String, P>::in_promise();
    let mut t = pv("u1", Promise::Deferred(()));
    l.put(&mut t, Promise::Resolved(Ctx::new("u5".to_string(), 6)));
    assert_eq!(t, pv("u5", Promise::Resolved(6)));
    assert_eq!(l.get(&t), Promise::Resolved(Ctx::new("u5".to_string(), 6)));
}

#[test]
fn get_put_holds_for_each_combinator() {
    let s = pv("u1", Promise::Rejected("e".to_string()));
    let l = Ctx::<String, P>::in_promise();
    let mut t = s.clone();
    let v = l.get(&t);
    l.put(&mut t, v);
    assert_eq!(t, s);

    let m = Ctx::<String, P>::make(Ctx::<String, P>::ctx(), Ctx::<String, P>::data());
    let mut t = s.clone();
    let v = m.get(&t);
    m.put(&mut t, v);
    assert_eq!(t, s);

    let mp = Ctx::<String, P>::map(Identity);
    let mut t = s.clone();
    let v = mp.get(&t);
    mp.put(&mut t, v);
    assert_eq!(t, s);
}

#[test]
fn deep_composition_obeys_both_laws() {
    // state: (user, (page, promise)); the chain pairs page with the promise,
    // maps the payload through the identity, and spreads the page into it.
    type Q = Promise<i64, u8, String>;
    type S = Ctx<String, Ctx<u32, Q>>;
    let s: S = Ctx::new("user".to_string(), Ctx::new(2, Promise::Deferred(7)));
    let cl = Then::new(Ctx::<String, Ctx<u32, Q>>::data(), Ctx::<u32, Q>::ctx());
    let tl = Then::new(Ctx::<String, Ctx<u32, Q>>::data(), Ctx::<u32, Q>::data());
    let chain = Then::new(
        Then::new(Ctx::<u32, Q>::make(cl, tl), Ctx::<u32, Q>::map(Identity)),
        Ctx::<u32, Q>::in_promise(),
    );
    let r = chain.get(&s);
    assert_eq!(r, Promise::Deferred(Ctx::new(2, 7)));

    let mut t = s.clone();
    chain.put(&mut t, r);
    assert_eq!(t, s);

    let v: Promise<Ctx<u32, i64>, Ctx<u32, u8>, Ctx<u32, String>> =
        Promise::Resolved(Ctx::new(11, -3));
    let mut t = s.clone();
    chain.put(&mut t, v.clone());
    assert_eq!(t, Ctx::new("user".to_string(), Ctx::new(11, Promise::Resolved(-3))));
    assert_eq!(chain.get(&t), v);
}
