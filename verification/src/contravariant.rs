//! The reversed mapping capability: transform what a container takes in.
use crate::base::{computes, is_identity, is_total, Query};
use std::marker::PhantomData;
use vstd::prelude::*;

verus! {

/// `q` may be asked about what `f` makes of `b`: `f` may be called on `b`,
/// and `q` may be asked about whatever `f` returns for it.
pub open spec fn admits_through<Q: Query, B, F: Fn(B) -> Q::Inner>(q: Q, f: F, b: B) -> bool {
    &&& call_requires(f, (b,))
    &&& forall|a: Q::Inner| #[trigger] call_ensures(f, (b,), a) ==> q.admits(a)
}

/// `r` is something `q` can answer when asked about what `f` makes of `b`.
pub open spec fn answers_through<Q: Query, B, F: Fn(B) -> Q::Inner>(
    q: Q,
    f: F,
    b: B,
    r: Q::Answer,
) -> bool {
    exists|a: Q::Inner| #[trigger] call_ensures(f, (b,), a) && q.answers(a, r)
}

/// `r` is `q` with `f` put in front of it: it may be asked about every `b`
/// that `q` may be asked about through `f`, and whatever it answers, `q`
/// answers when asked about what `f` makes of `b`.
pub open spec fn precomposed<Q, B, F, R>(q: Q, f: F, r: R) -> bool where
    Q: Query,
    F: Fn(B) -> Q::Inner,
    R: Query<Inner = B, Answer = Q::Answer>,
 {
    &&& forall|b: B| admits_through(q, f, b) ==> #[trigger] r.admits(b)
    &&& forall|b: B, o: Q::Answer| #[trigger] r.answers(b, o) ==> answers_through(q, f, b, o)
}

/// Every question has at most one answer.
pub open spec fn answers_once<Q: Query>(q: Q) -> bool {
    forall|a: Q::Inner, o1: Q::Answer, o2: Q::Answer|
        #[trigger] q.answers(a, o1) && #[trigger] q.answers(a, o2) ==> o1 == o2
}

/// A functor from the opposite category: `contramap` takes a function from
/// `B` to `A` and turns an `F<A>` into an `F<B>`, which converts what it is
/// given with that function and hands the result to the `F<A>`.
///
/// The function comes before the container, where
/// [`Functor::fmap`](crate::functor::Functor::fmap) puts it after. The
/// receiver is only read.
///
/// `B` is the new type taken in and `F` the type of the function; `Output`
/// is the container type that results for them.
pub trait Contravariant<B, F: Fn(B) -> Self::Inner>: Query {
    type Output: Query<Inner = B, Answer = Self::Answer>;

    /// The container that, asked about a `B`, asks the receiver about what
    /// `f` makes of it.
    fn contramap(&self, f: F) -> (r: Self::Output)
        ensures
            precomposed(*self, f, r),
    ;
}

/// A function held as a container over its argument type: asking it about
/// an `A` calls the function on it.
///
/// To be given a function in front, the held function must be `Copy`: the
/// container is duplicated into the result, which keeps no tie to it.
///
/// In verified code, keep the type of the held function a type parameter of
/// the caller: what `admits` and `answers` say of the container is then
/// known from what is known of the function.
pub struct Arrow<A, P> {
    /// The function held.
    pub run: P,
    /// Names the type taken in.
    pub marker: PhantomData<A>,
}

impl<A, P: Copy> Clone for Arrow<A, P> {
    fn clone(&self) -> (r: Self)
        ensures
            r == *self,
    {
        *self
    }
}

impl<A, P: Copy> Copy for Arrow<A, P> {
}

impl<A, P> Arrow<A, P> {
    /// The container that holds `run`.
    pub fn new(run: P) -> (r: Self)
        ensures
            r.run == run,
    {
        Arrow { run, marker: PhantomData }
    }
}

impl<A, R, P: Fn(A) -> R> Query for Arrow<A, P> {
    type Inner = A;

    type Answer = R;

    open spec fn admits(&self, a: A) -> bool {
        call_requires(self.run, (a,))
    }

    open spec fn answers(&self, a: A, r: R) -> bool {
        call_ensures(self.run, (a,), r)
    }

    fn ask(&self, a: A) -> (r: R) {
        (self.run)(a)
    }
}

/// A container asked through a function: what it is given is first turned
/// by `via` into what `onto` takes in.
pub struct Contramapped<B, F, Q> {
    /// The function in front.
    pub via: F,
    /// The container behind it.
    pub onto: Q,
    /// Names the type taken in.
    pub marker: PhantomData<B>,
}

impl<B, F: Copy, Q: Copy> Clone for Contramapped<B, F, Q> {
    fn clone(&self) -> (r: Self)
        ensures
            r == *self,
    {
        *self
    }
}

impl<B, F: Copy, Q: Copy> Copy for Contramapped<B, F, Q> {
}

impl<B, F: Fn(B) -> Q::Inner, Q: Query> Query for Contramapped<B, F, Q> {
    type Inner = B;

    type Answer = Q::Answer;

    open spec fn admits(&self, b: B) -> bool {
        admits_through(self.onto, self.via, b)
    }

    open spec fn answers(&self, b: B, r: Q::Answer) -> bool {
        answers_through(self.onto, self.via, b, r)
    }

    fn ask(&self, b: B) -> (r: Q::Answer) {
        self.onto.ask((self.via)(b))
    }
}

impl<A, R, P: Fn(A) -> R + Copy, B, F: Fn(B) -> A> Contravariant<B, F> for Arrow<A, P> {
    type Output = Contramapped<B, F, Self>;

    /// A copy of the receiver with `f` in front of it.
    fn contramap(&self, f: F) -> (r: Self::Output)
        ensures
            r.via == f,
            r.onto == *self,
    {
        Contramapped { via: f, onto: *self, marker: PhantomData }
    }
}

impl<B, G, Q, C, F> Contravariant<C, F> for Contramapped<B, G, Q> where
    G: Fn(B) -> Q::Inner + Copy,
    Q: Query + Copy,
    F: Fn(C) -> B,
 {
    type Output = Contramapped<C, F, Self>;

    /// A copy of the receiver with `f` in front of it, so that `f` runs
    /// before the function the receiver has in front.
    fn contramap(&self, f: F) -> (r: Self::Output)
        ensures
            r.via == f,
            r.onto == *self,
    {
        Contramapped { via: f, onto: *self, marker: PhantomData }
    }
}

/// Identity law: a container with a function in front of it that hands its
/// argument back behaves as the container itself. Whatever it answers, the
/// container answers to the same question, and it may be asked whatever the
/// container may be asked.
///
/// `r` stands for any result of `x.contramap(f)`.
pub proof fn lemma_contramap_identity<Q, F, R>(x: Q, f: F, r: R) where
    Q: Query,
    F: Fn(Q::Inner) -> Q::Inner,
    R: Query<Inner = Q::Inner, Answer = Q::Answer>,

    requires
        is_total(f),
        is_identity(f),
        precomposed(x, f, r),
    ensures
        forall|a: Q::Inner, o: Q::Answer| #[trigger] r.answers(a, o) ==> x.answers(a, o),
        forall|a: Q::Inner| x.admits(a) ==> #[trigger] r.admits(a),
{
    assert forall|a: Q::Inner, o: Q::Answer| #[trigger] r.answers(a, o) implies x.answers(a, o) by {
        assert(answers_through(x, f, a, o));
    }
    assert forall|a: Q::Inner| x.admits(a) implies #[trigger] r.admits(a) by {
        assert(admits_through(x, f, a));
    }
}

/// Composition law, in reversed order: putting `f` in front of a container
/// and then `g` in front of the result gives what putting `g` followed by
/// `f` in front of it gives. Asked the same question, the two give the same
/// answer.
///
/// `y` stands for any result of `x.contramap(f)`, `z` for any result of
/// `y.contramap(g)`, and `w` for any result of `x.contramap(h)`, where `h`
/// is `g` followed by `f`: the function given last is applied first. What
/// the three compute is given by `mf` and `mg`: `f` computes `mf`, `g`
/// computes `mg`, and `h` computes `mg` followed by `mf`. The container `x`
/// must have one answer to a question.
pub proof fn lemma_contramap_composition<Q, B, C, F, G, H, Y, Z, W>(
    x: Q,
    f: F,
    g: G,
    h: H,
    mf: spec_fn(B) -> Q::Inner,
    mg: spec_fn(C) -> B,
    y: Y,
    z: Z,
    w: W,
) where
    Q: Query,
    F: Fn(B) -> Q::Inner,
    G: Fn(C) -> B,
    H: Fn(C) -> Q::Inner,
    Y: Query<Inner = B, Answer = Q::Answer>,
    Z: Query<Inner = C, Answer = Q::Answer>,
    W: Query<Inner = C, Answer = Q::Answer>,

    requires
        answers_once(x),
        computes(f, mf),
        computes(g, mg),
        computes(h, |c: C| mf(mg(c))),
        precomposed(x, f, y),
        precomposed(y, g, z),
        precomposed(x, h, w),
    ensures
        forall|c: C, o1: Q::Answer, o2: Q::Answer|
            #[trigger] z.answers(c, o1) && #[trigger] w.answers(c, o2) ==> o1 == o2,
{
    assert forall|c: C, o1: Q::Answer, o2: Q::Answer|
        #[trigger] z.answers(c, o1) && #[trigger] w.answers(c, o2) implies o1 == o2 by {
        assert(answers_through(y, g, c, o1));
        let b = choose|b: B| #[trigger] call_ensures(g, (c,), b) && y.answers(b, o1);
        assert(answers_through(x, f, b, o1));
        assert(answers_through(x, h, c, o2));
    }
}

} // verus!
