//! The two-sided capability of containers that take in and give out:
//! transform what goes in and what comes out.
use crate::base::Query;
use crate::contravariant::Arrow;
use std::marker::PhantomData;
use vstd::prelude::*;

verus! {

/// `q` may be asked about what `f` makes of `b`, and `g` may be called on
/// its answer: `f` may be called on `b`, `q` may be asked about whatever `f`
/// returns for it, and `g` may be called on whatever `q` answers then.
pub open spec fn admits_across<Q, B, D, F, G>(q: Q, f: F, g: G, b: B) -> bool where
    Q: Query,
    F: Fn(B) -> Q::Inner,
    G: Fn(Q::Answer) -> D,
 {
    &&& call_requires(f, (b,))
    &&& forall|a: Q::Inner| #[trigger]
        call_ensures(f, (b,), a) ==> {
            &&& q.admits(a)
            &&& forall|c: Q::Answer| #[trigger] q.answers(a, c) ==> call_requires(g, (c,))
        }
}

/// `d` is something `g` can make of what `q` answers when asked about what
/// `f` makes of `b`.
pub open spec fn answers_across<Q, B, D, F, G>(q: Q, f: F, g: G, b: B, d: D) -> bool where
    Q: Query,
    F: Fn(B) -> Q::Inner,
    G: Fn(Q::Answer) -> D,
 {
    exists|a: Q::Inner, c: Q::Answer|
        #![trigger call_ensures(f, (b,), a), call_ensures(g, (c,), d)]
        call_ensures(f, (b,), a) && q.answers(a, c) && call_ensures(g, (c,), d)
}

/// `r` is `q` with `f` put in front of it and `g` behind it: it may be asked
/// about every `b` for which the three can run in turn, and whatever it
/// answers is what `g` makes of an answer of `q` to what `f` makes of `b`.
pub open spec fn dimapped<Q, B, D, F, G, R>(q: Q, f: F, g: G, r: R) -> bool where
    Q: Query,
    F: Fn(B) -> Q::Inner,
    G: Fn(Q::Answer) -> D,
    R: Query<Inner = B, Answer = D>,
 {
    &&& forall|b: B| admits_across(q, f, g, b) ==> #[trigger] r.admits(b)
    &&& forall|b: B, d: D| #[trigger] r.answers(b, d) ==> answers_across(q, f, g, b, d)
}

/// A bifunctor whose first argument is contravariant and whose second is
/// covariant: for a pair of functions from `B` to `A` and from `C` to `D`,
/// `dimap` turns an `F<A, C>` into an `F<B, D>`.
///
/// What the container takes in is its [`Query::Inner`], what it gives out
/// its [`Query::Answer`]. The receiver is only read.
///
/// `B` and `D` are the new types taken in and given out, `F` and `G` the
/// types of the two functions; `Output` is the container type that results
/// for them.
pub trait Profunctor<B, D, F: Fn(B) -> Self::Inner, G: Fn(Self::Answer) -> D>: Query {
    type Output: Query<Inner = B, Answer = D>;

    /// The container that, asked about a `B`, asks the receiver about what
    /// `f` makes of it and gives out what `g` makes of the answer.
    fn dimap(&self, f: F, g: G) -> (r: Self::Output)
        ensures
            dimapped(*self, f, g, r),
    ;
}

/// A container between two functions: what it is given is first turned by
/// `before` into what `inner` takes in, and what `inner` answers is turned
/// by `after` into what is given out.
pub struct Dimapped<B, F, Q, G> {
    /// The function in front.
    pub before: F,
    /// The container in the middle.
    pub inner: Q,
    /// The function behind.
    pub after: G,
    /// Names the type taken in.
    pub marker: PhantomData<B>,
}

impl<B, F: Copy, Q: Copy, G: Copy> Clone for Dimapped<B, F, Q, G> {
    fn clone(&self) -> (r: Self)
        ensures
            r == *self,
    {
        *self
    }
}

impl<B, F: Copy, Q: Copy, G: Copy> Copy for Dimapped<B, F, Q, G> {
}

impl<B, D, F, Q, G> Query for Dimapped<B, F, Q, G> where
    Q: Query,
    F: Fn(B) -> Q::Inner,
    G: Fn(Q::Answer) -> D,
 {
    type Inner = B;

    type Answer = D;

    open spec fn admits(&self, b: B) -> bool {
        admits_across(self.inner, self.before, self.after, b)
    }

    open spec fn answers(&self, b: B, d: D) -> bool {
        answers_across(self.inner, self.before, self.after, b, d)
    }

    fn ask(&self, b: B) -> (d: D) {
        (self.after)(self.inner.ask((self.before)(b)))
    }
}

impl<A, C, P, B, D, F, G> Profunctor<B, D, F, G> for Arrow<A, P> where
    P: Fn(A) -> C + Copy,
    F: Fn(B) -> A,
    G: Fn(C) -> D,
 {
    type Output = Dimapped<B, F, Self, G>;

    /// A copy of the receiver between `f` and `g`.
    fn dimap(&self, f: F, g: G) -> (r: Self::Output)
        ensures
            r.before == f,
            r.inner == *self,
            r.after == g,
    {
        Dimapped { before: f, inner: *self, after: g, marker: PhantomData }
    }
}

impl<A, Q, D1, F1, G1, B, D, F, G> Profunctor<B, D, F, G> for Dimapped<A, F1, Q, G1> where
    Q: Query + Copy,
    F1: Fn(A) -> Q::Inner + Copy,
    G1: Fn(Q::Answer) -> D1 + Copy,
    F: Fn(B) -> A,
    G: Fn(D1) -> D,
 {
    type Output = Dimapped<B, F, Self, G>;

    /// A copy of the receiver between `f` and `g`.
    fn dimap(&self, f: F, g: G) -> (r: Self::Output)
        ensures
            r.before == f,
            r.inner == *self,
            r.after == g,
    {
        Dimapped { before: f, inner: *self, after: g, marker: PhantomData }
    }
}

} // verus!
