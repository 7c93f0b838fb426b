//! The two-slot mapping capability: transform either of two independently
//! typed contents, keeping the container's shape.
use crate::base::{
    clones_exactly, computes, is_identity, lemma_mapped_composition, lemma_mapped_identity,
    mapped, takes_each, yields, Generic2, Plug2,
};
use vstd::prelude::*;

verus! {

/// Like [`Functor`](crate::functor::Functor), for containers with two slots:
/// `bimap` takes a function for each slot and turns an `F<A, C>` into an
/// `F<B, D>`.
///
/// Each function is applied to what its own slot holds and to nothing else.
/// A function whose slot is empty is not called: nothing is asked of it.
pub trait Bifunctor: Generic2 where Self::First: Clone, Self::Second: Clone {
    /// The container of the same shape that holds, slot by slot and position
    /// by position, what `f` makes of the first contents and `g` of the
    /// second.
    fn bimap<B, D, F, G>(&self, f: F, g: G) -> (r: <Self as Plug2<B, D>>::Return) where
        Self: Plug2<B, D>,
        F: Fn(Self::First) -> B,
        G: Fn(Self::Second) -> D,

        requires
            takes_each(f, self.firsts()),
            takes_each(g, self.seconds()),
        ensures
            mapped(self.firsts(), f, r.firsts()),
            mapped(self.seconds(), g, r.seconds()),
    ;
}

impl<A, C> Generic2 for (A, C) {
    type First = A;

    type Second = C;

    open spec fn firsts(&self) -> Seq<A> {
        seq![self.0]
    }

    open spec fn seconds(&self) -> Seq<C> {
        seq![self.1]
    }
}

impl<A, C, B, D> Plug2<B, D> for (A, C) {
    type Return = (B, D);
}

impl<A, C> Generic2 for Result<A, C> {
    type First = A;

    type Second = C;

    open spec fn firsts(&self) -> Seq<A> {
        match *self {
            Ok(a) => seq![a],
            Err(_) => Seq::empty(),
        }
    }

    open spec fn seconds(&self) -> Seq<C> {
        match *self {
            Ok(_) => Seq::empty(),
            Err(c) => seq![c],
        }
    }
}

impl<A, C, B, D> Plug2<B, D> for Result<A, C> {
    type Return = Result<B, D>;
}

impl<A: Clone, C: Clone> Bifunctor for (A, C) {
    /// Both elements are transformed, each by its own function.
    fn bimap<B, D, F, G>(&self, f: F, g: G) -> (r: <Self as Plug2<B, D>>::Return) where
        F: Fn(A) -> B,
        G: Fn(C) -> D,

        ensures
            yields(f, self.0, r.0),
            yields(g, self.1, r.1),
    {
        assert(self.firsts()[0] == self.0);
        assert(self.seconds()[0] == self.1);
        let r = (f(self.0.clone()), g(self.1.clone()));
        assert(r.firsts()[0] == r.0);
        assert(r.seconds()[0] == r.1);
        r
    }
}

impl<A: Clone, C: Clone> Bifunctor for Result<A, C> {
    /// A success stays a success and a failure stays a failure; the payload
    /// is transformed by the function of its branch, and the other function
    /// is not called.
    fn bimap<B, D, F, G>(&self, f: F, g: G) -> (r: <Self as Plug2<B, D>>::Return) where
        F: Fn(A) -> B,
        G: Fn(C) -> D,

        ensures
            r is Ok <==> *self is Ok,
            match *self {
                Ok(a) => r matches Ok(b) && yields(f, a, b),
                Err(c) => r matches Err(d) && yields(g, c, d),
            },
    {
        match self {
            Ok(a) => {
                assert(self.firsts()[0] == *a);
                let b = f(a.clone());
                assert(Ok::<B, D>(b).firsts()[0] == b);
                Ok(b)
            },
            Err(c) => {
                assert(self.seconds()[0] == *c);
                let d = g(c.clone());
                assert(Err::<B, D>(d).seconds()[0] == d);
                Err(d)
            },
        }
    }
}

/// Identity law: mapping both slots with functions that hand their argument
/// back gives a container that holds what the receiver holds.
///
/// `r` stands for any result of `x.bimap(f, g)`. The content types must
/// clone exactly, since `bimap` hands clones to `f` and `g`.
pub proof fn lemma_bimap_identity<T, F, G>(
    x: T,
    f: F,
    g: G,
    r: <T as Plug2<T::First, T::Second>>::Return,
) where
    T: Bifunctor + Plug2<T::First, T::Second>,
    T::First: Clone,
    T::Second: Clone,
    F: Fn(T::First) -> T::First,
    G: Fn(T::Second) -> T::Second,

    requires
        clones_exactly::<T::First>(),
        clones_exactly::<T::Second>(),
        is_identity(f),
        is_identity(g),
        mapped(x.firsts(), f, r.firsts()),
        mapped(x.seconds(), g, r.seconds()),
    ensures
        r.firsts() == x.firsts(),
        r.seconds() == x.seconds(),
{
    lemma_mapped_identity(x.firsts(), f, r.firsts());
    lemma_mapped_identity(x.seconds(), g, r.seconds());
}

/// The identity law for the pair, where holding the same contents means
/// being the same value.
pub proof fn lemma_bimap_identity_pair<A: Clone, C: Clone, F, G>(x: (A, C), f: F, g: G, r: (A, C)) where
    F: Fn(A) -> A,
    G: Fn(C) -> C,

    requires
        clones_exactly::<A>(),
        clones_exactly::<C>(),
        is_identity(f),
        is_identity(g),
        mapped(x.firsts(), f, r.firsts()),
        mapped(x.seconds(), g, r.seconds()),
    ensures
        r == x,
{
    lemma_bimap_identity(x, f, g, r);
    assert(r.firsts()[0] == x.firsts()[0]);
    assert(r.seconds()[0] == x.seconds()[0]);
}

/// The identity law for the success/failure container, where holding the
/// same contents means being the same value.
pub proof fn lemma_bimap_identity_result<A: Clone, C: Clone, F, G>(
    x: Result<A, C>,
    f: F,
    g: G,
    r: Result<A, C>,
) where F: Fn(A) -> A, G: Fn(C) -> C
    requires
        clones_exactly::<A>(),
        clones_exactly::<C>(),
        is_identity(f),
        is_identity(g),
        mapped(x.firsts(), f, r.firsts()),
        mapped(x.seconds(), g, r.seconds()),
    ensures
        r == x,
{
    lemma_bimap_identity(x, f, g, r);
    match x {
        Ok(_) => {
            assert(r.firsts()[0] == x.firsts()[0]);
        },
        Err(_) => {
            assert(r.seconds()[0] == x.seconds()[0]);
        },
    }
}

/// Composition law: mapping with `f1` and `g1` and then with `f2` and `g2`
/// gives what mapping once with `f1` followed by `f2` on the first slot and
/// `g1` followed by `g2` on the second gives.
///
/// `y` stands for any result of `x.bimap(f1, g1)`, `z` for any result of
/// `y.bimap(f2, g2)`, and `w` for any result of `x.bimap(hf, hg)`, where
/// `hf` is `f1` followed by `f2` and `hg` is `g1` followed by `g2`. What the
/// six compute is given by `mf1`, `mg1`, `mf2` and `mg2`: each of `f1`,
/// `g1`, `f2` and `g2` computes the one of its name, `hf` computes `mf1`
/// followed by `mf2`, and `hg` computes `mg1` followed by `mg2`. The content
/// types must clone exactly.
pub proof fn lemma_bimap_composition<T, B1, D1, B2, D2, F1, G1, F2, G2, HF, HG>(
    x: T,
    f1: F1,
    g1: G1,
    f2: F2,
    g2: G2,
    hf: HF,
    hg: HG,
    mf1: spec_fn(T::First) -> B1,
    mg1: spec_fn(T::Second) -> D1,
    mf2: spec_fn(B1) -> B2,
    mg2: spec_fn(D1) -> D2,
    y: <T as Plug2<B1, D1>>::Return,
    z: <<T as Plug2<B1, D1>>::Return as Plug2<B2, D2>>::Return,
    w: <T as Plug2<B2, D2>>::Return,
) where
    T: Bifunctor + Plug2<B1, D1> + Plug2<B2, D2>,
    <T as Plug2<B1, D1>>::Return: Bifunctor + Plug2<B2, D2>,
    T::First: Clone,
    T::Second: Clone,
    B1: Clone,
    D1: Clone,
    F1: Fn(T::First) -> B1,
    G1: Fn(T::Second) -> D1,
    F2: Fn(B1) -> B2,
    G2: Fn(D1) -> D2,
    HF: Fn(T::First) -> B2,
    HG: Fn(T::Second) -> D2,

    requires
        clones_exactly::<T::First>(),
        clones_exactly::<T::Second>(),
        clones_exactly::<B1>(),
        clones_exactly::<D1>(),
        computes(f1, mf1),
        computes(g1, mg1),
        computes(f2, mf2),
        computes(g2, mg2),
        computes(hf, |a: T::First| mf2(mf1(a))),
        computes(hg, |c: T::Second| mg2(mg1(c))),
        mapped(x.firsts(), f1, y.firsts()),
        mapped(x.seconds(), g1, y.seconds()),
        mapped(y.firsts(), f2, z.firsts()),
        mapped(y.seconds(), g2, z.seconds()),
        mapped(x.firsts(), hf, w.firsts()),
        mapped(x.seconds(), hg, w.seconds()),
    ensures
        z.firsts() == w.firsts(),
        z.seconds() == w.seconds(),
{
    lemma_mapped_composition(
        x.firsts(),
        f1,
        f2,
        hf,
        mf1,
        mf2,
        y.firsts(),
        z.firsts(),
        w.firsts(),
    );
    lemma_mapped_composition(
        x.seconds(),
        g1,
        g2,
        hg,
        mg1,
        mg2,
        y.seconds(),
        z.seconds(),
        w.seconds(),
    );
}

/// `r` is `x` with its first slot alone mapped with `f`: the first slot is
/// mapped, and the second holds what it held.
pub open spec fn first_mapped<T, R, F>(x: T, f: F, r: R) -> bool where
    T: Generic2,
    R: Generic2<Second = T::Second>,
    T::First: Clone,
    F: Fn(T::First) -> R::First,
 {
    &&& mapped(x.firsts(), f, r.firsts())
    &&& r.seconds() == x.seconds()
}

/// `r` is `x` with its second slot alone mapped with `g`: the second slot is
/// mapped, and the first holds what it held.
pub open spec fn second_mapped<T, R, G>(x: T, g: G, r: R) -> bool where
    T: Generic2,
    R: Generic2<First = T::First>,
    T::Second: Clone,
    G: Fn(T::Second) -> R::Second,
 {
    &&& r.firsts() == x.firsts()
    &&& mapped(x.seconds(), g, r.seconds())
}

/// Slot independence, first slot: when the second function hands its
/// argument back, `bimap` gives what a mapping of the first slot alone
/// would give.
///
/// `r` stands for any result of `x.bimap(f, g)`.
pub proof fn lemma_bimap_first_alone<T, B, F, G>(
    x: T,
    f: F,
    g: G,
    r: <T as Plug2<B, T::Second>>::Return,
) where
    T: Bifunctor + Plug2<B, T::Second>,
    T::First: Clone,
    T::Second: Clone,
    F: Fn(T::First) -> B,
    G: Fn(T::Second) -> T::Second,

    requires
        clones_exactly::<T::Second>(),
        is_identity(g),
        mapped(x.firsts(), f, r.firsts()),
        mapped(x.seconds(), g, r.seconds()),
    ensures
        first_mapped(x, f, r),
{
    lemma_mapped_identity(x.seconds(), g, r.seconds());
}

/// Slot independence, second slot: when the first function hands its
/// argument back, `bimap` gives what a mapping of the second slot alone
/// would give.
///
/// `r` stands for any result of `x.bimap(f, g)`.
pub proof fn lemma_bimap_second_alone<T, D, F, G>(
    x: T,
    f: F,
    g: G,
    r: <T as Plug2<T::First, D>>::Return,
) where
    T: Bifunctor + Plug2<T::First, D>,
    T::First: Clone,
    T::Second: Clone,
    F: Fn(T::First) -> T::First,
    G: Fn(T::Second) -> D,

    requires
        clones_exactly::<T::First>(),
        is_identity(f),
        mapped(x.firsts(), f, r.firsts()),
        mapped(x.seconds(), g, r.seconds()),
    ensures
        second_mapped(x, g, r),
{
    lemma_mapped_identity(x.firsts(), f, r.firsts());
}

} // verus!
