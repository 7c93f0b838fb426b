//! The mapping capability: transform what a container holds, keeping its shape.
use crate::base::{
    clones_exactly, computes, is_identity, lemma_mapped_composition, lemma_mapped_identity,
    mapped, takes_each, yields, Generic1, Plug,
};
use vstd::prelude::*;

verus! {

/// A structure-preserving mapping: `fmap` turns an `F<A>` into an `F<B>`
/// when given a function from `A` to `B`.
///
/// The receiver is only read. Each held value is cloned before it is handed
/// to the function, so the result owns its data and has no relation to the
/// receiver.
pub trait Functor: Generic1 where Self::Inner: Clone {
    /// The container of the same shape that holds, position by position,
    /// what `f` makes of the values held.
    fn fmap<B, F>(&self, f: F) -> (r: <Self as Plug<B>>::Return) where
        Self: Plug<B>,
        F: Fn(Self::Inner) -> B,

        requires
            takes_each(f, self.contents()),
        ensures
            mapped(self.contents(), f, r.contents()),
    ;
}

impl<A> Generic1 for Option<A> {
    type Inner = A;

    open spec fn contents(&self) -> Seq<A> {
        match *self {
            Some(a) => seq![a],
            None => Seq::empty(),
        }
    }
}

impl<A, B> Plug<B> for Option<A> {
    type Return = Option<B>;
}

impl<A> Generic1 for Vec<A> {
    type Inner = A;

    open spec fn contents(&self) -> Seq<A> {
        self@
    }
}

impl<A, B> Plug<B> for Vec<A> {
    type Return = Vec<B>;
}

impl<A: Clone> Functor for Option<A> {
    /// Absent stays absent; a present value is replaced by what `f` makes of it.
    fn fmap<B, F>(&self, f: F) -> (r: <Self as Plug<B>>::Return) where F: Fn(A) -> B
        ensures
            match *self {
                Some(a) => r matches Some(b) && yields(f, a, b),
                None => r is None,
            },
    {
        assert(*self is Some ==> self.contents()[0] == self->0);
        let r = self.clone().map(f);
        assert(r is Some ==> r.contents()[0] == r->0);
        r
    }
}

impl<A: Clone> Functor for Vec<A> {
    /// As many values as before, in the same order.
    fn fmap<B, F>(&self, f: F) -> (r: <Self as Plug<B>>::Return) where F: Fn(A) -> B
    {
        let mut r: Vec<B> = Vec::new();
        let mut i: usize = 0;
        while i < self.len()
            invariant
                i <= self.len(),
                r.len() == i,
                takes_each(f, self@),
                forall|k: int| 0 <= k < i ==> yields(f, self@[k], #[trigger] r@[k]),
            decreases self.len() - i,
        {
            r.push(f(self[i].clone()));
            i += 1;
        }
        r
    }
}

/// Identity law: mapping with a function that hands its argument back gives
/// a container that holds what the receiver holds.
///
/// `r` stands for any result of `x.fmap(f)`. The content type must clone
/// exactly, since `fmap` hands clones to `f`.
pub proof fn lemma_fmap_identity<T, F>(x: T, f: F, r: <T as Plug<T::Inner>>::Return) where
    T: Functor + Plug<T::Inner>,
    T::Inner: Clone,
    F: Fn(T::Inner) -> T::Inner,

    requires
        clones_exactly::<T::Inner>(),
        is_identity(f),
        mapped(x.contents(), f, r.contents()),
    ensures
        r.contents() == x.contents(),
{
    lemma_mapped_identity(x.contents(), f, r.contents());
}

/// The identity law for the optional value, where holding the same contents
/// means being the same value.
pub proof fn lemma_fmap_identity_option<A: Clone, F: Fn(A) -> A>(x: Option<A>, f: F, r: Option<A>)
    requires
        clones_exactly::<A>(),
        is_identity(f),
        mapped(x.contents(), f, r.contents()),
    ensures
        r == x,
{
    lemma_fmap_identity(x, f, r);
    if x is Some {
        assert(r.contents()[0] == x.contents()[0]);
    }
}

/// Composition law: mapping with `f` and then with `g` gives what mapping
/// once with `f` followed by `g` gives.
///
/// `y` stands for any result of `x.fmap(f)`, `z` for any result of
/// `y.fmap(g)`, and `w` for any result of `x.fmap(h)`, where `h` is `f`
/// followed by `g`. What the three compute is given by `mf` and `mg`: `f`
/// computes `mf`, `g` computes `mg`, and `h` computes `mf` followed by
/// `mg`. The content types must clone exactly.
pub proof fn lemma_fmap_composition<T, B, C, F, G, H>(
    x: T,
    f: F,
    g: G,
    h: H,
    mf: spec_fn(T::Inner) -> B,
    mg: spec_fn(B) -> C,
    y: <T as Plug<B>>::Return,
    z: <<T as Plug<B>>::Return as Plug<C>>::Return,
    w: <T as Plug<C>>::Return,
) where
    T: Functor + Plug<B> + Plug<C>,
    <T as Plug<B>>::Return: Functor + Plug<C>,
    T::Inner: Clone,
    B: Clone,
    F: Fn(T::Inner) -> B,
    G: Fn(B) -> C,
    H: Fn(T::Inner) -> C,

    requires
        clones_exactly::<T::Inner>(),
        clones_exactly::<B>(),
        computes(f, mf),
        computes(g, mg),
        computes(h, |a: T::Inner| mg(mf(a))),
        mapped(x.contents(), f, y.contents()),
        mapped(y.contents(), g, z.contents()),
        mapped(x.contents(), h, w.contents()),
    ensures
        z.contents() == w.contents(),
{
    lemma_mapped_composition(
        x.contents(),
        f,
        g,
        h,
        mf,
        mg,
        y.contents(),
        z.contents(),
        w.contents(),
    );
}

} // verus!
