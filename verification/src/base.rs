//! The two facts every container registers about itself, and the vocabulary
//! in which the mapping capabilities state what they do.
use vstd::prelude::*;

verus! {

/// A container type with one slot: names the type that currently sits in it.
///
/// `contents` is the mathematical view of a value: what it holds in the slot,
/// in positional order. It exists only in proofs.
pub trait Generic1 {
    type Inner;

    spec fn contents(&self) -> Seq<Self::Inner>;
}

/// The same as [`Generic1`], for a container type with two independent slots.
pub trait Generic2 {
    type First;

    type Second;

    /// What the value holds in its first slot, in positional order.
    spec fn firsts(&self) -> Seq<Self::First>;

    /// What the value holds in its second slot, in positional order.
    spec fn seconds(&self) -> Seq<Self::Second>;
}

/// The container type that results when `B` is put into the slot of `Self`.
///
/// It is registered once per container family, for every `B`.
pub trait Plug<B> {
    type Return: Generic1<Inner = B>;
}

/// The same as [`Plug`], replacing both slots of a two-slot container.
pub trait Plug2<B, D> {
    type Return: Generic2<First = B, Second = D>;
}

/// A container parameterised by what it takes in rather than by what it
/// holds: it can be asked about an `Inner` and gives an `Answer`.
///
/// `admits` and `answers` are the mathematical view of such a container:
/// what it may be asked about, and what it can answer. `ask` is how the
/// capabilities built on this trait pass an input on to the container
/// they were given.
pub trait Query: Sized {
    type Inner;

    type Answer;

    /// The container may be asked about `a`.
    spec fn admits(&self, a: Self::Inner) -> bool;

    /// `r` is something the container can answer when asked about `a`.
    spec fn answers(&self, a: Self::Inner, r: Self::Answer) -> bool;

    fn ask(&self, a: Self::Inner) -> (r: Self::Answer)
        requires
            self.admits(a),
        ensures
            self.answers(a, r),
    ;
}

/// `f` may be called on what a container holds as `a`: on `a` itself and on
/// every clone of it.
pub open spec fn takes<A: Clone, B, F: Fn(A) -> B>(f: F, a: A) -> bool {
    forall|c: A| cloned(a, c) ==> #[trigger] call_requires(f, (c,))
}

/// `b` is something `f` can return for what a container holds as `a`: the
/// result of calling `f` on `a` itself or on a clone of it.
pub open spec fn yields<A: Clone, B, F: Fn(A) -> B>(f: F, a: A, b: B) -> bool {
    exists|c: A| cloned(a, c) && #[trigger] call_ensures(f, (c,), b)
}

/// `f` may be called on each value of `xs`.
pub open spec fn takes_each<A: Clone, B, F: Fn(A) -> B>(f: F, xs: Seq<A>) -> bool {
    forall|i: int| 0 <= i < xs.len() ==> takes(f, #[trigger] xs[i])
}

/// `ys` is `xs` with `f` applied position by position: as many values, in
/// the same order, each one a result of `f` on the value at its position.
pub open spec fn mapped<A: Clone, B, F: Fn(A) -> B>(xs: Seq<A>, f: F, ys: Seq<B>) -> bool {
    &&& ys.len() == xs.len()
    &&& forall|i: int| 0 <= i < xs.len() ==> yields(f, xs[i], #[trigger] ys[i])
}

/// A clone of an `A` is always equal to the value it was made from.
pub open spec fn clones_exactly<A: Clone>() -> bool {
    forall|a: A, c: A| #[trigger] cloned(a, c) ==> c == a
}

/// `f` hands its argument back.
pub open spec fn is_identity<A, F: Fn(A) -> A>(f: F) -> bool {
    forall|a: A, b: A| #[trigger] call_ensures(f, (a,), b) ==> b == a
}

/// `f` may be called on every argument.
pub open spec fn is_total<A, B, F: Fn(A) -> B>(f: F) -> bool {
    forall|a: A| #[trigger] call_requires(f, (a,))
}

/// `f` computes `m`: whatever `f` returns for an argument is what `m` gives
/// for it.
pub open spec fn computes<A, B, F: Fn(A) -> B>(f: F, m: spec_fn(A) -> B) -> bool {
    forall|a: A, b: B| #[trigger] call_ensures(f, (a,), b) ==> b == m(a)
}

/// Applying a function that hands its argument back, position by position,
/// gives the sequence one started from.
pub proof fn lemma_mapped_identity<A: Clone, F: Fn(A) -> A>(xs: Seq<A>, f: F, ys: Seq<A>)
    requires
        clones_exactly::<A>(),
        is_identity(f),
        mapped(xs, f, ys),
    ensures
        ys == xs,
{
    assert forall|i: int| 0 <= i < xs.len() implies ys[i] == xs[i] by {
        assert(yields(f, xs[i], ys[i]));
    }
    assert(ys =~= xs);
}

/// Where `f` computes `m`, applying `f` position by position is mapping
/// with `m`.
pub proof fn lemma_mapped_computes<A: Clone, B, F: Fn(A) -> B>(
    xs: Seq<A>,
    f: F,
    m: spec_fn(A) -> B,
    ys: Seq<B>,
)
    requires
        clones_exactly::<A>(),
        computes(f, m),
        mapped(xs, f, ys),
    ensures
        ys == xs.map_values(m),
{
    assert forall|i: int| 0 <= i < xs.len() implies ys[i] == m(xs[i]) by {
        assert(yields(f, xs[i], ys[i]));
    }
    assert(ys =~= xs.map_values(m));
}

/// Applying `f` and then `g`, position by position, gives what applying `f`
/// followed by `g` in one pass gives.
pub proof fn lemma_mapped_composition<A: Clone, B: Clone, C, F, G, H>(
    xs: Seq<A>,
    f: F,
    g: G,
    h: H,
    mf: spec_fn(A) -> B,
    mg: spec_fn(B) -> C,
    ys: Seq<B>,
    zs: Seq<C>,
    ws: Seq<C>,
) where F: Fn(A) -> B, G: Fn(B) -> C, H: Fn(A) -> C
    requires
        clones_exactly::<A>(),
        clones_exactly::<B>(),
        computes(f, mf),
        computes(g, mg),
        computes(h, |a: A| mg(mf(a))),
        mapped(xs, f, ys),
        mapped(ys, g, zs),
        mapped(xs, h, ws),
    ensures
        zs == ws,
{
    lemma_mapped_computes(xs, f, mf, ys);
    lemma_mapped_computes(ys, g, mg, zs);
    lemma_mapped_computes(xs, h, |a: A| mg(mf(a)), ws);
    assert(zs =~= ws);
}

} // verus!
