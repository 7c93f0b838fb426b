//! The applying capability: run functions held in a container on values held
//! in a container of the same family.
use crate::base::{mapped, takes, yields, Generic1, Plug};
use crate::functor::Functor;
use vstd::prelude::*;

verus! {

/// Each function of `fs` may be called on each value of `xs`.
pub open spec fn takes_all<A: Clone, B, F: Fn(A) -> B>(fs: Seq<F>, xs: Seq<A>) -> bool {
    forall|i: int, j: int|
        #![trigger fs[i], xs[j]]
        0 <= i < fs.len() && 0 <= j < xs.len() ==> takes(fs[i], xs[j])
}

/// `ys` is every function of `fs` applied to every value of `xs`: one run of
/// results per function, in the order of `fs`, and within a run one result
/// per value, in the order of `xs`.
pub open spec fn applied<A: Clone, B, F: Fn(A) -> B>(xs: Seq<A>, fs: Seq<F>, ys: Seq<B>) -> bool {
    &&& ys.len() == fs.len() * xs.len()
    &&& forall|i: int, j: int|
        #![trigger fs[i], xs[j]]
        0 <= i < fs.len() && 0 <= j < xs.len() ==> yields(fs[i], xs[j], ys[i * xs.len() + j])
}

/// A functor that can also lift a plain value into the container (`pure`)
/// and apply functions held in a container to the values held in another
/// (`apply`): given an `F<A -> B>` and an `F<A>`, it produces an `F<B>`.
///
/// The container of functions is the container type itself with the
/// function type in its slot. The receiver is only read.
pub trait Applicative: Functor where Self::Inner: Clone {
    /// The container that holds `b` and nothing else.
    fn pure<B>(b: B) -> (r: <Self as Plug<B>>::Return) where Self: Plug<B>
        ensures
            r.contents() == seq![b],
    ;

    /// Every function of `fs` applied to every value of the receiver.
    fn apply<B, F>(&self, fs: <Self as Plug<F>>::Return) -> (r: <Self as Plug<B>>::Return) where
        Self: Plug<B> + Plug<F>,
        F: Fn(Self::Inner) -> B,

        requires
            takes_all(fs.contents(), self.contents()),
        ensures
            applied(self.contents(), fs.contents(), r.contents()),
    ;
}

impl<A: Copy> Applicative for Option<A> {
    fn pure<B>(b: B) -> (r: <Self as Plug<B>>::Return)
        ensures
            r == Some(b),
    {
        Some(b)
    }

    /// Present only when both the value and the function are present.
    fn apply<B, F>(&self, fs: <Self as Plug<F>>::Return) -> (r: <Self as Plug<B>>::Return) where
        F: Fn(A) -> B,

        ensures
            match (*self, fs) {
                (Some(a), Some(f)) => r matches Some(b) && call_ensures(f, (a,), b),
                _ => r is None,
            },
    {
        match self {
            None => None,
            Some(a) => {
                assert(self.contents()[0] == *a);
                assert(fs is Some ==> fs.contents()[0] == fs->0 && cloned(*a, *a));
                let on_a = |f: F| -> (b: B)
                    requires
                        call_requires(f, (*a,)),
                    ensures
                        call_ensures(f, (*a,), b),
                    { f(*a) };
                let r = fs.map(on_a);
                assert(r is Some ==> r.contents()[0] == r->0);
                r
            },
        }
    }
}

impl<A: Copy> Applicative for Vec<A> {
    fn pure<B>(b: B) -> (r: <Self as Plug<B>>::Return)
        ensures
            r@ == seq![b],
    {
        vec![b]
    }

    /// The functions are taken in order, and the results of each one on all
    /// the values, in order, are appended to what the functions before it
    /// gave.
    fn apply<B, F>(&self, fs: <Self as Plug<F>>::Return) -> (r: <Self as Plug<B>>::Return) where
        F: Fn(A) -> B,
    {
        let mut ret: Vec<B> = Vec::new();
        let ghost n = self@.len() as int;

        for func in it: fs
            invariant
                n == self@.len(),
                takes_all(fs@, self@),
                ret@.len() == it.index() * n,
                forall|i: int, j: int|
                    #![trigger fs@[i], self@[j]]
                    0 <= i < it.index() && 0 <= j < n ==> yields(fs@[i], self@[j], ret@[i * n + j]),
        {
            let ghost k = it.index() as int;
            let ghost before = ret@;
            let mut part = self.fmap(func);
            let ghost run = part@;
            ret.append(&mut part);
            proof {
                assert((k + 1) * n == k * n + n) by (nonlinear_arith);
                assert forall|i: int, j: int| 0 <= i < k + 1 && 0 <= j < n implies yields(
                    fs@[i],
                    self@[j],
                    ret@[i * n + j],
                ) by {
                    if i < k {
                        assert(0 <= i * n + j < k * n) by (nonlinear_arith)
                            requires
                                0 <= i < k,
                                0 <= j < n,
                        ;
                        assert(ret@[i * n + j] == before[i * n + j]);
                    } else {
                        assert(ret@[k * n + j] == run[j]);
                    }
                }
            }
        }

        ret
    }
}

/// Applying a single function is mapping with it: a result of `apply` with a
/// container that holds `f` and nothing else is a result of `fmap` with `f`.
///
/// `r` stands for any result of `x.apply(fs)`.
pub proof fn lemma_apply_one_is_fmap<T, B, F>(
    x: T,
    fs: <T as Plug<F>>::Return,
    f: F,
    r: <T as Plug<B>>::Return,
) where T: Applicative + Plug<B> + Plug<F>, T::Inner: Clone, F: Fn(T::Inner) -> B
    requires
        fs.contents() == seq![f],
        applied(x.contents(), fs.contents(), r.contents()),
    ensures
        mapped(x.contents(), f, r.contents()),
{
    let xs = x.contents();
    let rs = r.contents();
    assert(rs.len() == xs.len()) by (nonlinear_arith)
        requires
            rs.len() == 1 * xs.len(),
    ;
    assert forall|j: int| 0 <= j < xs.len() implies yields(f, xs[j], #[trigger] rs[j]) by {
        assert(fs.contents()[0] == f);
        assert(0 * xs.len() + j == j) by (nonlinear_arith);
        assert(yields(fs.contents()[0], xs[j], rs[0 * xs.len() + j]));
    }
}

} // verus!
