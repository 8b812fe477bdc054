//! The choice container.

use vstd::prelude::*;
use crate::applicative::Applicative;
use crate::container::{computes, Container};
use crate::functor::MultiFunctor;
use crate::monad::Monad;

verus! {

/// A container that holds either a primary value, on the left, or a secondary
/// value of another type, on the right.
///
/// The operations work on the left value. A right value ends the computation:
/// it is carried into the result as it is. Where the container is only
/// borrowed, the result gets a clone of it; an operand that is passed by value
/// gives its right value away.
#[derive(Debug, PartialEq, Eq)]
pub enum Either<L, R> {
    Left(L),
    Right(R),
}

impl<L, R> Container<L> for Either<L, R> {
    open spec fn held(&self) -> Option<L> {
        self.left()
    }

    /// Holds `value` on the left.
    fn new(value: L) -> (r: Self)
        ensures
            r == Either::<L, R>::Left(value),
    {
        Either::Left(value)
    }
}

impl<L, R> Either<L, R> {
    /// The left value, if that is what the container holds.
    pub open spec fn left(self) -> Option<L> {
        match self {
            Either::Left(v) => Some(v),
            Either::Right(_) => None,
        }
    }

    /// The right value, if that is what the container holds.
    pub open spec fn right(self) -> Option<R> {
        match self {
            Either::Left(_) => None,
            Either::Right(e) => Some(e),
        }
    }

    /// `g` of the left value; a right value stays.
    pub open spec fn spec_map<V>(self, g: spec_fn(L) -> V) -> Either<V, R> {
        match self {
            Either::Left(v) => Either::Left(g(v)),
            Either::Right(e) => Either::Right(e),
        }
    }

    /// `g` of the right value; a left value stays.
    pub open spec fn spec_map_right<V>(self, g: spec_fn(R) -> V) -> Either<L, V> {
        match self {
            Either::Left(e) => Either::Left(e),
            Either::Right(v) => Either::Right(g(v)),
        }
    }

    /// What the function in `g` gives for the left value, where both are left
    /// values. Otherwise the right value of `self`, or else that of `g`.
    pub open spec fn spec_apply<V>(self, g: Either<spec_fn(L) -> V, R>) -> Either<V, R> {
        match self {
            Either::Left(v) => match g {
                Either::Left(func) => Either::Left(func(v)),
                Either::Right(e) => Either::Right(e),
            },
            Either::Right(e) => Either::Right(e),
        }
    }

    /// The container that `g` gives for the left value; a right value stays.
    pub open spec fn spec_bind<V>(self, g: spec_fn(L) -> Either<V, R>) -> Either<V, R> {
        match self {
            Either::Left(v) => g(v),
            Either::Right(e) => Either::Right(e),
        }
    }

    /// Mapping the identity function changes nothing.
    pub proof fn lemma_map_identity(self)
        ensures
            self.spec_map(|v: L| v) == self,
            self.spec_map_right(|v: R| v) == self,
    {
    }

    /// Mapping a composition is mapping its first function, then its second.
    pub proof fn lemma_map_composition<U, V>(self, f: spec_fn(L) -> U, g: spec_fn(U) -> V)
        ensures
            self.spec_map(|v: L| g(f(v))) == self.spec_map(f).spec_map(g),
    {
    }

    /// The same on the right: mapping a composition is mapping its first
    /// function, then its second.
    pub proof fn lemma_map_right_composition<U, V>(self, f: spec_fn(R) -> U, g: spec_fn(U) -> V)
        ensures
            self.spec_map_right(|v: R| g(f(v))) == self.spec_map_right(f).spec_map_right(g),
    {
    }

    /// A right value absorbs the other operand: applying gives the right value
    /// of `self`, whatever `g` holds, and else the right value of `g`.
    pub proof fn lemma_apply_absorbs<V>(self, g: Either<spec_fn(L) -> V, R>)
        ensures
            self matches Either::Right(e) ==> self.spec_apply(g) == Either::<V, R>::Right(e),
            self is Left ==> (g matches Either::Right(e) ==> self.spec_apply(g) == Either::<
                V,
                R,
            >::Right(e)),
    {
    }

    /// Binding a freshly wrapped value with `f` is `f` of that value.
    pub proof fn lemma_bind_left_identity<V>(self, v: L, f: spec_fn(L) -> Either<V, R>)
        requires
            self.held() == Some(v),
        ensures
            self.spec_bind(f) == f(v),
    {
    }

    /// Binding with a function that only wraps its argument changes nothing.
    pub proof fn lemma_bind_right_identity(self, wrap: spec_fn(L) -> Either<L, R>)
        requires
            forall|v: L| (#[trigger] wrap(v)).held() == Some(v),
        ensures
            self.spec_bind(wrap) == self,
    {
    }

    /// Binding twice in a row is binding once with the two functions chained.
    pub proof fn lemma_bind_associative<U, V>(
        self,
        f: spec_fn(L) -> Either<U, R>,
        g: spec_fn(U) -> Either<V, R>,
    )
        ensures
            self.spec_bind(f).spec_bind(g) == self.spec_bind(|v: L| f(v).spec_bind(g)),
    {
    }
}

impl<L, R: Clone> Either<L, R> {
    /// `other` is `self`, but that in place of a right value it may hold a
    /// clone of it.
    pub open spec fn right_cloned_to(self, other: Self) -> bool {
        match (self, other) {
            (Either::Left(a), Either::Left(b)) => a == b,
            (Either::Right(a), Either::Right(b)) => cloned(a, b),
            _ => false,
        }
    }
}

impl<L: Clone, R> Either<L, R> {
    /// `other` is `self`, but that in place of a left value it may hold a
    /// clone of it.
    pub open spec fn left_cloned_to(self, other: Self) -> bool {
        match (self, other) {
            (Either::Left(a), Either::Left(b)) => cloned(a, b),
            (Either::Right(a), Either::Right(b)) => a == b,
            _ => false,
        }
    }
}

impl<F, R> Either<F, R> {
    /// The function held on the left, if there is one, computes the function
    /// that `g` holds there, and `g` holds the same right value as `self`.
    pub open spec fn computes<'a, T: 'a, U>(self, g: Either<spec_fn(T) -> U, R>) -> bool where
        F: Fn(&'a T) -> U,
    {
        match (self, g) {
            (Either::Left(func), Either::Left(model)) => computes(func, model),
            (Either::Right(a), Either::Right(b)) => a == b,
            _ => false,
        }
    }
}

/// The functor over the left slot.
impl<L, R: Clone, V> MultiFunctor<L, ((L, R), L), V> for Either<L, R> {
    type Kind = Either<V, R>;

    open spec fn slot(&self) -> Option<L> {
        self.left()
    }

    open spec fn kind_slot(kind: &Either<V, R>) -> Option<V> {
        kind.left()
    }

    fn multi_new(value: L) -> (r: Self) {
        Either::Left(value)
    }

    /// Holds on the left what `f` returns for the left value; a right value
    /// is cloned into the result.
    fn multi_map<'a, F: Fn(&'a L) -> V>(&'a self, f: F) -> (r: Either<V, R>) where L: 'a
        ensures
            match *self {
                Either::Left(v) => r matches Either::Left(u) && f.ensures((&v,), u),
                Either::Right(e) => r matches Either::Right(d) && cloned(e, d),
            },
            forall|g: spec_fn(L) -> V| #[trigger]
                computes(f, g) ==> self.spec_map(g).right_cloned_to(r),
    {
        match self {
            Either::Left(value) => Either::Left(f(value)),
            Either::Right(value) => Either::Right(value.clone()),
        }
    }
}

/// The functor over the right slot.
impl<L: Clone, R, V> MultiFunctor<R, ((L, R), L, R), V> for Either<L, R> {
    type Kind = Either<L, V>;

    open spec fn slot(&self) -> Option<R> {
        self.right()
    }

    open spec fn kind_slot(kind: &Either<L, V>) -> Option<V> {
        kind.right()
    }

    fn multi_new(value: R) -> (r: Self) {
        Either::Right(value)
    }

    /// Holds on the right what `f` returns for the right value; a left value
    /// is cloned into the result.
    fn multi_map<'a, F: Fn(&'a R) -> V>(&'a self, f: F) -> (r: Either<L, V>) where R: 'a
        ensures
            match *self {
                Either::Left(e) => r matches Either::Left(d) && cloned(e, d),
                Either::Right(v) => r matches Either::Right(u) && f.ensures((&v,), u),
            },
            forall|g: spec_fn(R) -> V| #[trigger]
                computes(f, g) ==> self.spec_map_right(g).left_cloned_to(r),
    {
        match self {
            Either::Left(value) => Either::Left(value.clone()),
            Either::Right(value) => Either::Right(f(value)),
        }
    }
}

impl<T, R: Clone, V, F> Applicative<T, V, F> for Either<T, R> {
    type Kind = Either<V, R>;

    type Lifted = Either<F, R>;

    /// Holds on the left what the function in `f` returns for the left value,
    /// where both are left values. Otherwise the result is a right value: a
    /// clone of the one in `self`, or else the one that `f` held, moved.
    fn apply<'a>(&'a self, f: Either<F, R>) -> (r: Either<V, R>) where T: 'a, F: Fn(&'a T) -> V
        ensures
            match (*self, f) {
                (Either::Left(v), Either::Left(func)) => r matches Either::Left(u) && func.ensures(
                    (&v,),
                    u,
                ),
                (Either::Left(_), Either::Right(e)) => r == Either::<V, R>::Right(e),
                (Either::Right(e), _) => r matches Either::Right(d) && cloned(e, d),
            },
            forall|g: Either<spec_fn(T) -> V, R>| #[trigger]
                f.computes(g) ==> self.spec_apply(g).right_cloned_to(r),
    {
        match self {
            Either::Left(value) => match f {
                Either::Left(func) => Either::Left(func(value)),
                Either::Right(other) => Either::Right(other),
            },
            Either::Right(value) => Either::Right(value.clone()),
        }
    }
}

impl<T, R: Clone, V> Monad<T, V> for Either<T, R> {
    type Kind = Either<V, R>;

    /// What `f` returns for the left value, be it a left or a right value; a
    /// right value in `self` is cloned into the result.
    fn bind<'a, F: Fn(&'a T) -> Either<V, R>>(&'a self, f: F) -> (r: Either<V, R>) where T: 'a
        ensures
            match *self {
                Either::Left(v) => f.ensures((&v,), r),
                Either::Right(e) => r matches Either::Right(d) && cloned(e, d),
            },
            forall|g: spec_fn(T) -> Either<V, R>| #[trigger]
                computes(f, g) ==> self.spec_bind(g).right_cloned_to(r),
    {
        match self {
            Either::Left(value) => f(value),
            Either::Right(value) => Either::Right(value.clone()),
        }
    }
}

} // verus!
