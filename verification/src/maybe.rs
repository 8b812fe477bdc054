//! The optional container.

use vstd::prelude::*;
use crate::applicative::Applicative;
use crate::container::{computes, Container};
use crate::functor::Functor;
use crate::monad::Monad;

verus! {

/// A container that holds one value, or none.
#[derive(Debug, PartialEq, Eq)]
pub enum Maybe<T> {
    Just(T),
    Nothing,
}

impl<T> Container<T> for Maybe<T> {
    open spec fn held(&self) -> Option<T> {
        match *self {
            Maybe::Just(v) => Some(v),
            Maybe::Nothing => None,
        }
    }

    /// Holds `value`.
    fn new(value: T) -> (r: Self)
        ensures
            r == Maybe::Just(value),
    {
        Maybe::Just(value)
    }
}

impl<T> Maybe<T> {
    /// `g` of the value, where there is one; nothing otherwise.
    pub open spec fn spec_map<U>(self, g: spec_fn(T) -> U) -> Maybe<U> {
        match self {
            Maybe::Just(v) => Maybe::Just(g(v)),
            Maybe::Nothing => Maybe::Nothing,
        }
    }

    /// What the function in `g` gives for the value, where both are there;
    /// nothing otherwise.
    pub open spec fn spec_apply<U>(self, g: Maybe<spec_fn(T) -> U>) -> Maybe<U> {
        match (self, g) {
            (Maybe::Just(v), Maybe::Just(func)) => Maybe::Just(func(v)),
            _ => Maybe::Nothing,
        }
    }

    /// The container that `g` gives for the value, where there is one; nothing
    /// otherwise.
    pub open spec fn spec_bind<U>(self, g: spec_fn(T) -> Maybe<U>) -> Maybe<U> {
        match self {
            Maybe::Just(v) => g(v),
            Maybe::Nothing => Maybe::Nothing,
        }
    }

    /// Mapping the identity function changes nothing.
    pub proof fn lemma_map_identity(self)
        ensures
            self.spec_map(|v: T| v) == self,
    {
    }

    /// Mapping a composition is mapping its first function, then its second.
    pub proof fn lemma_map_composition<U, V>(self, f: spec_fn(T) -> U, g: spec_fn(U) -> V)
        ensures
            self.spec_map(|v: T| g(f(v))) == self.spec_map(f).spec_map(g),
    {
    }

    /// An empty operand absorbs the other: applying gives nothing as soon as
    /// the values or the functions are missing.
    pub proof fn lemma_apply_absorbs<U>(self, g: Maybe<spec_fn(T) -> U>)
        requires
            self is Nothing || g is Nothing,
        ensures
            self.spec_apply(g) == Maybe::<U>::Nothing,
    {
    }

    /// Binding a freshly wrapped value with `f` is `f` of that value.
    pub proof fn lemma_bind_left_identity<U>(self, v: T, f: spec_fn(T) -> Maybe<U>)
        requires
            self.held() == Some(v),
        ensures
            self.spec_bind(f) == f(v),
    {
    }

    /// Binding with a function that only wraps its argument changes nothing.
    pub proof fn lemma_bind_right_identity(self, wrap: spec_fn(T) -> Maybe<T>)
        requires
            forall|v: T| (#[trigger] wrap(v)).held() == Some(v),
        ensures
            self.spec_bind(wrap) == self,
    {
    }

    /// Binding twice in a row is binding once with the two functions chained.
    pub proof fn lemma_bind_associative<U, V>(
        self,
        f: spec_fn(T) -> Maybe<U>,
        g: spec_fn(U) -> Maybe<V>,
    )
        ensures
            self.spec_bind(f).spec_bind(g) == self.spec_bind(|v: T| f(v).spec_bind(g)),
    {
    }
}

impl<F> Maybe<F> {
    /// The function held, if there is one, computes the function that `g`
    /// holds, and `g` is empty where `self` is.
    pub open spec fn computes<'a, T: 'a, U>(self, g: Maybe<spec_fn(T) -> U>) -> bool where
        F: Fn(&'a T) -> U,
    {
        match (self, g) {
            (Maybe::Just(func), Maybe::Just(model)) => computes(func, model),
            (Maybe::Nothing, Maybe::Nothing) => true,
            _ => false,
        }
    }
}

impl<T, U> Functor<T, U> for Maybe<T> {
    type Kind = Maybe<U>;

    /// Holds what `f` returns for the value, where there is one; nothing
    /// otherwise. Where `f` computes `g`, that is the model's `spec_map(g)`.
    fn map<'a, F: Fn(&'a T) -> U>(&'a self, f: F) -> (r: Maybe<U>) where T: 'a
        ensures
            match *self {
                Maybe::Just(v) => r matches Maybe::Just(u) && f.ensures((&v,), u),
                Maybe::Nothing => r == Maybe::<U>::Nothing,
            },
            forall|g: spec_fn(T) -> U| #[trigger] computes(f, g) ==> r == self.spec_map(g),
    {
        match self {
            Maybe::Just(value) => Maybe::Just(f(value)),
            Maybe::Nothing => Maybe::Nothing,
        }
    }
}

impl<T, U, F> Applicative<T, U, F> for Maybe<T> {
    type Kind = Maybe<U>;

    type Lifted = Maybe<F>;

    /// Holds what the function in `f` returns for the value, where both are
    /// there; nothing otherwise.
    fn apply<'a>(&'a self, f: Maybe<F>) -> (r: Maybe<U>) where T: 'a, F: Fn(&'a T) -> U
        ensures
            match (*self, f) {
                (Maybe::Just(v), Maybe::Just(func)) => r matches Maybe::Just(u) && func.ensures(
                    (&v,),
                    u,
                ),
                _ => r == Maybe::<U>::Nothing,
            },
            forall|g: Maybe<spec_fn(T) -> U>| #[trigger] f.computes(g) ==> r == self.spec_apply(g),
    {
        match self {
            Maybe::Just(value) => match f {
                Maybe::Just(func) => Maybe::Just(func(value)),
                Maybe::Nothing => Maybe::Nothing,
            },
            Maybe::Nothing => Maybe::Nothing,
        }
    }
}

impl<T, U> Monad<T, U> for Maybe<T> {
    type Kind = Maybe<U>;

    /// What `f` returns for the value, where there is one; nothing otherwise.
    fn bind<'a, F: Fn(&'a T) -> Maybe<U>>(&'a self, f: F) -> (r: Maybe<U>) where T: 'a
        ensures
            match *self {
                Maybe::Just(v) => f.ensures((&v,), r),
                Maybe::Nothing => r == Maybe::<U>::Nothing,
            },
            forall|g: spec_fn(T) -> Maybe<U>| #[trigger] computes(f, g) ==> r == self.spec_bind(g),
    {
        match self {
            Maybe::Just(value) => f(value),
            Maybe::Nothing => Maybe::Nothing,
        }
    }
}

} // verus!
