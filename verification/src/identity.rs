//! The single-value container.

use vstd::prelude::*;
use crate::applicative::Applicative;
use crate::container::{computes, Container};
use crate::functor::Functor;
use crate::monad::Monad;

verus! {

/// A container that always holds exactly one value.
#[derive(Debug, PartialEq, Eq)]
pub struct Identity<T> {
    pub value: T,
}

impl<T> Container<T> for Identity<T> {
    open spec fn held(&self) -> Option<T> {
        Some(self.value)
    }

    /// Holds `value`.
    fn new(value: T) -> (r: Self)
        ensures
            r.value == value,
    {
        Identity { value }
    }
}

impl<T> Identity<T> {
    /// The container that holds `g` of the value.
    pub open spec fn spec_map<U>(self, g: spec_fn(T) -> U) -> Identity<U> {
        Identity { value: g(self.value) }
    }

    /// The container that holds what the function in `g` gives for the value.
    pub open spec fn spec_apply<U>(self, g: Identity<spec_fn(T) -> U>) -> Identity<U> {
        Identity { value: (g.value)(self.value) }
    }

    /// The container that `g` gives for the value.
    pub open spec fn spec_bind<U>(self, g: spec_fn(T) -> Identity<U>) -> Identity<U> {
        g(self.value)
    }

    /// Mapping the identity function changes nothing.
    pub proof fn lemma_map_identity(self)
        ensures
            self.spec_map(|v: T| v) == self,
    {
    }

    /// Mapping a composition is mapping its first function, then its second.
    pub proof fn lemma_map_composition<U, V>(self, f: spec_fn(T) -> U, g: spec_fn(U) -> V)
        ensures
            self.spec_map(|v: T| g(f(v))) == self.spec_map(f).spec_map(g),
    {
    }

    /// Binding a freshly wrapped value with `f` is `f` of that value.
    pub proof fn lemma_bind_left_identity<U>(self, v: T, f: spec_fn(T) -> Identity<U>)
        requires
            self.held() == Some(v),
        ensures
            self.spec_bind(f) == f(v),
    {
    }

    /// Binding with a function that only wraps its argument changes nothing.
    pub proof fn lemma_bind_right_identity(self, wrap: spec_fn(T) -> Identity<T>)
        requires
            forall|v: T| (#[trigger] wrap(v)).held() == Some(v),
        ensures
            self.spec_bind(wrap) == self,
    {
    }

    /// Binding twice in a row is binding once with the two functions chained.
    pub proof fn lemma_bind_associative<U, V>(
        self,
        f: spec_fn(T) -> Identity<U>,
        g: spec_fn(U) -> Identity<V>,
    )
        ensures
            self.spec_bind(f).spec_bind(g) == self.spec_bind(|v: T| f(v).spec_bind(g)),
    {
    }
}

impl<T, U> Functor<T, U> for Identity<T> {
    type Kind = Identity<U>;

    /// Holds what `f` returns for the value. Where `f` computes `g`, that is
    /// the model's `spec_map(g)`.
    fn map<'a, F: Fn(&'a T) -> U>(&'a self, f: F) -> (r: Identity<U>) where T: 'a
        ensures
            f.ensures((&self.value,), r.value),
            forall|g: spec_fn(T) -> U| #[trigger] computes(f, g) ==> r == self.spec_map(g),
    {
        Identity { value: f(&self.value) }
    }
}

impl<T, U, F> Applicative<T, U, F> for Identity<T> {
    type Kind = Identity<U>;

    type Lifted = Identity<F>;

    /// Holds what the function in `f` returns for the value.
    fn apply<'a>(&'a self, f: Identity<F>) -> (r: Identity<U>) where T: 'a, F: Fn(&'a T) -> U
        ensures
            f.value.ensures((&self.value,), r.value),
            forall|g: Identity<spec_fn(T) -> U>| #[trigger]
                computes(f.value, g.value) ==> r == self.spec_apply(g),
    {
        let Identity { value: func } = f;
        Identity { value: func(&self.value) }
    }
}

impl<T, U> Monad<T, U> for Identity<T> {
    type Kind = Identity<U>;

    /// What `f` returns for the value.
    fn bind<'a, F: Fn(&'a T) -> Identity<U>>(&'a self, f: F) -> (r: Identity<U>) where T: 'a
        ensures
            f.ensures((&self.value,), r),
            forall|g: spec_fn(T) -> Identity<U>| #[trigger] computes(f, g) ==> r == self.spec_bind(g),
    {
        f(&self.value)
    }
}

} // verus!
