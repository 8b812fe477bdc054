//! The functor interface, in two forms: over a container's primary position,
//! and over one named slot of a container that has several.

use vstd::prelude::*;
use crate::container::Container;

verus! {

/// A container of `T` whose primary value can be transformed into a `U`,
/// which gives a container of the same shape over `U`.
pub trait Functor<T, U>: Container<T> {
    /// The same shape over `U`.
    type Kind: Container<U>;

    /// Applies `f` to the primary value, if there is one, and keeps the shape.
    ///
    /// `f` is called at most once, and only on the primary value, so only there
    /// must its precondition hold.
    fn map<'a, F: Fn(&'a T) -> U>(&'a self, f: F) -> (r: Self::Kind) where T: 'a
        requires
            self.held() matches Some(v) ==> f.requires((&v,)),
        ensures
            match self.held() {
                Some(v) => r.held() matches Some(u) && f.ensures((&v,), u),
                None => r.held() is None,
            },
    ;
}

/// A functor over one slot of a container that may have several.
///
/// `G` names the slot and takes no part in the computation: it tells apart the
/// implementations of one container type, which may even have slots of the
/// same element type. `T` is the slot's element type and `V` the type it is
/// mapped to.
pub trait MultiFunctor<T, G, V>: Sized {
    /// The container with the slot's element type replaced by `V`.
    type Kind;

    /// The value in the slot, if the container holds one there.
    spec fn slot(&self) -> Option<T>;

    /// The value in the same slot of a mapped container.
    spec fn kind_slot(kind: &Self::Kind) -> Option<V>;

    /// Wraps `value`: the new container holds it in the slot.
    fn multi_new(value: T) -> (r: Self)
        ensures
            r.slot() == Some(value),
    ;

    /// Applies `f` to the value in the slot, if there is one, and leaves a
    /// container that holds its value elsewhere in that state.
    fn multi_map<'a, F: Fn(&'a T) -> V>(&'a self, f: F) -> (r: Self::Kind) where T: 'a
        requires
            self.slot() matches Some(v) ==> f.requires((&v,)),
        ensures
            match self.slot() {
                Some(v) => Self::kind_slot(&r) matches Some(u) && f.ensures((&v,), u),
                None => Self::kind_slot(&r) is None,
            },
    ;
}

/// Every functor is a functor over its primary position, named by the element
/// type itself.
impl<C, T, V> MultiFunctor<T, T, V> for C where C: Functor<T, V> {
    type Kind = <C as Functor<T, V>>::Kind;

    open spec fn slot(&self) -> Option<T> {
        self.held()
    }

    open spec fn kind_slot(kind: &Self::Kind) -> Option<V> {
        kind.held()
    }

    fn multi_new(value: T) -> (r: Self) {
        C::new(value)
    }

    fn multi_map<'a, F: Fn(&'a T) -> V>(&'a self, f: F) -> (r: Self::Kind) where T: 'a {
        Functor::<T, V>::map(self, f)
    }
}

} // verus!
