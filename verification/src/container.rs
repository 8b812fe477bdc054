//! What the three interfaces share: how a container is built and what it
//! holds, and what it means for an executable function to compute a
//! mathematical one.

use vstd::prelude::*;

verus! {

/// A value that holds at most one element of type `T` in its primary position.
///
/// A container that holds no primary value is empty, or holds a secondary value
/// of another type in its place.
pub trait Container<T>: Sized {
    /// The value in the primary position, if there is one.
    spec fn held(&self) -> Option<T>;

    /// Wraps `value`: the new container holds it in its primary position.
    fn new(value: T) -> (r: Self)
        ensures
            r.held() == Some(value),
    ;
}

/// `f` computes `g`: whatever `f` returns for an argument `x` is `g(x)`.
///
/// This holds of a closure whose `ensures` clause fixes its result, and it is
/// how the contracts of this crate tie an executable function to the
/// mathematical function that the models and the laws speak of.
pub open spec fn computes<'a, T: 'a, U, F: Fn(&'a T) -> U>(f: F, g: spec_fn(T) -> U) -> bool {
    forall|x: T, y: U| #[trigger] f.ensures((&x,), y) ==> y == g(x)
}

} // verus!
