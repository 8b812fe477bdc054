//! The applicative interface: a container of values combined with a container
//! of functions.

use vstd::prelude::*;
use crate::container::Container;

verus! {

/// A container of `T` that can be combined with a container of the same shape
/// holding a function `F` from `T` to `U`.
///
/// Both operands have the shape of `Self`, which the associated types say: a
/// container of another shape is refused by the type checker.
pub trait Applicative<T, U, F>: Container<T> {
    /// The same shape over `U`.
    type Kind: Container<U>;

    /// The same shape over the function type.
    type Lifted: Container<F>;

    /// Applies the function that `f` holds to the value that `self` holds.
    ///
    /// The result holds a primary value exactly when both operands do; then it
    /// is what the function returns for the value. An operand without a
    /// primary value absorbs the other.
    fn apply<'a>(&'a self, f: Self::Lifted) -> (r: Self::Kind) where T: 'a, F: Fn(&'a T) -> U
        requires
            self.held() matches Some(v) ==> (f.held() matches Some(func) ==> func.requires((&v,))),
        ensures
            match (self.held(), f.held()) {
                (Some(v), Some(func)) => r.held() matches Some(u) && func.ensures((&v,), u),
                _ => r.held() is None,
            },
    ;
}

} // verus!
