//! The monad interface: sequencing a container with a function that returns
//! a container.

use vstd::prelude::*;
use crate::container::Container;

verus! {

/// A container of `T` that can be sequenced with a function from `T` to a
/// container of the same shape over `U`.
pub trait Monad<T, U>: Container<T> {
    /// The same shape over `U`.
    type Kind: Container<U>;

    /// Hands the primary value to `f` and returns the container that `f`
    /// returns, with no further wrapping. Without a primary value `f` is not
    /// called and the result has none either.
    fn bind<'a, F: Fn(&'a T) -> Self::Kind>(&'a self, f: F) -> (r: Self::Kind) where T: 'a
        requires
            self.held() matches Some(v) ==> f.requires((&v,)),
        ensures
            match self.held() {
                Some(v) => f.ensures((&v,), r),
                None => r.held() is None,
            },
    ;
}

} // verus!
