//! Functor, applicative and monad interfaces over three small container
//! shapes: a single-value wrapper, an optional value and a two-sided choice.
//!
//! Every operation is a pure function. Its contract says what it returns in
//! terms of the contract of the function it is given; each shape also has a
//! mathematical model over `spec_fn` functions, for which the usual laws are
//! proved.

pub mod applicative;
pub mod container;
pub mod either;
pub mod functor;
pub mod identity;
pub mod maybe;
pub mod monad;

pub use crate::applicative::Applicative;
pub use crate::container::Container;
pub use crate::either::Either;
pub use crate::functor::Functor;
pub use crate::functor::MultiFunctor;
pub use crate::identity::Identity;
pub use crate::maybe::Maybe;
pub use crate::monad::Monad;
