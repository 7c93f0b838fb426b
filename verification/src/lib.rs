//! Shape-preserving transformations for container-like types.
//!
//! A container says which type sits in its slot ([`base::Generic1`],
//! [`base::Generic2`]) and which container type results when another type is
//! put there ([`base::Plug`], [`base::Plug2`]). On top of these two facts the
//! mapping capabilities are defined once and implemented per container.
pub mod applicative;
pub mod base;
pub mod bifunctor;
pub mod contravariant;
pub mod functor;
pub mod profunctor;
