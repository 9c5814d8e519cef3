//! A structural model of the `Event` derive: it names each variant of a
//! tagged union, extends generic parameter lists with the parameters that the
//! generated impls need, and decides what those impls do.
pub mod generics;
pub mod naming;
pub mod expand;
pub mod traits;
pub mod my_events;
