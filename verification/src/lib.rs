//! Callable tagged unions: a family of calling-convention interfaces, and the generator
//! that implements them for a tagged union whose cases are bound to functions.

pub mod callable;
pub mod decl;
pub mod directive;
pub mod expand;
pub mod ident;
pub mod laws;
pub mod outside;
pub mod render;
pub mod token;

pub use crate::callable::{
    AsyncCallable, AsyncCallableMut, AsyncCallableOnce, Callable, CallableMut, CallableOnce, Tuple,
};
