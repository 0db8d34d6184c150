//! The built-in symbols of the expression layer.
pub mod arithmetic;
