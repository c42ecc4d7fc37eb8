//! A native extension module seen through its host-call boundary.
//!
//! The library models how a native function becomes visible and callable
//! from a host runtime's dynamic call surface: values arriving from the
//! host are validated and converted to native types, the native operation
//! runs, and the result (or a classified error) travels back.  Module
//! registration builds a named descriptor holding the exposed function
//! bindings under unique external names.

pub mod adapter;
pub mod registry;
pub mod value;
