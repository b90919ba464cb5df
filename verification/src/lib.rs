//! Private transaction relay: builder registry, response classification and
//! the any-success dispatch policy.

pub mod builder;
pub mod diagnostic;
pub mod error;
pub mod facade;
pub mod kind;
pub mod payload;
