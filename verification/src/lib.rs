//! Turns the description of a struct or a function into the description of
//! its builder:
//! a fluent, chained construction interface in which the mandatory fields
//! are tracked one marker each, so that finishing early is ruled out
//! before the program runs.

pub mod builder_gen;
pub mod diag;
pub mod field;
pub mod input_fn;
pub mod input_struct;
pub mod laws;
pub mod normalize;
pub mod params;
pub mod state;
pub mod syntax;
