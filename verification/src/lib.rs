//! Reconstructs source expressions from values.
//!
//! The library has two halves. The shape compiler ([`plan`], [`codegen`])
//! takes the structural description of a type ([`shape`]) and compiles it to
//! an emission plan, which it writes out as the code of an implementation.
//! The encoder ([`value`], [`encode`]) takes a value tagged with its category
//! and appends to a sink ([`sink`]) the fragments of an expression that
//! evaluates to an equal value; a value of a described type is encoded by
//! running the plan of its description ([`run`]). What holds of every
//! encoding is stated in [`laws`].

pub mod codegen;
pub mod encode;
pub mod laws;
pub mod literal;
pub mod plan;
pub mod run;
pub mod shape;
pub mod sink;
pub mod value;

pub use quote::Tokens;

pub use crate::codegen::expand_macro;
pub use crate::encode::ToCustomTokens;
pub use crate::shape::Description;
pub use crate::value::Value;
