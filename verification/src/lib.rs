//! A bidirectional conversion layer between a self-describing tagged value
//! model and native Rust types.
//!
//! The [`value::Value`] enum is a closed tagged union: absence, booleans, a
//! single wide integer representation, a single wide float representation
//! (carried as its bit pattern), text, byte sequences, ordered lists,
//! key-sorted maps, and opaque content-identifier links.
//!
//! The conversion contract has three families:
//! - *lift* (`Value::from_*`): native value to `Value`, total and infallible;
//! - *lower* (`Value::into_*`): `Value` to a required native type, which
//!   fails with a structured [`error::TypeError`] on any tag mismatch;
//! - *lower to optional* (`Value::into_opt_*`): `Value` to an optional
//!   native type, where an absence tag means "no value" and only the tags
//!   other than absence and the expected one are mismatches.
//!
//! Numeric narrowing is deliberately unchecked: lowering an integer into a
//! narrower width truncates exactly as Rust's `as` cast does and never
//! fails. Only a tag mismatch produces an error. The laws of the whole
//! contract are stated and proved in [`laws`].

pub mod error;
pub mod laws;
pub mod lift;
pub mod lower;
pub mod lower_opt;
pub mod value;
