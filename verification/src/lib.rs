//! Decoding a fixed-shape storage row into a structured record.
//!
//! A single-table lookup materializes rows of four scalar columns: a 32-bit
//! surrogate key, two 64-bit integers that together form one composite
//! logical identifier, and a text payload. Three interchangeable strategies
//! turn such a row into a record:
//!
//! - automatic structural derivation against a target that nests the
//!   composite identifier as one field — which must fail observably, since
//!   the mechanism binds exactly one column per declared field;
//! - manual per-schema construction, which is always correct but must be
//!   rewritten for every schema change;
//! - automatic derivation against a flattened target, where every field
//!   maps one-to-one to a column and derivation always succeeds.
//!
//! The [`columns`] module models column values, declared shapes and the
//! derivation mechanism; [`records`] holds the record types and the three
//! strategies; [`laws`] proves the properties that relate them.

pub mod columns;
pub mod laws;
pub mod records;
