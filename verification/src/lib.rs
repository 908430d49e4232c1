//! Decoding and reporting of packed multimedia-library version numbers.
//!
//! A native multimedia library announces its version as a packed 32-bit
//! integer. This crate decodes such integers into `major.minor.micro`
//! triples, gathers the decoded versions of a configured set of libraries
//! into a report, judges whether the installed set is mutually compatible,
//! and renders the report as text. Querying the native boundary itself is
//! left to the embedding program: the core here works on the plain values
//! that such a query returns.

pub mod render;
pub mod version;
