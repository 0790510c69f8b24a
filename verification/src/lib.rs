//! Synthesis of builder companions for record types.
//!
//! Given a structural description of one record type — its declared name and
//! an ordered list of named, typed members — the library derives the source
//! of a companion builder type: optional per-field storage, fluent setter
//! methods, required-field validation, and final assembly into the original
//! record. Generation is a pure function from the description to the
//! generated unit; descriptions of any other shape are rejected whole.
//!
//! A small semantic model of the generated builder accompanies the emitted
//! text, so that the behaviour promised of that code — last write wins,
//! the first missing field is the one reported, a failed build leaves the
//! builder intact — is stated and proved rather than only generated.

pub mod descriptor;
pub mod emit;
pub mod laws;
pub mod semantics;
pub mod unit;
