//! Ownership-safe, result-typed driver for the handle-based interface of a
//! native dispersion-correction engine.
//!
//! The engine itself is reached by the embedding program. This library holds
//! every decision around a guarded engine call: what is validated before the
//! call, what is marshalled for it, and how the state of the error sink after
//! the call becomes a typed result.

pub mod error;
pub mod evaluate;
pub mod gcp;
pub mod legacy;
pub mod model;
pub mod name;
pub mod param;
pub mod structure;
pub mod text;
pub mod version;
