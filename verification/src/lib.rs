//! Compile-time accessor generation, modelled and verified.
//!
//! Two pipelines, a getter one and a setter one, each turn an attribute
//! argument list and an annotated record declaration into either the record
//! unchanged followed by generated accessor blocks, or a single diagnostic
//! that replaces all output. The token-level boundary with the macro system
//! is a separate, unverified shell; this crate holds and verifies the
//! transformation itself.

pub mod model;
pub mod pipeline;
