//! Validation and builder adaptation for a push-based value stream.
//!
//! A producer describes a nested value as a flat run of structural calls. This
//! crate holds the two pieces that keep such a run honest: a validation stack
//! that accepts exactly the legal call orders, behind a guard that costs
//! nothing when validation is switched off, and a bridge that decides, call by
//! call, what an incremental builder has to be asked to do.

pub mod agreement;
pub mod bridge;
pub mod error;
pub mod flat;
pub mod guard;
pub mod shape;
pub mod stack;
