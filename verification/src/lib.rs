//! Consensus rules for the effects of a block of coin spends.
//!
//! The library holds the rule configuration of one validation call
//! ([`flags`]), the heap policy that follows from it ([`allocator`]), the
//! flag-dependent rules by which a condition is admitted ([`conditions`]), the
//! folding of spends into the totals of a block under a cost budget
//! ([`spend_bundle`]), and the relation that the outcomes of the two block
//! generator engines have to meet ([`engines`]). What it takes on trust from the
//! program evaluator is gathered in [`clvm`].

pub mod allocator;
pub mod clvm;
pub mod conditions;
pub mod engines;
pub mod flags;
pub mod spend_bundle;
pub mod validation_error;
