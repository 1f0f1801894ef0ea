//! Execution-cost estimates for the operations of an identity registry.
//!
//! Every operation is priced by an affine formula over its size parameters:
//! a fixed base cost, a per-unit cost for each parameter, and a number of
//! storage reads and writes (some of them scaled by a parameter) priced by a
//! [`RuntimeDbWeight`]. Every step saturates at the largest [`Weight`], so no
//! evaluation can overflow or panic.

mod db_weight;
mod identity;
mod laws;
mod operation;
mod weight;

pub use db_weight::RuntimeDbWeight;
pub use identity::WeightInfo;
pub use laws::{lemma_cost_monotone, lemma_deterministic, lemma_saturation, lemma_zero_baseline};
pub use operation::{
    cost_of, dominated_by, exact_cost, fixed_cost, scaled_cost, storage, zeroed, Operation,
};
pub use weight::{saturate, saturating_mul, Weight};
