//! Adaptive-weight Monte Carlo bookkeeping: a growing table of energy
//! bins with visit counts and log weights, and the SAD and SAMC schedules
//! that decide how those weights change from one trial move to the next.
//!
//! Energies are integers (multiples of the system's energy quantum), so
//! the mapping between energies and bin indices is exact.  The weights
//! themselves are of a caller-chosen type `R`; the arithmetic on them is
//! done by the caller, and the library decides where and when it applies.

mod bins;
mod method;
mod engine;
mod laws;

pub use bins::{energy_of, index_of, lemma_index_round_trip, lemma_index_in_range};
pub use method::{Method, MethodParams};
pub use engine::{zeros, EnergyMC, EnergyMCParams, WeightUpdate};
pub use laws::{
    lemma_bin_round_trip, lemma_discovered_once, lemma_discovery_counted, lemma_trial_keeps_window,
    lemma_window_grows, lemma_variant_kept,
};
