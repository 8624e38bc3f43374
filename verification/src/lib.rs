//! Exact stochastic simulation of a reaction network by the direct method.
//!
//! The crate verifies the decision core of the algorithm: validating the
//! network's shape, the per-step state machine (time-limit check, hazard-shape
//! check, exhaustion check), weighted reaction selection, the state update,
//! and the trajectory invariants (aligned lengths, times starting at zero and
//! never decreasing).
//!
//! Real-valued magnitudes (rate constants, propensities, times) enter the
//! engine as *codes*: `u64` values whose ordering matches the ordering of the
//! magnitudes they stand for, with code `0` standing for magnitude zero. A
//! driver that works with IEEE doubles obtains such codes from the bit
//! patterns of non-negative finite values, which are ordered like the values
//! themselves. All comparisons the algorithm needs are decided here, on the
//! codes; the driver performs the real arithmetic (scaling hazards, prefix
//! sums, the exponential waiting-time sample) and the uniform draws.

pub mod engine;
pub mod errors;
pub mod network;
pub mod selector;
