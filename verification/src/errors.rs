use vstd::prelude::*;

verus! {

/// Failures a simulation run can report. Normal termination (the time limit
/// was reached, or no reaction can fire any more) is not an error.
#[derive(Debug, Clone)]
pub enum SimError {
    /// The network's dimensions are inconsistent: the stoichiometry matrix
    /// does not hold exactly one row per rate constant, each of the species
    /// count's length. Reported at construction time; no simulation runs.
    Shape,
    /// The propensity evaluator returned a hazard vector whose length is not
    /// the reaction count. The run aborts; no partial step is recorded.
    PropensityShape,
    /// The propensity evaluator itself failed; the message carries its report.
    /// The run aborts; no partial step is recorded.
    PropensityEvaluation(String),
}

} // verus!
