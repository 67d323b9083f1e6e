//! The failures that the estimator reports.

use vstd::prelude::*;

verus! {

/// Why a step of the estimation was refused. Every failure is local and final:
/// nothing is retried, and a failure ends the run.
#[derive(Clone, Copy, Debug, PartialEq, Eq, Structural)]
pub enum MhdeError {
    /// The sample holds fewer observations than the operation needs.
    InsufficientSample,
    /// A nearest-neighbour query did not supply the neighbour that was asked for.
    InsufficientPoints,
    /// A density that is not positive, or a negative volume, met the objective.
    DomainError,
    /// A parameter of the model left its domain during the optimisation.
    NumericalInstability,
    /// The parameters handed to the sample generator are malformed.
    InvalidConfiguration,
}

impl MhdeError {
    /// A short description of the failure, one per kind.
    pub fn message(&self) -> (text: &'static str)
        ensures
            text@ == self.message_text(),
    {
        match self {
            MhdeError::InsufficientSample => {
                proof { reveal_strlit("the sample holds too few observations"); }
                "the sample holds too few observations"
            },
            MhdeError::InsufficientPoints => {
                proof { reveal_strlit("the nearest-neighbour index holds too few points"); }
                "the nearest-neighbour index holds too few points"
            },
            MhdeError::DomainError => {
                proof { reveal_strlit("a density is not positive or a volume is negative"); }
                "a density is not positive or a volume is negative"
            },
            MhdeError::NumericalInstability => {
                proof { reveal_strlit("a model parameter left its domain"); }
                "a model parameter left its domain"
            },
            MhdeError::InvalidConfiguration => {
                proof { reveal_strlit("the parameters of the sample generator are malformed"); }
                "the parameters of the sample generator are malformed"
            },
        }
    }

    /// The text of [`MhdeError::message`].
    pub open spec fn message_text(&self) -> Seq<char> {
        match self {
            MhdeError::InsufficientSample => "the sample holds too few observations"@,
            MhdeError::InsufficientPoints => "the nearest-neighbour index holds too few points"@,
            MhdeError::DomainError => "a density is not positive or a volume is negative"@,
            MhdeError::NumericalInstability => "a model parameter left its domain"@,
            MhdeError::InvalidConfiguration => "the parameters of the sample generator are malformed"@,
        }
    }
}

} // verus!
