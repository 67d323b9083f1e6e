//! The Cauchy model: the domain of its parameters.
//!
//! The density of the model at `x` is
//! `1 / (pi * scale * (1 + ((x - loc) / scale)^2))`, which is defined, and
//! positive, only for a scale above zero.

use vstd::prelude::*;
use crate::error::MhdeError;
use crate::key::{is_nan, is_number, is_positive, positive};

verus! {

/// Location and scale of a Cauchy density, as keys.
#[derive(Clone, Copy, Debug, PartialEq, Eq, Structural)]
pub struct CauchyParams {
    /// The location.
    pub loc: i64,
    /// The scale.
    pub scale: i64,
}

impl CauchyParams {
    /// The parameters describe a Cauchy density: both are numbers, and the
    /// scale is above zero.
    pub open spec fn in_domain(self) -> bool {
        is_number(self.loc) && is_positive(self.scale)
    }

    fn admits(&self) -> (r: bool)
        ensures
            r == self.in_domain(),
    {
        !is_nan(self.loc) && positive(self.scale)
    }

    /// Checks the parameters of a distribution before a sample is drawn from
    /// it.
    pub fn check_generator(&self) -> (r: Result<(), MhdeError>)
        ensures
            r is Ok <==> self.in_domain(),
            r matches Err(e) ==> e == MhdeError::InvalidConfiguration,
    {
        if self.admits() {
            Ok(())
        } else {
            Err(MhdeError::InvalidConfiguration)
        }
    }

    /// Checks the parameters of the model during the optimisation, where a
    /// step may have driven the scale to zero or below.
    pub fn check_model(&self) -> (r: Result<(), MhdeError>)
        ensures
            r is Ok <==> self.in_domain(),
            r matches Err(e) ==> e == MhdeError::NumericalInstability,
    {
        if self.admits() {
            Ok(())
        } else {
            Err(MhdeError::NumericalInstability)
        }
    }
}

} // verus!
