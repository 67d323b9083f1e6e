//! The Hellinger objective: when its terms are defined.
//!
//! The objective of a model on `N` query points is
//! `-2 / sqrt(N * pi)` times the sum of `sqrt(density_i * volume_i)`; with one
//! added it estimates the squared Hellinger distance between the sample and the
//! model. The sum is the caller's arithmetic. This module decides whether the
//! terms may be summed at all.

use vstd::prelude::*;
use crate::error::MhdeError;
use crate::key::{is_non_negative, is_positive, non_negative, positive};

verus! {

/// Every query point has a density above zero and a volume that is not below
/// zero. Neither holds of a NaN.
pub open spec fn well_defined(densities: Seq<i64>, volumes: Seq<i64>) -> bool {
    &&& densities.len() == volumes.len()
    &&& forall|i: int| 0 <= i < densities.len() ==> is_positive(#[trigger] densities[i])
    &&& forall|i: int| 0 <= i < volumes.len() ==> is_non_negative(#[trigger] volumes[i])
}

/// Checks the terms of the objective, given as the keys of the densities of the
/// model at the query points and of the volumes of their balls, and returns
/// their number `N`.
pub fn check_terms(densities: &Vec<i64>, volumes: &Vec<i64>) -> (r: Result<usize, MhdeError>)
    ensures
        r is Ok <==> well_defined(densities@, volumes@),
        r matches Ok(n) ==> n == densities@.len(),
        r matches Err(e) ==> e == MhdeError::DomainError,
{
    let n = densities.len();
    if volumes.len() != n {
        return Err(MhdeError::DomainError);
    }
    let mut i: usize = 0;
    while i < n
        invariant
            n == densities@.len(),
            n == volumes@.len(),
            0 <= i <= n,
            forall|j: int| 0 <= j < i ==> is_positive(#[trigger] densities@[j]),
            forall|j: int| 0 <= j < i ==> is_non_negative(#[trigger] volumes@[j]),
        decreases n - i,
    {
        if !positive(densities[i]) || !non_negative(volumes[i]) {
            return Err(MhdeError::DomainError);
        }
        i += 1;
    }
    Ok(n)
}

} // verus!
