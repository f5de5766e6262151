//! Requests and responses of the validator endpoints.

#[allow(unused_imports)]
use vstd::prelude::*;
use crate::primitives::{Seed, ValidatorId};

verus! {

#[derive(Debug)]
pub struct AddValidatorInput {
    pub seed: Seed,
    pub validator_id: ValidatorId,
}

#[derive(Debug)]
pub struct AddValidatorOutput {
    pub validator_id: ValidatorId,
}

#[derive(Debug)]
pub struct RemoveValidatorInput {
    pub seed: Seed,
    pub validator_id: ValidatorId,
}

#[derive(Debug)]
pub struct RemoveValidatorOutput {
    pub validator_id: ValidatorId,
}

} // verus!
