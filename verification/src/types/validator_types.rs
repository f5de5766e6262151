//! Validator requests and responses in their earlier shape.

#[allow(unused_imports)]
use vstd::prelude::*;

verus! {

#[derive(Debug)]
pub struct AddValidatorInput {
    seed: String,
    validator_id: String,
}

#[derive(Debug)]
pub struct AddValidatorOutput {
    validator_id: String,
}

#[derive(Debug)]
pub struct RemoveValidatorInput {
    seed: String,
    validator_id: String,
}

#[derive(Debug)]
pub struct RemoveValidatorOutput {
    validator_id: String,
}

} // verus!
