//! Requests and responses of the storage-challenge endpoints.

use vstd::prelude::*;
use vstd::std_specs::convert::FromSpecImpl;

use crate::runtime::ChallengeState;
use crate::primitives::{Account, AssetId, Balance, Cid, ClassId, PoolId, Seed};

verus! {

/// The state of a storage challenge, as the API reports it.
#[derive(Clone, Copy, Debug, PartialEq, Eq, Structural)]
pub enum ChallengeStateValue {
    Open,
    Failed,
    Successful,
}

#[derive(Debug)]
pub struct GenerateChallengeInput {
    pub seed: Seed,
}

#[derive(Debug)]
pub struct GenerateChallengeOutput {
    pub challenger: Account,
    pub challenged: Account,
    pub cid: Cid,
    pub state: ChallengeStateValue,
}

#[derive(Debug)]
pub struct VerifyChallengeInput {
    pub seed: Seed,
    pub pool_id: PoolId,
    pub cids: Vec<Cid>,
    pub class_id: ClassId,
    pub asset_id: AssetId,
}

#[derive(Debug)]
pub struct MintLaborTokensInput {
    pub seed: Seed,
    pub pool_id: PoolId,
    pub class_id: ClassId,
    pub asset_id: AssetId,
}

#[derive(Debug)]
pub struct MintLaborTokensOutput {
    pub account: Account,
    pub class_id: ClassId,
    pub asset_id: AssetId,
    pub amount: Balance,
}

#[derive(Debug)]
pub struct VerifyPendingChallengeInput {
    pub seed: Seed,
}

#[derive(Debug)]
pub struct VerifyPendingChallengeOutput {
    pub account: Account,
    pub pending: bool,
}

#[derive(Debug)]
pub struct VerifyFileSizeInput {
    pub seed: Seed,
}

#[derive(Debug)]
pub struct VerifyFileSizeOutput {
    pub account: Account,
    pub cids: Vec<Cid>,
}

#[derive(Debug)]
pub struct ProvideFileSizeInput {
    pub seed: Seed,
    pub pool_id: PoolId,
    pub cids: Vec<Cid>,
    pub sizes: Vec<u64>,
}

#[derive(Debug)]
pub struct ProvideFileSizeOutput {
    pub account: Account,
    pub pool_id: PoolId,
    pub cids: Vec<Cid>,
    pub sizes: Vec<u64>,
}

/// The API state that a runtime challenge state stands for.
pub open spec fn challenge_state_value(state: ChallengeState) -> ChallengeStateValue {
    match state {
        ChallengeState::Open => ChallengeStateValue::Open,
        ChallengeState::Failed => ChallengeStateValue::Failed,
        ChallengeState::Successful => ChallengeStateValue::Successful,
    }
}

impl From<ChallengeState> for ChallengeStateValue {
    fn from(state: ChallengeState) -> (r: ChallengeStateValue) {
        match state {
            ChallengeState::Open => ChallengeStateValue::Open,
            ChallengeState::Failed => ChallengeStateValue::Failed,
            ChallengeState::Successful => ChallengeStateValue::Successful,
        }
    }
}

impl FromSpecImpl<ChallengeState> for ChallengeStateValue {
    open spec fn obeys_from_spec() -> bool {
        true
    }

    open spec fn from_spec(state: ChallengeState) -> ChallengeStateValue {
        challenge_state_value(state)
    }
}

} // verus!
