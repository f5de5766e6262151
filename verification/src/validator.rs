//! The decisions of the validator endpoints: the account a validator identifier names and
//! the identifier the answer reports.

use vstd::prelude::*;

use crate::address::{ss58_decode, ss58_encode, AccountError, AccountId32};
use crate::primitives::{Account, ValidatorId};
use crate::response::RequestError;
use crate::types::validator::{AddValidatorOutput, RemoveValidatorOutput};

verus! {

/// The account a validator identifier names; fails exactly when it is not a valid SS58
/// address.
pub fn validator_account(validator_id: &ValidatorId) -> (r: Result<AccountId32, AccountError>)
    ensures
        r is Ok <==> ss58_decode(validator_id@) is Some,
        r matches Ok(id) ==> ss58_decode(validator_id@) == Some(id@),
{
    AccountId32::try_from_account(&Account(validator_id.0.clone()))
}

/// The answer of adding a validator: the address of the account the event names.
pub fn add_validator_output(account: AccountId32) -> (r: AddValidatorOutput)
    ensures
        r.validator_id@ == ss58_encode(account@),
{
    AddValidatorOutput { validator_id: ValidatorId(account.to_ss58_string()) }
}

/// The answer of removing a validator.
pub fn remove_validator_output(account: AccountId32) -> (r: RemoveValidatorOutput)
    ensures
        r.validator_id@ == ss58_encode(account@),
{
    RemoveValidatorOutput { validator_id: ValidatorId(account.to_ss58_string()) }
}

/// The refusal of a validator change whose event was not found.
pub fn validator_missing_event_error(adding: bool) -> (r: RequestError)
    ensures
        adding ==> r.message@ == "Failed to find sugarfunge::validator::events::AddValidator"@,
        !adding ==> r.message@ == "Failed to find sugarfunge::validator::events::RemoveValidator"@,
        r.description@ == ""@,
{
    if adding {
        RequestError::new("Failed to find sugarfunge::validator::events::AddValidator", "")
    } else {
        RequestError::new("Failed to find sugarfunge::validator::events::RemoveValidator", "")
    }
}

} // verus!
