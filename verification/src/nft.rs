//! Requests and responses of the NFT endpoints.

use vstd::prelude::*;

use crate::address::{ss58_encode, AccountId32};

verus! {

#[derive(Debug)]
pub struct CreateNftOutput {
    collection_id: u64,
    account: String,
}

#[derive(Debug)]
pub struct MintNftOutput {
    collection_id: u64,
    asset_ids: Vec<u64>,
    account: String,
}

#[derive(Debug)]
pub struct NftCollectionsInput {
    input: NftCollectionsArg,
}

#[derive(Debug)]
pub struct NftCollectionsArg {
    collection_id: u64,
}

impl CreateNftOutput {
    /// The collection and the address of its owner.
    pub closed spec fn fields(self) -> (u64, Seq<char>) {
        (self.collection_id, self.account@)
    }
}

impl MintNftOutput {
    /// The collection, the minted assets and the address of the owner.
    pub closed spec fn fields(self) -> (u64, Seq<u64>, Seq<char>) {
        (self.collection_id, self.asset_ids@, self.account@)
    }
}

/// The answer of a collection's creation.
pub fn create_nft_output(collection_id: u64, account: AccountId32) -> (r: CreateNftOutput)
    ensures
        r.fields() == (collection_id, ss58_encode(account@)),
{
    CreateNftOutput { collection_id, account: account.to_ss58_string() }
}

/// The answer of an NFT mint.
pub fn mint_nft_output(collection_id: u64, asset_ids: Vec<u64>, account: AccountId32) -> (r: MintNftOutput)
    ensures
        r.fields() == (collection_id, asset_ids@, ss58_encode(account@)),
{
    MintNftOutput { collection_id, asset_ids, account: account.to_ss58_string() }
}

} // verus!
