//! On-chain account identifiers and their SS58 text form.

use vstd::prelude::*;

use crate::primitives::Account;

verus! {

#[verifier::external_type_specification]
#[verifier::external_body]
pub struct ExPublicError(sp_core::crypto::PublicError);

/// The 32 raw bytes of an on-chain (sr25519) account.
#[derive(Clone, Copy, Debug)]
pub struct AccountId32(pub [u8; 32]);

impl View for AccountId32 {
    type V = Seq<u8>;

    open spec fn view(&self) -> Seq<u8> {
        self.0@
    }
}

/// An API address that is not a valid SS58 account address.
#[derive(Clone, Copy, Debug, PartialEq, Eq, Structural)]
pub enum AccountError {
    InvalidAccount,
}

/// The 32 account bytes that `sp_core`'s SS58-check decoding yields for a string, if any.
pub uninterp spec fn ss58_decode(s: Seq<char>) -> Option<Seq<u8>>;

/// The SS58-check text (default Substrate format) that `sp_core` gives for 32 account bytes.
pub uninterp spec fn ss58_encode(id: Seq<u8>) -> Seq<char>;

/// Calls `sp_core::sr25519::Public::from_str` (that is, `Ss58Codec::from_ss58check`):
/// base58 decoding, a one- or two-byte format prefix, a 32-byte body and a blake2b
/// checksum. The contract names its result `ss58_decode`. The decoding also compares a
/// custom format with the process-wide default format, which nothing in this program
/// changes; with that default the result depends on the string alone.
#[verifier::external_body]
fn decode_ss58(s: &str) -> (r: Result<[u8; 32], sp_core::crypto::PublicError>)
    ensures
        r is Ok <==> ss58_decode(s@) is Some,
        r matches Ok(b) ==> ss58_decode(s@) == Some(b@),
{
    <sp_core::sr25519::Public as core::str::FromStr>::from_str(s).map(|p| p.0)
}

/// Calls `Display` of `sp_core::crypto::AccountId32` (`Ss58Codec::to_ss58check` with the
/// default Substrate format, prefix 42). The contract names the text `ss58_encode` and
/// states what `from_ss58check` in the same source shows: decoding the text gives back
/// the same 32 bytes (prefix 42 is neither reserved nor custom, and the checksum is the
/// one the decoder recomputes).
#[verifier::external_body]
fn encode_ss58(id: [u8; 32]) -> (r: String)
    ensures
        r@ == ss58_encode(id@),
        ss58_decode(r@) == Some(id@),
{
    sp_core::crypto::AccountId32::new(id).to_string()
}

/// Whether two 32-byte identifiers are equal.
pub fn bytes32_eq(a: &[u8; 32], b: &[u8; 32]) -> (r: bool)
    ensures
        r == (a@ == b@),
{
    let mut i: usize = 0;
    while i < 32
        invariant
            i <= 32,
            a@.len() == 32,
            b@.len() == 32,
            forall|j: int| 0 <= j < i ==> a@[j] == b@[j],
        decreases 32 - i,
    {
        if a[i] != b[i] {
            assert(a@[i as int] != b@[i as int]);
            return false;
        }
        i = i + 1;
    }
    assert(a@ =~= b@);
    true
}

impl AccountId32 {
    /// The on-chain account that an API address names; fails exactly when the address
    /// is not valid SS58.
    pub fn try_from_account(account: &Account) -> (r: Result<AccountId32, AccountError>)
        ensures
            r is Ok <==> ss58_decode(account@) is Some,
            r matches Ok(id) ==> ss58_decode(account@) == Some(id@),
            r matches Err(e) ==> e == AccountError::InvalidAccount,
    {
        match decode_ss58(account.0.as_str()) {
            Ok(bytes) => Ok(AccountId32(bytes)),
            Err(_) => Err(AccountError::InvalidAccount),
        }
    }

    /// The SS58 text of this account; decoding it gives this account back.
    pub fn to_ss58_string(&self) -> (r: String)
        ensures
            r@ == ss58_encode(self@),
            ss58_decode(r@) == Some(self@),
    {
        encode_ss58(self.0)
    }

    /// Whether two accounts are the same.
    pub fn same_as(&self, other: &AccountId32) -> (r: bool)
        ensures
            r == (self@ == other@),
    {
        bytes32_eq(&self.0, &other.0)
    }
}

/// Whether two API addresses name the same on-chain account; fails when either is not
/// valid SS58 (the first one is decoded first).
pub fn same_account(a: &Account, b: &Account) -> (r: Result<bool, AccountError>)
    ensures
        r is Ok <==> (ss58_decode(a@) is Some && ss58_decode(b@) is Some),
        r matches Ok(same) ==> same == (ss58_decode(a@) == ss58_decode(b@)),
{
    let ida = AccountId32::try_from_account(a)?;
    let idb = AccountId32::try_from_account(b)?;
    Ok(ida.same_as(&idb))
}

/// Whether a list of addresses is the SS58 text of a list of accounts, in order.
pub open spec fn accounts_encode(out: Seq<Account>, ids: Seq<AccountId32>) -> bool {
    &&& out.len() == ids.len()
    &&& forall|i: int| 0 <= i < out.len() ==> (#[trigger] out[i])@ == ss58_encode(ids[i]@)
    &&& forall|i: int| 0 <= i < out.len() ==> ss58_decode((#[trigger] out[i])@) == Some(ids[i]@)
}

/// The addresses of some accounts, in order.
pub fn accounts_from_ids(ids: &Vec<AccountId32>) -> (r: Vec<Account>)
    ensures
        accounts_encode(r@, ids@),
{
    let mut r: Vec<Account> = Vec::new();
    let mut i: usize = 0;
    while i < ids.len()
        invariant
            i <= ids@.len(),
            r@.len() == i,
            forall|j: int| 0 <= j < i ==> (#[trigger] r@[j])@ == ss58_encode(ids@[j]@),
            forall|j: int| 0 <= j < i ==> ss58_decode((#[trigger] r@[j])@) == Some(ids@[j]@),
        decreases ids@.len() - i,
    {
        r.push(Account::from_account_id(ids[i]));
        i = i + 1;
    }
    r
}

} // verus!
