//! The scalar and string identifiers exchanged by the API, and the conversions
//! between them and their raw representations.

use vstd::prelude::*;
use vstd::std_specs::convert::FromSpecImpl;

use crate::address::{ss58_decode, ss58_encode, AccountId32};
use crate::parse::{parse_u64, spec_parse_u64};

verus! {

/// A secret seed phrase (or `//`-derivation string) that identifies a key pair.
#[derive(Clone, Debug)]
pub struct Seed(pub String);

impl View for Seed {
    type V = Seq<char>;

    open spec fn view(&self) -> Seq<char> {
        self.0@
    }
}

impl From<String> for Seed {
    fn from(seed: String) -> (r: Seed) {
        Seed(seed)
    }
}

impl FromSpecImpl<String> for Seed {
    open spec fn obeys_from_spec() -> bool {
        true
    }

    open spec fn from_spec(seed: String) -> Seed {
        Seed(seed)
    }
}

impl From<&Seed> for String {
    fn from(seed: &Seed) -> (r: String) {
        seed.0.clone()
    }
}

impl FromSpecImpl<&Seed> for String {
    open spec fn obeys_from_spec() -> bool {
        true
    }

    open spec fn from_spec(seed: &Seed) -> String {
        seed.0
    }
}

/// An SS58-encoded account address, as the API receives and returns it.
#[derive(Clone, Debug)]
pub struct Account(pub String);

impl View for Account {
    type V = Seq<char>;

    open spec fn view(&self) -> Seq<char> {
        self.0@
    }
}

impl From<String> for Account {
    fn from(account: String) -> (r: Account) {
        Account(account)
    }
}

impl FromSpecImpl<String> for Account {
    open spec fn obeys_from_spec() -> bool {
        true
    }

    open spec fn from_spec(account: String) -> Account {
        Account(account)
    }
}

impl From<&Account> for String {
    fn from(account: &Account) -> (r: String) {
        account.0.clone()
    }
}

impl FromSpecImpl<&Account> for String {
    open spec fn obeys_from_spec() -> bool {
        true
    }

    open spec fn from_spec(account: &Account) -> String {
        account.0
    }
}

/// The hexadecimal identifier of an asset bundle.
#[derive(Clone, Debug)]
pub struct BundleId(pub String);

impl View for BundleId {
    type V = Seq<char>;

    open spec fn view(&self) -> Seq<char> {
        self.0@
    }
}

impl From<String> for BundleId {
    fn from(bundle_id: String) -> (r: BundleId) {
        BundleId(bundle_id)
    }
}

impl FromSpecImpl<String> for BundleId {
    open spec fn obeys_from_spec() -> bool {
        true
    }

    open spec fn from_spec(bundle_id: String) -> BundleId {
        BundleId(bundle_id)
    }
}

impl From<&BundleId> for String {
    fn from(bundle_id: &BundleId) -> (r: String) {
        bundle_id.0.clone()
    }
}

impl FromSpecImpl<&BundleId> for String {
    open spec fn obeys_from_spec() -> bool {
        true
    }

    open spec fn from_spec(bundle_id: &BundleId) -> String {
        bundle_id.0
    }
}

/// The SS58 address of a validator.
#[derive(Clone, Debug)]
pub struct ValidatorId(pub String);

impl View for ValidatorId {
    type V = Seq<char>;

    open spec fn view(&self) -> Seq<char> {
        self.0@
    }
}

impl From<String> for ValidatorId {
    fn from(validator_id: String) -> (r: ValidatorId) {
        ValidatorId(validator_id)
    }
}

impl FromSpecImpl<String> for ValidatorId {
    open spec fn obeys_from_spec() -> bool {
        true
    }

    open spec fn from_spec(validator_id: String) -> ValidatorId {
        ValidatorId(validator_id)
    }
}

impl From<&ValidatorId> for String {
    fn from(validator_id: &ValidatorId) -> (r: String) {
        validator_id.0.clone()
    }
}

impl FromSpecImpl<&ValidatorId> for String {
    open spec fn obeys_from_spec() -> bool {
        true
    }

    open spec fn from_spec(validator_id: &ValidatorId) -> String {
        validator_id.0
    }
}

/// A content identifier of a stored file.
#[derive(Clone, Debug)]
pub struct Cid(pub String);

impl View for Cid {
    type V = Seq<char>;

    open spec fn view(&self) -> Seq<char> {
        self.0@
    }
}

impl From<String> for Cid {
    fn from(cid: String) -> (r: Cid) {
        Cid(cid)
    }
}

impl FromSpecImpl<String> for Cid {
    open spec fn obeys_from_spec() -> bool {
        true
    }

    open spec fn from_spec(cid: String) -> Cid {
        Cid(cid)
    }
}

impl From<&Cid> for String {
    fn from(cid: &Cid) -> (r: String) {
        cid.0.clone()
    }
}

impl FromSpecImpl<&Cid> for String {
    open spec fn obeys_from_spec() -> bool {
        true
    }

    open spec fn from_spec(cid: &Cid) -> String {
        cid.0
    }
}

/// The display name of a storage pool.
#[derive(Clone, Debug)]
pub struct Name(pub String);

impl View for Name {
    type V = Seq<char>;

    open spec fn view(&self) -> Seq<char> {
        self.0@
    }
}

impl From<String> for Name {
    fn from(name: String) -> (r: Name) {
        Name(name)
    }
}

impl FromSpecImpl<String> for Name {
    open spec fn obeys_from_spec() -> bool {
        true
    }

    open spec fn from_spec(name: String) -> Name {
        Name(name)
    }
}

impl From<&Name> for String {
    fn from(name: &Name) -> (r: String) {
        name.0.clone()
    }
}

impl FromSpecImpl<&Name> for String {
    open spec fn obeys_from_spec() -> bool {
        true
    }

    open spec fn from_spec(name: &Name) -> String {
        name.0
    }
}

/// The libp2p peer identifier of a storage node.
#[derive(Clone, Debug)]
pub struct PeerId(pub String);

impl View for PeerId {
    type V = Seq<char>;

    open spec fn view(&self) -> Seq<char> {
        self.0@
    }
}

impl From<String> for PeerId {
    fn from(peer_id: String) -> (r: PeerId) {
        PeerId(peer_id)
    }
}

impl FromSpecImpl<String> for PeerId {
    open spec fn obeys_from_spec() -> bool {
        true
    }

    open spec fn from_spec(peer_id: String) -> PeerId {
        PeerId(peer_id)
    }
}

impl From<&PeerId> for String {
    fn from(peer_id: &PeerId) -> (r: String) {
        peer_id.0.clone()
    }
}

impl FromSpecImpl<&PeerId> for String {
    open spec fn obeys_from_spec() -> bool {
        true
    }

    open spec fn from_spec(peer_id: &PeerId) -> String {
        peer_id.0
    }
}

/// The identifier of a market.
#[derive(Clone, Copy, Debug)]
pub struct MarketId(pub u64);

impl From<u64> for MarketId {
    fn from(id: u64) -> (r: MarketId) {
        MarketId(id)
    }
}

impl FromSpecImpl<u64> for MarketId {
    open spec fn obeys_from_spec() -> bool {
        true
    }

    open spec fn from_spec(id: u64) -> MarketId {
        MarketId(id)
    }
}

impl From<MarketId> for u64 {
    fn from(id: MarketId) -> (r: u64) {
        id.0
    }
}

impl FromSpecImpl<MarketId> for u64 {
    open spec fn obeys_from_spec() -> bool {
        true
    }

    open spec fn from_spec(id: MarketId) -> u64 {
        id.0
    }
}

/// The identifier of an asset class.
#[derive(Clone, Copy, Debug)]
pub struct ClassId(pub u64);

impl From<u64> for ClassId {
    fn from(id: u64) -> (r: ClassId) {
        ClassId(id)
    }
}

impl FromSpecImpl<u64> for ClassId {
    open spec fn obeys_from_spec() -> bool {
        true
    }

    open spec fn from_spec(id: u64) -> ClassId {
        ClassId(id)
    }
}

impl From<ClassId> for u64 {
    fn from(id: ClassId) -> (r: u64) {
        id.0
    }
}

impl FromSpecImpl<ClassId> for u64 {
    open spec fn obeys_from_spec() -> bool {
        true
    }

    open spec fn from_spec(id: ClassId) -> u64 {
        id.0
    }
}

/// The identifier of an asset within a class.
#[derive(Clone, Copy, Debug)]
pub struct AssetId(pub u64);

impl From<u64> for AssetId {
    fn from(id: u64) -> (r: AssetId) {
        AssetId(id)
    }
}

impl FromSpecImpl<u64> for AssetId {
    open spec fn obeys_from_spec() -> bool {
        true
    }

    open spec fn from_spec(id: u64) -> AssetId {
        AssetId(id)
    }
}

impl From<AssetId> for u64 {
    fn from(id: AssetId) -> (r: u64) {
        id.0
    }
}

impl FromSpecImpl<AssetId> for u64 {
    open spec fn obeys_from_spec() -> bool {
        true
    }

    open spec fn from_spec(id: AssetId) -> u64 {
        id.0
    }
}

/// An unsigned token amount.
#[derive(Clone, Copy, Debug)]
pub struct Balance(pub u128);

impl From<u128> for Balance {
    fn from(id: u128) -> (r: Balance) {
        Balance(id)
    }
}

impl FromSpecImpl<u128> for Balance {
    open spec fn obeys_from_spec() -> bool {
        true
    }

    open spec fn from_spec(id: u128) -> Balance {
        Balance(id)
    }
}

impl From<Balance> for u128 {
    fn from(id: Balance) -> (r: u128) {
        id.0
    }
}

impl FromSpecImpl<Balance> for u128 {
    open spec fn obeys_from_spec() -> bool {
        true
    }

    open spec fn from_spec(id: Balance) -> u128 {
        id.0
    }
}

/// A signed token amount, as used by market rates.
#[derive(Clone, Copy, Debug)]
pub struct Amount(pub i128);

impl From<i128> for Amount {
    fn from(id: i128) -> (r: Amount) {
        Amount(id)
    }
}

impl FromSpecImpl<i128> for Amount {
    open spec fn obeys_from_spec() -> bool {
        true
    }

    open spec fn from_spec(id: i128) -> Amount {
        Amount(id)
    }
}

impl From<Amount> for i128 {
    fn from(id: Amount) -> (r: i128) {
        id.0
    }
}

impl FromSpecImpl<Amount> for i128 {
    open spec fn obeys_from_spec() -> bool {
        true
    }

    open spec fn from_spec(id: Amount) -> i128 {
        id.0
    }
}

/// The identifier of a storage pool.
#[derive(Clone, Copy, Debug)]
pub struct PoolId(pub u32);

impl From<u32> for PoolId {
    fn from(id: u32) -> (r: PoolId) {
        PoolId(id)
    }
}

impl FromSpecImpl<u32> for PoolId {
    open spec fn obeys_from_spec() -> bool {
        true
    }

    open spec fn from_spec(id: u32) -> PoolId {
        PoolId(id)
    }
}

impl From<PoolId> for u32 {
    fn from(id: PoolId) -> (r: u32) {
        id.0
    }
}

impl FromSpecImpl<PoolId> for u32 {
    open spec fn obeys_from_spec() -> bool {
        true
    }

    open spec fn from_spec(id: PoolId) -> u32 {
        id.0
    }
}

/// How many storers a manifest asks for (or still lacks).
#[derive(Clone, Copy, Debug)]
pub struct ReplicationFactor(pub u16);

impl From<u16> for ReplicationFactor {
    fn from(id: u16) -> (r: ReplicationFactor) {
        ReplicationFactor(id)
    }
}

impl FromSpecImpl<u16> for ReplicationFactor {
    open spec fn obeys_from_spec() -> bool {
        true
    }

    open spec fn from_spec(id: u16) -> ReplicationFactor {
        ReplicationFactor(id)
    }
}

impl From<ReplicationFactor> for u16 {
    fn from(id: ReplicationFactor) -> (r: u16) {
        id.0
    }
}

impl FromSpecImpl<ReplicationFactor> for u16 {
    open spec fn obeys_from_spec() -> bool {
        true
    }

    open spec fn from_spec(id: ReplicationFactor) -> u16 {
        id.0
    }
}

impl Seed {
    /// The seed as a string slice.
    pub fn as_str(&self) -> (r: &str)
        ensures
            r@ == self@,
    {
        self.0.as_str()
    }
}

impl Account {
    /// The address as a string slice.
    pub fn as_str(&self) -> (r: &str)
        ensures
            r@ == self@,
    {
        self.0.as_str()
    }

    /// The SS58 address of an on-chain account.
    pub fn from_account_id(id: AccountId32) -> (r: Account)
        ensures
            r@ == ss58_encode(id@),
            ss58_decode(r@) == Some(id@),
    {
        Account(id.to_ss58_string())
    }
}

impl BundleId {
    /// The identifier as a string slice.
    pub fn as_str(&self) -> (r: &str)
        ensures
            r@ == self@,
    {
        self.0.as_str()
    }

    /// The identifier read as a decimal `u64`: `Ok` exactly when it is an optional `+`
    /// followed by at least one decimal digit, with a value that fits in `u64`.
    pub fn to_u64(&self) -> (r: Result<u64, core::num::ParseIntError>)
        ensures
            r is Ok <==> spec_parse_u64(self@) is Some,
            r matches Ok(n) ==> spec_parse_u64(self@) == Some(n as int),
    {
        parse_u64(self.0.as_str())
    }
}

impl ValidatorId {
    /// The identifier as a string slice.
    pub fn as_str(&self) -> (r: &str)
        ensures
            r@ == self@,
    {
        self.0.as_str()
    }
}

impl Cid {
    /// The content identifier as a string slice.
    pub fn as_str(&self) -> (r: &str)
        ensures
            r@ == self@,
    {
        self.0.as_str()
    }
}

impl Name {
    /// The name as a string slice.
    pub fn as_str(&self) -> (r: &str)
        ensures
            r@ == self@,
    {
        self.0.as_str()
    }
}

impl PeerId {
    /// The peer identifier as a string slice.
    pub fn as_str(&self) -> (r: &str)
        ensures
            r@ == self@,
    {
        self.0.as_str()
    }
}

/// The text of each address, in order.
pub fn transform_vec_account_to_string(in_vec: Vec<Account>) -> (r: Vec<String>)
    ensures
        r@.len() == in_vec@.len(),
        forall|i: int| 0 <= i < r@.len() ==> #[trigger] r@[i]@ == in_vec@[i]@,
{
    let mut r: Vec<String> = Vec::new();
    let mut i: usize = 0;
    while i < in_vec.len()
        invariant
            i <= in_vec@.len(),
            r@.len() == i,
            forall|j: int| 0 <= j < i ==> #[trigger] r@[j]@ == in_vec@[j]@,
        decreases in_vec@.len() - i,
    {
        r.push(String::from(&in_vec[i]));
        i = i + 1;
    }
    r
}

/// Each string as an address, in order.
pub fn transform_vec_string_to_account(in_vec: Vec<String>) -> (r: Vec<Account>)
    ensures
        r@.len() == in_vec@.len(),
        forall|i: int| 0 <= i < r@.len() ==> #[trigger] r@[i]@ == in_vec@[i]@,
{
    let mut r: Vec<Account> = Vec::new();
    let mut i: usize = 0;
    while i < in_vec.len()
        invariant
            i <= in_vec@.len(),
            r@.len() == i,
            forall|j: int| 0 <= j < i ==> #[trigger] r@[j]@ == in_vec@[j]@,
        decreases in_vec@.len() - i,
    {
        r.push(Account(in_vec[i].clone()));
        i = i + 1;
    }
    r
}

/// The raw amount of each balance, in order.
pub fn transform_vec_balance_to_u128(in_vec: &[Balance]) -> (r: Vec<u128>)
    ensures
        r@.len() == in_vec@.len(),
        forall|i: int| 0 <= i < r@.len() ==> #[trigger] r@[i] == in_vec@[i].0,
{
    let mut r: Vec<u128> = Vec::new();
    let mut i: usize = 0;
    while i < in_vec.len()
        invariant
            i <= in_vec@.len(),
            r@.len() == i,
            forall|j: int| 0 <= j < i ==> #[trigger] r@[j] == in_vec@[j].0,
        decreases in_vec@.len() - i,
    {
        r.push(in_vec[i].0);
        i = i + 1;
    }
    r
}

/// The raw value of each class identifier, in order.
pub fn transform_vec_classid_to_u64(in_vec: Vec<ClassId>) -> (r: Vec<u64>)
    ensures
        r@.len() == in_vec@.len(),
        forall|i: int| 0 <= i < r@.len() ==> #[trigger] r@[i] == in_vec@[i].0,
{
    let mut r: Vec<u64> = Vec::new();
    let mut i: usize = 0;
    while i < in_vec.len()
        invariant
            i <= in_vec@.len(),
            r@.len() == i,
            forall|j: int| 0 <= j < i ==> #[trigger] r@[j] == in_vec@[j].0,
        decreases in_vec@.len() - i,
    {
        r.push(in_vec[i].0);
        i = i + 1;
    }
    r
}

/// The raw value of each asset identifier, in order.
pub fn transform_vec_assetid_to_u64(in_vec: Vec<AssetId>) -> (r: Vec<u64>)
    ensures
        r@.len() == in_vec@.len(),
        forall|i: int| 0 <= i < r@.len() ==> #[trigger] r@[i] == in_vec@[i].0,
{
    let mut r: Vec<u64> = Vec::new();
    let mut i: usize = 0;
    while i < in_vec.len()
        invariant
            i <= in_vec@.len(),
            r@.len() == i,
            forall|j: int| 0 <= j < i ==> #[trigger] r@[j] == in_vec@[j].0,
        decreases in_vec@.len() - i,
    {
        r.push(in_vec[i].0);
        i = i + 1;
    }
    r
}

/// The raw value of every asset identifier, keeping the nesting and the order.
pub fn transform_doublevec_assetid_to_u64(in_vec: Vec<Vec<AssetId>>) -> (r: Vec<Vec<u64>>)
    ensures
        r@.len() == in_vec@.len(),
        forall|i: int|
            0 <= i < r@.len() ==> {
                &&& (#[trigger] r@[i])@.len() == in_vec@[i]@.len()
                &&& forall|j: int| 0 <= j < r@[i]@.len() ==> #[trigger] r@[i]@[j] == in_vec@[i]@[j].0
            },
{
    let mut r: Vec<Vec<u64>> = Vec::new();
    let mut i: usize = 0;
    while i < in_vec.len()
        invariant
            i <= in_vec@.len(),
            r@.len() == i,
            forall|k: int|
                0 <= k < i ==> {
                    &&& (#[trigger] r@[k])@.len() == in_vec@[k]@.len()
                    &&& forall|j: int| 0 <= j < r@[k]@.len() ==> #[trigger] r@[k]@[j] == in_vec@[k]@[j].0
                },
        decreases in_vec@.len() - i,
    {
        let inner = transform_vec_assetid_to_u64(in_vec[i].clone());
        r.push(inner);
        i = i + 1;
    }
    r
}

/// The raw amount of every balance, keeping the nesting and the order.
pub fn transform_doublevec_balance_to_u128(in_vec: Vec<Vec<Balance>>) -> (r: Vec<Vec<u128>>)
    ensures
        r@.len() == in_vec@.len(),
        forall|i: int|
            0 <= i < r@.len() ==> {
                &&& (#[trigger] r@[i])@.len() == in_vec@[i]@.len()
                &&& forall|j: int| 0 <= j < r@[i]@.len() ==> #[trigger] r@[i]@[j] == in_vec@[i]@[j].0
            },
{
    let mut r: Vec<Vec<u128>> = Vec::new();
    let mut i: usize = 0;
    while i < in_vec.len()
        invariant
            i <= in_vec@.len(),
            r@.len() == i,
            forall|k: int|
                0 <= k < i ==> {
                    &&& (#[trigger] r@[k])@.len() == in_vec@[k]@.len()
                    &&& forall|j: int| 0 <= j < r@[k]@.len() ==> #[trigger] r@[k]@[j] == in_vec@[k]@[j].0
                },
        decreases in_vec@.len() - i,
    {
        let inner = transform_vec_balance_to_u128(in_vec[i].as_slice());
        r.push(inner);
        i = i + 1;
    }
    r
}

/// The address of an optional on-chain account.
pub fn transform_option_account_value(value: Option<AccountId32>) -> (r: Option<Account>)
    ensures
        r is Some <==> value is Some,
        r matches Some(a) ==> a@ == ss58_encode(value->0@),
{
    match value {
        Some(id) => Some(Account::from_account_id(id)),
        None => None,
    }
}

/// An optional raw pool number as a pool identifier.
pub fn transform_option_pool_value(value: Option<u32>) -> (r: Option<PoolId>)
    ensures
        r is Some <==> value is Some,
        r matches Some(p) ==> p.0 == value->0,
{
    match value {
        Some(v) => Some(PoolId(v)),
        None => None,
    }
}

/// The SS58 text of each on-chain account, in order.
pub fn transform_storage_output(storers: Vec<AccountId32>) -> (r: Vec<String>)
    ensures
        r@.len() == storers@.len(),
        forall|i: int| 0 <= i < r@.len() ==> #[trigger] r@[i]@ == ss58_encode(storers@[i]@),
{
    let mut r: Vec<String> = Vec::new();
    let mut i: usize = 0;
    while i < storers.len()
        invariant
            i <= storers@.len(),
            r@.len() == i,
            forall|j: int| 0 <= j < i ==> #[trigger] r@[j]@ == ss58_encode(storers@[j]@),
        decreases storers@.len() - i,
    {
        r.push(storers[i].to_ss58_string());
        i = i + 1;
    }
    r
}

} // verus!
