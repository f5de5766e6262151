//! Converting earned labor and challenge tokens into the claimed token: the bundle that
//! holds one of each, its registration and mint on the chain, and the mint on the
//! contract service that follows.
//!
//! The conversion alternates chain and network calls with decisions. The decisions are a
//! state machine: `conversion_step` takes the stage and what the last call returned, and
//! gives the next stage and the next call, or the answer.

use vstd::prelude::*;

use crate::account::{account_from_seed, seed_refusal, sr25519_public_of_uri};
use crate::address::AccountId32;
use crate::bundle::{bundle_hash, bundle_id_from_hash, hash_bundle_schema};
use crate::config::Config;
use crate::primitives::{AssetId, Balance, BundleId, ClassId, Seed};
use crate::response::RequestError;
use crate::runtime;
use crate::scale::hex_lower;
use crate::types::contract::{ContractTransactionInput, ConvertFulaInput};

verus! {

/// Whether `s` is the schema of the claimed-token bundle: one labor token and one
/// challenge token, each with the value the settings give it.
pub open spec fn is_claimed_schema(s: runtime::BundleSchema, config: Config) -> bool {
    &&& s.class_ids@ == seq![config.labor_token_class_id, config.challenge_token_class_id]
    &&& s.asset_ids.deep_view() == seq![seq![config.labor_token_asset_id], seq![config.challenge_token_asset_id]]
    &&& s.amounts.deep_view() == seq![seq![config.labor_token_value], seq![config.challenge_token_value]]
}

/// The schema of the claimed-token bundle.
pub fn claimed_bundle_schema(config: &Config) -> (r: runtime::BundleSchema)
    ensures
        is_claimed_schema(r, *config),
{
    let class_ids = vec![config.labor_token_class_id, config.challenge_token_class_id];
    let asset_ids = vec![vec![config.labor_token_asset_id], vec![config.challenge_token_asset_id]];
    let amounts = vec![vec![config.labor_token_value], vec![config.challenge_token_value]];
    let r = runtime::BundleSchema { class_ids, asset_ids, amounts };
    assert(r.class_ids@ =~= seq![config.labor_token_class_id, config.challenge_token_class_id]);
    assert(r.asset_ids@[0].deep_view() =~= seq![config.labor_token_asset_id]);
    assert(r.asset_ids@[1].deep_view() =~= seq![config.challenge_token_asset_id]);
    assert(r.amounts@[0].deep_view() =~= seq![config.labor_token_value]);
    assert(r.amounts@[1].deep_view() =~= seq![config.challenge_token_value]);
    assert(r.asset_ids.deep_view() =~= seq![seq![config.labor_token_asset_id], seq![config.challenge_token_asset_id]]);
    assert(r.amounts.deep_view() =~= seq![seq![config.labor_token_value], seq![config.challenge_token_value]]);
    r
}

/// What a conversion works with, fixed before the first call: the account of the seed
/// (which both sends and receives the bundle), the claimed-token bundle and its
/// identifier, the class and asset it is registered under, and what the contract service
/// is asked to mint.
#[derive(Clone, Debug)]
pub struct ConversionPlan {
    pub seed: Seed,
    pub account: AccountId32,
    pub schema: runtime::BundleSchema,
    pub bundle_hash: [u8; 32],
    pub bundle_id: BundleId,
    pub claimed_class_id: ClassId,
    pub claimed_asset_id: AssetId,
    pub amount: Balance,
    pub route: String,
    pub wallet_account: String,
}

/// Whether `p` is the plan of converting `req` under `config` through the contract route
/// `route`.
pub open spec fn plans(p: ConversionPlan, config: Config, req: ConvertFulaInput, route: Seq<char>) -> bool {
    &&& p.seed@ == req.seed@
    &&& sr25519_public_of_uri(req.seed@) == Ok::<Seq<u8>, Seq<char>>(p.account@)
    &&& is_claimed_schema(p.schema, config)
    &&& p.bundle_hash@ == bundle_hash(p.schema)
    &&& p.bundle_id@ == hex_lower(p.bundle_hash@)
    &&& p.claimed_class_id.0 == config.claimed_token_class_id
    &&& p.claimed_asset_id.0 == config.claimed_token_asset_id
    &&& p.amount == req.amount
    &&& p.route@ == route
    &&& p.wallet_account@ == req.wallet_account@
}

/// The plan of a conversion. Fails, before any call, when the seed cannot be read.
pub fn plan_conversion(config: &Config, req: &ConvertFulaInput, route: &str) -> (r: Result<ConversionPlan, RequestError>)
    ensures
        r is Ok <==> sr25519_public_of_uri(req.seed@) is Ok,
        r matches Ok(p) ==> plans(p, *config, *req, route@),
        r matches Err(e) ==> seed_refusal(e, req.seed@),
{
    let account = account_from_seed(&req.seed)?;
    let schema = claimed_bundle_schema(config);
    let hash = hash_bundle_schema(&schema);
    let bundle_id = bundle_id_from_hash(&hash);
    Ok(ConversionPlan {
        seed: Seed(req.seed.0.clone()),
        account,
        schema,
        bundle_hash: hash,
        bundle_id,
        claimed_class_id: ClassId(config.claimed_token_class_id),
        claimed_asset_id: AssetId(config.claimed_token_asset_id),
        amount: Balance(req.amount.0),
        route: String::from_str(route),
        wallet_account: req.wallet_account.clone(),
    })
}

/// The mint request sent to the contract service: the wallet and the converted amount.
pub fn contract_request(plan: &ConversionPlan) -> (r: ContractTransactionInput)
    ensures
        r.account_address@ == plan.wallet_account@,
        r.amount == plan.amount.0,
{
    ContractTransactionInput { account_address: plan.wallet_account.clone(), amount: plan.amount.0 }
}

/// Where a conversion stands.
#[derive(Clone, Copy, Debug, PartialEq, Eq, Structural)]
pub enum ConversionStage {
    /// Asking whether the claimed-token bundle is registered.
    CheckingBundle,
    /// Registering the bundle.
    RegisteringBundle,
    /// Minting the bundle for the account.
    MintingBundle,
    /// Refunding the fees; `minted` tells whether the mint event was found.
    RefundingFees { minted: bool },
    /// Asking the contract service to mint.
    CallingContract,
    /// Answered.
    Finished,
}

/// What the last call of a conversion returned. An error is the body the call's failure
/// is reported with.
#[derive(Debug)]
pub enum ConversionEvent {
    /// Whether the bundle is registered; `None` when the query failed.
    BundleChecked(Option<bool>),
    BundleRegistered(Result<(), String>),
    /// Whether the mint event was found among the events of the mint.
    BundleMinted(Result<bool, String>),
    FeesRefunded(Result<(), String>),
    /// The receipt of the contract service; `None` when it failed.
    ContractReplied(Option<Vec<u8>>),
}

/// Why a conversion was refused after it started.
#[derive(Clone, Copy, Debug, PartialEq, Eq, Structural)]
pub enum ConversionRefusal {
    BundleCheckFailed,
    BundleMintNotFound,
    ContractMintFailed,
}

/// The answer of a conversion.
#[derive(Debug)]
pub enum ConversionResponse {
    /// The contract service's receipt.
    Receipt(Vec<u8>),
    /// A refusal with an error body.
    BadRequest(ConversionRefusal),
    /// A failed call, with the body it is reported with.
    Failed(String),
}

/// The next call of a conversion, or its answer. The values each call takes are the
/// plan's.
#[derive(Debug)]
pub enum ConversionAction {
    CheckBundle,
    RegisterBundle,
    MintBundle,
    RefundFees,
    CallContract,
    Respond(ConversionResponse),
}

/// Whether `event` is what the call made at `stage` returns.
pub open spec fn event_fits(stage: ConversionStage, event: ConversionEvent) -> bool {
    match stage {
        ConversionStage::CheckingBundle => event is BundleChecked,
        ConversionStage::RegisteringBundle => event is BundleRegistered,
        ConversionStage::MintingBundle => event is BundleMinted,
        ConversionStage::RefundingFees { .. } => event is FeesRefunded,
        ConversionStage::CallingContract => event is ContractReplied,
        ConversionStage::Finished => false,
    }
}

/// The transitions of a conversion: a missing or failed check is refused; an unknown
/// bundle is registered first; a failed call is reported as it failed; after the mint
/// the fees are refunded, and the contract service is asked to mint only when the mint
/// event was found.
pub open spec fn conversion_next(stage: ConversionStage, event: ConversionEvent) -> (ConversionStage, ConversionAction) {
    match (stage, event) {
        (ConversionStage::CheckingBundle, ConversionEvent::BundleChecked(None)) =>
            (ConversionStage::Finished, ConversionAction::Respond(ConversionResponse::BadRequest(ConversionRefusal::BundleCheckFailed))),
        (ConversionStage::CheckingBundle, ConversionEvent::BundleChecked(Some(false))) =>
            (ConversionStage::RegisteringBundle, ConversionAction::RegisterBundle),
        (ConversionStage::CheckingBundle, ConversionEvent::BundleChecked(Some(true))) =>
            (ConversionStage::MintingBundle, ConversionAction::MintBundle),
        (ConversionStage::RegisteringBundle, ConversionEvent::BundleRegistered(Ok(()))) =>
            (ConversionStage::MintingBundle, ConversionAction::MintBundle),
        (ConversionStage::RegisteringBundle, ConversionEvent::BundleRegistered(Err(body))) =>
            (ConversionStage::Finished, ConversionAction::Respond(ConversionResponse::Failed(body))),
        (ConversionStage::MintingBundle, ConversionEvent::BundleMinted(Ok(found))) =>
            (ConversionStage::RefundingFees { minted: found }, ConversionAction::RefundFees),
        (ConversionStage::MintingBundle, ConversionEvent::BundleMinted(Err(body))) =>
            (ConversionStage::Finished, ConversionAction::Respond(ConversionResponse::Failed(body))),
        (ConversionStage::RefundingFees { minted }, ConversionEvent::FeesRefunded(Ok(()))) =>
            if minted {
                (ConversionStage::CallingContract, ConversionAction::CallContract)
            } else {
                (ConversionStage::Finished, ConversionAction::Respond(ConversionResponse::BadRequest(ConversionRefusal::BundleMintNotFound)))
            },
        (ConversionStage::RefundingFees { .. }, ConversionEvent::FeesRefunded(Err(body))) =>
            (ConversionStage::Finished, ConversionAction::Respond(ConversionResponse::Failed(body))),
        (ConversionStage::CallingContract, ConversionEvent::ContractReplied(Some(receipt))) =>
            (ConversionStage::Finished, ConversionAction::Respond(ConversionResponse::Receipt(receipt))),
        (ConversionStage::CallingContract, ConversionEvent::ContractReplied(None)) =>
            (ConversionStage::Finished, ConversionAction::Respond(ConversionResponse::BadRequest(ConversionRefusal::ContractMintFailed))),
        _ => (stage, ConversionAction::CheckBundle),
    }
}

/// The first call of a conversion.
pub fn start_conversion() -> (r: (ConversionStage, ConversionAction))
    ensures
        r == (ConversionStage::CheckingBundle, ConversionAction::CheckBundle),
{
    (ConversionStage::CheckingBundle, ConversionAction::CheckBundle)
}

/// The next stage and call of a conversion, given what the last call returned.
pub fn conversion_step(stage: ConversionStage, event: ConversionEvent) -> (r: (ConversionStage, ConversionAction))
    requires
        event_fits(stage, event),
    ensures
        r == conversion_next(stage, event),
        (r.1 is Respond) <==> (r.0 == ConversionStage::Finished),
{
    match event {
        ConversionEvent::BundleChecked(None) => (
            ConversionStage::Finished,
            ConversionAction::Respond(ConversionResponse::BadRequest(ConversionRefusal::BundleCheckFailed)),
        ),
        ConversionEvent::BundleChecked(Some(exists)) => {
            if exists {
                (ConversionStage::MintingBundle, ConversionAction::MintBundle)
            } else {
                (ConversionStage::RegisteringBundle, ConversionAction::RegisterBundle)
            }
        },
        ConversionEvent::BundleRegistered(Ok(())) => (ConversionStage::MintingBundle, ConversionAction::MintBundle),
        ConversionEvent::BundleRegistered(Err(body)) => (
            ConversionStage::Finished,
            ConversionAction::Respond(ConversionResponse::Failed(body)),
        ),
        ConversionEvent::BundleMinted(Ok(found)) => (ConversionStage::RefundingFees { minted: found }, ConversionAction::RefundFees),
        ConversionEvent::BundleMinted(Err(body)) => (
            ConversionStage::Finished,
            ConversionAction::Respond(ConversionResponse::Failed(body)),
        ),
        ConversionEvent::FeesRefunded(Ok(())) => {
            let minted = match stage {
                ConversionStage::RefundingFees { minted } => minted,
                _ => false,
            };
            if minted {
                (ConversionStage::CallingContract, ConversionAction::CallContract)
            } else {
                (
                    ConversionStage::Finished,
                    ConversionAction::Respond(ConversionResponse::BadRequest(ConversionRefusal::BundleMintNotFound)),
                )
            }
        },
        ConversionEvent::FeesRefunded(Err(body)) => (
            ConversionStage::Finished,
            ConversionAction::Respond(ConversionResponse::Failed(body)),
        ),
        ConversionEvent::ContractReplied(Some(receipt)) => (
            ConversionStage::Finished,
            ConversionAction::Respond(ConversionResponse::Receipt(receipt)),
        ),
        ConversionEvent::ContractReplied(None) => (
            ConversionStage::Finished,
            ConversionAction::Respond(ConversionResponse::BadRequest(ConversionRefusal::ContractMintFailed)),
        ),
    }
}

/// The error body of a refusal.
pub fn refusal_body(refusal: ConversionRefusal) -> (r: RequestError)
    ensures
        r.description@ == ""@,
        refusal == ConversionRefusal::BundleCheckFailed ==> r.message@ == "Failed to verify if the Bundle ID exist"@,
        refusal == ConversionRefusal::BundleMintNotFound ==> r.message@ == "Failed to execute the Bundle Mint"@,
        refusal == ConversionRefusal::ContractMintFailed ==> r.message@ == "Failed to execute the contract_event::MintTo"@,
{
    match refusal {
        ConversionRefusal::BundleCheckFailed => RequestError::new("Failed to verify if the Bundle ID exist", ""),
        ConversionRefusal::BundleMintNotFound => RequestError::new("Failed to execute the Bundle Mint", ""),
        ConversionRefusal::ContractMintFailed => RequestError::new("Failed to execute the contract_event::MintTo", ""),
    }
}

/// What the contract service answered a request with.
#[derive(Debug)]
pub enum ContractReply {
    /// The request could not be sent; the debug text of the failure.
    Unsent(String),
    /// An error status: the error body when it could be read, and the debug text of the
    /// status error.
    ErrorStatus { body: Option<RequestError>, status: String },
    /// A success status: the body when it could be read as the expected value, else the
    /// debug text of the reading failure.
    Answered(Result<Vec<u8>, String>),
}

/// The outcome of a request to the contract service: the body of a successful answer, the
/// service's own error body, or an error describing what failed.
pub fn contract_outcome(reply: ContractReply) -> (r: Result<Vec<u8>, RequestError>)
    ensures
        r is Ok <==> reply matches ContractReply::Answered(Ok(_)),
        reply matches ContractReply::Answered(Ok(body)) ==> r == Ok::<Vec<u8>, RequestError>(body),
        reply matches ContractReply::Unsent(text) ==> (r matches Err(e) && e.message@ == text@
            && e.description@ == "Reqwest error."@),
        reply matches ContractReply::ErrorStatus { body: Some(b), .. } ==> r == Err::<Vec<u8>, RequestError>(b),
        reply matches ContractReply::ErrorStatus { body: None, status } ==> (r matches Err(e) && e.message@ == status@
            && e.description@ == "Reqwest json error."@),
        reply matches ContractReply::Answered(Err(text)) ==> (r matches Err(e) && e.message@ == text@
            && e.description@ == "Reqwest json error."@),
{
    match reply {
        ContractReply::Unsent(text) => Err(RequestError { message: text, description: String::from_str("Reqwest error.") }),
        ContractReply::ErrorStatus { body, status } => match body {
            Some(b) => Err(b),
            None => Err(RequestError { message: status, description: String::from_str("Reqwest json error.") }),
        },
        ContractReply::Answered(Ok(body)) => Ok(body),
        ContractReply::Answered(Err(text)) => Err(RequestError { message: text, description: String::from_str("Reqwest json error.") }),
    }
}

/// The stage and the calls of a conversion after the events so far, from the start.
pub open spec fn conversion_run(events: Seq<ConversionEvent>) -> (ConversionStage, Seq<ConversionAction>)
    decreases events.len(),
{
    if events.len() == 0 {
        (ConversionStage::CheckingBundle, seq![ConversionAction::CheckBundle])
    } else {
        let before = conversion_run(events.drop_last());
        let next = conversion_next(before.0, events.last());
        (next.0, before.1.push(next.1))
    }
}

/// Whether each event is what the call made at its stage returns.
pub open spec fn events_fit(events: Seq<ConversionEvent>) -> bool {
    forall|i: int| 0 <= i < events.len() ==> event_fits(#[trigger] conversion_run(events.take(i)).0, events[i])
}

/// How many calls a conversion can still make from a stage.
pub open spec fn stage_rank(stage: ConversionStage) -> nat {
    match stage {
        ConversionStage::CheckingBundle => 5,
        ConversionStage::RegisteringBundle => 4,
        ConversionStage::MintingBundle => 3,
        ConversionStage::RefundingFees { .. } => 2,
        ConversionStage::CallingContract => 1,
        ConversionStage::Finished => 0,
    }
}

/// A conversion answers after at most five calls: each returned call moves it to a later
/// stage, so a run of fitting events is at most five long.
pub proof fn lemma_conversion_terminates(events: Seq<ConversionEvent>)
    requires
        events_fit(events),
    ensures
        events.len() + stage_rank(conversion_run(events).0) <= 5,
    decreases events.len(),
{
    if events.len() > 0 {
        let prefix = events.drop_last();
        assert forall|i: int| 0 <= i < prefix.len() implies event_fits(#[trigger] conversion_run(prefix.take(i)).0, prefix[i]) by {
            assert(prefix.take(i) =~= events.take(i));
            assert(event_fits(conversion_run(events.take(i)).0, events[i]));
        }
        lemma_conversion_terminates(prefix);
        let last = events.len() - 1;
        assert(events.take(last) =~= prefix);
        assert(event_fits(conversion_run(events.take(last)).0, events[last]));
    }
}

/// The stage after the refund remembers that the mint event was found only if an earlier
/// mint returned it.
proof fn lemma_minted_stage_needs_mint(events: Seq<ConversionEvent>)
    requires
        conversion_run(events).0 == (ConversionStage::RefundingFees { minted: true }),
    ensures
        exists|j: int| 0 <= j < events.len() && events[j] == ConversionEvent::BundleMinted(Ok::<bool, String>(true)),
    decreases events.len(),
{
    if events.len() > 0 {
        let prefix = events.drop_last();
        let before = conversion_run(prefix).0;
        let last = events.len() - 1;
        if before == (ConversionStage::RefundingFees { minted: true }) {
            lemma_minted_stage_needs_mint(prefix);
            let j = choose|j: int| 0 <= j < prefix.len() && prefix[j] == ConversionEvent::BundleMinted(Ok::<bool, String>(true));
            assert(events[j] == prefix[j]);
        } else {
            assert(events[last] == events.last());
        }
    }
}

/// The contract service is asked to mint only after the bundle mint returned its event
/// and the fees were refunded: in a run from the start, a `CallContract` call follows a
/// `BundleMinted(Ok(true))` event and directly a successful refund.
pub proof fn lemma_contract_mint_needs_bundle_mint(events: Seq<ConversionEvent>)
    requires
        events.len() > 0,
        conversion_run(events).1.last() is CallContract,
    ensures
        exists|j: int| 0 <= j < events.len() && events[j] == ConversionEvent::BundleMinted(Ok::<bool, String>(true)),
        events.last() == ConversionEvent::FeesRefunded(Ok::<(), String>(())),
{
    let prefix = events.drop_last();
    let before = conversion_run(prefix).0;
    assert(before == (ConversionStage::RefundingFees { minted: true }));
    lemma_minted_stage_needs_mint(prefix);
    let j = choose|j: int| 0 <= j < prefix.len() && prefix[j] == ConversionEvent::BundleMinted(Ok::<bool, String>(true));
    assert(events[j] == prefix[j]);
    if let ConversionEvent::FeesRefunded(Ok(u)) = events.last() {
        assert(u == ());
    }
}

/// A bundle is registered only when the check found it missing: in a run from the start,
/// a `RegisterBundle` call answers a `BundleChecked(Some(false))` event.
pub proof fn lemma_register_needs_missing_bundle(events: Seq<ConversionEvent>)
    requires
        events.len() > 0,
        conversion_run(events).1.last() is RegisterBundle,
    ensures
        events.last() == ConversionEvent::BundleChecked(Some(false)),
{
}


/// The claimed-token schema pairs each token with its own settings: it holds two classes,
/// one entry with the labor token's class, asset and value and a different entry with the
/// challenge token's class, asset and value; and where the two classes differ, the entry
/// of the labor class carries the labor value and the entry of the challenge class the
/// challenge value.
pub proof fn lemma_claimed_schema_pairs_settings(s: runtime::BundleSchema, config: Config)
    requires
        is_claimed_schema(s, config),
    ensures
        s.class_ids@.len() == 2,
        s.asset_ids.deep_view().len() == 2,
        s.amounts.deep_view().len() == 2,
        exists|i: int, j: int|
            0 <= i < 2 && 0 <= j < 2 && i != j && #[trigger] s.class_ids@[i] == config.labor_token_class_id
                && s.asset_ids.deep_view()[i] == seq![config.labor_token_asset_id] && s.amounts.deep_view()[i]
                == seq![config.labor_token_value] && #[trigger] s.class_ids@[j] == config.challenge_token_class_id
                && s.asset_ids.deep_view()[j] == seq![config.challenge_token_asset_id] && s.amounts.deep_view()[j]
                == seq![config.challenge_token_value],
        config.labor_token_class_id != config.challenge_token_class_id ==> forall|i: int|
            0 <= i < 2 ==> {
                &&& (#[trigger] s.class_ids@[i] == config.labor_token_class_id ==> s.amounts.deep_view()[i] == seq![
                    config.labor_token_value,
                ])
                &&& (s.class_ids@[i] == config.challenge_token_class_id ==> s.amounts.deep_view()[i] == seq![
                    config.challenge_token_value,
                ])
            },
{
    assert(s.class_ids@[0] == config.labor_token_class_id);
    assert(s.class_ids@[1] == config.challenge_token_class_id);
}

} // verus!
