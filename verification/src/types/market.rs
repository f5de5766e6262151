//! Requests and responses of the market endpoints, and market rates.

use vstd::prelude::*;
use vstd::std_specs::convert::{FromSpec, FromSpecImpl};

use crate::address::{ss58_decode, ss58_encode, AccountError, AccountId32};
use crate::primitives::{Account, Amount, AssetId, Balance, ClassId, MarketId, Seed};
use crate::runtime;
use crate::text::text_equals;

verus! {

/// The comparison of a `Has` rule.
#[derive(Clone, Copy, Debug, PartialEq, Eq, Structural)]
pub enum AmountOp {
    Equal,
    LessThan,
    LessEqualThan,
    GreaterThan,
    GreaterEqualThan,
}

/// The automated market maker of a market transfer.
#[derive(Clone, Copy, Debug, PartialEq, Eq, Structural)]
pub enum AMM {
    Constant,
}

/// What a market rate does with an asset.
#[derive(Clone, Copy, Debug)]
pub enum RateAction {
    Transfer(Amount),
    MarketTransfer(AMM, ClassId, AssetId),
    Mint(Amount),
    Burn(Amount),
    Has(AmountOp, Amount),
}

/// The party a market rate moves assets from or to: the market, the buyer, or an
/// account named by its address.
#[derive(Clone, Debug)]
pub enum RateAccount {
    Market,
    Account(Account),
    Buyer,
}

/// One rule of a market rate.
#[derive(Clone, Debug)]
pub struct AssetRate {
    pub class_id: ClassId,
    pub asset_id: AssetId,
    pub action: RateAction,
    pub from: RateAccount,
    pub to: RateAccount,
}

/// The balance that a rule of a market rate produced.
#[derive(Clone, Debug)]
pub struct RateBalance {
    pub rate: AssetRate,
    pub balance: Amount,
}

#[derive(Debug)]
pub struct CreateMarketInput {
    pub seed: Seed,
    pub market_id: MarketId,
}

#[derive(Debug)]
pub struct CreateMarketOutput {
    pub market_id: MarketId,
    pub who: Account,
}

#[derive(Debug)]
pub struct CreateMarketRateOutput {
    pub market_id: MarketId,
    pub market_rate_id: MarketId,
    pub who: Account,
}

#[derive(Debug)]
pub struct DepositAssetsInput {
    pub seed: Seed,
    pub market_id: MarketId,
    pub market_rate_id: MarketId,
    pub amount: Balance,
}

#[derive(Debug)]
pub struct DepositAssetsOutput {
    pub who: Account,
    pub market_id: MarketId,
    pub market_rate_id: MarketId,
    pub amount: Balance,
    pub balances: Vec<RateBalance>,
    pub success: bool,
}

#[derive(Debug)]
pub struct ExchangeAssetsInput {
    pub seed: Seed,
    pub market_id: MarketId,
    pub market_rate_id: MarketId,
    pub amount: Balance,
}

#[derive(Debug)]
pub struct ExchangeAssetsOutput {
    pub buyer: Account,
    pub market_id: MarketId,
    pub market_rate_id: MarketId,
    pub amount: Balance,
    pub balances: Vec<RateBalance>,
    pub success: bool,
}

/// The runtime comparison that an API comparison stands for.
pub open spec fn amount_op_to_runtime(op: AmountOp) -> runtime::AmountOp {
    match op {
        AmountOp::Equal => runtime::AmountOp::Equal,
        AmountOp::LessThan => runtime::AmountOp::LessThan,
        AmountOp::LessEqualThan => runtime::AmountOp::LessEqualThan,
        AmountOp::GreaterThan => runtime::AmountOp::GreaterThan,
        AmountOp::GreaterEqualThan => runtime::AmountOp::GreaterEqualThan,
    }
}

/// The API comparison that a runtime comparison stands for.
pub open spec fn amount_op_from_runtime(op: runtime::AmountOp) -> AmountOp {
    match op {
        runtime::AmountOp::Equal => AmountOp::Equal,
        runtime::AmountOp::LessThan => AmountOp::LessThan,
        runtime::AmountOp::LessEqualThan => AmountOp::LessEqualThan,
        runtime::AmountOp::GreaterThan => AmountOp::GreaterThan,
        runtime::AmountOp::GreaterEqualThan => AmountOp::GreaterEqualThan,
    }
}

impl From<AmountOp> for runtime::AmountOp {
    fn from(amount_op: AmountOp) -> (r: runtime::AmountOp) {
        match amount_op {
            AmountOp::Equal => runtime::AmountOp::Equal,
            AmountOp::GreaterEqualThan => runtime::AmountOp::GreaterEqualThan,
            AmountOp::GreaterThan => runtime::AmountOp::GreaterThan,
            AmountOp::LessEqualThan => runtime::AmountOp::LessEqualThan,
            AmountOp::LessThan => runtime::AmountOp::LessThan,
        }
    }
}

impl FromSpecImpl<AmountOp> for runtime::AmountOp {
    open spec fn obeys_from_spec() -> bool {
        true
    }

    open spec fn from_spec(amount_op: AmountOp) -> runtime::AmountOp {
        amount_op_to_runtime(amount_op)
    }
}

impl From<runtime::AmountOp> for AmountOp {
    fn from(sf_amount_op: runtime::AmountOp) -> (r: AmountOp) {
        match sf_amount_op {
            runtime::AmountOp::Equal => AmountOp::Equal,
            runtime::AmountOp::GreaterEqualThan => AmountOp::GreaterEqualThan,
            runtime::AmountOp::GreaterThan => AmountOp::GreaterThan,
            runtime::AmountOp::LessEqualThan => AmountOp::LessEqualThan,
            runtime::AmountOp::LessThan => AmountOp::LessThan,
        }
    }
}

impl FromSpecImpl<runtime::AmountOp> for AmountOp {
    open spec fn obeys_from_spec() -> bool {
        true
    }

    open spec fn from_spec(sf_amount_op: runtime::AmountOp) -> AmountOp {
        amount_op_from_runtime(sf_amount_op)
    }
}

impl From<AMM> for runtime::AMM {
    fn from(amm: AMM) -> (r: runtime::AMM) {
        match amm {
            AMM::Constant => runtime::AMM::Constant,
        }
    }
}

impl FromSpecImpl<AMM> for runtime::AMM {
    open spec fn obeys_from_spec() -> bool {
        true
    }

    open spec fn from_spec(amm: AMM) -> runtime::AMM {
        runtime::AMM::Constant
    }
}

impl From<runtime::AMM> for AMM {
    fn from(sf_amm: runtime::AMM) -> (r: AMM) {
        match sf_amm {
            runtime::AMM::Constant => AMM::Constant,
        }
    }
}

impl FromSpecImpl<runtime::AMM> for AMM {
    open spec fn obeys_from_spec() -> bool {
        true
    }

    open spec fn from_spec(sf_amm: runtime::AMM) -> AMM {
        AMM::Constant
    }
}

/// The runtime action that an API action stands for.
pub open spec fn rate_action_to_runtime(action: RateAction) -> runtime::RateAction {
    match action {
        RateAction::Transfer(amount) => runtime::RateAction::Transfer(amount.0),
        RateAction::MarketTransfer(_amm, class_id, asset_id) => runtime::RateAction::MarketTransfer(
            runtime::AMM::Constant,
            class_id.0,
            asset_id.0,
        ),
        RateAction::Mint(amount) => runtime::RateAction::Mint(amount.0),
        RateAction::Burn(amount) => runtime::RateAction::Burn(amount.0),
        RateAction::Has(op, amount) => runtime::RateAction::Has(amount_op_to_runtime(op), amount.0),
    }
}

/// The API action that a runtime action stands for.
pub open spec fn rate_action_from_runtime(action: runtime::RateAction) -> RateAction {
    match action {
        runtime::RateAction::Transfer(amount) => RateAction::Transfer(Amount(amount)),
        runtime::RateAction::MarketTransfer(_amm, class_id, asset_id) => RateAction::MarketTransfer(
            AMM::Constant,
            ClassId(class_id),
            AssetId(asset_id),
        ),
        runtime::RateAction::Mint(amount) => RateAction::Mint(Amount(amount)),
        runtime::RateAction::Burn(amount) => RateAction::Burn(Amount(amount)),
        runtime::RateAction::Has(op, amount) => RateAction::Has(amount_op_from_runtime(op), Amount(amount)),
    }
}

impl From<RateAction> for runtime::RateAction {
    fn from(rate_action: RateAction) -> (r: runtime::RateAction) {
        match rate_action {
            RateAction::Transfer(amount) => runtime::RateAction::Transfer(amount.0),
            RateAction::Mint(amount) => runtime::RateAction::Mint(amount.0),
            RateAction::Burn(amount) => runtime::RateAction::Burn(amount.0),
            RateAction::Has(op, amount) => runtime::RateAction::Has(op.into(), amount.0),
            RateAction::MarketTransfer(amm, class_id, asset_id) => runtime::RateAction::MarketTransfer(
                amm.into(),
                class_id.0,
                asset_id.0,
            ),
        }
    }
}

impl FromSpecImpl<RateAction> for runtime::RateAction {
    open spec fn obeys_from_spec() -> bool {
        true
    }

    open spec fn from_spec(rate_action: RateAction) -> runtime::RateAction {
        rate_action_to_runtime(rate_action)
    }
}

impl From<runtime::RateAction> for RateAction {
    fn from(sf_rate_action: runtime::RateAction) -> (r: RateAction) {
        match sf_rate_action {
            runtime::RateAction::Transfer(amount) => RateAction::Transfer(Amount(amount)),
            runtime::RateAction::Mint(amount) => RateAction::Mint(Amount(amount)),
            runtime::RateAction::Burn(amount) => RateAction::Burn(Amount(amount)),
            runtime::RateAction::Has(op, amount) => RateAction::Has(op.into(), Amount(amount)),
            runtime::RateAction::MarketTransfer(amm, class_id, asset_id) => RateAction::MarketTransfer(
                amm.into(),
                ClassId(class_id),
                AssetId(asset_id),
            ),
        }
    }
}

impl FromSpecImpl<runtime::RateAction> for RateAction {
    open spec fn obeys_from_spec() -> bool {
        true
    }

    open spec fn from_spec(sf_rate_action: runtime::RateAction) -> RateAction {
        rate_action_from_runtime(sf_rate_action)
    }
}

/// Whether an API comparison and a runtime comparison stand for each other: converting
/// one way and back gives the comparison one started from.
pub proof fn lemma_amount_op_round_trip(api: AmountOp, chain: runtime::AmountOp)
    ensures
        amount_op_from_runtime(amount_op_to_runtime(api)) == api,
        amount_op_to_runtime(amount_op_from_runtime(chain)) == chain,
{
}

/// Converting a rate action to its runtime form and back gives the same action, and
/// likewise from the runtime side.
pub proof fn lemma_rate_action_round_trip(api: RateAction, chain: runtime::RateAction)
    ensures
        rate_action_from_runtime(rate_action_to_runtime(api)) == api,
        rate_action_to_runtime(rate_action_from_runtime(chain)) == chain,
{
}

/// Whether every address inside a rate account is valid SS58 (the market and the buyer
/// have none).
pub open spec fn rate_account_is_valid(account: RateAccount) -> bool {
    match account {
        RateAccount::Account(a) => ss58_decode(a@) is Some,
        _ => true,
    }
}

/// Whether an API rate account and a runtime rate account name the same party.
pub open spec fn rate_account_matches(api: RateAccount, chain: runtime::RateAccount) -> bool {
    match (api, chain) {
        (RateAccount::Market, runtime::RateAccount::Market) => true,
        (RateAccount::Buyer, runtime::RateAccount::Buyer) => true,
        (RateAccount::Account(a), runtime::RateAccount::Account(id)) => ss58_decode(a@) == Some(id@),
        _ => false,
    }
}

impl RateAccount {
    /// The runtime party; fails exactly when the named address is not valid SS58.
    pub fn try_into_runtime(self) -> (r: Result<runtime::RateAccount, AccountError>)
        ensures
            r is Ok <==> rate_account_is_valid(self),
            r matches Ok(chain) ==> rate_account_matches(self, chain),
    {
        match self {
            RateAccount::Buyer => Ok(runtime::RateAccount::Buyer),
            RateAccount::Market => Ok(runtime::RateAccount::Market),
            RateAccount::Account(account) => {
                let id = AccountId32::try_from_account(&account)?;
                Ok(runtime::RateAccount::Account(id))
            },
        }
    }

    /// The runtime party of a rate account whose address is valid SS58.
    pub fn into_runtime(self) -> (r: runtime::RateAccount)
        requires
            rate_account_is_valid(self),
        ensures
            rate_account_matches(self, r),
    {
        match self.try_into_runtime() {
            Ok(chain) => chain,
            Err(_) => {
                assert(false);
                runtime::RateAccount::Market
            },
        }
    }

    /// The API party of a runtime rate account (an account by its SS58 text). Converting
    /// the result back gives the same runtime party.
    pub fn from_runtime(sf_rate_account: runtime::RateAccount) -> (r: RateAccount)
        ensures
            rate_account_is_valid(r),
            rate_account_matches(r, sf_rate_account),
            sf_rate_account matches runtime::RateAccount::Account(id) ==> (r matches RateAccount::Account(a) && a@ == ss58_encode(id@)),
    {
        match sf_rate_account {
            runtime::RateAccount::Buyer => RateAccount::Buyer,
            runtime::RateAccount::Market => RateAccount::Market,
            runtime::RateAccount::Account(id) => RateAccount::Account(Account::from_account_id(id)),
        }
    }
}

/// The rate account that an address names: the words `Buyer` and `Market` stand for
/// those parties, any other text for the account with that address.
pub open spec fn rate_account_of_text(account: Account, r: RateAccount) -> bool {
    if account@ == "Buyer"@ {
        r is Buyer
    } else if account@ == "Market"@ {
        r is Market
    } else {
        r matches RateAccount::Account(a) && a@ == account@
    }
}

impl RateAccount {
    /// Reads a party from an address field.
    pub fn from_account(account: Account) -> (r: RateAccount)
        ensures
            rate_account_of_text(account, r),
    {
        if text_equals(account.as_str(), "Buyer") {
            RateAccount::Buyer
        } else if text_equals(account.as_str(), "Market") {
            RateAccount::Market
        } else {
            RateAccount::Account(account)
        }
    }
}

/// Whether every address in the rule is valid SS58.
pub open spec fn asset_rate_is_valid(rate: AssetRate) -> bool {
    rate_account_is_valid(rate.from) && rate_account_is_valid(rate.to)
}

/// Whether an API rule and a runtime rule are the same rule.
pub open spec fn asset_rate_matches(api: AssetRate, chain: runtime::AssetRate) -> bool {
    &&& chain.class_id == api.class_id.0
    &&& chain.asset_id == api.asset_id.0
    &&& chain.action == rate_action_to_runtime(api.action)
    &&& rate_account_matches(api.from, chain.from)
    &&& rate_account_matches(api.to, chain.to)
}

impl AssetRate {
    /// The runtime rule; fails exactly when an address in it is not valid SS58.
    pub fn try_into_runtime(self) -> (r: Result<runtime::AssetRate, AccountError>)
        ensures
            r is Ok <==> asset_rate_is_valid(self),
            r matches Ok(chain) ==> asset_rate_matches(self, chain),
    {
        let from = self.from.try_into_runtime()?;
        let to = self.to.try_into_runtime()?;
        Ok(runtime::AssetRate {
            class_id: self.class_id.0,
            asset_id: self.asset_id.0,
            action: self.action.into(),
            from,
            to,
        })
    }

    /// The runtime rule of a rule whose addresses are valid SS58.
    pub fn into_runtime(self) -> (r: runtime::AssetRate)
        requires
            asset_rate_is_valid(self),
        ensures
            asset_rate_matches(self, r),
    {
        let from = self.from.into_runtime();
        let to = self.to.into_runtime();
        runtime::AssetRate {
            class_id: self.class_id.0,
            asset_id: self.asset_id.0,
            action: self.action.into(),
            from,
            to,
        }
    }

    /// The API rule of a runtime rule. Converting the result back gives the same rule.
    pub fn from_runtime(sf_asset_rate: runtime::AssetRate) -> (r: AssetRate)
        ensures
            asset_rate_is_valid(r),
            asset_rate_matches(r, sf_asset_rate),
            r.action == rate_action_from_runtime(sf_asset_rate.action),
    {
        proof {
            lemma_rate_action_round_trip(rate_action_from_runtime(sf_asset_rate.action), sf_asset_rate.action);
        }
        AssetRate {
            class_id: ClassId(sf_asset_rate.class_id),
            asset_id: AssetId(sf_asset_rate.asset_id),
            action: sf_asset_rate.action.into(),
            from: RateAccount::from_runtime(sf_asset_rate.from),
            to: RateAccount::from_runtime(sf_asset_rate.to),
        }
    }
}

impl RateBalance {
    /// The API balance of a runtime rate balance.
    pub fn from_runtime(sf_rate_balance: runtime::RateBalance) -> (r: RateBalance)
        ensures
            asset_rate_matches(r.rate, sf_rate_balance.rate),
            r.rate.action == rate_action_from_runtime(sf_rate_balance.rate.action),
            r.balance.0 == sf_rate_balance.balance,
    {
        RateBalance {
            rate: AssetRate::from_runtime(sf_rate_balance.rate),
            balance: Amount(sf_rate_balance.balance),
        }
    }
}


/// Each API comparison is handed to the chain as the comparison of the same name, and
/// each chain comparison is read back as the API comparison of the same name.
pub proof fn lemma_amount_op_keeps_comparison(api: AmountOp, chain: runtime::AmountOp)
    ensures
        api == AmountOp::Equal ==> amount_op_to_runtime(api) == runtime::AmountOp::Equal,
        api == AmountOp::LessThan ==> amount_op_to_runtime(api) == runtime::AmountOp::LessThan,
        api == AmountOp::LessEqualThan ==> amount_op_to_runtime(api) == runtime::AmountOp::LessEqualThan,
        api == AmountOp::GreaterThan ==> amount_op_to_runtime(api) == runtime::AmountOp::GreaterThan,
        api == AmountOp::GreaterEqualThan ==> amount_op_to_runtime(api) == runtime::AmountOp::GreaterEqualThan,
        chain == runtime::AmountOp::Equal ==> amount_op_from_runtime(chain) == AmountOp::Equal,
        chain == runtime::AmountOp::LessThan ==> amount_op_from_runtime(chain) == AmountOp::LessThan,
        chain == runtime::AmountOp::LessEqualThan ==> amount_op_from_runtime(chain) == AmountOp::LessEqualThan,
        chain == runtime::AmountOp::GreaterThan ==> amount_op_from_runtime(chain) == AmountOp::GreaterThan,
        chain == runtime::AmountOp::GreaterEqualThan ==> amount_op_from_runtime(chain) == AmountOp::GreaterEqualThan,
{
}

/// Converting a rate action (with `From`, either way) keeps its kind and its amount: a
/// mint stays a mint of the same amount, a burn a burn, a transfer a transfer, a `Has`
/// rule a `Has` rule, a market transfer a market transfer of the same class and asset.
pub proof fn lemma_rate_action_keeps_kind(api: RateAction, chain: runtime::RateAction)
    ensures
        api matches RateAction::Mint(a) ==> <runtime::RateAction as FromSpec<RateAction>>::from_spec(api)
            == runtime::RateAction::Mint(a.0),
        api matches RateAction::Burn(a) ==> <runtime::RateAction as FromSpec<RateAction>>::from_spec(api)
            == runtime::RateAction::Burn(a.0),
        api matches RateAction::Transfer(a) ==> <runtime::RateAction as FromSpec<RateAction>>::from_spec(api)
            == runtime::RateAction::Transfer(a.0),
        api matches RateAction::Has(op, a) ==> <runtime::RateAction as FromSpec<RateAction>>::from_spec(api)
            == runtime::RateAction::Has(amount_op_to_runtime(op), a.0),
        api matches RateAction::MarketTransfer(_m, c, s) ==> <runtime::RateAction as FromSpec<RateAction>>::from_spec(api)
            == runtime::RateAction::MarketTransfer(runtime::AMM::Constant, c.0, s.0),
        chain matches runtime::RateAction::Mint(a) ==> <RateAction as FromSpec<runtime::RateAction>>::from_spec(chain)
            == RateAction::Mint(Amount(a)),
        chain matches runtime::RateAction::Burn(a) ==> <RateAction as FromSpec<runtime::RateAction>>::from_spec(chain)
            == RateAction::Burn(Amount(a)),
        chain matches runtime::RateAction::Transfer(a) ==> <RateAction as FromSpec<runtime::RateAction>>::from_spec(chain)
            == RateAction::Transfer(Amount(a)),
        chain matches runtime::RateAction::Has(op, a) ==> <RateAction as FromSpec<runtime::RateAction>>::from_spec(chain)
            == RateAction::Has(amount_op_from_runtime(op), Amount(a)),
{
}

} // verus!
