//! The request and response types of the API, one module per endpoint group.

pub mod account;
pub mod account_types;
pub mod asset;
pub mod asset_types;
pub mod bag;
pub mod bundle;
pub mod challenge;
pub mod config;
pub mod contract;
pub mod currency;
pub mod currency_types;
pub mod dex_types;
pub mod escrow;
pub mod escrow_types;
pub mod fula;
pub mod market;
pub mod market_types;
pub mod pool;
pub mod user;
pub mod validator;
pub mod validator_types;
