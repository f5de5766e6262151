//! Request and response types, chain-side models and the pure decision logic of
//! the SugarFunge API server, with their contracts.

pub mod account;
pub mod address;
pub mod asset;
pub mod bag;
pub mod bundle;
pub mod challenge;
pub mod config;
pub mod contract;
pub mod currency;
pub mod dex;
pub mod endpoint;
pub mod errors;
pub mod escrow;
pub mod fula;
pub mod fula_tx;
pub mod keycloak;
pub mod keys;
pub mod market;
pub mod nft;
pub mod parse;
pub mod pool;
pub mod pool_tx;
pub mod primitives;
pub mod response;
pub mod runtime;
pub mod scale;
pub mod storage;
pub mod stored;
pub mod subscription;
pub mod text;
pub mod token;
pub mod tx;
pub mod types;
pub mod validator;
