//! Settings of the server: the contract service and the token classes it mints.

use vstd::prelude::*;

use crate::parse::{parse_u128, parse_u64, spec_parse_u128, spec_parse_u64};

verus! {

#[derive(Clone, Debug)]
pub struct Config {
    pub fula_contract_api_host_and_port: String,
    pub labor_token_class_id: u64,
    pub labor_token_asset_id: u64,
    pub labor_token_value: u128,
    pub challenge_token_class_id: u64,
    pub challenge_token_asset_id: u64,
    pub challenge_token_value: u128,
    pub claimed_token_class_id: u64,
    pub claimed_token_asset_id: u64,
}

/// A setting of the server, in the order the server reads them.
#[derive(Clone, Copy, Debug, PartialEq, Eq, Structural)]
pub enum ConfigField {
    FulaContractApiHostAndPort,
    LaborTokenClassId,
    LaborTokenAssetId,
    ChallengeTokenClassId,
    ChallengeTokenAssetId,
    LaborTokenValue,
    ChallengeTokenValue,
    ClaimedTokenClassId,
    ClaimedTokenAssetId,
}

/// Why the settings cannot be read: the first setting, in reading order, that is not set
/// or is not a number.
#[derive(Clone, Copy, Debug, PartialEq, Eq, Structural)]
pub enum ConfigError {
    NotSet(ConfigField),
    NotANumber(ConfigField),
}

/// The settings as the environment gives them, each possibly unset.
#[derive(Clone, Debug)]
pub struct ConfigValues {
    pub fula_contract_api_host_and_port: Option<String>,
    pub labor_token_class_id: Option<String>,
    pub labor_token_asset_id: Option<String>,
    pub challenge_token_class_id: Option<String>,
    pub challenge_token_asset_id: Option<String>,
    pub labor_token_value: Option<String>,
    pub challenge_token_value: Option<String>,
    pub claimed_token_class_id: Option<String>,
    pub claimed_token_asset_id: Option<String>,
}

/// The error of a numeric setting, if it has one: not set, or not a number of its type.
pub open spec fn u64_setting_error(v: Option<String>, field: ConfigField) -> Option<ConfigError> {
    match v {
        None => Some(ConfigError::NotSet(field)),
        Some(s) => if spec_parse_u64(s@) is Some { None } else { Some(ConfigError::NotANumber(field)) },
    }
}

/// The error of a `u128` setting, if it has one.
pub open spec fn u128_setting_error(v: Option<String>, field: ConfigField) -> Option<ConfigError> {
    match v {
        None => Some(ConfigError::NotSet(field)),
        Some(s) => if spec_parse_u128(s@) is Some { None } else { Some(ConfigError::NotANumber(field)) },
    }
}

/// The first error of the settings, in reading order, if any.
pub open spec fn first_config_error(v: ConfigValues) -> Option<ConfigError> {
    if v.fula_contract_api_host_and_port is None {
        Some(ConfigError::NotSet(ConfigField::FulaContractApiHostAndPort))
    } else if u64_setting_error(v.labor_token_class_id, ConfigField::LaborTokenClassId) is Some {
        u64_setting_error(v.labor_token_class_id, ConfigField::LaborTokenClassId)
    } else if u64_setting_error(v.labor_token_asset_id, ConfigField::LaborTokenAssetId) is Some {
        u64_setting_error(v.labor_token_asset_id, ConfigField::LaborTokenAssetId)
    } else if u64_setting_error(v.challenge_token_class_id, ConfigField::ChallengeTokenClassId) is Some {
        u64_setting_error(v.challenge_token_class_id, ConfigField::ChallengeTokenClassId)
    } else if u64_setting_error(v.challenge_token_asset_id, ConfigField::ChallengeTokenAssetId) is Some {
        u64_setting_error(v.challenge_token_asset_id, ConfigField::ChallengeTokenAssetId)
    } else if u128_setting_error(v.labor_token_value, ConfigField::LaborTokenValue) is Some {
        u128_setting_error(v.labor_token_value, ConfigField::LaborTokenValue)
    } else if u128_setting_error(v.challenge_token_value, ConfigField::ChallengeTokenValue) is Some {
        u128_setting_error(v.challenge_token_value, ConfigField::ChallengeTokenValue)
    } else if u64_setting_error(v.claimed_token_class_id, ConfigField::ClaimedTokenClassId) is Some {
        u64_setting_error(v.claimed_token_class_id, ConfigField::ClaimedTokenClassId)
    } else {
        u64_setting_error(v.claimed_token_asset_id, ConfigField::ClaimedTokenAssetId)
    }
}

/// The number a set `u64` setting holds.
pub open spec fn u64_setting(v: Option<String>) -> int {
    spec_parse_u64(v->0@)->0
}

/// The number a set `u128` setting holds.
pub open spec fn u128_setting(v: Option<String>) -> int {
    spec_parse_u128(v->0@)->0
}

/// Reads a `u64` setting.
fn read_u64(v: &Option<String>, field: ConfigField) -> (r: Result<u64, ConfigError>)
    ensures
        r is Err <==> u64_setting_error(*v, field) is Some,
        r matches Err(e) ==> u64_setting_error(*v, field) == Some(e),
        r matches Ok(n) ==> n == u64_setting(*v),
{
    match v {
        None => Err(ConfigError::NotSet(field)),
        Some(s) => match parse_u64(s.as_str()) {
            Ok(n) => Ok(n),
            Err(_) => Err(ConfigError::NotANumber(field)),
        },
    }
}

/// Reads a `u128` setting.
fn read_u128(v: &Option<String>, field: ConfigField) -> (r: Result<u128, ConfigError>)
    ensures
        r is Err <==> u128_setting_error(*v, field) is Some,
        r matches Err(e) ==> u128_setting_error(*v, field) == Some(e),
        r matches Ok(n) ==> n == u128_setting(*v),
{
    match v {
        None => Err(ConfigError::NotSet(field)),
        Some(s) => match parse_u128(s.as_str()) {
            Ok(n) => Ok(n),
            Err(_) => Err(ConfigError::NotANumber(field)),
        },
    }
}

/// The settings of the server from the texts of the environment, or the first setting
/// that is missing or not a number: the contract host as given, each identifier
/// and value read as a decimal number.
///
/// Where a setting is missing or not a number, the server cannot start: this function
/// returns that setting as its error, and the caller stops the process with it, in place
/// of panicking while reading.
pub fn config_from_values(v: &ConfigValues) -> (r: Result<Config, ConfigError>)
    ensures
        r is Ok <==> first_config_error(*v) is None,
        r matches Err(e) ==> first_config_error(*v) == Some(e),
        r matches Ok(c) ==> {
            &&& c.fula_contract_api_host_and_port@ == v.fula_contract_api_host_and_port->0@
            &&& c.labor_token_class_id == u64_setting(v.labor_token_class_id)
            &&& c.labor_token_asset_id == u64_setting(v.labor_token_asset_id)
            &&& c.challenge_token_class_id == u64_setting(v.challenge_token_class_id)
            &&& c.challenge_token_asset_id == u64_setting(v.challenge_token_asset_id)
            &&& c.labor_token_value == u128_setting(v.labor_token_value)
            &&& c.challenge_token_value == u128_setting(v.challenge_token_value)
            &&& c.claimed_token_class_id == u64_setting(v.claimed_token_class_id)
            &&& c.claimed_token_asset_id == u64_setting(v.claimed_token_asset_id)
        },
{
    let host = match &v.fula_contract_api_host_and_port {
        Some(h) => h.clone(),
        None => return Err(ConfigError::NotSet(ConfigField::FulaContractApiHostAndPort)),
    };
    let labor_token_class_id = read_u64(&v.labor_token_class_id, ConfigField::LaborTokenClassId)?;
    let labor_token_asset_id = read_u64(&v.labor_token_asset_id, ConfigField::LaborTokenAssetId)?;
    let challenge_token_class_id = read_u64(&v.challenge_token_class_id, ConfigField::ChallengeTokenClassId)?;
    let challenge_token_asset_id = read_u64(&v.challenge_token_asset_id, ConfigField::ChallengeTokenAssetId)?;
    let labor_token_value = read_u128(&v.labor_token_value, ConfigField::LaborTokenValue)?;
    let challenge_token_value = read_u128(&v.challenge_token_value, ConfigField::ChallengeTokenValue)?;
    let claimed_token_class_id = read_u64(&v.claimed_token_class_id, ConfigField::ClaimedTokenClassId)?;
    let claimed_token_asset_id = read_u64(&v.claimed_token_asset_id, ConfigField::ClaimedTokenAssetId)?;
    Ok(Config {
        fula_contract_api_host_and_port: host,
        labor_token_class_id,
        labor_token_asset_id,
        labor_token_value,
        challenge_token_class_id,
        challenge_token_asset_id,
        challenge_token_value,
        claimed_token_class_id,
        claimed_token_asset_id,
    })
}

} // verus!
