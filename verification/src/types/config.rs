//! Settings of the Keycloak connection.

use vstd::prelude::*;

verus! {

#[derive(Clone, Debug)]
pub struct Config {
    pub keycloak_public_key: String,
    pub keycloak_client_id: String,
    pub keycloak_username: String,
    pub keycloak_user_password: String,
    pub keycloak_client_secret: String,
    pub keycloak_host: String,
    pub keycloak_realm: String
}

/// A Keycloak setting, in the order the server reads them.
#[derive(Clone, Copy, Debug, PartialEq, Eq, Structural)]
pub enum KeycloakSetting {
    PublicKey,
    ClientId,
    Username,
    UserPassword,
    ClientSecret,
    Host,
    Realm,
}

/// The Keycloak settings as the environment gives them, each possibly unset.
#[derive(Clone, Debug)]
pub struct KeycloakValues {
    pub keycloak_public_key: Option<String>,
    pub keycloak_client_id: Option<String>,
    pub keycloak_username: Option<String>,
    pub keycloak_user_password: Option<String>,
    pub keycloak_client_secret: Option<String>,
    pub keycloak_host: Option<String>,
    pub keycloak_realm: Option<String>,
}

/// The first Keycloak setting, in reading order, that is not set.
pub open spec fn first_unset(v: KeycloakValues) -> Option<KeycloakSetting> {
    if v.keycloak_public_key is None {
        Some(KeycloakSetting::PublicKey)
    } else if v.keycloak_client_id is None {
        Some(KeycloakSetting::ClientId)
    } else if v.keycloak_username is None {
        Some(KeycloakSetting::Username)
    } else if v.keycloak_user_password is None {
        Some(KeycloakSetting::UserPassword)
    } else if v.keycloak_client_secret is None {
        Some(KeycloakSetting::ClientSecret)
    } else if v.keycloak_host is None {
        Some(KeycloakSetting::Host)
    } else if v.keycloak_realm is None {
        Some(KeycloakSetting::Realm)
    } else {
        None
    }
}

fn take_setting(v: &Option<String>, setting: KeycloakSetting) -> (r: Result<String, KeycloakSetting>)
    ensures
        r is Ok <==> v is Some,
        r matches Ok(s) ==> s@ == v->0@,
        r matches Err(e) ==> e == setting,
{
    match v {
        Some(s) => Ok(s.clone()),
        None => Err(setting),
    }
}

/// The Keycloak settings from the texts of the environment; fails with the first setting
/// that is not set.
pub fn keycloak_config_from_values(v: &KeycloakValues) -> (r: Result<Config, KeycloakSetting>)
    ensures
        r is Ok <==> first_unset(*v) is None,
        r matches Err(e) ==> first_unset(*v) == Some(e),
        r matches Ok(c) ==> {
            &&& c.keycloak_public_key@ == v.keycloak_public_key->0@
            &&& c.keycloak_client_id@ == v.keycloak_client_id->0@
            &&& c.keycloak_username@ == v.keycloak_username->0@
            &&& c.keycloak_user_password@ == v.keycloak_user_password->0@
            &&& c.keycloak_client_secret@ == v.keycloak_client_secret->0@
            &&& c.keycloak_host@ == v.keycloak_host->0@
            &&& c.keycloak_realm@ == v.keycloak_realm->0@
        },
{
    Ok(Config {
        keycloak_public_key: take_setting(&v.keycloak_public_key, KeycloakSetting::PublicKey)?,
        keycloak_client_id: take_setting(&v.keycloak_client_id, KeycloakSetting::ClientId)?,
        keycloak_username: take_setting(&v.keycloak_username, KeycloakSetting::Username)?,
        keycloak_user_password: take_setting(&v.keycloak_user_password, KeycloakSetting::UserPassword)?,
        keycloak_client_secret: take_setting(&v.keycloak_client_secret, KeycloakSetting::ClientSecret)?,
        keycloak_host: take_setting(&v.keycloak_host, KeycloakSetting::Host)?,
        keycloak_realm: take_setting(&v.keycloak_realm, KeycloakSetting::Realm)?,
    })
}

} // verus!
