//! Keycloak users and tokens.

#[allow(unused_imports)]
use vstd::prelude::*;

verus! {

#[derive(Debug)]
pub struct Credentials {
    pub grant_type: String,
    pub client_id: String,
    pub username: String,
    pub password: String,
    pub client_secret: String,
    pub scope: String
}

#[derive(Debug)]
pub struct SugarTokenOutput {
    pub access_token: String,
}

#[derive(Debug)]
pub struct ErrorMessageOutput {
    pub error: String,
    pub message: String
}

#[derive(Debug)]
pub struct UserInfo {
    pub id: String,
    pub attributes: Option<UserAtributes>,
    pub email: String,
    pub email_verified: bool,
    pub username: String,
    pub first_name: String,
    pub last_name: String,
}

#[derive(Debug)]
pub struct UserSeedOutput {
    pub seed: Option<String>
}

#[derive(Debug)]
pub struct InsertUserSeedOutput {
    pub error: Option<String>,
    pub message: String
}

#[derive(Debug)]
pub struct ClaimsWithEmail {
    pub sub: String,
    pub name: String,
    pub preferred_username: String,
    pub given_name: String,
    pub family_name: String,
    pub email: String
}

/// The custom attributes that Keycloak keeps for a user.
#[derive(Clone, Debug)]
pub struct UserAtributes {
    pub user_seed: Vec<String>,
}

} // verus!
