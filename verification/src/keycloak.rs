//! The Keycloak side of the API: the service token, the seed kept among a user's
//! attributes, and the flow that gives a user without a seed a new account.
//!
//! The flow alternates HTTP calls with decisions. The decisions are a state machine:
//! `seed_flow_step` takes the stage and what the last call returned, and gives the next
//! stage and call, or the answer.

use vstd::prelude::*;

use crate::primitives::Seed;
use crate::response::RequestError;
use crate::types::config::Config;
use crate::types::user::{Credentials, InsertUserSeedOutput, SugarTokenOutput, UserAtributes, UserInfo, UserSeedOutput};

verus! {

/// The token endpoint of the realm.
pub open spec fn token_endpoint_text(config: Config) -> Seq<char> {
    config.keycloak_host@ + "/auth/realms/"@ + config.keycloak_realm@ + "/protocol/openid-connect/token"@
}

/// The token endpoint of the realm.
pub fn token_endpoint(config: &Config) -> (r: String)
    ensures
        r@ == token_endpoint_text(*config),
{
    let mut r = config.keycloak_host.clone();
    r.append("/auth/realms/");
    r.append(config.keycloak_realm.as_str());
    r.append("/protocol/openid-connect/token");
    r
}

/// The admin endpoint of a user of the realm.
pub open spec fn user_endpoint_text(config: Config, user_id: Seq<char>) -> Seq<char> {
    config.keycloak_host@ + "/auth/admin/realms/"@ + config.keycloak_realm@ + "/users/"@ + user_id
}

/// The admin endpoint of a user of the realm.
pub fn user_endpoint(config: &Config, user_id: &str) -> (r: String)
    ensures
        r@ == user_endpoint_text(*config, user_id@),
{
    let mut r = config.keycloak_host.clone();
    r.append("/auth/admin/realms/");
    r.append(config.keycloak_realm.as_str());
    r.append("/users/");
    r.append(user_id);
    r
}

/// The form that asks for the service token: a password grant for the service user,
/// with the client's credentials and the `openid` scope.
pub fn token_credentials(config: &Config) -> (r: Credentials)
    ensures
        r.client_id@ == config.keycloak_client_id@,
        r.grant_type@ == "password"@,
        r.username@ == config.keycloak_username@,
        r.password@ == config.keycloak_user_password@,
        r.client_secret@ == config.keycloak_client_secret@,
        r.scope@ == "openid"@,
{
    Credentials {
        client_id: config.keycloak_client_id.clone(),
        grant_type: String::from_str("password"),
        username: config.keycloak_username.clone(),
        password: config.keycloak_user_password.clone(),
        client_secret: config.keycloak_client_secret.clone(),
        scope: String::from_str("openid"),
    }
}

/// The authorization header value for a token.
pub fn bearer(token: &str) -> (r: String)
    ensures
        r@ == "Bearer "@ + token@,
{
    let mut r = String::from_str("Bearer ");
    r.append(token);
    r
}

/// What the token endpoint answered.
#[derive(Debug)]
pub enum TokenReply {
    /// Status 200, with the token of the body.
    Granted(SugarTokenOutput),
    /// Another status.
    Refused,
    /// No answer.
    Unreachable,
}

/// The answer of the token request: the token, or why there is none.
pub fn sugar_token(reply: TokenReply) -> (r: Result<SugarTokenOutput, RequestError>)
    ensures
        reply is Granted <==> r is Ok,
        r matches Ok(t) ==> reply == TokenReply::Granted(t),
        reply is Refused ==> (r matches Err(e) && e.message@ == "Failed to get the sugarfunge token"@
            && e.description@ == "Error in user::getSugarfungeToken"@),
        reply is Unreachable ==> (r matches Err(e) && e.message@ == "Failed to connect to keycloak"@
            && e.description@ == "Error in user::getSugarfungeToken"@),
{
    match reply {
        TokenReply::Granted(t) => Ok(t),
        TokenReply::Refused => Err(RequestError::new("Failed to get the sugarfunge token", "Error in user::getSugarfungeToken")),
        TokenReply::Unreachable => Err(RequestError::new("Failed to connect to keycloak", "Error in user::getSugarfungeToken")),
    }
}

/// The seed kept among a user's attributes: the first `user-seed` value, or the empty
/// text when there is none.
pub open spec fn stored_seed(info: UserInfo) -> Seq<char> {
    match info.attributes {
        Some(a) => if a.user_seed@.len() > 0 {
            a.user_seed@[0]@
        } else {
            Seq::empty()
        },
        None => Seq::empty(),
    }
}

/// The seed answer for a user read from Keycloak (always a seed, possibly empty).
pub fn seed_of_user(info: &UserInfo) -> (r: UserSeedOutput)
    ensures
        r.seed matches Some(s) && s@ == stored_seed(*info),
{
    let seed = match &info.attributes {
        Some(a) => if a.user_seed.len() > 0 {
            a.user_seed[0].clone()
        } else {
            String::new()
        },
        None => String::new(),
    };
    UserSeedOutput { seed: Some(seed) }
}

/// The attributes that store a new seed for a user.
pub fn seed_attributes(seed: &Seed) -> (r: UserAtributes)
    ensures
        r.user_seed@.len() == 1,
        r.user_seed@[0]@ == seed@,
{
    UserAtributes { user_seed: vec![seed.0.clone()] }
}

/// Where the seed flow stands.
#[derive(Debug)]
pub enum SeedStage {
    /// Asking for a token to read the user.
    ReadToken,
    /// Reading the user with the token.
    ReadUser,
    /// Asking for a token to store a seed.
    WriteToken,
    /// Creating an account, with the token to store its seed.
    CreateAccount { token: String },
    /// Storing the seed of the new account.
    StoreSeed,
    /// Answered.
    Done,
}

/// What the last call of the seed flow returned.
#[derive(Debug)]
pub enum SeedEvent {
    TokenReplied(TokenReply),
    /// The user with status 200; `None` for any other outcome.
    UserReplied(Option<UserInfo>),
    /// The seed of the new account; `None` when the account could not be created.
    AccountCreated(Option<Seed>),
    /// The status of the attribute update; `None` when it was not answered.
    SeedStored(Option<u16>),
}

/// The answer of the seed flow.
#[derive(Clone, Copy, Debug, PartialEq, Eq, Structural)]
pub enum SeedAnswer {
    AlreadySeeded,
    SeedInserted,
    KeycloakUnreachable,
    InsertFailed,
}

/// The next call of the seed flow, or its answer.
#[derive(Debug)]
pub enum SeedAction {
    FetchToken,
    /// Read the user with this token.
    FetchUser { token: String },
    CreateAccount,
    /// Store these attributes with this token.
    StoreSeed { token: String, attributes: UserAtributes },
    Respond(SeedAnswer),
}

/// Whether `event` is what the call made at `stage` returns.
pub open spec fn seed_event_fits(stage: SeedStage, event: SeedEvent) -> bool {
    match stage {
        SeedStage::ReadToken => event is TokenReplied,
        SeedStage::ReadUser => event is UserReplied,
        SeedStage::WriteToken => event is TokenReplied,
        SeedStage::CreateAccount { .. } => event is AccountCreated,
        SeedStage::StoreSeed => event is SeedStored,
        SeedStage::Done => false,
    }
}

/// Whether `(next, action)` is the transition of the seed flow from `stage` on `event`:
/// a user whose seed is not empty is answered at once; otherwise a new account is
/// created and its seed stored, which succeeds on status 204. Any failure before the seed
/// is read is answered as an unreachable Keycloak, any failure after it as a failed
/// insertion.
pub open spec fn seed_transition(stage: SeedStage, event: SeedEvent, next: SeedStage, action: SeedAction) -> bool {
    match (stage, event) {
        (SeedStage::ReadToken, SeedEvent::TokenReplied(TokenReply::Granted(t))) =>
            next == SeedStage::ReadUser && (action matches SeedAction::FetchUser { token } && token@ == t.access_token@),
        (SeedStage::ReadToken, SeedEvent::TokenReplied(_)) =>
            next == SeedStage::Done && action == SeedAction::Respond(SeedAnswer::KeycloakUnreachable),
        (SeedStage::ReadUser, SeedEvent::UserReplied(Some(info))) =>
            if stored_seed(info).len() > 0 {
                next == SeedStage::Done && action == SeedAction::Respond(SeedAnswer::AlreadySeeded)
            } else {
                next == SeedStage::WriteToken && action == SeedAction::FetchToken
            },
        (SeedStage::ReadUser, SeedEvent::UserReplied(None)) =>
            next == SeedStage::Done && action == SeedAction::Respond(SeedAnswer::KeycloakUnreachable),
        (SeedStage::WriteToken, SeedEvent::TokenReplied(TokenReply::Granted(t))) =>
            next matches SeedStage::CreateAccount { token } && token@ == t.access_token@ && action == SeedAction::CreateAccount,
        (SeedStage::WriteToken, SeedEvent::TokenReplied(_)) =>
            next == SeedStage::Done && action == SeedAction::Respond(SeedAnswer::InsertFailed),
        (SeedStage::CreateAccount { token }, SeedEvent::AccountCreated(Some(seed))) =>
            next == SeedStage::StoreSeed && (action matches SeedAction::StoreSeed { token: t, attributes }
                && t == token && attributes.user_seed@.len() == 1 && attributes.user_seed@[0]@ == seed@),
        (SeedStage::CreateAccount { .. }, SeedEvent::AccountCreated(None)) =>
            next == SeedStage::Done && action == SeedAction::Respond(SeedAnswer::InsertFailed),
        (SeedStage::StoreSeed, SeedEvent::SeedStored(status)) =>
            next == SeedStage::Done && action == SeedAction::Respond(
                if status == Some(204u16) { SeedAnswer::SeedInserted } else { SeedAnswer::InsertFailed },
            ),
        _ => false,
    }
}

/// The first call of the seed flow.
pub fn start_seed_flow() -> (r: (SeedStage, SeedAction))
    ensures
        r == (SeedStage::ReadToken, SeedAction::FetchToken),
{
    (SeedStage::ReadToken, SeedAction::FetchToken)
}

/// The next stage and call of the seed flow, given what the last call returned: reading
/// the user's seed (a token, then the user), then, when it is empty, inserting a new one
/// (a token, a new account, the attribute update).
pub fn seed_flow_step(stage: SeedStage, event: SeedEvent) -> (r: (SeedStage, SeedAction))
    requires
        seed_event_fits(stage, event),
    ensures
        seed_transition(stage, event, r.0, r.1),
        (r.1 is Respond) <==> (r.0 is Done),
{
    match (stage, event) {
        (SeedStage::ReadToken, SeedEvent::TokenReplied(reply)) => match reply {
            TokenReply::Granted(t) => (SeedStage::ReadUser, SeedAction::FetchUser { token: t.access_token }),
            _ => (SeedStage::Done, SeedAction::Respond(SeedAnswer::KeycloakUnreachable)),
        },
        (SeedStage::ReadUser, SeedEvent::UserReplied(user)) => match user {
            Some(info) => {
                let answer = seed_of_user(&info);
                let has_seed = match &answer.seed {
                    Some(s) => !s.as_str().is_empty(),
                    None => false,
                };
                if has_seed {
                    (SeedStage::Done, SeedAction::Respond(SeedAnswer::AlreadySeeded))
                } else {
                    (SeedStage::WriteToken, SeedAction::FetchToken)
                }
            },
            None => (SeedStage::Done, SeedAction::Respond(SeedAnswer::KeycloakUnreachable)),
        },
        (SeedStage::WriteToken, SeedEvent::TokenReplied(reply)) => match reply {
            TokenReply::Granted(t) => (SeedStage::CreateAccount { token: t.access_token }, SeedAction::CreateAccount),
            _ => (SeedStage::Done, SeedAction::Respond(SeedAnswer::InsertFailed)),
        },
        (SeedStage::CreateAccount { token }, SeedEvent::AccountCreated(created)) => match created {
            Some(seed) => {
                let attributes = seed_attributes(&seed);
                (SeedStage::StoreSeed, SeedAction::StoreSeed { token, attributes })
            },
            None => (SeedStage::Done, SeedAction::Respond(SeedAnswer::InsertFailed)),
        },
        (SeedStage::StoreSeed, SeedEvent::SeedStored(status)) => {
            let stored = match status {
                Some(code) => code == 204,
                None => false,
            };
            if stored {
                (SeedStage::Done, SeedAction::Respond(SeedAnswer::SeedInserted))
            } else {
                (SeedStage::Done, SeedAction::Respond(SeedAnswer::InsertFailed))
            }
        },
        (stage, _) => {
            proof {
                assert(false);
            }
            (stage, SeedAction::FetchToken)
        },
    }
}

/// Whether the answer of the seed flow is a success.
pub open spec fn seed_answer_ok(answer: SeedAnswer) -> bool {
    answer == SeedAnswer::AlreadySeeded || answer == SeedAnswer::SeedInserted
}

/// The body of an answer of the seed flow: a message on success, an error body otherwise.
pub fn seed_answer_body(answer: SeedAnswer) -> (r: Result<InsertUserSeedOutput, RequestError>)
    ensures
        r is Ok <==> seed_answer_ok(answer),
        answer == SeedAnswer::AlreadySeeded ==> (r matches Ok(o) && o.message@ == "User already has a seed"@ && o.error is None),
        answer == SeedAnswer::SeedInserted ==> (r matches Ok(o) && o.message@ == "User had no Seed, Seed inserted to user attributes"@
            && o.error is None),
        answer == SeedAnswer::KeycloakUnreachable ==> (r matches Err(e) && e.message@ == "Failed to connect to keycloak"@
            && e.description@ == "Error in user::verifySeed"@),
        answer == SeedAnswer::InsertFailed ==> (r matches Err(e) && e.message@ == "Failed to insert seed"@
            && e.description@ == "Error in user::insertSeedUser"@),
{
    match answer {
        SeedAnswer::AlreadySeeded => Ok(InsertUserSeedOutput { error: None, message: String::from_str("User already has a seed") }),
        SeedAnswer::SeedInserted => Ok(
            InsertUserSeedOutput { error: None, message: String::from_str("User had no Seed, Seed inserted to user attributes") },
        ),
        SeedAnswer::KeycloakUnreachable => Err(RequestError::new("Failed to connect to keycloak", "Error in user::verifySeed")),
        SeedAnswer::InsertFailed => Err(RequestError::new("Failed to insert seed", "Error in user::insertSeedUser")),
    }
}

/// What an endpoint that signs with the caller's stored seed does with the seed answer.
#[derive(Debug)]
pub enum SeedGate {
    /// Sign with this seed.
    Proceed(Seed),
    /// The user has no seed (or an empty one).
    NoSeed,
    /// The user's attributes could not be read.
    NoUser,
}

/// Whether an endpoint that signs with the caller's seed may proceed: only with a seed
/// that is not empty.
pub fn seed_gate(answer: Option<UserSeedOutput>) -> (r: SeedGate)
    ensures
        answer is None ==> r is NoUser,
        answer matches Some(o) ==> match o.seed {
            Some(s) => if s@.len() > 0 {
                r matches SeedGate::Proceed(seed) && seed@ == s@
            } else {
                r is NoSeed
            },
            None => r is NoSeed,
        },
{
    match answer {
        None => SeedGate::NoUser,
        Some(o) => match o.seed {
            Some(s) => if !s.as_str().is_empty() {
                SeedGate::Proceed(Seed(s))
            } else {
                SeedGate::NoSeed
            },
            None => SeedGate::NoSeed,
        },
    }
}

/// The refusal of a gated endpoint: an unreadable user is reported as such, a missing
/// seed with the endpoint's own message; both name the endpoint in the description.
pub fn gate_refusal(no_user: bool, missing_seed_message: &str, place: &str) -> (r: RequestError)
    ensures
        no_user ==> r.message@ == "Failed to find user::getAttributes"@,
        !no_user ==> r.message@ == missing_seed_message@,
        r.description@ == place@,
{
    if no_user {
        RequestError::new("Failed to find user::getAttributes", place)
    } else {
        RequestError::new(missing_seed_message, place)
    }
}

/// Whether `stages` and `actions` are what the seed flow goes through on `events`, from
/// its first call.
pub open spec fn seed_run(events: Seq<SeedEvent>, stages: Seq<SeedStage>, actions: Seq<SeedAction>) -> bool {
    &&& stages.len() == events.len() + 1
    &&& actions.len() == events.len() + 1
    &&& stages[0] == SeedStage::ReadToken
    &&& actions[0] == SeedAction::FetchToken
    &&& forall|i: int| 0 <= i < events.len() ==> seed_transition(#[trigger] stages[i], events[i], stages[i + 1], actions[i + 1])
}

/// Whether one of the first `k` events read a user whose stored seed is empty.
pub open spec fn read_empty_seed(events: Seq<SeedEvent>, k: int) -> bool {
    exists|j: int| 0 <= j < k && (#[trigger] events[j] matches SeedEvent::UserReplied(Some(info)) && stored_seed(info).len() == 0)
}

/// The stages that write to Keycloak are reached only after a user with an empty seed
/// was read.
proof fn lemma_write_stage_follows_empty_seed(
    events: Seq<SeedEvent>,
    stages: Seq<SeedStage>,
    actions: Seq<SeedAction>,
    i: int,
)
    requires
        seed_run(events, stages, actions),
        0 <= i <= events.len(),
        stages[i] is WriteToken || stages[i] is CreateAccount || stages[i] is StoreSeed,
    ensures
        read_empty_seed(events, i),
    decreases i,
{
    assert(i > 0);
    assert(seed_transition(stages[i - 1], events[i - 1], stages[i], actions[i]));
    if stages[i] is WriteToken {
        assert(events[i - 1] matches SeedEvent::UserReplied(Some(info)) && stored_seed(info).len() == 0);
    } else {
        lemma_write_stage_follows_empty_seed(events, stages, actions, i - 1);
        let j = choose|j: int| 0 <= j < i - 1 && (#[trigger] events[j] matches SeedEvent::UserReplied(Some(info)) && stored_seed(info).len() == 0);
        assert(0 <= j < i);
    }
}

/// A seed is stored only for a user whose stored seed was read and found empty: a user
/// that already has a seed never gets another one.
pub proof fn lemma_seed_stored_only_when_missing(
    events: Seq<SeedEvent>,
    stages: Seq<SeedStage>,
    actions: Seq<SeedAction>,
    k: int,
)
    requires
        seed_run(events, stages, actions),
        0 <= k < actions.len(),
        actions[k] is StoreSeed,
    ensures
        read_empty_seed(events, k),
{
    assert(k > 0);
    assert(seed_transition(stages[k - 1], events[k - 1], stages[k], actions[k]));
    assert(stages[k] is StoreSeed);
    lemma_write_stage_follows_empty_seed(events, stages, actions, k);
}

/// How many calls the seed flow can still make from a stage.
pub open spec fn seed_stage_rank(stage: SeedStage) -> nat {
    match stage {
        SeedStage::ReadToken => 5,
        SeedStage::ReadUser => 4,
        SeedStage::WriteToken => 3,
        SeedStage::CreateAccount { .. } => 2,
        SeedStage::StoreSeed => 1,
        SeedStage::Done => 0,
    }
}

/// The seed flow answers after at most five calls: every run is at most five events long.
pub proof fn lemma_seed_flow_terminates(events: Seq<SeedEvent>, stages: Seq<SeedStage>, actions: Seq<SeedAction>)
    requires
        seed_run(events, stages, actions),
    ensures
        events.len() <= 5,
{
    assert forall|i: int| 0 <= i <= events.len() implies i + seed_stage_rank(#[trigger] stages[i]) <= 5 by {
        lemma_seed_rank_bound(events, stages, actions, i);
    }
    assert(events.len() + seed_stage_rank(stages[events.len() as int]) <= 5);
}

proof fn lemma_seed_rank_bound(events: Seq<SeedEvent>, stages: Seq<SeedStage>, actions: Seq<SeedAction>, i: int)
    requires
        seed_run(events, stages, actions),
        0 <= i <= events.len(),
    ensures
        i + seed_stage_rank(stages[i]) <= 5,
    decreases i,
{
    if i > 0 {
        lemma_seed_rank_bound(events, stages, actions, i - 1);
        assert(seed_transition(stages[i - 1], events[i - 1], stages[i], actions[i]));
    }
}

} // verus!
