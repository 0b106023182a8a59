use vstd::prelude::*;

use super::github_auth::{self, github_profile, github_profile_of, user_info_request_view};
use super::google_auth::{self, google_profile, google_profile_of};
use super::TrapReason;
use crate::types::auth_response::{
    method_label, signing_digest, signing_hash, AuthMethod, AuthResponse, Profile, ProfileView,
};
use crate::types::Metadata;
use crate::utils::encoding::{hex_lower, url_encoded};
use crate::utils::errors::{AuthError, CassandraError, UtilsError};
use crate::utils::http::{HttpRequest, HttpRequestView};
use crate::utils::json::{json_members, json_parsed, jwt_unverified_claims};
use crate::utils::signature::{eth_v, get_eth_v};

verus! {

/// Where one authentication stands: from the caller check, through the token
/// exchange, the user details (GitHub only), the signature and the signer's
/// address, to its outcome.
#[derive(Debug)]
pub enum AuthFlow {
    Start { method: AuthMethod, authorization_code: String },
    AwaitingToken { method: AuthMethod },
    AwaitingUserInfo,
    AwaitingSignature {
        method: AuthMethod,
        profile: Profile,
        message_hash: Vec<u8>,
        key_name: String,
        derivation_path: Vec<Vec<u8>>,
    },
    AwaitingAddress {
        method: AuthMethod,
        profile: Profile,
        message_hash: Vec<u8>,
        key_name: String,
        signature: Vec<u8>,
    },
    Done(AuthResponse),
    Failed(CassandraError),
    Trapped(TrapReason),
}

/// What the outside world reports back to an authentication.
#[derive(Debug)]
pub enum AuthEvent {
    /// Whether the caller controls the canister.
    CallerChecked(bool),
    /// GitHub's token reply: the transport error, or the parsed form (`None`
    /// when the reply does not parse as a token response).
    GithubTokenReply(Result<Option<github_auth::TokenResponse>, String>),
    /// Google's token reply, in the same form.
    GoogleTokenReply(Result<Option<google_auth::TokenResponse>, String>),
    /// GitHub's user details: the transport error or the reply's text.
    UserInfoReply(Result<String, String>),
    /// The threshold ECDSA signature of the message hash, or the call's error.
    SignatureReply(Result<Vec<u8>, String>),
    /// The canister's Ethereum address, or the call's error.
    AddressReply(Result<Vec<u8>, String>),
}

/// The elliptic curve of a threshold ECDSA key.
#[derive(Debug, Clone, Copy, PartialEq, Eq, Structural)]
pub enum EcdsaCurve {
    Secp256k1,
}

/// The byte strings of a derivation path.
pub open spec fn path_view(path: Vec<Vec<u8>>) -> Seq<Seq<u8>> {
    path@.map_values(|part: Vec<u8>| part@)
}

/// The derivation path of the canister's own key: its principal's bytes as
/// the only element.
pub open spec fn canister_path(canister_id: Seq<u8>) -> Seq<Seq<u8>> {
    seq![canister_id]
}

/// Builds the derivation path of the canister's own key.
pub fn derivation_path_of(canister_id: &[u8]) -> (res: Vec<Vec<u8>>)
    ensures
        path_view(res) == canister_path(canister_id@),
{
    let mut path: Vec<Vec<u8>> = Vec::new();
    path.push(vstd::slice::slice_to_vec(canister_id));
    assert(path_view(path) =~= canister_path(canister_id@));
    path
}

/// What an authentication asks the outside world to do next.
#[derive(Debug)]
pub enum AuthAction {
    /// Send this HTTP request and report its reply.
    SendHttp(HttpRequest),
    /// Sign this hash with the named threshold ECDSA key on `curve`, derived
    /// along `derivation_path`.
    SignWithEcdsa {
        message_hash: Vec<u8>,
        key_name: String,
        curve: EcdsaCurve,
        derivation_path: Vec<Vec<u8>>,
    },
    /// Fetch the Ethereum address of the named key, derived along
    /// `derivation_path`.
    FetchEthAddress { key_name: String, derivation_path: Vec<Vec<u8>> },
    /// The authentication has its outcome.
    Finish,
    /// The event did not fit the stage; nothing to do.
    Nothing,
}

impl AuthFlow {
    /// A fresh authentication through `method` with `authorization_code`.
    pub fn new(method: AuthMethod, authorization_code: String) -> (res: AuthFlow)
        ensures
            res == (AuthFlow::Start { method, authorization_code }),
    {
        AuthFlow::Start { method, authorization_code }
    }

    /// The authentication has its outcome.
    pub open spec fn is_terminal(self) -> bool {
        ||| self is Done
        ||| self is Failed
        ||| self is Trapped
    }

    /// The hash carried while signing is the digest of the carried profile
    /// and provider.
    pub open spec fn well_formed(self) -> bool {
        match self {
            AuthFlow::AwaitingSignature { method, profile, message_hash, .. } => message_hash@
                == signing_digest(profile, method),
            AuthFlow::AwaitingAddress { method, profile, message_hash, .. } => message_hash@
                == signing_digest(profile, method),
            _ => true,
        }
    }

    /// Whether the authentication has its outcome.
    pub fn is_finished(&self) -> (res: bool)
        ensures
            res == self.is_terminal(),
    {
        match self {
            AuthFlow::Done(_) | AuthFlow::Failed(_) | AuthFlow::Trapped(_) => true,
            _ => false,
        }
    }
}

/// The authentication fails with `err`.
pub open spec fn fails_with(next: AuthFlow, action: AuthAction, err: CassandraError) -> bool {
    next == AuthFlow::Failed(err) && action is Finish
}

/// The authentication fails with an [`AuthError`].
pub open spec fn auth_fails_with(next: AuthFlow, action: AuthAction, err: AuthError) -> bool {
    fails_with(next, action, CassandraError::AuthError(err))
}

/// A profile was found: the signature of its digest with the configured key
/// is requested.
pub open spec fn signing_requested(
    metadata: Metadata,
    canister_id: Seq<u8>,
    method: AuthMethod,
    found: ProfileView,
    next: AuthFlow,
    action: AuthAction,
) -> bool {
    &&& next matches AuthFlow::AwaitingSignature {
        method: m,
        profile,
        message_hash,
        key_name,
        derivation_path,
    }
    &&& m == method
    &&& profile@ == found
    &&& message_hash@ == signing_digest(profile, method)
    &&& key_name == metadata.key_name
    &&& path_view(derivation_path) == canister_path(canister_id)
    &&& action matches AuthAction::SignWithEcdsa {
        message_hash: h,
        key_name: k,
        curve: c,
        derivation_path: d,
    }
    &&& h@ == message_hash@
    &&& k == metadata.key_name
    &&& c == EcdsaCurve::Secp256k1
    &&& path_view(d) == canister_path(canister_id)
}

/// The outcome of a profile lookup: a trap, or the signature request.
pub open spec fn profile_found(
    metadata: Metadata,
    canister_id: Seq<u8>,
    method: AuthMethod,
    lookup: Result<ProfileView, TrapReason>,
    next: AuthFlow,
    action: AuthAction,
) -> bool {
    match lookup {
        Err(reason) => next == AuthFlow::Trapped(reason) && action is Finish,
        Ok(found) => signing_requested(metadata, canister_id, method, found, next, action),
    }
}

/// The request was sent and the flow now waits in `waiting`.
pub open spec fn request_sent(
    request: HttpRequestView,
    waiting: AuthFlow,
    next: AuthFlow,
    action: AuthAction,
) -> bool {
    &&& next == waiting
    &&& action matches AuthAction::SendHttp(r)
    &&& r@ == request
}

/// The transition of one event: each stage handles its own event as the
/// authentication endpoints do, an outcome stays as it is, and an event that
/// does not fit the stage changes nothing.
pub open spec fn step_relation(
    metadata: Metadata,
    canister_id: Seq<u8>,
    state: AuthFlow,
    event: AuthEvent,
    next: AuthFlow,
    action: AuthAction,
) -> bool {
    if state.is_terminal() {
        next == state && action is Finish
    } else {
        match (state, event) {
            (AuthFlow::Start { method, authorization_code }, AuthEvent::CallerChecked(controller)) => {
                if !controller {
                    fails_with(next, action, CassandraError::UtilsError(UtilsError::NotAController))
                } else {
                    match method {
                        AuthMethod::GitHub => request_sent(
                            github_auth::token_request_view(metadata, authorization_code@),
                            AuthFlow::AwaitingToken { method },
                            next,
                            action,
                        ),
                        AuthMethod::Google => request_sent(
                            google_auth::token_request_view(metadata, authorization_code@),
                            AuthFlow::AwaitingToken { method },
                            next,
                            action,
                        ),
                    }
                }
            },
            (AuthFlow::AwaitingToken { method: AuthMethod::GitHub }, AuthEvent::GithubTokenReply(reply)) => {
                match reply {
                    Err(message) => auth_fails_with(next, action, AuthError::HttpError(message)),
                    Ok(None) => auth_fails_with(next, action, AuthError::FailedToExchangeToken),
                    Ok(Some(token)) => request_sent(
                        user_info_request_view(token.access_token@),
                        AuthFlow::AwaitingUserInfo,
                        next,
                        action,
                    ),
                }
            },
            (AuthFlow::AwaitingToken { method: AuthMethod::Google }, AuthEvent::GoogleTokenReply(reply)) => {
                match reply {
                    Err(message) => auth_fails_with(next, action, AuthError::HttpError(message)),
                    Ok(None) => auth_fails_with(next, action, AuthError::FailedToExchangeToken),
                    Ok(Some(token)) => match jwt_unverified_claims(token.id_token@) {
                        Err(message) => {
                            &&& next matches AuthFlow::Failed(
                                CassandraError::AuthError(AuthError::InvalidJwt(m)),
                            )
                            &&& m@ == message
                            &&& action is Finish
                        },
                        Ok(claims) => profile_found(
                            metadata,
                            canister_id,
                            AuthMethod::Google,
                            google_profile_of(claims),
                            next,
                            action,
                        ),
                    },
                }
            },
            (AuthFlow::AwaitingUserInfo, AuthEvent::UserInfoReply(reply)) => {
                match reply {
                    Err(message) => auth_fails_with(next, action, AuthError::HttpError(message)),
                    Ok(text) => match json_parsed(text@) {
                        Err(message) => {
                            &&& next matches AuthFlow::Failed(
                                CassandraError::AuthError(AuthError::FailedToGetUserInfo(m)),
                            )
                            &&& m@ == message
                            &&& action is Finish
                        },
                        Ok(info) => profile_found(
                            metadata,
                            canister_id,
                            AuthMethod::GitHub,
                            github_profile_of(info),
                            next,
                            action,
                        ),
                    },
                }
            },
            (
                AuthFlow::AwaitingSignature { method, profile, message_hash, key_name, derivation_path },
                AuthEvent::SignatureReply(reply),
            ) => {
                match reply {
                    Err(message) => auth_fails_with(next, action, AuthError::FailedToSign(message)),
                    Ok(signature) => next == (AuthFlow::AwaitingAddress {
                        method,
                        profile,
                        message_hash,
                        key_name,
                        signature,
                    }) && action == (AuthAction::FetchEthAddress { key_name, derivation_path }),
                }
            },
            (
                AuthFlow::AwaitingAddress { method, profile, message_hash, key_name, signature },
                AuthEvent::AddressReply(reply),
            ) => {
                match reply {
                    Err(message) => auth_fails_with(
                        next,
                        action,
                        AuthError::UtilsError(UtilsError::FailedtoGetCassandraEVMAddress(message)),
                    ),
                    Ok(address) => match eth_v(signature@, message_hash@, address@) {
                        Err(err) => auth_fails_with(next, action, AuthError::UtilsError(err)),
                        Ok(v) => {
                            &&& action is Finish
                            &&& next matches AuthFlow::Done(response)
                            &&& response.user_id == profile.user_id
                            &&& response.name == profile.name
                            &&& response.email == profile.email
                            &&& response.avatar == profile.avatar
                            &&& response.company == profile.company
                            &&& response.auth_method@ == method_label(method)
                            &&& response.signature@ == hex_lower(signature@.push(v))
                        },
                    },
                }
            },
            _ => next == state && action is Nothing,
        }
    }
}

/// Signs the found profile, or traps.
fn after_profile(
    metadata: &Metadata,
    canister_id: &[u8],
    method: AuthMethod,
    found: Result<Profile, TrapReason>,
    Ghost(lookup): Ghost<Result<ProfileView, TrapReason>>,
) -> (res: (AuthFlow, AuthAction))
    requires
        match (found, lookup) {
            (Ok(p), Ok(v)) => p@ == v,
            (Err(a), Err(b)) => a == b,
            _ => false,
        },
    ensures
        profile_found(*metadata, canister_id@, method, lookup, res.0, res.1),
{
    match found {
        Err(reason) => (AuthFlow::Trapped(reason), AuthAction::Finish),
        Ok(profile) => {
            let message_hash = signing_hash(&profile, method);
            let hash_copy = message_hash.clone();
            proof {
                assert(hash_copy@ =~= message_hash@);
            }
            let key_name = metadata.key_name.clone();
            let action_key = metadata.key_name.clone();
            let derivation_path = derivation_path_of(canister_id);
            let action_path = derivation_path_of(canister_id);
            (
                AuthFlow::AwaitingSignature { method, profile, message_hash, key_name, derivation_path },
                AuthAction::SignWithEcdsa {
                    message_hash: hash_copy,
                    key_name: action_key,
                    curve: EcdsaCurve::Secp256k1,
                    derivation_path: action_path,
                },
            )
        },
    }
}

/// Starts the token exchange once the caller is known.
fn after_caller_check(
    metadata: &Metadata,
    canister_id: &[u8],
    method: AuthMethod,
    authorization_code: String,
    controller: bool,
) -> (res: (AuthFlow, AuthAction))
    ensures
        step_relation(
            *metadata,
            canister_id@,
            AuthFlow::Start { method, authorization_code },
            AuthEvent::CallerChecked(controller),
            res.0,
            res.1,
        ),
{
    if !controller {
        return (
            AuthFlow::Failed(CassandraError::UtilsError(UtilsError::NotAController)),
            AuthAction::Finish,
        );
    }
    let request = match method {
        AuthMethod::GitHub => github_auth::token_request(metadata, authorization_code.as_str()),
        AuthMethod::Google => google_auth::token_request(metadata, authorization_code.as_str()),
    };
    (AuthFlow::AwaitingToken { method }, AuthAction::SendHttp(request))
}

/// Handles GitHub's token reply.
fn after_github_token(
    metadata: &Metadata,
    canister_id: &[u8],
    reply: Result<Option<github_auth::TokenResponse>, String>,
) -> (res: (AuthFlow, AuthAction))
    ensures
        step_relation(
            *metadata,
            canister_id@,
            AuthFlow::AwaitingToken { method: AuthMethod::GitHub },
            AuthEvent::GithubTokenReply(reply),
            res.0,
            res.1,
        ),
{
    match reply {
        Err(message) => (
            AuthFlow::Failed(CassandraError::AuthError(AuthError::HttpError(message))),
            AuthAction::Finish,
        ),
        Ok(None) => (
            AuthFlow::Failed(CassandraError::AuthError(AuthError::FailedToExchangeToken)),
            AuthAction::Finish,
        ),
        Ok(Some(token)) => {
            let request = github_auth::user_info_request(token.access_token.as_str());
            (AuthFlow::AwaitingUserInfo, AuthAction::SendHttp(request))
        },
    }
}

/// Handles Google's token reply: decodes the ID token and reads its claims.
fn after_google_token(
    metadata: &Metadata,
    canister_id: &[u8],
    reply: Result<Option<google_auth::TokenResponse>, String>,
) -> (res: (AuthFlow, AuthAction))
    ensures
        step_relation(
            *metadata,
            canister_id@,
            AuthFlow::AwaitingToken { method: AuthMethod::Google },
            AuthEvent::GoogleTokenReply(reply),
            res.0,
            res.1,
        ),
{
    match reply {
        Err(message) => (
            AuthFlow::Failed(CassandraError::AuthError(AuthError::HttpError(message))),
            AuthAction::Finish,
        ),
        Ok(None) => (
            AuthFlow::Failed(CassandraError::AuthError(AuthError::FailedToExchangeToken)),
            AuthAction::Finish,
        ),
        Ok(Some(token)) => match google_auth::get_jwt(token.id_token.as_str()) {
            Err(err) => (AuthFlow::Failed(CassandraError::AuthError(err)), AuthAction::Finish),
            Ok(claims) => {
                let found = google_profile(&claims);
                after_profile(
                    metadata,
                    canister_id,
                    AuthMethod::Google,
                    found,
                    Ghost(google_profile_of(json_members(claims))),
                )
            },
        },
    }
}

/// Handles GitHub's user details.
fn after_user_info(metadata: &Metadata, canister_id: &[u8], reply: Result<String, String>) -> (res: (
    AuthFlow,
    AuthAction,
))
    ensures
        step_relation(
            *metadata,
            canister_id@,
            AuthFlow::AwaitingUserInfo,
            AuthEvent::UserInfoReply(reply),
            res.0,
            res.1,
        ),
{
    match reply {
        Err(message) => (
            AuthFlow::Failed(CassandraError::AuthError(AuthError::HttpError(message))),
            AuthAction::Finish,
        ),
        Ok(text) => match github_auth::parse_user_info(text.as_str()) {
            Err(err) => (AuthFlow::Failed(CassandraError::AuthError(err)), AuthAction::Finish),
            Ok(info) => {
                let found = github_profile(&info);
                after_profile(
                    metadata,
                    canister_id,
                    AuthMethod::GitHub,
                    found,
                    Ghost(github_profile_of(json_members(info))),
                )
            },
        },
    }
}

/// Handles the signer's address: finds the recovery byte and assembles the
/// response.
fn after_address(
    metadata: &Metadata,
    canister_id: &[u8],
    method: AuthMethod,
    profile: Profile,
    message_hash: Vec<u8>,
    key_name: String,
    signature: Vec<u8>,
    reply: Result<Vec<u8>, String>,
) -> (res: (AuthFlow, AuthAction))
    ensures
        step_relation(
            *metadata,
            canister_id@,
            AuthFlow::AwaitingAddress { method, profile, message_hash, key_name, signature },
            AuthEvent::AddressReply(reply),
            res.0,
            res.1,
        ),
{
    match reply {
        Err(message) => (
            AuthFlow::Failed(
                CassandraError::AuthError(
                    AuthError::UtilsError(UtilsError::FailedtoGetCassandraEVMAddress(message)),
                ),
            ),
            AuthAction::Finish,
        ),
        Ok(address) => match get_eth_v(signature.as_slice(), message_hash.as_slice(), address.as_slice()) {
            Err(err) => (
                AuthFlow::Failed(CassandraError::AuthError(AuthError::UtilsError(err))),
                AuthAction::Finish,
            ),
            Ok(v) => {
                let response = AuthResponse::new(
                    profile.user_id,
                    profile.name,
                    profile.email,
                    profile.avatar,
                    profile.company,
                    method,
                    signature,
                    v,
                );
                (AuthFlow::Done(response), AuthAction::Finish)
            },
        },
    }
}

/// Advances an authentication by one event: returns the next stage and what
/// the outside world must do next.
pub fn step(metadata: &Metadata, canister_id: &[u8], state: AuthFlow, event: AuthEvent) -> (res: (
    AuthFlow,
    AuthAction,
))
    ensures
        step_relation(*metadata, canister_id@, state, event, res.0, res.1),
        state.well_formed() ==> res.0.well_formed(),
{
    if state.is_finished() {
        return (state, AuthAction::Finish);
    }
    match state {
        AuthFlow::Start { method, authorization_code } => match event {
            AuthEvent::CallerChecked(controller) => after_caller_check(
                metadata,
                canister_id,
                method,
                authorization_code,
                controller,
            ),
            other => (AuthFlow::Start { method, authorization_code }, AuthAction::Nothing),
        },
        AuthFlow::AwaitingToken { method } => match (method, event) {
            (AuthMethod::GitHub, AuthEvent::GithubTokenReply(reply)) => after_github_token(
                metadata,
                canister_id,
                reply,
            ),
            (AuthMethod::Google, AuthEvent::GoogleTokenReply(reply)) => after_google_token(
                metadata,
                canister_id,
                reply,
            ),
            _ => (AuthFlow::AwaitingToken { method }, AuthAction::Nothing),
        },
        AuthFlow::AwaitingUserInfo => match event {
            AuthEvent::UserInfoReply(reply) => after_user_info(metadata, canister_id, reply),
            _ => (AuthFlow::AwaitingUserInfo, AuthAction::Nothing),
        },
        AuthFlow::AwaitingSignature { method, profile, message_hash, key_name, derivation_path } => match event {
            AuthEvent::SignatureReply(Err(message)) => (
                AuthFlow::Failed(CassandraError::AuthError(AuthError::FailedToSign(message))),
                AuthAction::Finish,
            ),
            AuthEvent::SignatureReply(Ok(signature)) => {
                let action_key = key_name.clone();
                (
                    AuthFlow::AwaitingAddress { method, profile, message_hash, key_name, signature },
                    AuthAction::FetchEthAddress { key_name: action_key, derivation_path },
                )
            },
            _ => (
                AuthFlow::AwaitingSignature { method, profile, message_hash, key_name, derivation_path },
                AuthAction::Nothing,
            ),
        },
        AuthFlow::AwaitingAddress { method, profile, message_hash, key_name, signature } => match event {
            AuthEvent::AddressReply(reply) => after_address(
                metadata,
                canister_id,
                method,
                profile,
                message_hash,
                key_name,
                signature,
                reply,
            ),
            _ => (
                AuthFlow::AwaitingAddress { method, profile, message_hash, key_name, signature },
                AuthAction::Nothing,
            ),
        },
        AuthFlow::Done(response) => (AuthFlow::Done(response), AuthAction::Finish),
        AuthFlow::Failed(err) => (AuthFlow::Failed(err), AuthAction::Finish),
        AuthFlow::Trapped(reason) => (AuthFlow::Trapped(reason), AuthAction::Finish),
    }
}

/// A caller that does not control the canister is refused with
/// `NotAController` before any request leaves the canister.
pub proof fn lemma_refused_caller_sends_nothing(
    metadata: Metadata,
    canister_id: Seq<u8>,
    method: AuthMethod,
    authorization_code: String,
    next: AuthFlow,
    action: AuthAction,
)
    requires
        step_relation(
            metadata,
            canister_id,
            AuthFlow::Start { method, authorization_code },
            AuthEvent::CallerChecked(false),
            next,
            action,
        ),
    ensures
        next == AuthFlow::Failed(CassandraError::UtilsError(UtilsError::NotAController)),
        action is Finish,
{
}

/// An authentication that has its outcome keeps it, whatever is reported.
pub proof fn lemma_outcome_is_final(
    metadata: Metadata,
    canister_id: Seq<u8>,
    state: AuthFlow,
    event: AuthEvent,
    next: AuthFlow,
    action: AuthAction,
)
    requires
        state.is_terminal(),
        step_relation(metadata, canister_id, state, event, next, action),
    ensures
        next == state,
        action is Finish,
{
}

/// Every step keeps the hash it carries equal to the digest of the profile
/// and provider it carries.
pub proof fn lemma_step_keeps_well_formed(
    metadata: Metadata,
    canister_id: Seq<u8>,
    state: AuthFlow,
    event: AuthEvent,
    next: AuthFlow,
    action: AuthAction,
)
    requires
        state.well_formed(),
        step_relation(metadata, canister_id, state, event, next, action),
    ensures
        next.well_formed(),
{
}

/// The only message the canister is asked to sign is the digest of the
/// profile and provider that the authentication then carries.
pub proof fn lemma_signed_message_is_profile_digest(
    metadata: Metadata,
    canister_id: Seq<u8>,
    state: AuthFlow,
    event: AuthEvent,
    next: AuthFlow,
    action: AuthAction,
)
    requires
        step_relation(metadata, canister_id, state, event, next, action),
        action is SignWithEcdsa,
    ensures
        next matches AuthFlow::AwaitingSignature {
            method,
            profile,
            message_hash,
            key_name,
            derivation_path,
        } && {
            &&& message_hash@ == signing_digest(profile, method)
            &&& action matches AuthAction::SignWithEcdsa {
                message_hash: h,
                key_name: k,
                curve: c,
                derivation_path: d,
            }
            &&& h@ == message_hash@
            &&& k == key_name
            &&& c == EcdsaCurve::Secp256k1
            &&& path_view(d) == path_view(derivation_path)
            &&& path_view(d) == canister_path(canister_id)
        },
{
}

/// A signed response repeats the signed profile and provider, and its
/// signature is the threshold signature followed by the recovery byte 27 or
/// 28 under which the signature recovers to the canister's address.
pub proof fn lemma_response_matches_signed_profile(
    metadata: Metadata,
    canister_id: Seq<u8>,
    state: AuthFlow,
    event: AuthEvent,
    next: AuthFlow,
    action: AuthAction,
)
    requires
        state.well_formed(),
        !(state is Done),
        step_relation(metadata, canister_id, state, event, next, action),
        next is Done,
    ensures
        state matches AuthFlow::AwaitingAddress { method, profile, message_hash, signature, .. } && {
            &&& event matches AuthEvent::AddressReply(Ok(address))
            &&& message_hash@ == signing_digest(profile, method)
            &&& next matches AuthFlow::Done(response)
            &&& response.user_id == profile.user_id
            &&& response.name == profile.name
            &&& response.email == profile.email
            &&& response.avatar == profile.avatar
            &&& response.company == profile.company
            &&& response.auth_method@ == method_label(method)
            &&& exists|v: u8|
                (v == 27 || v == 28) && response.signature@ == hex_lower(signature@.push(v))
                    && crate::utils::signature::recovered_address_hex(
                    message_hash@,
                    signature@,
                    (v - 27) as u8,
                ) == hex_lower(address@)
        },
{
    if let AuthFlow::AwaitingAddress { method, profile, message_hash, signature, .. } = state {
        if let AuthEvent::AddressReply(Ok(address)) = event {
            let v = eth_v(signature@, message_hash@, address@)->Ok_0;
            assert(v == 27 || v == 28);
        }
    }
}

/// Once the signature is in, the address lookup asks for the same key along
/// the same derivation path as the signature request did: the canister's own
/// path.
pub proof fn lemma_address_lookup_uses_signing_key(
    metadata: Metadata,
    canister_id: Seq<u8>,
    state: AuthFlow,
    event: AuthEvent,
    next: AuthFlow,
    action: AuthAction,
)
    requires
        step_relation(metadata, canister_id, state, event, next, action),
        action is FetchEthAddress,
    ensures
        state matches AuthFlow::AwaitingSignature { key_name, derivation_path, .. }
            && action == (AuthAction::FetchEthAddress { key_name, derivation_path }),
{
}

/// Signing and address lookup, requested one after the other, use the same
/// key name and the same derivation path, the canister's own.
pub proof fn lemma_signing_and_lookup_share_path(
    metadata: Metadata,
    canister_id: Seq<u8>,
    state0: AuthFlow,
    event0: AuthEvent,
    state1: AuthFlow,
    action0: AuthAction,
    event1: AuthEvent,
    state2: AuthFlow,
    action1: AuthAction,
)
    requires
        step_relation(metadata, canister_id, state0, event0, state1, action0),
        action0 is SignWithEcdsa,
        step_relation(metadata, canister_id, state1, event1, state2, action1),
        action1 is FetchEthAddress,
    ensures
        action0 matches AuthAction::SignWithEcdsa { key_name: k0, derivation_path: d0, curve, .. }
            && action1 matches AuthAction::FetchEthAddress { key_name: k1, derivation_path: d1 }
            && curve == EcdsaCurve::Secp256k1 && k0 == k1 && k1 == metadata.key_name
            && path_view(d0) == path_view(d1) && path_view(d1) == canister_path(canister_id),
{
    lemma_signed_message_is_profile_digest(metadata, canister_id, state0, event0, state1, action0);
    lemma_address_lookup_uses_signing_key(metadata, canister_id, state1, event1, state2, action1);
}

/// A controller's GitHub authentication starts with a POST to GitHub's token
/// endpoint that carries the GitHub client id, the code and the GitHub client
/// secret, each URL-encoded.
pub proof fn lemma_github_start_requests_github_token(
    metadata: Metadata,
    canister_id: Seq<u8>,
    authorization_code: String,
    next: AuthFlow,
    action: AuthAction,
)
    requires
        step_relation(
            metadata,
            canister_id,
            AuthFlow::Start { method: AuthMethod::GitHub, authorization_code },
            AuthEvent::CallerChecked(true),
            next,
            action,
        ),
    ensures
        next == (AuthFlow::AwaitingToken { method: AuthMethod::GitHub }),
        action matches AuthAction::SendHttp(r) && r@.method == "POST"@ && r@.url
            == "https://github.com/login/oauth/access_token?client_id="@ + url_encoded(
            metadata.github_oauth_client_id@,
        ) + "&code="@ + url_encoded(authorization_code@) + "&client_secret="@ + url_encoded(
            metadata.github_oauth_client_secret@,
        ),
{
}

/// A controller's Google authentication starts with a POST to Google's token
/// endpoint that carries the redirect URL, the Google client id, the code and
/// the Google client secret, each URL-encoded.
pub proof fn lemma_google_start_requests_google_token(
    metadata: Metadata,
    canister_id: Seq<u8>,
    authorization_code: String,
    next: AuthFlow,
    action: AuthAction,
)
    requires
        step_relation(
            metadata,
            canister_id,
            AuthFlow::Start { method: AuthMethod::Google, authorization_code },
            AuthEvent::CallerChecked(true),
            next,
            action,
        ),
    ensures
        next == (AuthFlow::AwaitingToken { method: AuthMethod::Google }),
        action matches AuthAction::SendHttp(r) && r@.method == "POST"@ && r@.url
            == "https://oauth2.googleapis.com/token?grant_type=authorization_code&redirect_uri="@
            + url_encoded(metadata.google_oauth_redirect_url@) + "&client_id="@ + url_encoded(
            metadata.google_oauth_client_id@,
        ) + "&code="@ + url_encoded(authorization_code@) + "&client_secret="@ + url_encoded(
            metadata.google_oauth_client_secret@,
        ),
{
}

/// The first request of a GitHub authentication never equals the first
/// request of a Google one, whatever the configurations and codes: GitHub's
/// goes to `github.com`, Google's to `oauth2.googleapis.com`.
pub proof fn lemma_start_requests_differ_by_provider(
    metadata_a: Metadata,
    metadata_b: Metadata,
    canister_a: Seq<u8>,
    canister_b: Seq<u8>,
    code_a: String,
    code_b: String,
    next_a: AuthFlow,
    action_a: AuthAction,
    next_b: AuthFlow,
    action_b: AuthAction,
)
    requires
        step_relation(
            metadata_a,
            canister_a,
            AuthFlow::Start { method: AuthMethod::GitHub, authorization_code: code_a },
            AuthEvent::CallerChecked(true),
            next_a,
            action_a,
        ),
        step_relation(
            metadata_b,
            canister_b,
            AuthFlow::Start { method: AuthMethod::Google, authorization_code: code_b },
            AuthEvent::CallerChecked(true),
            next_b,
            action_b,
        ),
    ensures
        action_a matches AuthAction::SendHttp(ra) && action_b matches AuthAction::SendHttp(rb)
            && ra@.url[8] == 'g' && rb@.url[8] == 'o' && ra@.url != rb@.url,
{
    lemma_github_start_requests_github_token(metadata_a, canister_a, code_a, next_a, action_a);
    lemma_google_start_requests_google_token(metadata_b, canister_b, code_b, next_b, action_b);
    reveal_strlit("https://github.com/login/oauth/access_token?client_id=");
    reveal_strlit("https://oauth2.googleapis.com/token?grant_type=authorization_code&redirect_uri=");
    if let AuthAction::SendHttp(ra) = action_a {
        if let AuthAction::SendHttp(rb) = action_b {
            let ga = "https://github.com/login/oauth/access_token?client_id="@;
            let gb = "https://oauth2.googleapis.com/token?grant_type=authorization_code&redirect_uri="@;
            assert(ra@.url[8] == ga[8]);
            assert(rb@.url[8] == gb[8]);
        }
    }
}

} // verus!
