use vstd::prelude::*;

use super::TrapReason;
use crate::types::auth_response::{Profile, ProfileView};
use crate::types::Metadata;
use crate::utils::encoding::{url_encode, url_encoded};
use crate::utils::http::{bodiless_request, form_headers, form_headers_with, HttpRequest, HttpRequestView};
use crate::utils::errors::AuthError;
use crate::utils::json::{
    json_member, json_members, json_parsed, member, parse_json, JsonScalar, Scalar,
};

verus! {

/// GitHub's answer to the exchange of an authorization code.
#[derive(Debug, Clone)]
pub struct TokenResponse {
    pub access_token: String,
    pub token_type: String,
    pub scope: String,
}

/// The URL that exchanges an authorization code for an access token.
pub open spec fn token_url(client_id: Seq<char>, code: Seq<char>, client_secret: Seq<char>) -> Seq<char> {
    "https://github.com/login/oauth/access_token?client_id="@ + url_encoded(client_id) + "&code="@
        + url_encoded(code) + "&client_secret="@ + url_encoded(client_secret)
}

/// The token exchange request: a POST of an empty form to [`token_url`].
pub open spec fn token_request_view(metadata: Metadata, code: Seq<char>) -> HttpRequestView {
    HttpRequestView {
        method: "POST"@,
        url: token_url(metadata.github_oauth_client_id@, code, metadata.github_oauth_client_secret@),
        headers: form_headers("Content-Length"@, "0"@),
        body: Seq::empty(),
    }
}

/// The user information request: a GET of the user endpoint with the access
/// token as bearer token.
pub open spec fn user_info_request_view(access_token: Seq<char>) -> HttpRequestView {
    HttpRequestView {
        method: "GET"@,
        url: "https://api.github.com/user"@,
        headers: form_headers("Authorization"@, "Bearer "@ + access_token),
        body: Seq::empty(),
    }
}

/// Builds the request that exchanges `authorization_code` for an access token.
pub fn token_request(metadata: &Metadata, authorization_code: &str) -> (res: HttpRequest)
    ensures
        res@ == token_request_view(*metadata, authorization_code@),
{
    let mut url = String::from_str("https://github.com/login/oauth/access_token?client_id=");
    let client_id = url_encode(metadata.github_oauth_client_id.as_str());
    url.append(client_id.as_str());
    url.append("&code=");
    let code = url_encode(authorization_code);
    url.append(code.as_str());
    url.append("&client_secret=");
    let client_secret = url_encode(metadata.github_oauth_client_secret.as_str());
    url.append(client_secret.as_str());
    let headers = form_headers_with("Content-Length", String::from_str("0"));
    let res = bodiless_request("POST", url, headers);
    assert(res@ =~= token_request_view(*metadata, authorization_code@));
    res
}

/// Builds the request for the signed-in user's details.
pub fn user_info_request(access_token: &str) -> (res: HttpRequest)
    ensures
        res@ == user_info_request_view(access_token@),
{
    let mut bearer = String::from_str("Bearer ");
    bearer.append(access_token);
    let headers = form_headers_with("Authorization", bearer);
    let res = bodiless_request("GET", String::from_str("https://api.github.com/user"), headers);
    assert(res@ =~= user_info_request_view(access_token@));
    res
}

/// Parses the text of GitHub's user details as JSON; text that does not
/// parse is a `FailedToGetUserInfo` error with the parser's message.
pub fn parse_user_info(text: &str) -> (res: Result<serde_json::Value, AuthError>)
    ensures
        match (res, json_parsed(text@)) {
            (Ok(info), Ok(members)) => json_members(info) == members,
            (Err(err), Err(message)) => err matches AuthError::FailedToGetUserInfo(m) && m@ == message,
            _ => false,
        },
{
    match parse_json(text) {
        Ok(info) => Ok(info),
        Err(message) => Err(AuthError::FailedToGetUserInfo(message)),
    }
}

/// A text field of the user's details: a missing key traps with `missing`,
/// a string is taken as it is, any other value reads as the empty text.
pub open spec fn text_field(info: Map<Seq<char>, Scalar>, key: Seq<char>, missing: TrapReason) -> Result<
    Seq<char>,
    TrapReason,
> {
    match member(info, key) {
        Scalar::Absent => Err(missing),
        Scalar::Text(s) => Ok(s),
        _ => Ok(Seq::empty()),
    }
}

/// The profile in GitHub's user details: `id` must be an unsigned 64-bit
/// number; `name`, `email`, `avatar_url` and `company` must be present and
/// read as texts, empty where not a string. The first key that fails decides
/// the trap.
pub open spec fn github_profile_of(info: Map<Seq<char>, Scalar>) -> Result<ProfileView, TrapReason> {
    match member(info, "id"@) {
        Scalar::Absent => Err(TrapReason::GithubMissingId),
        Scalar::Number(Some(id)) => {
            match (
                text_field(info, "name"@, TrapReason::GithubMissingName),
                text_field(info, "email"@, TrapReason::GithubMissingEmail),
                text_field(info, "avatar_url"@, TrapReason::GithubMissingAvatar),
                text_field(info, "company"@, TrapReason::GithubMissingCompany),
            ) {
                (Err(t), _, _, _) => Err(t),
                (Ok(_), Err(t), _, _) => Err(t),
                (Ok(_), Ok(_), Err(t), _) => Err(t),
                (Ok(_), Ok(_), Ok(_), Err(t)) => Err(t),
                (Ok(name), Ok(email), Ok(avatar), Ok(company)) => Ok(
                    ProfileView { user_id: id as u128, name, email, avatar, company },
                ),
            }
        },
        _ => Err(TrapReason::GithubIdNotNumber),
    }
}

/// Reads one text field of the user's details.
fn read_text_field(info: &serde_json::Value, key: &str, missing: TrapReason) -> (res: Result<
    String,
    TrapReason,
>)
    ensures
        match (res, text_field(json_members(*info), key@, missing)) {
            (Ok(s), Ok(t)) => s@ == t,
            (Err(a), Err(b)) => a == b,
            _ => false,
        },
{
    match json_member(info, key) {
        JsonScalar::Absent => Err(missing),
        JsonScalar::Text(s) => Ok(s),
        _ => Ok(String::new()),
    }
}

/// Extracts the profile from GitHub's user details, or the trap that the
/// details cause.
pub fn github_profile(info: &serde_json::Value) -> (res: Result<Profile, TrapReason>)
    ensures
        match (res, github_profile_of(json_members(*info))) {
            (Ok(p), Ok(v)) => p@ == v,
            (Err(a), Err(b)) => a == b,
            _ => false,
        },
{
    let user_id: u128 = match json_member(info, "id") {
        JsonScalar::Absent => return Err(TrapReason::GithubMissingId),
        JsonScalar::Number(Some(id)) => id as u128,
        _ => return Err(TrapReason::GithubIdNotNumber),
    };
    let name = match read_text_field(info, "name", TrapReason::GithubMissingName) {
        Ok(s) => s,
        Err(t) => return Err(t),
    };
    let email = match read_text_field(info, "email", TrapReason::GithubMissingEmail) {
        Ok(s) => s,
        Err(t) => return Err(t),
    };
    let avatar = match read_text_field(info, "avatar_url", TrapReason::GithubMissingAvatar) {
        Ok(s) => s,
        Err(t) => return Err(t),
    };
    let company = match read_text_field(info, "company", TrapReason::GithubMissingCompany) {
        Ok(s) => s,
        Err(t) => return Err(t),
    };
    Ok(Profile { user_id, name, email, avatar, company })
}

/// A user whose `id` is an unsigned 64-bit number `n` and whose details hold
/// `name`, `email`, `avatar_url` and `company` gets a profile with user id
/// `n`, and each text field is the string that the matching key holds, or
/// empty where that key holds no string.
pub proof fn lemma_github_profile_fields(info: Map<Seq<char>, Scalar>, n: u64)
    requires
        member(info, "id"@) == Scalar::Number(Some(n)),
        !(member(info, "name"@) is Absent),
        !(member(info, "email"@) is Absent),
        !(member(info, "avatar_url"@) is Absent),
        !(member(info, "company"@) is Absent),
    ensures
        github_profile_of(info) matches Ok(p) && {
            &&& p.user_id == n as u128
            &&& (member(info, "name"@) matches Scalar::Text(s) ==> p.name == s)
            &&& (!(member(info, "name"@) is Text) ==> p.name == Seq::<char>::empty())
            &&& (member(info, "email"@) matches Scalar::Text(s) ==> p.email == s)
            &&& (!(member(info, "email"@) is Text) ==> p.email == Seq::<char>::empty())
            &&& (member(info, "avatar_url"@) matches Scalar::Text(s) ==> p.avatar == s)
            &&& (!(member(info, "avatar_url"@) is Text) ==> p.avatar == Seq::<char>::empty())
            &&& (member(info, "company"@) matches Scalar::Text(s) ==> p.company == s)
            &&& (!(member(info, "company"@) is Text) ==> p.company == Seq::<char>::empty())
        },
{
}

/// Details without an `id` trap with `GithubMissingId`; an `id` that is not
/// an unsigned 64-bit number traps with `GithubIdNotNumber`.
pub proof fn lemma_github_id_traps(info: Map<Seq<char>, Scalar>)
    ensures
        member(info, "id"@) is Absent ==> github_profile_of(info) == Err::<ProfileView, TrapReason>(
            TrapReason::GithubMissingId,
        ),
        !(member(info, "id"@) is Absent) && !(member(info, "id"@) matches Scalar::Number(Some(_)))
            ==> github_profile_of(info) == Err::<ProfileView, TrapReason>(
            TrapReason::GithubIdNotNumber,
        ),
{
}

} // verus!
