use vstd::prelude::*;
use vstd::utf8::encode_utf8;

use crate::utils::encoding::{
    hex_encode, hex_lower, keccak256, keccak256_digest, push_uint256, push_utf8, uint256_be,
};

verus! {

/// The signed answer of a successful authentication.
#[derive(Debug, Clone)]
pub struct AuthResponse {
    pub user_id: u128,
    pub name: String,
    pub email: String,
    pub avatar: String,
    pub company: String,
    pub auth_method: String,
    pub signature: String,
}

/// The identity provider an authentication went through.
#[derive(Debug, Clone, Copy, PartialEq, Eq, Structural)]
pub enum AuthMethod {
    GitHub,
    Google,
}

/// The user's details that a provider vouched for.
#[derive(Debug, Clone)]
pub struct Profile {
    pub user_id: u128,
    pub name: String,
    pub email: String,
    pub avatar: String,
    pub company: String,
}

/// The mathematical form of a [`Profile`].
pub struct ProfileView {
    pub user_id: u128,
    pub name: Seq<char>,
    pub email: Seq<char>,
    pub avatar: Seq<char>,
    pub company: Seq<char>,
}

impl View for Profile {
    type V = ProfileView;

    open spec fn view(&self) -> ProfileView {
        ProfileView {
            user_id: self.user_id,
            name: self.name@,
            email: self.email@,
            avatar: self.avatar@,
            company: self.company@,
        }
    }
}

/// The label of a provider in responses and signed payloads.
pub open spec fn method_label(method: AuthMethod) -> Seq<char> {
    match method {
        AuthMethod::GitHub => "github"@,
        AuthMethod::Google => "google"@,
    }
}

impl AuthMethod {
    /// The provider's label: `github` or `google`.
    pub fn to_string(&self) -> (res: String)
        ensures
            res@ == method_label(*self),
    {
        match self {
            AuthMethod::GitHub => String::from_str("github"),
            AuthMethod::Google => String::from_str("google"),
        }
    }
}

/// The bytes that an authentication signs, packed as `abi.encodePacked`
/// packs a `uint256` followed by five strings: the user id as 32 big-endian
/// bytes, then the UTF-8 bytes of name, email, avatar, company and the
/// provider's label, with no separators.
pub open spec fn signing_payload_bytes(
    user_id: u128,
    name: Seq<char>,
    email: Seq<char>,
    avatar: Seq<char>,
    company: Seq<char>,
    method: AuthMethod,
) -> Seq<u8> {
    uint256_be(user_id) + encode_utf8(name) + encode_utf8(email) + encode_utf8(avatar)
        + encode_utf8(company) + encode_utf8(method_label(method))
}

/// The digest that the canister's key signs for a profile.
pub open spec fn signing_digest(profile: Profile, method: AuthMethod) -> Seq<u8> {
    keccak256_digest(
        signing_payload_bytes(
            profile.user_id,
            profile.name@,
            profile.email@,
            profile.avatar@,
            profile.company@,
            method,
        ),
    )
}

/// The packed bytes of an authentication's fields.
pub fn signing_payload(
    user_id: u128,
    name: &str,
    email: &str,
    avatar: &str,
    company: &str,
    auth_method: AuthMethod,
) -> (res: Vec<u8>)
    ensures
        res@ == signing_payload_bytes(user_id, name@, email@, avatar@, company@, auth_method),
{
    let mut buf: Vec<u8> = Vec::new();
    push_uint256(&mut buf, user_id);
    push_utf8(&mut buf, name);
    push_utf8(&mut buf, email);
    push_utf8(&mut buf, avatar);
    push_utf8(&mut buf, company);
    let label = auth_method.to_string();
    push_utf8(&mut buf, label.as_str());
    assert(buf@ =~= signing_payload_bytes(user_id, name@, email@, avatar@, company@, auth_method));
    buf
}

/// The Keccak-256 digest of the packed profile and provider: the message
/// hash handed to threshold ECDSA.
pub fn signing_hash(profile: &Profile, auth_method: AuthMethod) -> (res: Vec<u8>)
    ensures
        res@ == signing_digest(*profile, auth_method),
        res@.len() == 32,
{
    let payload = signing_payload(
        profile.user_id,
        profile.name.as_str(),
        profile.email.as_str(),
        profile.avatar.as_str(),
        profile.company.as_str(),
        auth_method,
    );
    keccak256(payload.as_slice())
}

impl AuthResponse {
    /// The response for a profile: its fields, the provider's label, and the
    /// lower-case hex of the signature followed by its recovery byte `v`.
    pub fn new(
        user_id: u128,
        name: String,
        email: String,
        avatar: String,
        company: String,
        auth_method: AuthMethod,
        signature: Vec<u8>,
        v: u8,
    ) -> (res: AuthResponse)
        ensures
            res.user_id == user_id,
            res.name == name,
            res.email == email,
            res.avatar == avatar,
            res.company == company,
            res.auth_method@ == method_label(auth_method),
            res.signature@ == hex_lower(signature@.push(v)),
    {
        let mut signature = signature;
        signature.push(v);
        let signature_hex = hex_encode(signature.as_slice());
        AuthResponse {
            user_id,
            name,
            email,
            avatar,
            company,
            auth_method: auth_method.to_string(),
            signature: signature_hex,
        }
    }
}

/// The two providers have different labels.
pub proof fn lemma_method_labels_differ()
    ensures
        method_label(AuthMethod::GitHub) != method_label(AuthMethod::Google),
{
    reveal_strlit("github");
    reveal_strlit("google");
    assert(method_label(AuthMethod::GitHub)[1] != method_label(AuthMethod::Google)[1]);
}

} // verus!
