use vstd::prelude::*;

verus! {

/// A JSON document as `serde_json` parses it; opaque here.
#[verifier::external_type_specification]
#[verifier::external_body]
pub struct ExJsonValue(serde_json::Value);

/// What a lookup of one key in a JSON object yields, as far as the
/// authentication logic reads it: nothing, a string, a number (with its
/// value when it is an unsigned 64-bit integer), or any other JSON value.
#[derive(Debug, Clone, PartialEq)]
pub enum JsonScalar {
    Absent,
    Text(String),
    Number(Option<u64>),
    Other,
}

/// The mathematical form of a [`JsonScalar`].
pub enum Scalar {
    Absent,
    Text(Seq<char>),
    Number(Option<u64>),
    Other,
}

impl View for JsonScalar {
    type V = Scalar;

    open spec fn view(&self) -> Scalar {
        match self {
            JsonScalar::Absent => Scalar::Absent,
            JsonScalar::Text(s) => Scalar::Text(s@),
            JsonScalar::Number(n) => Scalar::Number(*n),
            JsonScalar::Other => Scalar::Other,
        }
    }
}

/// The members of a JSON value as key lookups see them: for an object, each
/// key with the scalar form of its value; for any other value, no member.
pub uninterp spec fn json_members(value: serde_json::Value) -> Map<Seq<char>, Scalar>;

/// The outcome of parsing a text as JSON: its members, or the parser's error
/// message.
pub uninterp spec fn json_parsed(text: Seq<char>) -> Result<Map<Seq<char>, Scalar>, Seq<char>>;

/// The outcome of decoding a JWT without checking its signature: the members
/// of its claims, or the decoder's error message.
pub uninterp spec fn jwt_unverified_claims(token: Seq<char>) -> Result<
    Map<Seq<char>, Scalar>,
    Seq<char>,
>;

/// The value a key looks up in a member map.
pub open spec fn member(members: Map<Seq<char>, Scalar>, key: Seq<char>) -> Scalar {
    if members.dom().contains(key) {
        members[key]
    } else {
        Scalar::Absent
    }
}

/// `serde_json::from_str::<serde_json::Value>`: the contract names the
/// outcome, members or error message, as a function of the text; the error is
/// handed on as its display text.
#[verifier::external_body]
pub(crate) fn parse_json(text: &str) -> (res: Result<serde_json::Value, String>)
    ensures
        match res {
            Ok(value) => json_parsed(text@) == Ok::<Map<Seq<char>, Scalar>, Seq<char>>(
                json_members(value),
            ),
            Err(message) => json_parsed(text@) == Err::<Map<Seq<char>, Scalar>, Seq<char>>(
                message@,
            ),
        },
{
    serde_json::from_str::<serde_json::Value>(text).map_err(|err| err.to_string())
}

/// `jwt::Token::parse_unverified` with `serde_json::Value` claims: the
/// contract names the outcome, the members of the claims or the error
/// message, as a function of the token text.
#[verifier::external_body]
pub(crate) fn parse_jwt_claims(token: &str) -> (res: Result<serde_json::Value, String>)
    ensures
        match res {
            Ok(claims) => jwt_unverified_claims(token@) == Ok::<Map<Seq<char>, Scalar>, Seq<char>>(
                json_members(claims),
            ),
            Err(message) => jwt_unverified_claims(token@) == Err::<
                Map<Seq<char>, Scalar>,
                Seq<char>,
            >(message@),
        },
{
    jwt::Token::<jwt::Header, serde_json::Value, _>::parse_unverified(token)
        .map(|parsed| parsed.claims().clone())
        .map_err(|err| err.to_string())
}

/// `serde_json::Value::get` followed by reading the found value as a string
/// or as an unsigned number (`as_u64`): the contract says the result is the
/// member the key looks up.
#[verifier::external_body]
pub(crate) fn json_member(value: &serde_json::Value, key: &str) -> (res: JsonScalar)
    ensures
        res@ == member(json_members(*value), key@),
{
    match value.get(key) {
        None => JsonScalar::Absent,
        Some(serde_json::Value::String(s)) => JsonScalar::Text(s.clone()),
        Some(serde_json::Value::Number(n)) => JsonScalar::Number(n.as_u64()),
        Some(_) => JsonScalar::Other,
    }
}

} // verus!
