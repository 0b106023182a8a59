use vstd::prelude::*;

use super::TrapReason;
use crate::types::auth_response::{Profile, ProfileView};
use crate::types::Metadata;
use crate::utils::encoding::{url_encode, url_encoded};
use crate::utils::http::{bodiless_request, form_headers, form_headers_with, HttpRequest, HttpRequestView};
use crate::utils::errors::AuthError;
use crate::utils::json::{
    json_member, json_members, jwt_unverified_claims, member, parse_jwt_claims, JsonScalar, Scalar,
};
use vstd::utf8::encode_utf8;

verus! {

/// Google's answer to the exchange of an authorization code.
#[derive(Debug, Clone)]
pub struct TokenResponse {
    pub access_token: String,
    pub expires_in: u64,
    pub token_type: String,
    pub scope: String,
    pub id_token: String,
    pub refresh_token: Option<String>,
}

/// The URL that exchanges an authorization code for tokens.
pub open spec fn token_url(
    redirect_url: Seq<char>,
    client_id: Seq<char>,
    code: Seq<char>,
    client_secret: Seq<char>,
) -> Seq<char> {
    "https://oauth2.googleapis.com/token?grant_type=authorization_code&redirect_uri="@
        + url_encoded(redirect_url) + "&client_id="@ + url_encoded(client_id) + "&code="@
        + url_encoded(code) + "&client_secret="@ + url_encoded(client_secret)
}

/// The token exchange request: a POST of an empty form to [`token_url`].
pub open spec fn token_request_view(metadata: Metadata, code: Seq<char>) -> HttpRequestView {
    HttpRequestView {
        method: "POST"@,
        url: token_url(
            metadata.google_oauth_redirect_url@,
            metadata.google_oauth_client_id@,
            code,
            metadata.google_oauth_client_secret@,
        ),
        headers: form_headers("Content-Length"@, "0"@),
        body: Seq::empty(),
    }
}

/// Builds the request that exchanges `authorization_code` for tokens.
pub fn token_request(metadata: &Metadata, authorization_code: &str) -> (res: HttpRequest)
    ensures
        res@ == token_request_view(*metadata, authorization_code@),
{
    let mut url = String::from_str(
        "https://oauth2.googleapis.com/token?grant_type=authorization_code&redirect_uri=",
    );
    let redirect = url_encode(metadata.google_oauth_redirect_url.as_str());
    url.append(redirect.as_str());
    url.append("&client_id=");
    let client_id = url_encode(metadata.google_oauth_client_id.as_str());
    url.append(client_id.as_str());
    url.append("&code=");
    let code = url_encode(authorization_code);
    url.append(code.as_str());
    url.append("&client_secret=");
    let client_secret = url_encode(metadata.google_oauth_client_secret.as_str());
    url.append(client_secret.as_str());
    let headers = form_headers_with("Content-Length", String::from_str("0"));
    let res = bodiless_request("POST", url, headers);
    assert(res@ =~= token_request_view(*metadata, authorization_code@));
    res
}

/// Decodes an ID token without checking its signature and hands back its
/// claims; a token that does not decode is an `InvalidJwt` error with the
/// decoder's message.
pub fn get_jwt(id_token: &str) -> (res: Result<serde_json::Value, AuthError>)
    ensures
        match (res, jwt_unverified_claims(id_token@)) {
            (Ok(claims), Ok(members)) => json_members(claims) == members,
            (Err(err), Err(message)) => err matches AuthError::InvalidJwt(m) && m@ == message,
            _ => false,
        },
{
    match parse_jwt_claims(id_token) {
        Ok(claims) => Ok(claims),
        Err(message) => Err(AuthError::InvalidJwt(message)),
    }
}

/// An ASCII decimal digit.
pub open spec fn is_digit(b: u8) -> bool {
    48 <= b <= 57
}

/// Why a text is not a decimal `u128`: it is empty, it holds a character
/// that is not a digit where a digit must stand, or its value does not fit.
#[derive(Debug, Clone, Copy, PartialEq, Eq, Structural)]
pub enum DecimalError {
    Empty,
    InvalidDigit,
    PosOverflow,
}

/// Reads digits from the left onto `acc`: the first byte that is not a digit
/// is an `InvalidDigit` error, the first digit that takes the value past
/// `u128::MAX` a `PosOverflow` error.
pub open spec fn scan_digits(digits: Seq<u8>, acc: int) -> Result<int, DecimalError>
    decreases digits.len(),
{
    if digits.len() == 0 {
        Ok(acc)
    } else if !is_digit(digits[0]) {
        Err(DecimalError::InvalidDigit)
    } else if acc * 10 + (digits[0] - 48) > u128::MAX {
        Err(DecimalError::PosOverflow)
    } else {
        scan_digits(digits.drop_first(), acc * 10 + (digits[0] - 48))
    }
}

/// The digits of a number text: without its leading `+`, where it has one.
pub open spec fn unsigned_digits(bytes: Seq<u8>) -> Seq<u8> {
    if bytes.len() > 0 && bytes[0] == 43 {
        bytes.drop_first()
    } else {
        bytes
    }
}

/// The `u128` that a text denotes in decimal, read as `str::parse::<u128>`
/// reads it: an empty text is `Empty`; a lone sign is `InvalidDigit`; after
/// an optional leading `+`, the digits are read from the left, and the first
/// non-digit or the first digit that overflows decides the error.
pub open spec fn decimal_u128(bytes: Seq<u8>) -> Result<u128, DecimalError> {
    if bytes.len() == 0 {
        Err(DecimalError::Empty)
    } else if bytes.len() == 1 && (bytes[0] == 43 || bytes[0] == 45) {
        Err(DecimalError::InvalidDigit)
    } else {
        match scan_digits(unsigned_digits(bytes), 0) {
            Ok(v) => Ok(v as u128),
            Err(e) => Err(e),
        }
    }
}

/// A scan that ends without error ends within `u128`.
pub proof fn lemma_scan_digits_bounded(digits: Seq<u8>, acc: int)
    requires
        0 <= acc <= u128::MAX,
    ensures
        scan_digits(digits, acc) matches Ok(v) ==> 0 <= v <= u128::MAX,
    decreases digits.len(),
{
    if digits.len() > 0 && is_digit(digits[0]) && acc * 10 + (digits[0] - 48) <= u128::MAX {
        lemma_scan_digits_bounded(digits.drop_first(), acc * 10 + (digits[0] - 48));
    }
}

/// Reads a text as a decimal `u128`.
pub fn parse_decimal_u128(text: &str) -> (res: Result<u128, DecimalError>)
    ensures
        res == decimal_u128(encode_utf8(text@)),
{
    let bytes = text.as_bytes();
    let ghost all = bytes@;
    let len = bytes.len();
    if len == 0 {
        return Err(DecimalError::Empty);
    }
    if len == 1 && (bytes[0] == 43 || bytes[0] == 45) {
        return Err(DecimalError::InvalidDigit);
    }
    let start: usize = if bytes[0] == 43 { 1 } else { 0 };
    let ghost digits = all.subrange(start as int, len as int);
    assert(digits =~= unsigned_digits(all));
    assert(digits.skip(0) =~= digits);
    let mut acc: u128 = 0;
    let mut i: usize = start;
    while i < len
        invariant
            bytes@ == all,
            all == encode_utf8(text@),
            len == all.len(),
            start <= i <= len,
            digits == all.subrange(start as int, len as int),
            digits == unsigned_digits(all),
            all.len() > 0,
            !(all.len() == 1 && (all[0] == 43 || all[0] == 45)),
            scan_digits(digits, 0) == scan_digits(digits.skip(i - start), acc as int),
        decreases len - i,
    {
        let b = bytes[i];
        let ghost k = i - start;
        let ghost rest = digits.skip(k);
        assert(rest[0] == b);
        assert(rest.drop_first() =~= digits.skip(k + 1));
        if b < 48 || b > 57 {
            return Err(DecimalError::InvalidDigit);
        }
        let times_ten = acc.checked_mul(10);
        match times_ten {
            None => {
                return Err(DecimalError::PosOverflow);
            },
            Some(t) => {
                let next = t.checked_add((b - 48) as u128);
                match next {
                    None => {
                        return Err(DecimalError::PosOverflow);
                    },
                    Some(n) => {
                        acc = n;
                    },
                }
            },
        }
        i = i + 1;
    }
    assert(digits.skip(len - start) =~= Seq::<u8>::empty());
    Ok(acc)
}

/// An optional text claim: a string is taken as it is; a missing claim, or
/// one that is not a string, reads as the empty text.
pub open spec fn optional_text(claims: Map<Seq<char>, Scalar>, key: Seq<char>) -> Seq<char> {
    match member(claims, key) {
        Scalar::Text(s) => s,
        _ => Seq::empty(),
    }
}

/// The profile in Google's ID-token claims: `sub` must be a decimal text and
/// `email` a text; `name`, `picture` and `hd` are optional and read as the
/// empty text where missing or not a string. The first of `sub` and `email`
/// that fails decides the trap.
pub open spec fn google_profile_of(claims: Map<Seq<char>, Scalar>) -> Result<ProfileView, TrapReason> {
    match member(claims, "sub"@) {
        Scalar::Absent => Err(TrapReason::GoogleMissingUserId),
        Scalar::Text(sub) => {
            match decimal_u128(encode_utf8(sub)) {
                Err(kind) => Err(TrapReason::GoogleUserIdNotDecimal(kind)),
                Ok(user_id) => {
                    match member(claims, "email"@) {
                        Scalar::Absent => Err(TrapReason::GoogleMissingEmail),
                        Scalar::Text(email) => Ok(
                            ProfileView {
                                user_id,
                                name: optional_text(claims, "name"@),
                                email,
                                avatar: optional_text(claims, "picture"@),
                                company: optional_text(claims, "hd"@),
                            },
                        ),
                        _ => Err(TrapReason::GoogleEmailNotText),
                    }
                },
            }
        },
        _ => Err(TrapReason::GoogleUserIdNotText),
    }
}

/// Reads an optional text claim.
fn read_optional_text(claims: &serde_json::Value, key: &str) -> (res: String)
    ensures
        res@ == optional_text(json_members(*claims), key@),
{
    match json_member(claims, key) {
        JsonScalar::Text(s) => s,
        _ => String::new(),
    }
}

/// Extracts the profile from the claims of Google's ID token, or the trap
/// that the claims cause.
pub fn google_profile(claims: &serde_json::Value) -> (res: Result<Profile, TrapReason>)
    ensures
        match (res, google_profile_of(json_members(*claims))) {
            (Ok(p), Ok(v)) => p@ == v,
            (Err(a), Err(b)) => a == b,
            _ => false,
        },
{
    let user_id: u128 = match json_member(claims, "sub") {
        JsonScalar::Absent => return Err(TrapReason::GoogleMissingUserId),
        JsonScalar::Text(sub) => match parse_decimal_u128(sub.as_str()) {
            Err(kind) => return Err(TrapReason::GoogleUserIdNotDecimal(kind)),
            Ok(id) => id,
        },
        _ => return Err(TrapReason::GoogleUserIdNotText),
    };
    let name = read_optional_text(claims, "name");
    let email = match json_member(claims, "email") {
        JsonScalar::Absent => return Err(TrapReason::GoogleMissingEmail),
        JsonScalar::Text(s) => s,
        _ => return Err(TrapReason::GoogleEmailNotText),
    };
    let avatar = read_optional_text(claims, "picture");
    let company = read_optional_text(claims, "hd");
    Ok(Profile { user_id, name, email, avatar, company })
}

/// A Google account with a decimal `sub` and a text `email` authenticates
/// whatever it holds of `name`, `picture` and `hd`; each of those it lacks
/// reads as the empty text.
pub proof fn lemma_google_optional_claims_default(claims: Map<Seq<char>, Scalar>)
    requires
        member(claims, "sub"@) matches Scalar::Text(sub) && decimal_u128(encode_utf8(sub)) is Ok,
        member(claims, "email"@) is Text,
    ensures
        google_profile_of(claims) matches Ok(profile) && {
            &&& !claims.dom().contains("name"@) ==> profile.name == Seq::<char>::empty()
            &&& !claims.dom().contains("picture"@) ==> profile.avatar == Seq::<char>::empty()
            &&& !claims.dom().contains("hd"@) ==> profile.company == Seq::<char>::empty()
        },
{
}

/// With a `sub` text that reads as the decimal `user_id` and a text `email`,
/// the profile has that user id and email, and its name, avatar and company
/// are exactly the strings of the `name`, `picture` and `hd` claims, whatever
/// other claims the token holds, or empty where those claims hold no string.
pub proof fn lemma_google_profile_fields(
    claims: Map<Seq<char>, Scalar>,
    sub: Seq<char>,
    user_id: u128,
    email: Seq<char>,
)
    requires
        member(claims, "sub"@) == Scalar::Text(sub),
        decimal_u128(encode_utf8(sub)) == Ok::<u128, DecimalError>(user_id),
        member(claims, "email"@) == Scalar::Text(email),
    ensures
        google_profile_of(claims) matches Ok(p) && {
            &&& p.user_id == user_id
            &&& p.email == email
            &&& (member(claims, "name"@) matches Scalar::Text(s) ==> p.name == s)
            &&& (!(member(claims, "name"@) is Text) ==> p.name == Seq::<char>::empty())
            &&& (member(claims, "picture"@) matches Scalar::Text(s) ==> p.avatar == s)
            &&& (!(member(claims, "picture"@) is Text) ==> p.avatar == Seq::<char>::empty())
            &&& (member(claims, "hd"@) matches Scalar::Text(s) ==> p.company == s)
            &&& (!(member(claims, "hd"@) is Text) ==> p.company == Seq::<char>::empty())
        },
{
}

/// Appending a digit `c` to a scan that ends in `v` ends in `10 * v + c`,
/// when that fits.
proof fn lemma_scan_digits_push(digits: Seq<u8>, acc: int, v: int, c: u8)
    requires
        scan_digits(digits, acc) == Ok::<int, DecimalError>(v),
        is_digit(c),
        v * 10 + (c - 48) <= u128::MAX,
        0 <= acc,
    ensures
        scan_digits(digits.push(c), acc) == Ok::<int, DecimalError>(v * 10 + (c - 48)),
    decreases digits.len(),
{
    let pushed = digits.push(c);
    if digits.len() == 0 {
        assert(v == acc);
        assert(pushed.len() == 1 && pushed[0] == c);
        assert(pushed.drop_first() =~= Seq::<u8>::empty());
        assert(scan_digits(pushed.drop_first(), acc * 10 + (c - 48))
            == Ok::<int, DecimalError>(acc * 10 + (c - 48)));
    } else {
        let next = acc * 10 + (digits[0] - 48);
        assert(is_digit(digits[0]));
        lemma_scan_digits_monotone(digits.drop_first(), next, v);
        assert(next <= u128::MAX);
        assert(pushed[0] == digits[0]);
        assert(pushed.drop_first() =~= digits.drop_first().push(c));
        lemma_scan_digits_push(digits.drop_first(), next, v, c);
    }
}

/// A scan that ends without error ends at or above where it started.
proof fn lemma_scan_digits_monotone(digits: Seq<u8>, acc: int, v: int)
    requires
        scan_digits(digits, acc) == Ok::<int, DecimalError>(v),
        0 <= acc,
    ensures
        acc <= v,
    decreases digits.len(),
{
    if digits.len() > 0 {
        lemma_scan_digits_monotone(digits.drop_first(), acc * 10 + (digits[0] - 48), v);
    }
}

/// One digit reads as its value.
pub proof fn lemma_decimal_single_digit(c: u8)
    requires
        is_digit(c),
    ensures
        decimal_u128(seq![c]) == Ok::<u128, DecimalError>((c - 48) as u128),
{
    let one = seq![c];
    assert(one.len() == 1 && one[0] == c);
    assert(unsigned_digits(one) =~= one);
    assert(one.drop_first() =~= Seq::<u8>::empty());
    assert(scan_digits(one.drop_first(), c - 48) == Ok::<int, DecimalError>(c - 48));
    assert(scan_digits(one, 0) == Ok::<int, DecimalError>(c - 48));
}

/// A digit appended to a number text that starts with a digit multiplies its
/// value by ten and adds the digit, while the result fits in 128 bits.
pub proof fn lemma_decimal_append_digit(digits: Seq<u8>, v: u128, c: u8)
    requires
        digits.len() > 0,
        is_digit(digits[0]),
        decimal_u128(digits) == Ok::<u128, DecimalError>(v),
        is_digit(c),
        v * 10 + (c - 48) <= u128::MAX,
    ensures
        decimal_u128(digits.push(c)) == Ok::<u128, DecimalError>((v * 10 + (c - 48)) as u128),
{
    assert(unsigned_digits(digits) == digits);
    assert(digits.push(c)[0] == digits[0]);
    assert(unsigned_digits(digits.push(c)) == digits.push(c));
    lemma_scan_digits_bounded(digits, 0);
    let w = scan_digits(digits, 0)->Ok_0;
    assert(w == v);
    lemma_scan_digits_push(digits, 0, w, c);
}

/// A leading `+` does not change the value of a number text that starts with
/// a digit.
pub proof fn lemma_decimal_plus_sign(digits: Seq<u8>)
    requires
        digits.len() > 0,
        is_digit(digits[0]),
    ensures
        decimal_u128(seq![43u8] + digits) == decimal_u128(digits),
{
    assert((seq![43u8] + digits).drop_first() =~= digits);
    assert(unsigned_digits(digits) == digits);
}

} // verus!
