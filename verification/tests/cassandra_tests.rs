use cassandra::methods::canister::update_metadata;
use cassandra::methods::flow::{step, AuthAction, AuthEvent, AuthFlow, EcdsaCurve};
use cassandra::methods::google_auth::DecimalError;
use cassandra::methods::github_auth;
use cassandra::methods::google_auth;
use cassandra::methods::{TrapReason, HTTP_CYCLES};
use cassandra::types::auth_response::{signing_hash, signing_payload, AuthMethod, AuthResponse, Profile};
use cassandra::types::{Metadata, UpdateMetadata};
use cassandra::utils::canister::controller_check;
use cassandra::utils::errors::{AuthError, CassandraError, UtilsError};
use cassandra::utils::http::{wrap_url, HttpRequest};
use cassandra::utils::json::JsonScalar;
use cassandra::utils::signature::get_eth_v;

fn metadata() -> Metadata {
    Metadata {
        key_name: "key_1".to_string(),
        google_oauth_client_id: "google id".to_string(),
        google_oauth_client_secret: "g/secret".to_string(),
        google_oauth_redirect_url: "https://app.example/cb?x=1".to_string(),
        github_oauth_client_id: "gh-id".to_string(),
        github_oauth_client_secret: "gh&secret".to_string(),
    }
}

fn no_update() -> UpdateMetadata {
    UpdateMetadata {
        key_name: None,
        google_oauth_client_id: None,
        google_oauth_client_secret: None,
        google_oauth_redirect_url: None,
        github_oauth_client_id: None,
        github_oauth_client_secret: None,
    }
}

fn header_pairs(req: &HttpRequest) -> Vec<(&str, &str)> {
    req.headers.iter().map(|(n, v)| (n.as_str(), v.as_str())).collect()
}

fn json(text: &str) -> serde_json::Value {
    serde_json::from_str(text).unwrap()
}

fn jwt_with_claims(claims: &str) -> String {
    let header = base64::encode_config(r#"{"alg":"HS256","typ":"JWT"}"#, base64::URL_SAFE_NO_PAD);
    let body = base64::encode_config(claims, base64::URL_SAFE_NO_PAD);
    format!("{}.{}.c2ln", header, body)
}

fn expected_payload(user_id: u128, texts: &[&str]) -> Vec<u8> {
    let mut bytes = vec![0u8; 16];
    bytes.extend_from_slice(&user_id.to_be_bytes());
    for t in texts {
        bytes.extend_from_slice(t.as_bytes());
    }
    bytes
}

// ---------- configuration ----------

#[test]
fn update_replaces_only_given_fields() {
    let mut m = metadata();
    let mut upd = no_update();
    upd.key_name = Some("key_2".to_string());
    upd.github_oauth_client_secret = Some("new".to_string());
    m.update(upd);
    assert_eq!(m.key_name, "key_2");
    assert_eq!(m.github_oauth_client_secret, "new");
    assert_eq!(m.github_oauth_client_id, "gh-id");
    assert_eq!(m.google_oauth_client_id, "google id");
    assert_eq!(m.google_oauth_client_secret, "g/secret");
    assert_eq!(m.google_oauth_redirect_url, "https://app.example/cb?x=1");
}

#[test]
fn empty_update_changes_nothing() {
    let mut m = metadata();
    m.update(no_update());
    let orig = metadata();
    assert_eq!(m.key_name, orig.key_name);
    assert_eq!(m.google_oauth_client_id, orig.google_oauth_client_id);
    assert_eq!(m.github_oauth_client_secret, orig.github_oauth_client_secret);
}

#[test]
fn two_updates_equal_their_merge() {
    let mut first = no_update();
    first.key_name = Some("a".to_string());
    first.google_oauth_client_id = Some("b".to_string());
    let mut second = no_update();
    second.key_name = Some("c".to_string());
    let mut m1 = metadata();
    m1.update(first.clone());
    m1.update(second.clone());
    let mut merged = no_update();
    merged.key_name = Some("c".to_string());
    merged.google_oauth_client_id = Some("b".to_string());
    let mut m2 = metadata();
    m2.update(merged);
    assert_eq!(m1.key_name, m2.key_name);
    assert_eq!(m1.google_oauth_client_id, m2.google_oauth_client_id);
    assert_eq!(m1.key_name, "c");
}

#[test]
fn default_metadata_is_empty() {
    let m = Metadata::default();
    assert!(m.key_name.is_empty() && m.github_oauth_client_id.is_empty());
    assert!(m.google_oauth_redirect_url.is_empty());
}

#[test]
fn refused_metadata_update_leaves_configuration() {
    let mut m = metadata();
    let mut upd = no_update();
    upd.key_name = Some("evil".to_string());
    let res = update_metadata(false, &mut m, upd);
    assert_eq!(res, Err(CassandraError::UtilsError(UtilsError::NotAController)));
    assert_eq!(m.key_name, "key_1");
}

#[test]
fn controller_metadata_update_applies() {
    let mut m = metadata();
    let mut upd = no_update();
    upd.google_oauth_redirect_url = Some("https://other".to_string());
    assert_eq!(update_metadata(true, &mut m, upd), Ok(()));
    assert_eq!(m.google_oauth_redirect_url, "https://other");
}

#[test]
fn controller_check_answers() {
    assert_eq!(controller_check(true), Ok(()));
    assert_eq!(controller_check(false), Err(UtilsError::NotAController));
}

#[test]
fn error_conversions() {
    let e: CassandraError = AuthError::FailedToExchangeToken.into();
    assert_eq!(e, CassandraError::AuthError(AuthError::FailedToExchangeToken));
    let e: CassandraError = UtilsError::NotAController.into();
    assert_eq!(e, CassandraError::UtilsError(UtilsError::NotAController));
    let e: AuthError = UtilsError::InvalidSignatureFormat.into();
    assert_eq!(e, AuthError::UtilsError(UtilsError::InvalidSignatureFormat));
}

#[test]
fn http_cycles_value() {
    assert_eq!(HTTP_CYCLES, 57_213_894_400);
}

// ---------- requests ----------

#[test]
fn wrap_url_encodes_target() {
    assert_eq!(
        wrap_url("https://proxy/?u=", "https://x.y/a?b=c d"),
        "https://proxy/?u=https%3A%2F%2Fx.y%2Fa%3Fb%3Dc%20d"
    );
    assert_eq!(wrap_url("p:", "Az09-._~"), "p:Az09-._~");
    assert_eq!(wrap_url("", "é"), "%C3%A9");
    assert_eq!(wrap_url("", "a&b=c"), "a%26b%3Dc");
}

#[test]
fn github_token_request_shape() {
    let req = github_auth::token_request(&metadata(), "c o/de");
    assert_eq!(req.method, "POST");
    assert_eq!(
        req.url,
        "https://github.com/login/oauth/access_token?client_id=gh-id&code=c%20o%2Fde&client_secret=gh%26secret"
    );
    assert_eq!(
        header_pairs(&req),
        vec![("Content-Type", "application/x-www-form-urlencoded"), ("Content-Length", "0")]
    );
    assert!(req.body.is_empty());
}

#[test]
fn github_user_info_request_shape() {
    let req = github_auth::user_info_request("gho_abc");
    assert_eq!(req.method, "GET");
    assert_eq!(req.url, "https://api.github.com/user");
    assert_eq!(
        header_pairs(&req),
        vec![("Content-Type", "application/x-www-form-urlencoded"), ("Authorization", "Bearer gho_abc")]
    );
}

#[test]
fn google_token_request_shape() {
    let req = google_auth::token_request(&metadata(), "4/0AX");
    assert_eq!(req.method, "POST");
    assert_eq!(
        req.url,
        "https://oauth2.googleapis.com/token?grant_type=authorization_code&redirect_uri=https%3A%2F%2Fapp.example%2Fcb%3Fx%3D1&client_id=google%20id&code=4%2F0AX&client_secret=g%2Fsecret"
    );
    assert_eq!(
        header_pairs(&req),
        vec![("Content-Type", "application/x-www-form-urlencoded"), ("Content-Length", "0")]
    );
}

// ---------- decimal user ids ----------

#[test]
fn decimal_parse_matches_std() {
    let max = u128::MAX.to_string();
    let over = "340282366920938463463374607431768211456";
    let over_then_letter = "9999999999999999999999999999999999999999x";
    for text in [
        "0", "123", "+7", "", "+", "-", "-1", "12a", " 1", "00042", max.as_str(), over, "٣", "+-1",
        over_then_letter, "1x99999999999999999999999999999999999999999",
    ] {
        let ours = google_auth::parse_decimal_u128(text);
        match text.parse::<u128>() {
            Ok(v) => assert_eq!(ours, Ok(v), "{}", text),
            Err(e) => assert_eq!(format!("{:?}", ours.unwrap_err()), format!("{:?}", e.kind()), "{}", text),
        }
    }
    assert_eq!(google_auth::parse_decimal_u128("108"), Ok(108));
    assert_eq!(google_auth::parse_decimal_u128(over), Err(DecimalError::PosOverflow));
    assert_eq!(google_auth::parse_decimal_u128(""), Err(DecimalError::Empty));
    assert_eq!(google_auth::parse_decimal_u128("+"), Err(DecimalError::InvalidDigit));
}

#[test]
fn decimal_trap_message_is_unwrap_message() {
    for text in ["12x", "", "340282366920938463463374607431768211456"] {
        let kind = google_auth::parse_decimal_u128(text).unwrap_err();
        let std_err = text.parse::<u128>().unwrap_err();
        assert_eq!(
            TrapReason::GoogleUserIdNotDecimal(kind).message(),
            format!("called `Result::unwrap()` on an `Err` value: {:?}", std_err)
        );
    }
}

// ---------- profiles ----------

#[test]
fn github_profile_reads_fields() {
    let info = json(r#"{"id": 42, "name": null, "email": "a@b.c", "avatar_url": "https://img", "company": 5}"#);
    let p = github_auth::github_profile(&info).unwrap();
    assert_eq!(p.user_id, 42);
    assert_eq!(p.name, "");
    assert_eq!(p.email, "a@b.c");
    assert_eq!(p.avatar, "https://img");
    assert_eq!(p.company, "");
}

#[test]
fn github_profile_traps() {
    let missing_id = json(r#"{"name": "x"}"#);
    assert_eq!(github_auth::github_profile(&missing_id).unwrap_err(), TrapReason::GithubMissingId);
    let text_id = json(r#"{"id": "42", "name": "x", "email": "", "avatar_url": "", "company": ""}"#);
    assert_eq!(github_auth::github_profile(&text_id).unwrap_err(), TrapReason::GithubIdNotNumber);
    let negative = json(r#"{"id": -1}"#);
    assert_eq!(github_auth::github_profile(&negative).unwrap_err(), TrapReason::GithubIdNotNumber);
    let no_company = json(r#"{"id": 1, "name": "x", "email": "", "avatar_url": ""}"#);
    assert_eq!(github_auth::github_profile(&no_company).unwrap_err(), TrapReason::GithubMissingCompany);
    assert_eq!(TrapReason::GithubMissingCompany.message(), "should have company");
    assert_eq!(TrapReason::GoogleMissingUserId.message(), "should have user id claim");
}

#[test]
fn parse_user_info_errors() {
    match github_auth::parse_user_info("{not json") {
        Err(AuthError::FailedToGetUserInfo(m)) => assert!(!m.is_empty()),
        other => panic!("unexpected {:?}", other),
    }
    assert!(github_auth::parse_user_info(r#"{"id": 1}"#).is_ok());
}

#[test]
fn google_claims_profile() {
    let token = jwt_with_claims(
        r#"{"sub":"110169484474386276334","name":"Ann","email":"ann@x.io","picture":"https://p","hd":"x.io"}"#,
    );
    let claims = google_auth::get_jwt(&token).unwrap();
    let p = google_auth::google_profile(&claims).unwrap();
    assert_eq!(p.user_id, 110169484474386276334u128);
    assert_eq!(p.name, "Ann");
    assert_eq!(p.email, "ann@x.io");
    assert_eq!(p.avatar, "https://p");
    assert_eq!(p.company, "x.io");
}

#[test]
fn google_claims_traps_and_errors() {
    let no_hd = google_auth::get_jwt(&jwt_with_claims(
        r#"{"sub":"1","name":"Ann","email":"ann@x.io","picture":"https://p"}"#,
    ))
    .unwrap();
    let p = google_auth::google_profile(&no_hd).unwrap();
    assert_eq!(p.company, "");
    assert_eq!(p.avatar, "https://p");
    let bare = google_auth::get_jwt(&jwt_with_claims(r#"{"sub":"77","email":"b@gmail.com"}"#)).unwrap();
    let p = google_auth::google_profile(&bare).unwrap();
    assert_eq!(p.user_id, 77);
    assert_eq!((p.name.as_str(), p.email.as_str(), p.avatar.as_str(), p.company.as_str()), ("", "b@gmail.com", "", ""));
    let nulls = google_auth::get_jwt(&jwt_with_claims(r#"{"sub":"1","email":"e","name":null,"hd":3}"#)).unwrap();
    let p = google_auth::google_profile(&nulls).unwrap();
    assert_eq!((p.name.as_str(), p.company.as_str()), ("", ""));
    let no_email = google_auth::get_jwt(&jwt_with_claims(r#"{"sub":"1","name":"A"}"#)).unwrap();
    assert_eq!(google_auth::google_profile(&no_email).unwrap_err(), TrapReason::GoogleMissingEmail);
    let bad_sub = google_auth::get_jwt(&jwt_with_claims(r#"{"sub":"12x"}"#)).unwrap();
    assert_eq!(
        google_auth::google_profile(&bad_sub).unwrap_err(),
        TrapReason::GoogleUserIdNotDecimal(DecimalError::InvalidDigit)
    );
    let numeric_sub = google_auth::get_jwt(&jwt_with_claims(r#"{"sub":12}"#)).unwrap();
    assert_eq!(google_auth::google_profile(&numeric_sub).unwrap_err(), TrapReason::GoogleUserIdNotText);
    let email_num = google_auth::get_jwt(&jwt_with_claims(r#"{"sub":"1","name":"A","email":1}"#)).unwrap();
    assert_eq!(google_auth::google_profile(&email_num).unwrap_err(), TrapReason::GoogleEmailNotText);
    match google_auth::get_jwt("only.two") {
        Err(AuthError::InvalidJwt(m)) => assert!(!m.is_empty()),
        other => panic!("unexpected {:?}", other),
    }
}

// ---------- signed payload ----------

#[test]
fn method_labels() {
    assert_eq!(AuthMethod::GitHub.to_string(), "github");
    assert_eq!(AuthMethod::Google.to_string(), "google");
}

#[test]
fn payload_is_packed_fields() {
    let bytes = signing_payload(1, "n", "e", "a", "c", AuthMethod::GitHub);
    assert_eq!(bytes, expected_payload(1, &["n", "e", "a", "c", "github"]));
    let max = signing_payload(u128::MAX, "", "é", "", "", AuthMethod::Google);
    let mut expected = vec![0u8; 16];
    expected.extend_from_slice(&[0xff; 16]);
    expected.extend_from_slice("é".as_bytes());
    expected.extend_from_slice(b"google");
    assert_eq!(max, expected);
}

#[test]
fn signing_hash_is_keccak_of_payload() {
    let profile = Profile {
        user_id: 7,
        name: "Ann".to_string(),
        email: "a@b".to_string(),
        avatar: "".to_string(),
        company: "Co".to_string(),
    };
    let hash = signing_hash(&profile, AuthMethod::Google);
    let payload = expected_payload(7, &["Ann", "a@b", "", "Co", "google"]);
    assert_eq!(hash, ic_web3_rs::signing::keccak256(&payload).to_vec());
    assert_eq!(hash.len(), 32);
    assert_eq!(
        hex::encode(ic_web3_rs::signing::keccak256(b"")),
        "c5d2460186f7233c927e7db2dcc703c0e500b653ca82273b7bfad8045d85a470"
    );
}

#[test]
fn response_hex_signature() {
    let r = AuthResponse::new(
        3,
        "n".to_string(),
        "e".to_string(),
        "a".to_string(),
        "c".to_string(),
        AuthMethod::GitHub,
        vec![0xab, 0x01, 0xff],
        28,
    );
    assert_eq!(r.signature, "ab01ff1c");
    assert_eq!(r.auth_method, "github");
    assert_eq!(r.user_id, 3);
    assert_eq!(r.company, "c");
}

#[test]
fn eth_v_rejects_bad_lengths() {
    assert_eq!(get_eth_v(&[0u8; 63], &[0u8; 32], &[0u8; 20]), Err(UtilsError::InvalidSignatureFormat));
    assert_eq!(get_eth_v(&[0u8; 64], &[0u8; 31], &[0u8; 20]), Err(UtilsError::InvalidSignatureFormat));
}

fn signer() -> (libsecp256k1::SecretKey, Vec<u8>) {
    let sk = libsecp256k1::SecretKey::parse(&[7u8; 32]).unwrap();
    let pk = libsecp256k1::PublicKey::from_secret_key(&sk).serialize();
    let address = ic_web3_rs::signing::keccak256(&pk[1..65])[12..].to_vec();
    (sk, address)
}

#[test]
fn eth_v_finds_recovery_byte() {
    let (sk, address) = signer();
    let hash = ic_web3_rs::signing::keccak256(b"message").to_vec();
    let (sig, rec) = libsecp256k1::sign(&libsecp256k1::Message::parse_slice(&hash).unwrap(), &sk);
    let v = get_eth_v(&sig.serialize(), &hash, &address).unwrap();
    assert_eq!(v, 27 + rec.serialize());
    assert_eq!(get_eth_v(&sig.serialize(), &hash, &[1u8; 20]), Err(UtilsError::InvalidSignatureFormat));
}

// ---------- the authentication flow ----------

const CANISTER_ID: [u8; 10] = [0, 0, 0, 0, 0, 0, 0, 1, 1, 1];

fn run(state: AuthFlow, event: AuthEvent) -> (AuthFlow, AuthAction) {
    step(&metadata(), &CANISTER_ID, state, event)
}

#[test]
fn refused_caller_sends_no_request() {
    let (next, action) = run(AuthFlow::new(AuthMethod::GitHub, "code".to_string()), AuthEvent::CallerChecked(false));
    assert!(matches!(action, AuthAction::Finish));
    match next {
        AuthFlow::Failed(e) => assert_eq!(e, CassandraError::UtilsError(UtilsError::NotAController)),
        other => panic!("unexpected {:?}", other),
    }
}

#[test]
fn github_flow_to_signed_response() {
    let (state, action) = run(AuthFlow::new(AuthMethod::GitHub, "the code".to_string()), AuthEvent::CallerChecked(true));
    match &action {
        AuthAction::SendHttp(req) => assert!(req.url.contains("code=the%20code")),
        other => panic!("unexpected {:?}", other),
    }
    let token = github_auth::TokenResponse {
        access_token: "tok".to_string(),
        token_type: "bearer".to_string(),
        scope: "".to_string(),
    };
    let (state, action) = run(state, AuthEvent::GithubTokenReply(Ok(Some(token))));
    match &action {
        AuthAction::SendHttp(req) => assert_eq!(req.headers[1].1, "Bearer tok"),
        other => panic!("unexpected {:?}", other),
    }
    let body = r#"{"id": 9, "name": "Bob", "email": null, "avatar_url": "av", "company": "Acme"}"#;
    let (state, action) = run(state, AuthEvent::UserInfoReply(Ok(body.to_string())));
    let hash = match action {
        AuthAction::SignWithEcdsa { message_hash, key_name, curve, derivation_path } => {
            assert_eq!(key_name, "key_1");
            assert_eq!(curve, EcdsaCurve::Secp256k1);
            assert_eq!(derivation_path, vec![CANISTER_ID.to_vec()]);
            message_hash
        }
        other => panic!("unexpected {:?}", other),
    };
    let payload = expected_payload(9, &["Bob", "", "av", "Acme", "github"]);
    assert_eq!(hash, ic_web3_rs::signing::keccak256(&payload).to_vec());
    let (sk, address) = signer();
    let (sig, rec) = libsecp256k1::sign(&libsecp256k1::Message::parse_slice(&hash).unwrap(), &sk);
    let sig = sig.serialize().to_vec();
    let (state, action) = run(state, AuthEvent::SignatureReply(Ok(sig.clone())));
    match &action {
        AuthAction::FetchEthAddress { key_name, derivation_path } => {
            assert_eq!(key_name, "key_1");
            assert_eq!(derivation_path, &vec![CANISTER_ID.to_vec()]);
        }
        other => panic!("unexpected {:?}", other),
    }
    let (state, action) = run(state, AuthEvent::AddressReply(Ok(address)));
    assert!(matches!(action, AuthAction::Finish));
    match state {
        AuthFlow::Done(r) => {
            assert_eq!(r.user_id, 9);
            assert_eq!(r.name, "Bob");
            assert_eq!(r.email, "");
            assert_eq!(r.avatar, "av");
            assert_eq!(r.company, "Acme");
            assert_eq!(r.auth_method, "github");
            let mut full = sig.clone();
            full.push(27 + rec.serialize());
            assert_eq!(r.signature, hex::encode(full));
        }
        other => panic!("unexpected {:?}", other),
    }
}

#[test]
fn google_flow_to_signing() {
    let (state, _) = run(AuthFlow::new(AuthMethod::Google, "c".to_string()), AuthEvent::CallerChecked(true));
    let token = google_auth::TokenResponse {
        access_token: "a".to_string(),
        expires_in: 3599,
        token_type: "Bearer".to_string(),
        scope: "openid".to_string(),
        id_token: jwt_with_claims(r#"{"sub":"5","name":"Ann","email":"ann@x.io","picture":"p","hd":"x.io"}"#),
        refresh_token: None,
    };
    let (state, action) = run(state, AuthEvent::GoogleTokenReply(Ok(Some(token))));
    let payload = expected_payload(5, &["Ann", "ann@x.io", "p", "x.io", "google"]);
    match action {
        AuthAction::SignWithEcdsa { message_hash, .. } => {
            assert_eq!(message_hash, ic_web3_rs::signing::keccak256(&payload).to_vec())
        }
        other => panic!("unexpected {:?}", other),
    }
    assert!(matches!(state, AuthFlow::AwaitingSignature { method: AuthMethod::Google, .. }));
}

#[test]
fn flow_failures() {
    let waiting = || AuthFlow::AwaitingToken { method: AuthMethod::GitHub };
    let (s, _) = run(waiting(), AuthEvent::GithubTokenReply(Err("timeout".to_string())));
    assert!(matches!(s, AuthFlow::Failed(CassandraError::AuthError(AuthError::HttpError(ref m))) if m == "timeout"));
    let (s, _) = run(waiting(), AuthEvent::GithubTokenReply(Ok(None)));
    assert!(matches!(s, AuthFlow::Failed(CassandraError::AuthError(AuthError::FailedToExchangeToken))));
    let (s, _) = run(AuthFlow::AwaitingUserInfo, AuthEvent::UserInfoReply(Ok("[1,".to_string())));
    assert!(matches!(s, AuthFlow::Failed(CassandraError::AuthError(AuthError::FailedToGetUserInfo(_)))));
    let (s, a) = run(AuthFlow::AwaitingUserInfo, AuthEvent::UserInfoReply(Ok("{}".to_string())));
    assert!(matches!(s, AuthFlow::Trapped(TrapReason::GithubMissingId)));
    assert!(matches!(a, AuthAction::Finish));
    let google = || AuthFlow::AwaitingToken { method: AuthMethod::Google };
    let bad = google_auth::TokenResponse {
        access_token: "a".to_string(),
        expires_in: 1,
        token_type: "t".to_string(),
        scope: "s".to_string(),
        id_token: "x.y".to_string(),
        refresh_token: Some("r".to_string()),
    };
    let (s, _) = run(google(), AuthEvent::GoogleTokenReply(Ok(Some(bad))));
    assert!(matches!(s, AuthFlow::Failed(CassandraError::AuthError(AuthError::InvalidJwt(_)))));
    let signing = || AuthFlow::AwaitingSignature {
        method: AuthMethod::GitHub,
        profile: Profile { user_id: 1, name: "".into(), email: "".into(), avatar: "".into(), company: "".into() },
        message_hash: vec![0u8; 32],
        key_name: "k".to_string(),
        derivation_path: vec![CANISTER_ID.to_vec()],
    };
    let (s, _) = run(signing(), AuthEvent::SignatureReply(Err("no cycles".to_string())));
    assert!(matches!(s, AuthFlow::Failed(CassandraError::AuthError(AuthError::FailedToSign(ref m))) if m == "no cycles"));
    let (s, a) = run(signing(), AuthEvent::CallerChecked(true));
    assert!(matches!(s, AuthFlow::AwaitingSignature { .. }));
    assert!(matches!(a, AuthAction::Nothing));
    let addressing = AuthFlow::AwaitingAddress {
        method: AuthMethod::GitHub,
        profile: Profile { user_id: 1, name: "".into(), email: "".into(), avatar: "".into(), company: "".into() },
        message_hash: vec![0u8; 32],
        key_name: "k".to_string(),
        signature: vec![1u8; 64],
    };
    let (s, _) = run(addressing, AuthEvent::AddressReply(Err("down".to_string())));
    assert!(matches!(
        s,
        AuthFlow::Failed(CassandraError::AuthError(AuthError::UtilsError(UtilsError::FailedtoGetCassandraEVMAddress(ref m)))) if m == "down"
    ));
}

#[test]
fn outcome_is_final() {
    let done = AuthFlow::Failed(CassandraError::UtilsError(UtilsError::NotAController));
    assert!(done.is_finished());
    let (s, a) = run(done, AuthEvent::CallerChecked(true));
    assert!(matches!(s, AuthFlow::Failed(CassandraError::UtilsError(UtilsError::NotAController))));
    assert!(matches!(a, AuthAction::Finish));
    assert!(!AuthFlow::AwaitingUserInfo.is_finished());
}

#[test]
fn json_scalar_kinds() {
    let s = JsonScalar::Text("x".to_string());
    assert_ne!(s, JsonScalar::Absent);
    assert_eq!(JsonScalar::Number(Some(1)), JsonScalar::Number(Some(1)));
}
