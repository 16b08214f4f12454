use zaps::auth::{authenticate, authenticate_token, bearer_token, resolve_identity, AuthRejection};

#[test]
fn bearer_header_gives_token() {
    assert_eq!(bearer_token(Some("Bearer abc.def")), Ok("abc.def"));
    assert_eq!(bearer_token(Some("Bearer ")), Ok(""));
}

#[test]
fn missing_or_malformed_header_is_rejected() {
    assert_eq!(bearer_token(None), Err(AuthRejection::MissingHeader));
    assert_eq!(bearer_token(Some("Basic abc")), Err(AuthRejection::InvalidFormat));
    assert_eq!(bearer_token(Some("bearer abc")), Err(AuthRejection::InvalidFormat));
    assert_eq!(bearer_token(Some("Bearer")), Err(AuthRejection::InvalidFormat));
    assert_eq!(AuthRejection::MissingHeader.message(), "Missing authorization header");
    assert_eq!(AuthRejection::InvalidFormat.message(), "Invalid authorization header format");
}

#[test]
fn mock_token_maps_to_development_user() {
    let id = resolve_identity("mock-jwt-token-string", Some("GIGNORED00000000000"));
    assert_eq!(id.username, "ebube.zaps");
    assert_eq!(id.address, "GABC1234EXAMPLESTELLARADDRESSXXXXXXXXXXXXXXXXXXXXXXXXXXXXXXX");
}

#[test]
fn verified_token_uses_subject() {
    let sub = "GDQP2KPQGKIHYJGXNUIYOMHARUARCA7DJT5FO2FFOOKY3B2WSQHG4W37";
    let id = resolve_identity("eyJ.payload.sig", Some(sub));
    assert_eq!(id.address, sub);
    assert_eq!(id.username, "u_DQP2KPQGKIHYJG");
}

#[test]
fn unverified_long_token_is_its_own_address() {
    let token = "0123456789abcdefghijklmnop";
    let id = resolve_identity(token, None);
    assert_eq!(id.address, token);
    assert_eq!(id.username, "u_123456789abcde");
}

#[test]
fn unverified_short_token_is_its_own_username() {
    let id = resolve_identity("short-token", None);
    assert_eq!(id.username, "short-token");
    assert_eq!(id.address, "short-token");
    // 20 bytes exactly is still short.
    let twenty = "abcdefghijklmnopqrst";
    assert_eq!(resolve_identity(twenty, None).username, twenty);
}

const SECRET: &[u8] = b"test-secret";
const SUBJECT: &str = "GDQP2KPQGKIHYJGXNUIYOMHARUARCA7DJT5FO2FFOOKY3B2WSQHG4W37";

fn signed_token(secret: &[u8], sub: &str) -> String {
    let mut claims = serde_json::Map::new();
    claims.insert(String::from("sub"), serde_json::Value::String(String::from(sub)));
    let exp = jsonwebtoken::get_current_timestamp() + 3600;
    claims.insert(String::from("exp"), serde_json::Value::from(exp));
    jsonwebtoken::encode(
        &jsonwebtoken::Header::default(),
        &serde_json::Value::Object(claims),
        &jsonwebtoken::EncodingKey::from_secret(secret),
    )
    .unwrap()
}

#[test]
fn authenticate_rejects_missing_or_malformed_header() {
    assert_eq!(authenticate(None, SECRET), Err(AuthRejection::MissingHeader));
    assert_eq!(authenticate(Some("Token abc"), SECRET), Err(AuthRejection::InvalidFormat));
}

#[test]
fn authenticate_gives_development_identity_for_mock_token() {
    let id = authenticate(Some("Bearer mock-jwt-token-string"), SECRET).unwrap();
    assert_eq!(id.username, "ebube.zaps");
    assert_eq!(id.address, "GABC1234EXAMPLESTELLARADDRESSXXXXXXXXXXXXXXXXXXXXXXXXXXXXXXX");
}

#[test]
fn authenticate_uses_subject_of_verified_token() {
    let header = format!("Bearer {}", signed_token(SECRET, SUBJECT));
    let id = authenticate(Some(&header), SECRET).unwrap();
    assert_eq!(id.address, SUBJECT);
    assert_eq!(id.username, format!("u_{}", &SUBJECT[1..15]));
}

#[test]
fn authenticate_treats_unverified_token_as_address() {
    let token = signed_token(b"another-secret", SUBJECT);
    let header = format!("Bearer {}", token);
    let id = authenticate(Some(&header), SECRET).unwrap();
    assert_eq!(id.address, token);
    assert_eq!(id.username, format!("u_{}", &token[1..15]));
    let short = authenticate(Some("Bearer short-token"), SECRET).unwrap();
    assert_eq!(short.address, "short-token");
    assert_eq!(short.username, "short-token");
}

#[test]
fn authenticate_refuses_identity_that_cannot_be_cut() {
    // A long token whose fifteenth byte falls inside a character.
    let token = format!("abcdefghijklmn{}xyzxyzxy", "é");
    assert_eq!(token.len(), 24);
    assert!(!token.is_char_boundary(15));
    let header = format!("Bearer {}", token);
    assert_eq!(authenticate(Some(&header), SECRET), Err(AuthRejection::UnusableIdentity));
    assert_eq!(
        AuthRejection::UnusableIdentity.message(),
        "Cannot derive a username from the token"
    );
}

#[test]
fn authenticate_token_answers_for_each_subject() {
    let id = authenticate_token("some.jwt.token", Some(SUBJECT)).unwrap();
    assert_eq!(id.address, SUBJECT);
    assert_eq!(id.username, format!("u_{}", &SUBJECT[1..15]));
    let mock = authenticate_token("mock-jwt-token-string", Some(SUBJECT)).unwrap();
    assert_eq!(mock.username, "ebube.zaps");
    let plain = authenticate_token("short-token", None).unwrap();
    assert_eq!(plain.username, "short-token");
    assert_eq!(authenticate_token("some.jwt.token", Some("GAB")), Err(AuthRejection::UnusableIdentity));
    let uncut = format!("abcdefghijklmn{}xyzxyzxy", "é");
    assert_eq!(authenticate_token(&uncut, None), Err(AuthRejection::UnusableIdentity));
}
