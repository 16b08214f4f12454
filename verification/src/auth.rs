//! Authentication of API requests: reading the bearer token of the
//! `Authorization` header and deriving the identity (username and address)
//! under which the caller is registered.
//!
//! A token other than the development token is verified as a JSON Web Token
//! under the server's secret; whether it verifies depends on the current time
//! too, so [`authenticate`] is specified for every outcome of that check.
use crate::text::{owned, text_is};
use vstd::prelude::*;
use vstd::string::{StrSliceExecFns, StringExecFns};
use vstd::utf8::{decode_utf8, encode_utf8, is_char_boundary};

verus! {

/// Why a request is not authenticated.
#[derive(Clone, Copy, PartialEq, Eq, Structural, Debug)]
pub enum AuthRejection {
    /// No (readable) `Authorization` header.
    MissingHeader,
    /// The header does not start with `Bearer `.
    InvalidFormat,
    /// No username can be made from the token's subject (or from the token):
    /// it does not cut at bytes 1 and 15.
    UnusableIdentity,
}

impl AuthRejection {
    /// The error message sent back with the rejection.
    pub open spec fn spec_message(self) -> Seq<char> {
        match self {
            AuthRejection::MissingHeader => "Missing authorization header"@,
            AuthRejection::InvalidFormat => "Invalid authorization header format"@,
            AuthRejection::UnusableIdentity => "Cannot derive a username from the token"@,
        }
    }

    /// The error message sent back with the rejection.
    pub fn message(&self) -> (r: String)
        ensures
            r@ == self.spec_message(),
    {
        match self {
            AuthRejection::MissingHeader => owned("Missing authorization header"),
            AuthRejection::InvalidFormat => owned("Invalid authorization header format"),
            AuthRejection::UnusableIdentity => owned("Cannot derive a username from the token"),
        }
    }
}

/// Whether `header` starts with `Bearer `.
pub open spec fn is_bearer(header: Seq<char>) -> bool {
    header.len() >= 7 && header.subrange(0, 7) == "Bearer "@
}

/// The token of an `Authorization` header: what follows `Bearer `.
pub fn bearer_token(header: Option<&str>) -> (r: Result<&str, AuthRejection>)
    ensures
        match header {
            None => r == Err::<&str, AuthRejection>(AuthRejection::MissingHeader),
            Some(h) => if is_bearer(h@) {
                r matches Ok(t) && t@ == h@.subrange(7, h@.len() as int)
            } else {
                r == Err::<&str, AuthRejection>(AuthRejection::InvalidFormat)
            },
        },
{
    match header {
        None => Err(AuthRejection::MissingHeader),
        Some(h) => {
            let n = h.unicode_len();
            if n >= 7 {
                let prefix = h.substring_char(0, 7);
                if text_is(prefix, "Bearer ") {
                    return Ok(h.substring_char(7, n));
                }
            }
            Err(AuthRejection::InvalidFormat)
        },
    }
}

/// The token accepted in place of a signed one during development.
pub open spec fn mock_token() -> Seq<char> {
    "mock-jwt-token-string"@
}

/// Whether the UTF-8 encoding of `s` is at least 15 bytes long and can be
/// cut after its first and its fifteenth byte.
pub open spec fn cuttable_at_1_and_15(s: Seq<char>) -> bool {
    let b = encode_utf8(s);
    &&& 15 <= b.len()
    &&& is_char_boundary(b, 1)
    &&& is_char_boundary(b, 15)
}

/// `u_` followed by bytes 1 to 14 of the UTF-8 encoding of `s`.
pub open spec fn short_username(s: Seq<char>) -> Seq<char> {
    "u_"@ + decode_utf8(encode_utf8(s).subrange(1, 15))
}

/// Username and address under which the caller is registered, given the
/// token and, when the token is a JSON Web Token that verifies, its subject:
/// the fixed development identity for the mock token; the subject as
/// address with a username made from bytes 1 to 14 of it; otherwise the
/// token itself as address, and as username too unless it is longer than 20
/// bytes, in which case the username is made from bytes 1 to 14 of it.
pub open spec fn identity(token: Seq<char>, subject: Option<Seq<char>>) -> (Seq<char>, Seq<char>) {
    if token == mock_token() {
        ("ebube.zaps"@, "GABC1234EXAMPLESTELLARADDRESSXXXXXXXXXXXXXXXXXXXXXXXXXXXXXXX"@)
    } else {
        match subject {
            Some(sub) => (short_username(sub), sub),
            None => if encode_utf8(token).len() > 20 {
                (short_username(token), token)
            } else {
                (token, token)
            },
        }
    }
}

/// The inputs on which deriving the identity can cut the text it needs
/// (elsewhere the derivation aborts).
pub open spec fn identity_defined(token: Seq<char>, subject: Option<Seq<char>>) -> bool {
    token != mock_token() ==> match subject {
        Some(sub) => cuttable_at_1_and_15(sub),
        None => encode_utf8(token).len() > 20 ==> cuttable_at_1_and_15(token),
    }
}

/// The text of an optional string slice.
pub open spec fn text_view(o: Option<&str>) -> Option<Seq<char>> {
    match o {
        Some(s) => Some(s@),
        None => None,
    }
}

/// The identity a request is registered under.
#[derive(Clone, PartialEq, Eq, Debug)]
pub struct AuthIdentity {
    pub username: String,
    pub address: String,
}

/// Bytes 1 to 14 of `s`.
fn cut_1_to_15(s: &str) -> (r: &str)
    requires
        cuttable_at_1_and_15(s@),
    ensures
        r@ == decode_utf8(encode_utf8(s@).subrange(1, 15)),
{
    broadcast use vstd::utf8::group_utf8_lib;

    let (head, _) = s.split_at(15);
    proof {
        let b = encode_utf8(s@);
        vstd::utf8::valid_utf8_split(b, 15);
        vstd::utf8::is_char_boundary_iff_not_is_continuation_byte(b, 1);
        vstd::utf8::is_char_boundary_iff_not_is_continuation_byte(encode_utf8(head@), 1);
    }
    let (_, mid) = head.split_at(1);
    proof {
        vstd::utf8::encode_utf8_decode_utf8(mid@);
        assert(encode_utf8(mid@) =~= encode_utf8(s@).subrange(1, 15));
    }
    mid
}

/// `u_` followed by bytes 1 to 14 of `s`.
fn short_name(s: &str) -> (r: String)
    requires
        cuttable_at_1_and_15(s@),
    ensures
        r@ == short_username(s@),
{
    let mut name = owned("u_");
    name.append(cut_1_to_15(s));
    name
}

/// The identity a request carrying `token` is registered under, where
/// `jwt_subject` is the subject of the token when it verifies as a JSON Web Token.
pub fn resolve_identity(token: &str, jwt_subject: Option<&str>) -> (r: AuthIdentity)
    requires
        identity_defined(token@, text_view(jwt_subject)),
    ensures
        (r.username@, r.address@) == identity(token@, text_view(jwt_subject)),
{
    if text_is(token, "mock-jwt-token-string") {
        return AuthIdentity {
            username: owned("ebube.zaps"),
            address: owned("GABC1234EXAMPLESTELLARADDRESSXXXXXXXXXXXXXXXXXXXXXXXXXXXXXXX"),
        };
    }
    match jwt_subject {
        Some(sub) => AuthIdentity { username: short_name(sub), address: owned(sub) },
        None => {
            if token.as_bytes().len() > 20 {
                AuthIdentity { username: short_name(token), address: owned(token) }
            } else {
                AuthIdentity { username: owned(token), address: owned(token) }
            }
        },
    }
}

/// The subject of `token` as `jsonwebtoken::decode` gives it, under an HMAC
/// key made from `secret` and the default validation, at a time when the
/// token has not expired: the string claim `sub` when the token has an HS256
/// header, a valid signature and JSON claims that carry an `exp` claim and no
/// `aud` claim; `None` otherwise.
pub uninterp spec fn jwt_unexpired_subject(token: Seq<char>, secret: Seq<u8>) -> Option<Seq<char>>;

/// Calls `jsonwebtoken::decode` on `token` with an HMAC key made from
/// `secret` (`DecodingKey::from_secret`) and the default validation (HS256,
/// expiry checked against the system clock), decoding the claims as a JSON
/// value, and gives the claim `sub` when it is a string.  Trusted: a subject
/// it gives is the one named by `jwt_unexpired_subject`.  When it gives
/// `None`, the token either has no such subject or has expired; which of the
/// two depends on the current time and is left unsaid.  The crate's clock
/// reading panics only when the system clock is set before 1970.
#[verifier::external_body]
fn decode_jwt_subject(token: &str, secret: &[u8]) -> (r: Option<String>)
    ensures
        r matches Some(sub) ==> jwt_unexpired_subject(token@, secret@) == Some(sub@),
{
    let key = jsonwebtoken::DecodingKey::from_secret(secret);
    let validation = jsonwebtoken::Validation::default();
    match jsonwebtoken::decode::<serde_json::Value>(token, &key, &validation) {
        Ok(data) => match data.claims {
            serde_json::Value::Object(mut claims) => match claims.remove("sub") {
                Some(serde_json::Value::String(sub)) => Some(sub),
                _ => None,
            },
            _ => None,
        },
        Err(_) => None,
    }
}

/// Whether bytes 1 to 14 of `s` can be cut out of it.
fn can_cut_1_to_15(s: &str) -> (r: bool)
    ensures
        r == cuttable_at_1_and_15(s@),
{
    s.as_bytes().len() >= 15 && s.is_char_boundary(1) && s.is_char_boundary(15)
}

/// How a request carrying `token` is answered when the token's subject, as
/// the verification gave it, is `subject`: the identity, or
/// `UnusableIdentity` where no username can be made.
pub open spec fn auth_outcome(
    token: Seq<char>,
    subject: Option<Seq<char>>,
    r: Result<AuthIdentity, AuthRejection>,
) -> bool {
    if identity_defined(token, subject) {
        r matches Ok(id) && (id.username@, id.address@) == identity(token, subject)
    } else {
        r == Err::<AuthIdentity, AuthRejection>(AuthRejection::UnusableIdentity)
    }
}

/// The answer to a request carrying `token`, given the token's verified
/// subject (`None` when it did not verify): the identity, or
/// `UnusableIdentity` where no username can be made.
pub fn authenticate_token(token: &str, subject: Option<&str>) -> (r: Result<
    AuthIdentity,
    AuthRejection,
>)
    ensures
        auth_outcome(token@, text_view(subject), r),
{
    if text_is(token, "mock-jwt-token-string") {
        return Ok(resolve_identity(token, subject));
    }
    let usable = match subject {
        Some(s) => can_cut_1_to_15(s),
        None => token.as_bytes().len() <= 20 || can_cut_1_to_15(token),
    };
    if !usable {
        return Err(AuthRejection::UnusableIdentity);
    }
    Ok(resolve_identity(token, subject))
}

/// Authenticate a request from its `Authorization` header, verifying a
/// token other than the development token under `secret`.  The header must
/// be present and start with `Bearer `; the development token always gives
/// the development identity; any other token is answered as `auth_outcome`
/// says, either for its subject as `jwt_unexpired_subject` names it or, when
/// the token did not verify (an expired token among them), for no subject.
pub fn authenticate(header: Option<&str>, secret: &[u8]) -> (r: Result<
    AuthIdentity,
    AuthRejection,
>)
    ensures
        match header {
            None => r == Err::<AuthIdentity, AuthRejection>(AuthRejection::MissingHeader),
            Some(h) => if !is_bearer(h@) {
                r == Err::<AuthIdentity, AuthRejection>(AuthRejection::InvalidFormat)
            } else {
                let token = h@.subrange(7, h@.len() as int);
                &&& token == mock_token() ==> auth_outcome(token, None, r)
                &&& exists|s: Option<Seq<char>>|
                    (s is None || s == jwt_unexpired_subject(token, secret@))
                        && #[trigger] auth_outcome(token, s, r)
            },
        },
{
    let token = match bearer_token(header) {
        Ok(t) => t,
        Err(e) => return Err(e),
    };
    if text_is(token, "mock-jwt-token-string") {
        let r = authenticate_token(token, None);
        assert(auth_outcome(token@, None, r));
        return r;
    }
    let subject = decode_jwt_subject(token, secret);
    let sub: Option<&str> = match &subject {
        Some(s) => Some(s.as_str()),
        None => None,
    };
    let r = authenticate_token(token, sub);
    assert(auth_outcome(token@, text_view(sub), r));
    r
}

} // verus!
