//! Signing the developer token.

use vstd::prelude::*;
use crate::config::{is_key_error, key_text, MusicKitConfig};
use crate::error::TokenError;
use crate::json::{append_decimal, append_quoted, decimal, quoted};
use base64::Engine;
use p256::pkcs8::DecodePrivateKey;
use p256::pkcs8::EncodePrivateKey;

verus! {

#[verifier::external_type_specification]
#[verifier::external_body]
pub struct ExEncodingKey(jsonwebtoken::EncodingKey);

/// Whether `s` is the PEM text of an unencrypted PKCS#8 P-256 private key,
/// that is, whether p256 parses it and re-encodes it as PKCS#8 DER.
pub uninterp spec fn is_p256_pkcs8_pem(s: Seq<char>) -> bool;

/// Relies on p256's `SigningKey::from_pkcs8_pem` (pkcs8's `DecodePrivateKey`),
/// whose success depends on the text alone, and on `to_pkcs8_der`
/// (`EncodePrivateKey`), which re-encodes the parsed key as PKCS#8 DER.
#[verifier::external_body]
fn pkcs8_der_from_pem(pem: &str) -> (r: Result<Vec<u8>, String>)
    ensures
        r is Ok <==> is_p256_pkcs8_pem(pem@),
{
    p256::ecdsa::SigningKey::from_pkcs8_pem(pem)
        .and_then(|k| k.to_pkcs8_der())
        .map(|d| d.as_bytes().to_vec())
        .map_err(|e| e.to_string())
}

/// Relies on `jsonwebtoken::EncodingKey::from_ec_der`: wraps DER key bytes.
#[verifier::external_body]
fn from_ec_der(der: &Vec<u8>) -> (r: jsonwebtoken::EncodingKey) {
    jsonwebtoken::EncodingKey::from_ec_der(der.as_slice())
}

/// Seconds in the token's lifetime: 180 days, the longest that the
/// authorization scheme permits.
pub const TOKEN_LIFETIME_SECS: i64 = 15552000;

pub open spec fn lifetime() -> int {
    TOKEN_LIFETIME_SECS as int
}

/// A character of the URL-safe base64 alphabet.
pub open spec fn is_b64url_char(c: char) -> bool {
    let u = c as u32;
    (65 <= u <= 90) || (97 <= u <= 122) || (48 <= u <= 57) || u == 45 || u == 95
}

pub open spec fn is_b64url(s: Seq<char>) -> bool {
    forall|i: int| 0 <= i < s.len() ==> is_b64url_char(#[trigger] s[i])
}

/// The unpadded URL-safe base64 encoding of the UTF-8 bytes of `s`.
pub uninterp spec fn base64url_of(s: Seq<char>) -> Seq<char>;

/// Relies on base64's `URL_SAFE_NO_PAD` engine: the unpadded encoding of the
/// text's UTF-8 bytes, written in the URL-safe alphabet alone; non-empty
/// text gives non-empty output.
#[verifier::external_body]
fn base64url(s: &str) -> (r: String)
    ensures
        r@ == base64url_of(s@),
        is_b64url(r@),
        s@.len() > 0 ==> r@.len() > 0,
{
    base64::engine::general_purpose::URL_SAFE_NO_PAD.encode(s.as_bytes())
}

/// Relies on `jsonwebtoken::crypto::sign` with `Algorithm::ES256`: an ECDSA
/// P-256 / SHA-256 signature of the message, with a random nonce, which it
/// returns in unpadded URL-safe base64. ES256 uses ring's fixed-size
/// encoding: 64 bytes (r and s), hence 86 characters.
#[verifier::external_body]
fn sign_es256(message: &str, key: &jsonwebtoken::EncodingKey) -> (r: Result<String, String>)
    ensures
        r matches Ok(sig) ==> is_b64url(sig@) && sig@.len() == 86,
{
    jsonwebtoken::crypto::sign(message.as_bytes(), key, jsonwebtoken::Algorithm::ES256)
        .map_err(|e| e.to_string())
}

/// Relies on std's `SystemTime::now().duration_since(UNIX_EPOCH)`: the
/// system clock in whole seconds, `Ok` when it reads at or after the Unix
/// epoch and `Err` with the distance when it reads before. It does not panic
/// either way.
#[verifier::external_body]
fn clock_seconds() -> (r: Result<u64, u64>) {
    match std::time::SystemTime::now().duration_since(std::time::UNIX_EPOCH) {
        Ok(d) => Ok(d.as_secs()),
        Err(e) => Err(e.duration().as_secs()),
    }
}

/// The issue time for a clock reading: seconds after the epoch (`Ok`) or
/// before it (`Err`) as a signed count, when that fits in an `i64`.
pub fn issue_time(clock: Result<u64, u64>) -> (r: Option<i64>)
    ensures
        clock matches Ok(s) ==> (if s <= i64::MAX {
            r == Some(s as i64)
        } else {
            r is None
        }),
        clock matches Err(s) ==> (if s <= i64::MAX {
            r == Some(-(s as int) as i64)
        } else {
            r is None
        }),
{
    match clock {
        Ok(s) => if s <= i64::MAX as u64 {
            Some(s as i64)
        } else {
            None
        },
        Err(s) => if s <= i64::MAX as u64 {
            Some(0 - s as i64)
        } else {
            None
        },
    }
}

/// The token header: ES256 and the key identifier.
pub open spec fn header_text(kid: Seq<char>) -> Seq<char> {
    "{\"alg\":\"ES256\",\"kid\":"@ + quoted(kid) + "}"@
}

/// The claims: issuer, issued-at and expiry.
pub open spec fn claims_text(iss: Seq<char>, iat: int, exp: int) -> Seq<char> {
    "{\"iss\":"@ + quoted(iss) + ",\"iat\":"@ + decimal(iat) + ",\"exp\":"@ + decimal(exp) + "}"@
}

/// The signed part of a token issued at `iat`: encoded header, a dot, and the
/// encoded claims, which expire one lifetime after `iat`.
pub open spec fn signing_input_text(kid: Seq<char>, iss: Seq<char>, iat: int) -> Seq<char> {
    base64url_of(header_text(kid)) + seq!['.'] + base64url_of(
        claims_text(iss, iat, iat + lifetime()),
    )
}

/// `t` is a compact token for `kid` and `iss` issued at `iat`: the signing
/// input, a dot, and a signature in URL-safe base64.
pub open spec fn is_token_for(t: Seq<char>, kid: Seq<char>, iss: Seq<char>, iat: int) -> bool {
    &&& is_b64url(base64url_of(header_text(kid)))
    &&& is_b64url(base64url_of(claims_text(iss, iat, iat + lifetime())))
    &&& base64url_of(header_text(kid)).len() > 0
    &&& base64url_of(claims_text(iss, iat, iat + lifetime())).len() > 0
    &&& exists|sig: Seq<char>|
        is_b64url(sig) && sig.len() == 86 && t == signing_input_text(kid, iss, iat) + seq!['.'] + sig
}

/// The JWT claims of a developer token.
#[derive(Debug, Clone)]
pub struct Claims {
    /// Issuer: the team identifier.
    pub iss: String,
    /// Issued at, in seconds since the Unix epoch.
    pub iat: i64,
    /// Expiry, in seconds since the Unix epoch.
    pub exp: i64,
}

impl Claims {
    /// Claims for `iss` issued at `iat`, valid for one lifetime.
    pub fn new(iss: &str, iat: i64) -> (r: Claims)
        requires
            iat + lifetime() <= i64::MAX,
        ensures
            r.iss@ == iss@,
            r.iat == iat,
            r.exp == iat + lifetime(),
    {
        Claims { iss: iss.to_owned(), iat, exp: iat + TOKEN_LIFETIME_SECS }
    }

    /// The claims as compact JSON.
    pub fn to_json(&self) -> (r: String)
        ensures
            r@ == claims_text(self.iss@, self.iat as int, self.exp as int),
    {
        let mut out = String::from_str("{\"iss\":");
        append_quoted(&mut out, self.iss.as_str());
        out.append(",\"iat\":");
        append_decimal(&mut out, self.iat);
        out.append(",\"exp\":");
        append_decimal(&mut out, self.exp);
        out.append("}");
        out
    }
}

/// The token header as compact JSON.
pub fn header_json(kid: &str) -> (r: String)
    ensures
        r@ == header_text(kid@),
{
    let mut out = String::from_str("{\"alg\":\"ES256\",\"kid\":");
    append_quoted(&mut out, kid);
    out.append("}");
    out
}

/// The part of the token that the signature covers.
pub fn signing_input(kid: &str, iss: &str, iat: i64) -> (r: String)
    requires
        iat + lifetime() <= i64::MAX,
    ensures
        r@ == signing_input_text(kid@, iss@, iat as int),
        is_b64url(base64url_of(header_text(kid@))),
        is_b64url(base64url_of(claims_text(iss@, iat as int, iat + lifetime()))),
        base64url_of(header_text(kid@)).len() > 0,
        base64url_of(claims_text(iss@, iat as int, iat + lifetime())).len() > 0,
{
    let header = header_json(kid);
    let claims = Claims::new(iss, iat).to_json();
    proof {
        reveal_strlit("{\"alg\":\"ES256\",\"kid\":");
        reveal_strlit("{\"iss\":");
    }
    let mut out = base64url(header.as_str());
    out.append(".");
    let encoded_claims = base64url(claims.as_str());
    out.append(encoded_claims.as_str());
    proof {
        reveal_strlit(".");
    }
    assert(out@ =~= signing_input_text(kid@, iss@, iat as int));
    out
}

/// Parses the PEM text of a PKCS#8 P-256 private key into a signing key.
fn parse_private_key(pem: &str) -> (r: Result<jsonwebtoken::EncodingKey, TokenError>)
    ensures
        !is_p256_pkcs8_pem(pem@) ==> r is Err,
        is_p256_pkcs8_pem(pem@) ==> r is Ok,
        r matches Err(e) ==> e is InvalidKey,
{
    match pkcs8_der_from_pem(pem) {
        Ok(der) => Ok(from_ec_der(&der)),
        Err(m) => Err(TokenError::InvalidKey(m)),
    }
}

/// The error detail when the expiry of a token issued at the given time
/// would not fit in an `i64`.
pub open spec fn time_range_error() -> Seq<char> {
    "issue time out of range"@
}

/// Signs a token for `config` with `key`, issued at `iat`. The signature is
/// randomised, so only its form is fixed here.
pub fn build_token(config: &MusicKitConfig, key: &jsonwebtoken::EncodingKey, iat: i64) -> (r:
    Result<String, TokenError>)
    ensures
        r matches Ok(t) ==> is_token_for(t@, config.key_id@, config.team_id@, iat as int),
        r matches Err(e) ==> e is EncodingError,
        iat + lifetime() > i64::MAX ==> (r matches Err(TokenError::EncodingError(m)) && m@
            == time_range_error()),
{
    if iat > i64::MAX - TOKEN_LIFETIME_SECS {
        return Err(TokenError::EncodingError(String::from_str("issue time out of range")));
    }
    let input = signing_input(config.key_id.as_str(), config.team_id.as_str(), iat);
    let signature = sign_es256(input.as_str(), key);
    finish_token(input, signature)
}

/// Joins the signing input and the outcome of signing it into a token: the
/// input, a dot and the signature, or the signing error.
pub fn finish_token(input: String, signature: Result<String, String>) -> (r: Result<
    String,
    TokenError,
>)
    ensures
        signature matches Ok(sig) ==> (r matches Ok(t) && t@ == input@ + seq!['.'] + sig@),
        signature matches Err(m) ==> (r matches Err(TokenError::EncodingError(e)) && e@ == m@),
{
    match signature {
        Ok(sig) => {
            let mut token = input;
            token.append(".");
            token.append(sig.as_str());
            proof {
                reveal_strlit(".");
            }
            assert(token@ =~= input@ + seq!['.'] + sig@);
            Ok(token)
        },
        Err(m) => Err(TokenError::EncodingError(m)),
    }
}

/// Generates a developer token for `config`, issued now. `key_file` is what
/// the caller read at `config.key_file_path()`, if anything.
pub fn generate_developer_token(
    config: &MusicKitConfig,
    key_file: Option<Result<String, String>>,
) -> (r: Result<String, TokenError>)
    ensures
        key_text(*config, key_file) is None ==> (r matches Err(e) && is_key_error(*config, key_file, e)),
        key_text(*config, key_file) matches Some(k) && !is_p256_pkcs8_pem(k) ==> r matches Err(
            TokenError::InvalidKey(_),
        ),
        r matches Err(TokenError::InvalidKey(_)) ==> (key_text(*config, key_file) matches Some(k)
            && !is_p256_pkcs8_pem(k)),
        r matches Err(e) && (e is KeyNotFound || e is KeyReadError || e is ConfigMissing) ==> key_text(
            *config,
            key_file,
        ) is None,
        r matches Ok(t) ==> exists|iat: int| is_token_for(t@, config.key_id@, config.team_id@, iat),
{
    let pem = match config.get_private_key(key_file) {
        Ok(p) => p,
        Err(e) => {
            return Err(e);
        },
    };
    let key = match parse_private_key(pem.as_str()) {
        Ok(k) => k,
        Err(e) => {
            return Err(e);
        },
    };
    match issue_time(clock_seconds()) {
        Some(iat) => build_token(config, &key, iat),
        None => Err(TokenError::EncodingError(String::from_str("clock reading out of range"))),
    }
}

/// The placeholder token's text.
pub open spec fn demo_token_text() -> Seq<char> {
    "DEMO_TOKEN_REPLACE_WITH_REAL_TOKEN"@
}

/// A recognisably non-functional stand-in token, for when no usable
/// credential is configured.
pub fn generate_demo_token() -> (r: String)
    ensures
        r@ == demo_token_text(),
{
    String::from_str("DEMO_TOKEN_REPLACE_WITH_REAL_TOKEN")
}

/// The text before the first dot (all of `t` when there is none).
pub open spec fn first_segment(t: Seq<char>) -> Seq<char>
    decreases t.len(),
{
    if t.len() == 0 || t[0] == '.' {
        Seq::empty()
    } else {
        seq![t[0]] + first_segment(t.drop_first())
    }
}

/// The text after the first dot (empty when there is none).
pub open spec fn after_first_dot(t: Seq<char>) -> Seq<char>
    decreases t.len(),
{
    if t.len() == 0 {
        Seq::empty()
    } else if t[0] == '.' {
        t.drop_first()
    } else {
        after_first_dot(t.drop_first())
    }
}

proof fn lemma_split_at_dot(a: Seq<char>, b: Seq<char>)
    requires
        is_b64url(a),
    ensures
        first_segment(a + seq!['.'] + b) == a,
        after_first_dot(a + seq!['.'] + b) == b,
    decreases a.len(),
{
    let t = a + seq!['.'] + b;
    if a.len() == 0 {
        assert(t.drop_first() =~= b);
    } else {
        assert(is_b64url_char(a[0]));
        assert(t[0] == a[0]);
        let rest = a.drop_first();
        assert(is_b64url(rest)) by {
            assert forall|i: int| 0 <= i < rest.len() implies is_b64url_char(#[trigger] rest[i]) by {
                assert(rest[i] == a[i + 1]);
            }
        }
        assert(t.drop_first() =~= rest + seq!['.'] + b);
        lemma_split_at_dot(rest, b);
        assert(seq![a[0]] + rest =~= a);
    }
}

/// A signed token's first segment is the encoded header, which names ES256
/// as the algorithm and carries the key identifier.
pub proof fn lemma_token_header(t: Seq<char>, kid: Seq<char>, iss: Seq<char>, iat: int)
    requires
        is_token_for(t, kid, iss, iat),
    ensures
        first_segment(t) == base64url_of(header_text(kid)),
        header_text(kid) == "{\"alg\":\"ES256\",\"kid\":"@ + quoted(kid) + "}"@,
{
    let sig = choose|sig: Seq<char>|
        is_b64url(sig) && sig.len() == 86 && t == signing_input_text(kid, iss, iat) + seq!['.']
            + sig;
    let h = base64url_of(header_text(kid));
    let c = base64url_of(claims_text(iss, iat, iat + lifetime()));
    assert(t =~= h + seq!['.'] + (c + seq!['.'] + sig));
    lemma_split_at_dot(h, c + seq!['.'] + sig);
}

/// A signed token has three non-empty segments: the encoded header, the
/// encoded claims, whose issuer is `iss` and whose expiry lies exactly 180
/// days after the issue time, and the 86-character signature.
pub proof fn lemma_token_claims(t: Seq<char>, kid: Seq<char>, iss: Seq<char>, iat: int)
    requires
        is_token_for(t, kid, iss, iat),
    ensures
        first_segment(after_first_dot(t)) == base64url_of(
            claims_text(iss, iat, iat + 180 * 24 * 60 * 60),
        ),
        claims_text(iss, iat, iat + 180 * 24 * 60 * 60) == "{\"iss\":"@ + quoted(iss) + ",\"iat\":"@
            + decimal(iat) + ",\"exp\":"@ + decimal(iat + 180 * 24 * 60 * 60) + "}"@,
        is_b64url(after_first_dot(after_first_dot(t))),
        first_segment(after_first_dot(after_first_dot(t))) == after_first_dot(
            after_first_dot(t),
        ),
        after_first_dot(after_first_dot(t)).len() == 86,
        first_segment(t).len() > 0,
        first_segment(after_first_dot(t)).len() > 0,
{
    let sig = choose|sig: Seq<char>|
        is_b64url(sig) && sig.len() == 86 && t == signing_input_text(kid, iss, iat) + seq!['.']
            + sig;
    let h = base64url_of(header_text(kid));
    let c = base64url_of(claims_text(iss, iat, iat + lifetime()));
    assert(t =~= h + seq!['.'] + (c + seq!['.'] + sig));
    lemma_split_at_dot(h, c + seq!['.'] + sig);
    lemma_split_at_dot(c, sig);
    lemma_no_dot_segment(sig);
}

proof fn lemma_no_dot_segment(s: Seq<char>)
    requires
        is_b64url(s),
    ensures
        first_segment(s) == s,
    decreases s.len(),
{
    if s.len() > 0 {
        assert(is_b64url_char(s[0]));
        let rest = s.drop_first();
        assert(is_b64url(rest)) by {
            assert forall|i: int| 0 <= i < rest.len() implies is_b64url_char(#[trigger] rest[i]) by {
                assert(rest[i] == s[i + 1]);
            }
        }
        lemma_no_dot_segment(rest);
        assert(seq![s[0]] + rest =~= s);
    }
}

/// The placeholder is one fixed text: any two placeholders are equal.
pub proof fn lemma_placeholder_constant(a: String, b: String)
    requires
        a@ == demo_token_text(),
        b@ == demo_token_text(),
    ensures
        a@ == b@,
        a@.len() > 0,
{
    reveal_strlit("DEMO_TOKEN_REPLACE_WITH_REAL_TOKEN");
}

} // verus!
