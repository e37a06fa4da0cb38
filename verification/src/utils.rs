use vstd::prelude::*;
use rsa::pkcs8::DecodePrivateKey;
use rsa::sha2::Digest;
use crate::canonical::{
    auth_header_chars, build_canonical_request, canonical_request_chars,
};
use crate::errors::{RPayError, RPayResult};
use crate::common::HttpMethod;
use crate::numfmt::{
    i64_to_dec_string, is_hex_digit_char, lemma_hex_pad_chars_digits, u128_to_hex32,
};
use crate::pay::config::WechatV3PayConfig;

verus! {

/// What the standard base64 alphabet (with padding) makes of a byte string.
pub uninterp spec fn base64_chars(b: Seq<u8>) -> Seq<char>;

/// What standard base64 decoding makes of a character string; `None` where
/// the text is not valid base64.
pub uninterp spec fn base64_decoded(s: Seq<char>) -> Option<Seq<u8>>;

/// Whether a text parses as a PKCS#8 PEM RSA private key.
pub uninterp spec fn pkcs8_key_parses(pem: Seq<char>) -> bool;

/// The RSA PKCS#1 v1.5 signature over the SHA-256 digest of a message, under
/// the private key written as PKCS#8 PEM text. The scheme is deterministic:
/// the signature is a function of the key text and the message alone.
pub uninterp spec fn rsa_sha256_signature(pem: Seq<char>, msg: Seq<u8>) -> Seq<u8>;

/// Whether PKCS#1 v1.5 signing over a SHA-256 digest succeeds under the key:
/// the padded digest must fit the key's modulus, so, the message playing no
/// part, this is a function of the key text alone.
pub uninterp spec fn rsa_sign_ok(pem: Seq<char>) -> bool;

/// Relies on base64's `general_purpose::STANDARD` engine: the encoding is a
/// function of the bytes alone, its length is `4 * ceil(n / 3)`, and decoding
/// with the same engine inverts it.
#[verifier::external_body]
pub fn base64_encode(content: &[u8]) -> (r: String)
    ensures
        r@ == base64_chars(content@),
        r@.len() == 4 * ((content@.len() + 2) / 3),
        base64_decoded(r@) == Some(content@),
{
    base64::Engine::encode(&base64::engine::general_purpose::STANDARD, content)
}

#[verifier::external_type_specification]
#[verifier::external_body]
pub struct ExDecodeError(base64::DecodeError);

/// Relies on base64's `general_purpose::STANDARD` engine: decoding is a
/// function of the text alone, and fails exactly on text that is not valid
/// padded standard base64.
#[verifier::external_body]
pub fn base64_decode(content: &str) -> (r: Result<Vec<u8>, base64::DecodeError>)
    ensures
        r is Ok <==> base64_decoded(content@) is Some,
        r matches Ok(v) ==> Some(v@) == base64_decoded(content@),
{
    base64::Engine::decode(&base64::engine::general_purpose::STANDARD, content)
}

/// Which stage of the raw signing operation failed.
enum SignFailure {
    /// The private key text did not parse.
    Key,
    /// The signing primitive itself refused the operation.
    Backend,
}

/// Relies on rsa's `RsaPrivateKey::from_pkcs8_pem`, `sha2::Sha256` and
/// `Pkcs1v15Sign`: parsing is a function of the key text; signing is called
/// without an RNG, so no blinding is used and the signature is a
/// deterministic function of the key text and the message; and the one way
/// signing itself can fail for a SHA-256 digest is a padded digest that does
/// not fit the key's modulus, a property of the key alone.
#[verifier::external_body]
fn rsa_pkcs1_sha256_sign(private_key: &str, content: &[u8]) -> (r: Result<
    Vec<u8>,
    SignFailure,
>)
    ensures
        r is Ok <==> (pkcs8_key_parses(private_key@) && rsa_sign_ok(private_key@)),
        r matches Ok(sig) ==> sig@ == rsa_sha256_signature(private_key@, content@),
        (r matches Err(SignFailure::Key)) <==> !pkcs8_key_parses(private_key@),
{
    let key = match rsa::RsaPrivateKey::from_pkcs8_pem(private_key) {
        Ok(k) => k,
        Err(_) => return Err(SignFailure::Key),
    };
    let digest = rsa::sha2::Sha256::new().chain_update(content).finalize();
    let padding = rsa::Pkcs1v15Sign::new::<rsa::sha2::Sha256>();
    match key.sign(padding, &digest) {
        Ok(sig) => Ok(sig),
        Err(_) => Err(SignFailure::Backend),
    }
}

/// Signs `content` with the private key: SHA-256 digest, RSA PKCS#1 v1.5
/// padding, base64-encoded result. The key text and the content are never
/// logged.
pub fn sha256_sign(private_key: String, content: String) -> (r: Result<String, RPayError>)
    ensures
        r is Ok <==> (pkcs8_key_parses(private_key@) && rsa_sign_ok(private_key@)),
        r matches Ok(s) ==> s@ == base64_chars(
            rsa_sha256_signature(private_key@, vstd::utf8::encode_utf8(content@)),
        ),
        (r matches Err(RPayError::KeyError(_))) <==> !pkcs8_key_parses(private_key@),
        r matches Err(e) ==> (e is KeyError || e is SignError),
{
    match rsa_pkcs1_sha256_sign(private_key.as_str(), content.as_str().as_bytes()) {
        Ok(sig) => Ok(base64_encode(sig.as_slice())),
        Err(SignFailure::Key) => Err(
            RPayError::KeyError(String::from_str("the private key is not valid PKCS#8 PEM")),
        ),
        Err(SignFailure::Backend) => Err(
            RPayError::SignError(String::from_str("the signing operation failed")),
        ),
    }
}

/// Signs `content` with the private key; the argument order mirrors the
/// canonical-string-first call sites.
pub fn rsa_sign(content: String, private_key: String) -> (r: RPayResult<String>)
    ensures
        r is Ok <==> (pkcs8_key_parses(private_key@) && rsa_sign_ok(private_key@)),
        r matches Ok(s) ==> s@ == base64_chars(
            rsa_sha256_signature(private_key@, vstd::utf8::encode_utf8(content@)),
        ),
        (r matches Err(RPayError::KeyError(_))) <==> !pkcs8_key_parses(private_key@),
        r matches Err(e) ==> (e is KeyError || e is SignError),
{
    sha256_sign(private_key, content)
}

/// Relies on uuid's version-4 generator for randomness; nothing is promised
/// of the value.
#[verifier::external_body]
fn random_u128() -> u128 {
    uuid::Uuid::new_v4().as_u128()
}

/// Relies on chrono for the wall clock; nothing is promised of the value.
#[verifier::external_body]
pub(crate) fn now_unix_seconds() -> i64 {
    chrono::Local::now().timestamp()
}

/// Relies on chrono for the wall clock; nothing is promised of the value.
#[verifier::external_body]
fn now_unix_millis() -> i64 {
    chrono::Local::now().timestamp_millis()
}

/// A fresh random token of 32 lowercase hexadecimal digits.
pub fn get_nonce_str() -> (r: String)
    ensures
        r@.len() == 32,
        forall|i: int| 0 <= i < r@.len() ==> is_hex_digit_char(#[trigger] r@[i], false),
{
    let raw = random_u128();
    proof {
        lemma_hex_pad_chars_digits(raw as nat, 32, false);
    }
    u128_to_hex32(raw, false)
}

/// A fresh random order number of 32 lowercase hexadecimal digits.
pub fn random_trade_no() -> (r: String)
    ensures
        r@.len() == 32,
        forall|i: int| 0 <= i < r@.len() ==> is_hex_digit_char(#[trigger] r@[i], false),
{
    let raw = random_u128();
    proof {
        lemma_hex_pad_chars_digits(raw as nat, 32, false);
    }
    u128_to_hex32(raw, false)
}

/// A fresh random nonce of 32 uppercase hexadecimal digits, as the
/// authentication header carries it.
pub fn fresh_upper_nonce() -> (r: String)
    ensures
        r@.len() == 32,
        forall|i: int| 0 <= i < r@.len() ==> is_hex_digit_char(#[trigger] r@[i], true),
{
    let raw = random_u128();
    proof {
        lemma_hex_pad_chars_digits(raw as nat, 32, true);
    }
    u128_to_hex32(raw, true)
}

/// Milliseconds of the wall clock since the Unix epoch.
pub fn get_timestamp() -> i64 {
    now_unix_millis()
}

/// Seconds of the wall clock since the Unix epoch, as the canonical string
/// and the authentication header carry them.
pub fn now_timestamp_seconds() -> i64 {
    now_unix_seconds()
}

/// The authentication header produced for one outbound request, together
/// with the nonce and timestamp that entered its signature.
#[derive(Debug, Clone)]
pub struct BuiltHeader {
    /// Value of the `Authorization` header.
    pub authorization: String,
    /// The fresh nonce that was signed.
    pub nonce: String,
    /// The timestamp, in Unix seconds, that was signed.
    pub timestamp: i64,
}

/// Formats the authentication header from its parts.
pub fn format_auth_header(
    mch_id: &str,
    nonce: &str,
    signature: &str,
    timestamp: i64,
    serial_no: &str,
) -> (r: String)
    ensures
        r@ == auth_header_chars(mch_id@, nonce@, signature@, timestamp as int, serial_no@),
{
    let mut out = String::new();
    out.append("WECHATPAY2-SHA256-RSA2048 mchid=\"");
    out.append(mch_id);
    out.append("\",nonce_str=\"");
    out.append(nonce);
    out.append("\",signature=\"");
    out.append(signature);
    out.append("\",timestamp=\"");
    let ts = i64_to_dec_string(timestamp);
    out.append(ts.as_str());
    out.append("\",serial_no=\"");
    out.append(serial_no);
    out.append("\"");
    proof {
        assert(out@ =~= auth_header_chars(
            mch_id@,
            nonce@,
            signature@,
            timestamp as int,
            serial_no@,
        ));
    }
    out
}

/// Builds the authentication header for one outbound request: draws a fresh
/// nonce and timestamp, signs the canonical string, and formats the header.
/// Construction succeeds exactly when signing succeeds: when the configured
/// key parses and the signing backend accepts it.
pub fn build_header(
    sdk: &WechatV3PayConfig,
    method: HttpMethod,
    url: &str,
    body: &str,
) -> (r: RPayResult<BuiltHeader>)
    ensures
        r is Ok <==> (pkcs8_key_parses(sdk.spec_private_key()) && rsa_sign_ok(
            sdk.spec_private_key(),
        )),
        r matches Ok(h) ==> {
            &&& h.nonce@.len() == 32
            &&& forall|i: int|
                0 <= i < h.nonce@.len() ==> is_hex_digit_char(#[trigger] h.nonce@[i], true)
            &&& h.authorization@ == auth_header_chars(
                sdk.mch_id@,
                h.nonce@,
                base64_chars(
                    rsa_sha256_signature(
                        sdk.spec_private_key(),
                        vstd::utf8::encode_utf8(
                            canonical_request_chars(
                                method.spec_str(),
                                url@,
                                h.timestamp as int,
                                h.nonce@,
                                body@,
                            ),
                        ),
                    ),
                ),
                h.timestamp as int,
                sdk.spec_serial_no(),
            )
        },
        (r matches Err(RPayError::KeyError(_))) <==> !pkcs8_key_parses(sdk.spec_private_key()),
        r matches Err(e) ==> (e is KeyError || e is SignError),
{
    let timestamp = now_unix_seconds();
    let nonce = fresh_upper_nonce();
    let canonical = build_canonical_request(&method, url, timestamp, nonce.as_str(), body);
    let pem = String::from_str(sdk.private_key_or_empty());
    let signature = match sha256_sign(pem, canonical) {
        Ok(s) => s,
        Err(e) => {
            return Err(e);
        },
    };
    let authorization = format_auth_header(
        sdk.mch_id.as_str(),
        nonce.as_str(),
        signature.as_str(),
        timestamp,
        sdk.serial_no_or_empty(),
    );
    Ok(BuiltHeader { authorization, nonce, timestamp })
}

} // verus!
