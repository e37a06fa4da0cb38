use vstd::prelude::*;
use aes_gcm::aead::Aead;
use aes_gcm::KeyInit;
use crate::errors::{RPayError, RPayResult};
use crate::jsonval::{
    get_member, lemma_lookup_int_model, lemma_lookup_obj_model, lemma_lookup_string_model,
    lookup_int, lookup_obj, lookup_string, m_lookup_int, m_lookup_obj, m_lookup_string,
    members_represent, parse_json, spec_parse_json, JsonModel, JsonValue,
};
use crate::model::{AmountInfo, PayerInfo, WechatPayDecodeData};
use crate::pay::config::WechatV3PayConfig;
use crate::utils::{base64_chars, base64_decode, base64_decoded, base64_encode};

verus! {

/// The longest plaintext AES-GCM can seal, in bytes.
pub open spec fn gcm_p_max() -> int {
    0x1000000000 - 32
}

/// The longest associated data AES-GCM accepts, in bytes.
pub open spec fn gcm_a_max() -> int {
    0x2000000000000000 - 1
}

/// What AES-256-GCM sealing makes of a plaintext under a key, nonce and
/// associated data: ciphertext with the authentication tag appended.
pub uninterp spec fn aead_seal(key: Seq<u8>, nonce: Seq<u8>, aad: Seq<u8>, pt: Seq<u8>) -> Seq<u8>;

/// What AES-256-GCM opening makes of a ciphertext under a key, nonce and
/// associated data; `None` where the tag does not verify.
pub uninterp spec fn aead_open(key: Seq<u8>, nonce: Seq<u8>, aad: Seq<u8>, ct: Seq<u8>) -> Option<
    Seq<u8>,
>;

/// Relies on aes_gcm's `Aes256Gcm` through the `Aead` trait: encryption is a
/// function of key, nonce, associated data and plaintext alone, failing
/// exactly when the plaintext or the associated data exceeds the mode's
/// length limit; and decryption under the same key, nonce and associated
/// data recovers exactly the plaintext.
#[verifier::external_body]
fn aes256_gcm_seal(key: &[u8], nonce: &[u8], aad: &[u8], plaintext: &[u8]) -> (r: Option<Vec<u8>>)
    requires
        key@.len() == 32,
        nonce@.len() == 12,
    ensures
        r is Some <==> (plaintext@.len() <= gcm_p_max() && aad@.len() <= gcm_a_max()),
        r matches Some(ct) ==> ct@ == aead_seal(key@, nonce@, aad@, plaintext@),
        r matches Some(ct) ==> aead_open(key@, nonce@, aad@, ct@) == Some(plaintext@),
{
    let cipher = match aes_gcm::Aes256Gcm::new_from_slice(key) {
        Ok(c) => c,
        Err(_) => return None,
    };
    let nonce_arr: [u8; 12] = match nonce.try_into() {
        Ok(a) => a,
        Err(_) => return None,
    };
    let payload = aes_gcm::aead::Payload { msg: plaintext, aad };
    cipher.encrypt(&aes_gcm::Nonce::from(nonce_arr), payload).ok()
}

/// Relies on aes_gcm's `Aes256Gcm` through the `Aead` trait: decryption is a
/// function of key, nonce, associated data and ciphertext alone, and fails
/// exactly where the authentication tag does not verify.
#[verifier::external_body]
fn aes256_gcm_open(key: &[u8], nonce: &[u8], aad: &[u8], ciphertext: &[u8]) -> (r: Option<Vec<u8>>)
    requires
        key@.len() == 32,
        nonce@.len() == 12,
    ensures
        r is Some <==> aead_open(key@, nonce@, aad@, ciphertext@) is Some,
        r matches Some(pt) ==> Some(pt@) == aead_open(key@, nonce@, aad@, ciphertext@),
{
    let cipher = match aes_gcm::Aes256Gcm::new_from_slice(key) {
        Ok(c) => c,
        Err(_) => return None,
    };
    let nonce_arr: [u8; 12] = match nonce.try_into() {
        Ok(a) => a,
        Err(_) => return None,
    };
    let payload = aes_gcm::aead::Payload { msg: ciphertext, aad };
    cipher.decrypt(&aes_gcm::Nonce::from(nonce_arr), payload).ok()
}

/// Relies on std's `String::from_utf8`: succeeds exactly on valid UTF-8 and
/// decodes it.
#[verifier::external_body]
fn utf8_to_string(bytes: Vec<u8>) -> (r: Option<String>)
    ensures
        r is Some <==> vstd::utf8::valid_utf8(bytes@),
        r matches Some(s) ==> s@ == vstd::utf8::decode_utf8(bytes@),
{
    String::from_utf8(bytes).ok()
}

/// The encrypted notification envelope, as the gateway's callback body
/// carries it, together with the decryption it is consumed by.
#[derive(Debug, Clone)]
pub struct ParseEncrypt {
    /// Base64 of the ciphertext, authentication tag included.
    pub ciphertext: String,
    /// The AEAD nonce; must be exactly 12 bytes.
    pub nonce: String,
    /// Additional authenticated data.
    pub associated_data: String,
    /// Algorithm tag of the envelope.
    pub algorithm: String,
    /// What kind of object the plaintext describes.
    pub original_type: String,
}

impl ParseEncrypt {
    /// The plaintext this envelope decrypts to under the key, where the
    /// ciphertext is valid base64 and the tag verifies.
    pub open spec fn spec_plaintext(self, key: Seq<char>) -> Option<Seq<u8>> {
        match base64_decoded(self.ciphertext@) {
            Some(ct) => aead_open(
                vstd::utf8::encode_utf8(key),
                vstd::utf8::encode_utf8(self.nonce@),
                vstd::utf8::encode_utf8(self.associated_data@),
                ct,
            ),
            None => None,
        }
    }

    /// The notification object this envelope decrypts and parses to under
    /// the key: the members of the plaintext's JSON object, where the
    /// plaintext decrypts, is valid UTF-8 and is one JSON object.
    pub open spec fn spec_notification_model(self, key: Seq<char>) -> Option<
        Seq<(Seq<char>, JsonModel)>,
    > {
        match self.spec_plaintext(key) {
            Some(pt) => {
                if vstd::utf8::valid_utf8(pt) {
                    match spec_parse_json(vstd::utf8::decode_utf8(pt)) {
                        Some(JsonModel::Obj(ms)) => Some(ms),
                        _ => None,
                    }
                } else {
                    None
                }
            },
            None => None,
        }
    }

    /// Authenticated decryption of the envelope into its plaintext bytes.
    ///
    /// All-or-nothing: a nonce of the wrong length fails validation before
    /// any cryptographic operation, a key of the wrong length is a
    /// configuration error, and an undecodable or tampered ciphertext (or
    /// wrong associated data) is a decryption failure.
    pub fn decrypt_bytes(&self, wechat_sdk: &WechatV3PayConfig) -> (r: RPayResult<Vec<u8>>)
        ensures
            vstd::utf8::encode_utf8(self.nonce@).len() != 12 ==> r matches Err(
                RPayError::ValidationError(_),
            ),
            vstd::utf8::encode_utf8(self.nonce@).len() == 12 && vstd::utf8::encode_utf8(
                wechat_sdk.spec_api_key_v3(),
            ).len() != 32 ==> r matches Err(RPayError::ConfigError(_)),
            r is Ok <==> {
                &&& vstd::utf8::encode_utf8(self.nonce@).len() == 12
                &&& vstd::utf8::encode_utf8(wechat_sdk.spec_api_key_v3()).len() == 32
                &&& self.spec_plaintext(wechat_sdk.spec_api_key_v3()) is Some
            },
            r matches Ok(pt) ==> Some(pt@) == self.spec_plaintext(wechat_sdk.spec_api_key_v3()),
            vstd::utf8::encode_utf8(self.nonce@).len() == 12 && vstd::utf8::encode_utf8(
                wechat_sdk.spec_api_key_v3(),
            ).len() == 32 && self.spec_plaintext(wechat_sdk.spec_api_key_v3()) is None
                ==> r matches Err(RPayError::DecryptError(_)),
            r matches Err(e) ==> (e is ValidationError || e is ConfigError || e is DecryptError),
    {
        if self.nonce.as_str().as_bytes().len() != 12 {
            return Err(
                RPayError::ValidationError(
                    String::from_str("the nonce of the envelope must be exactly 12 bytes"),
                ),
            );
        }
        let api_key_v3: &str = match &wechat_sdk.api_key_v3 {
            Some(k) => k.as_str(),
            None => "",
        };
        proof {
            reveal_strlit("");
            assert(api_key_v3@ =~= wechat_sdk.spec_api_key_v3());
        }
        if api_key_v3.as_bytes().len() != 32 {
            return Err(
                RPayError::ConfigError(
                    String::from_str("the notification key must be exactly 32 bytes"),
                ),
            );
        }
        let ciphertext = match base64_decode(self.ciphertext.as_str()) {
            Ok(ct) => ct,
            Err(_) => {
                return Err(
                    RPayError::DecryptError(
                        String::from_str("the ciphertext of the envelope is not valid base64"),
                    ),
                );
            },
        };
        match aes256_gcm_open(
            api_key_v3.as_bytes(),
            self.nonce.as_str().as_bytes(),
            self.associated_data.as_str().as_bytes(),
            ciphertext.as_slice(),
        ) {
            Some(pt) => Ok(pt),
            None => Err(
                RPayError::DecryptError(
                    String::from_str("the envelope failed authenticated decryption"),
                ),
            ),
        }
    }

    /// Decrypts the envelope and reads the plaintext as the UTF-8 JSON
    /// notification payload. Malformed JSON after a successful decryption is
    /// a parse failure, distinct from a decryption failure.
    pub fn parse(&self, wechat_sdk: &WechatV3PayConfig) -> (r: RPayResult<WechatPayDecodeData>)
        ensures
            vstd::utf8::encode_utf8(self.nonce@).len() != 12 ==> r matches Err(
                RPayError::ValidationError(_),
            ),
            vstd::utf8::encode_utf8(self.nonce@).len() == 12 && vstd::utf8::encode_utf8(
                wechat_sdk.spec_api_key_v3(),
            ).len() != 32 ==> r matches Err(RPayError::ConfigError(_)),
            r is Ok <==> {
                &&& vstd::utf8::encode_utf8(self.nonce@).len() == 12
                &&& vstd::utf8::encode_utf8(wechat_sdk.spec_api_key_v3()).len() == 32
                &&& self.spec_notification_model(wechat_sdk.spec_api_key_v3()) matches Some(ms)
                    && notification_m_wf(ms)
            },
            r matches Ok(d) ==> (self.spec_notification_model(wechat_sdk.spec_api_key_v3())
                matches Some(ms) && {
                &&& Some(d.mchid@) == m_lookup_string(ms, "mchid"@)
                &&& Some(d.appid@) == m_lookup_string(ms, "appid"@)
                &&& Some(d.out_trade_no@) == m_lookup_string(ms, "out_trade_no"@)
                &&& Some(d.transaction_id@) == m_lookup_string(ms, "transaction_id"@)
                &&& Some(d.trade_type@) == m_lookup_string(ms, "trade_type"@)
                &&& Some(d.trade_state@) == m_lookup_string(ms, "trade_state"@)
                &&& Some(d.trade_state_desc@) == m_lookup_string(ms, "trade_state_desc"@)
                &&& Some(d.bank_type@) == m_lookup_string(ms, "bank_type"@)
                &&& Some(d.attach@) == m_lookup_string(ms, "attach"@)
                &&& Some(d.success_time@) == m_lookup_string(ms, "success_time"@)
                &&& m_lookup_obj(ms, "payer"@) matches Some(pm) && Some(d.payer.openid@)
                    == m_lookup_string(pm, "openid"@)
                &&& m_lookup_obj(ms, "amount"@) matches Some(am) && Some(d.amount.total as i64)
                    == m_lookup_int(am, "total"@)
            }),
            vstd::utf8::encode_utf8(self.nonce@).len() == 12 && vstd::utf8::encode_utf8(
                wechat_sdk.spec_api_key_v3(),
            ).len() == 32 && self.spec_plaintext(wechat_sdk.spec_api_key_v3()) is None
                ==> r matches Err(RPayError::DecryptError(_)),
            vstd::utf8::encode_utf8(self.nonce@).len() == 12 && vstd::utf8::encode_utf8(
                wechat_sdk.spec_api_key_v3(),
            ).len() == 32 && self.spec_plaintext(wechat_sdk.spec_api_key_v3()) is Some
                && !vstd::utf8::valid_utf8(
                self.spec_plaintext(wechat_sdk.spec_api_key_v3()).unwrap(),
            ) ==> r matches Err(RPayError::ParseError(_)),
            !(r is Ok) && vstd::utf8::encode_utf8(self.nonce@).len() == 12
                && vstd::utf8::encode_utf8(wechat_sdk.spec_api_key_v3()).len() == 32
                && self.spec_plaintext(wechat_sdk.spec_api_key_v3()) is Some
                && vstd::utf8::valid_utf8(self.spec_plaintext(wechat_sdk.spec_api_key_v3()).unwrap())
                ==> r matches Err(RPayError::ParseError(_)),
            r matches Err(e) ==> (e is ValidationError || e is ConfigError || e is DecryptError
                || e is ParseError),
    {
        let ghost key = wechat_sdk.spec_api_key_v3();
        let plaintext = match self.decrypt_bytes(wechat_sdk) {
            Ok(pt) => pt,
            Err(e) => {
                return Err(e);
            },
        };
        let text = match utf8_to_string(plaintext) {
            Some(t) => t,
            None => {
                proof {
                    assert(self.spec_notification_model(key) is None);
                }
                return Err(
                    RPayError::ParseError(
                        String::from_str("the decrypted payload is not valid UTF-8"),
                    ),
                );
            },
        };
        let value = match parse_json(text.as_str()) {
            Some(v) => v,
            None => {
                proof {
                    assert(self.spec_notification_model(key) is None);
                }
                return Err(
                    RPayError::ParseError(
                        String::from_str("the decrypted payload is not valid JSON"),
                    ),
                );
            },
        };
        let result = WechatPayDecodeData::from_json_value(&value);
        match &value {
            JsonValue::Obj(fs) => {
                proof {
                    let m = spec_parse_json(text@)->Some_0;
                    let gs = m->Obj_0;
                    assert(members_represent(fs@, gs));
                    lemma_notification_bridge(fs@, gs);
                    assert(self.spec_notification_model(key) == Some(gs));
                }
            },
            _ => {
                proof {
                    assert(self.spec_notification_model(key) is None);
                }
            },
        }
        result
    }

    /// Builds an encrypted envelope that [`Self::parse`] will decrypt back
    /// to exactly the given plaintext: sealing and opening under the same
    /// key, nonce and associated data are inverse to one another.
    pub fn encrypt(
        wechat_sdk: &WechatV3PayConfig,
        nonce: &str,
        associated_data: &str,
        plaintext: &[u8],
    ) -> (r: RPayResult<ParseEncrypt>)
        ensures
            vstd::utf8::encode_utf8(nonce@).len() != 12 ==> r matches Err(
                RPayError::ValidationError(_),
            ),
            vstd::utf8::encode_utf8(nonce@).len() == 12 && vstd::utf8::encode_utf8(
                wechat_sdk.spec_api_key_v3(),
            ).len() != 32 ==> r matches Err(RPayError::ConfigError(_)),
            r is Ok <==> {
                &&& vstd::utf8::encode_utf8(nonce@).len() == 12
                &&& vstd::utf8::encode_utf8(wechat_sdk.spec_api_key_v3()).len() == 32
                &&& plaintext@.len() <= gcm_p_max()
                &&& vstd::utf8::encode_utf8(associated_data@).len() <= gcm_a_max()
            },
            r matches Ok(env) ==> {
                &&& env.nonce@ == nonce@
                &&& env.associated_data@ == associated_data@
                &&& env.algorithm@ == "AEAD_AES_256_GCM"@
                &&& env.original_type@ == "transaction"@
                &&& env.ciphertext@ == base64_chars(
                    aead_seal(
                        vstd::utf8::encode_utf8(wechat_sdk.spec_api_key_v3()),
                        vstd::utf8::encode_utf8(nonce@),
                        vstd::utf8::encode_utf8(associated_data@),
                        plaintext@,
                    ),
                )
                &&& env.spec_plaintext(wechat_sdk.spec_api_key_v3()) == Some(plaintext@)
            },
            r matches Err(e) ==> (e is ValidationError || e is ConfigError || e is DecryptError),
    {
        if nonce.as_bytes().len() != 12 {
            return Err(
                RPayError::ValidationError(
                    String::from_str("the nonce of the envelope must be exactly 12 bytes"),
                ),
            );
        }
        let api_key_v3: &str = match &wechat_sdk.api_key_v3 {
            Some(k) => k.as_str(),
            None => "",
        };
        proof {
            reveal_strlit("");
            assert(api_key_v3@ =~= wechat_sdk.spec_api_key_v3());
        }
        if api_key_v3.as_bytes().len() != 32 {
            return Err(
                RPayError::ConfigError(
                    String::from_str("the notification key must be exactly 32 bytes"),
                ),
            );
        }
        let sealed = match aes256_gcm_seal(
            api_key_v3.as_bytes(),
            nonce.as_bytes(),
            associated_data.as_bytes(),
            plaintext,
        ) {
            Some(ct) => ct,
            None => {
                return Err(
                    RPayError::DecryptError(String::from_str("the payload could not be sealed")),
                );
            },
        };
        let ciphertext = base64_encode(sealed.as_slice());
        Ok(
            ParseEncrypt {
                ciphertext,
                nonce: String::from_str(nonce),
                associated_data: String::from_str(associated_data),
                algorithm: String::from_str("AEAD_AES_256_GCM"),
                original_type: String::from_str("transaction"),
            },
        )
    }
}

/// Whether a model JSON object carries every field of the notification
/// payload, with the right types and the amount within range.
pub open spec fn notification_m_wf(ms: Seq<(Seq<char>, JsonModel)>) -> bool {
    &&& m_lookup_string(ms, "mchid"@) is Some
    &&& m_lookup_string(ms, "appid"@) is Some
    &&& m_lookup_string(ms, "out_trade_no"@) is Some
    &&& m_lookup_string(ms, "transaction_id"@) is Some
    &&& m_lookup_string(ms, "trade_type"@) is Some
    &&& m_lookup_string(ms, "trade_state"@) is Some
    &&& m_lookup_string(ms, "trade_state_desc"@) is Some
    &&& m_lookup_string(ms, "bank_type"@) is Some
    &&& m_lookup_string(ms, "attach"@) is Some
    &&& m_lookup_string(ms, "success_time"@) is Some
    &&& match m_lookup_obj(ms, "payer"@) {
        Some(pm) => m_lookup_string(pm, "openid"@) is Some,
        None => false,
    }
    &&& match m_lookup_obj(ms, "amount"@) {
        Some(am) => match m_lookup_int(am, "total"@) {
            Some(t) => -2147483648 <= t <= 2147483647,
            None => false,
        },
        None => false,
    }
}

/// Every notification lookup carries over from a parsed object to the model
/// it represents, and well-formedness carries with them.
proof fn lemma_notification_bridge(fs: Seq<(String, JsonValue)>, gs: Seq<(Seq<char>, JsonModel)>)
    requires
        members_represent(fs, gs),
    ensures
        notification_wf(fs) == notification_m_wf(gs),
        lookup_string(fs, "mchid"@) == m_lookup_string(gs, "mchid"@),
        lookup_string(fs, "appid"@) == m_lookup_string(gs, "appid"@),
        lookup_string(fs, "out_trade_no"@) == m_lookup_string(gs, "out_trade_no"@),
        lookup_string(fs, "transaction_id"@) == m_lookup_string(gs, "transaction_id"@),
        lookup_string(fs, "trade_type"@) == m_lookup_string(gs, "trade_type"@),
        lookup_string(fs, "trade_state"@) == m_lookup_string(gs, "trade_state"@),
        lookup_string(fs, "trade_state_desc"@) == m_lookup_string(gs, "trade_state_desc"@),
        lookup_string(fs, "bank_type"@) == m_lookup_string(gs, "bank_type"@),
        lookup_string(fs, "attach"@) == m_lookup_string(gs, "attach"@),
        lookup_string(fs, "success_time"@) == m_lookup_string(gs, "success_time"@),
        match lookup_obj(fs, "payer"@) {
            Some(pm) => m_lookup_obj(gs, "payer"@) matches Some(mpm) && lookup_string(
                pm,
                "openid"@,
            ) == m_lookup_string(mpm, "openid"@),
            None => m_lookup_obj(gs, "payer"@) is None,
        },
        match lookup_obj(fs, "amount"@) {
            Some(am) => m_lookup_obj(gs, "amount"@) matches Some(mam) && lookup_int(am, "total"@)
                == m_lookup_int(mam, "total"@),
            None => m_lookup_obj(gs, "amount"@) is None,
        },
{
    lemma_lookup_string_model(fs, gs, "mchid"@);
    lemma_lookup_string_model(fs, gs, "appid"@);
    lemma_lookup_string_model(fs, gs, "out_trade_no"@);
    lemma_lookup_string_model(fs, gs, "transaction_id"@);
    lemma_lookup_string_model(fs, gs, "trade_type"@);
    lemma_lookup_string_model(fs, gs, "trade_state"@);
    lemma_lookup_string_model(fs, gs, "trade_state_desc"@);
    lemma_lookup_string_model(fs, gs, "bank_type"@);
    lemma_lookup_string_model(fs, gs, "attach"@);
    lemma_lookup_string_model(fs, gs, "success_time"@);
    lemma_lookup_obj_model(fs, gs, "payer"@);
    lemma_lookup_obj_model(fs, gs, "amount"@);
    match lookup_obj(fs, "payer"@) {
        Some(pm) => {
            let mpm = m_lookup_obj(gs, "payer"@)->Some_0;
            lemma_lookup_string_model(pm, mpm, "openid"@);
        },
        None => {},
    }
    match lookup_obj(fs, "amount"@) {
        Some(am) => {
            let mam = m_lookup_obj(gs, "amount"@)->Some_0;
            lemma_lookup_int_model(am, mam, "total"@);
        },
        None => {},
    }
}

/// Whether a parsed JSON object carries every field of the notification
/// payload, with the right types and the amount within range.
pub open spec fn notification_wf(ms: Seq<(String, JsonValue)>) -> bool {
    &&& lookup_string(ms, "mchid"@) is Some
    &&& lookup_string(ms, "appid"@) is Some
    &&& lookup_string(ms, "out_trade_no"@) is Some
    &&& lookup_string(ms, "transaction_id"@) is Some
    &&& lookup_string(ms, "trade_type"@) is Some
    &&& lookup_string(ms, "trade_state"@) is Some
    &&& lookup_string(ms, "trade_state_desc"@) is Some
    &&& lookup_string(ms, "bank_type"@) is Some
    &&& lookup_string(ms, "attach"@) is Some
    &&& lookup_string(ms, "success_time"@) is Some
    &&& match lookup_obj(ms, "payer"@) {
        Some(pm) => lookup_string(pm, "openid"@) is Some,
        None => false,
    }
    &&& match lookup_obj(ms, "amount"@) {
        Some(am) => match lookup_int(am, "total"@) {
            Some(t) => -2147483648 <= t <= 2147483647,
            None => false,
        },
        None => false,
    }
}

/// Takes the string member under the key, exactly as JSON object lookup
/// finds it.
fn take_string(ms: &Vec<(String, JsonValue)>, key: &str) -> (r: Option<String>)
    ensures
        match r {
            Some(s) => lookup_string(ms@, key@) == Some(s@),
            None => lookup_string(ms@, key@) is None,
        },
{
    match get_member(ms, key) {
        Some(JsonValue::Str(s)) => Some(s.clone()),
        _ => None,
    }
}

impl WechatPayDecodeData {
    /// Reads the notification payload out of a parsed JSON value: every
    /// field must be present with its type, and the total must fit the
    /// amount field; anything less is a parse failure, and nothing partial
    /// is ever produced.
    pub fn from_json_value(v: &JsonValue) -> (r: RPayResult<WechatPayDecodeData>)
        ensures
            r is Ok <==> (v matches JsonValue::Obj(ms) && notification_wf(ms@)),
            r matches Ok(d) ==> (v matches JsonValue::Obj(ms) && {
                &&& Some(d.mchid@) == lookup_string(ms@, "mchid"@)
                &&& Some(d.appid@) == lookup_string(ms@, "appid"@)
                &&& Some(d.out_trade_no@) == lookup_string(ms@, "out_trade_no"@)
                &&& Some(d.transaction_id@) == lookup_string(ms@, "transaction_id"@)
                &&& Some(d.trade_type@) == lookup_string(ms@, "trade_type"@)
                &&& Some(d.trade_state@) == lookup_string(ms@, "trade_state"@)
                &&& Some(d.trade_state_desc@) == lookup_string(ms@, "trade_state_desc"@)
                &&& Some(d.bank_type@) == lookup_string(ms@, "bank_type"@)
                &&& Some(d.attach@) == lookup_string(ms@, "attach"@)
                &&& Some(d.success_time@) == lookup_string(ms@, "success_time"@)
                &&& Some(d.payer.openid@) == lookup_string(
                    lookup_obj(ms@, "payer"@).unwrap(),
                    "openid"@,
                )
                &&& Some(d.amount.total as i64) == lookup_int(
                    lookup_obj(ms@, "amount"@).unwrap(),
                    "total"@,
                )
            }),
            r matches Err(e) ==> e is ParseError,
    {
        let ms = match v {
            JsonValue::Obj(ms) => ms,
            _ => {
                return Err(
                    RPayError::ParseError(
                        String::from_str("the notification payload is not a JSON object"),
                    ),
                );
            },
        };
        let mchid = match take_string(ms, "mchid") {
            Some(s) => s,
            None => {
                return Err(
                    RPayError::ParseError(
                        String::from_str("the notification payload misses a required field"),
                    ),
                );
            },
        };
        let appid = match take_string(ms, "appid") {
            Some(s) => s,
            None => {
                return Err(
                    RPayError::ParseError(
                        String::from_str("the notification payload misses a required field"),
                    ),
                );
            },
        };
        let out_trade_no = match take_string(ms, "out_trade_no") {
            Some(s) => s,
            None => {
                return Err(
                    RPayError::ParseError(
                        String::from_str("the notification payload misses a required field"),
                    ),
                );
            },
        };
        let transaction_id = match take_string(ms, "transaction_id") {
            Some(s) => s,
            None => {
                return Err(
                    RPayError::ParseError(
                        String::from_str("the notification payload misses a required field"),
                    ),
                );
            },
        };
        let trade_type = match take_string(ms, "trade_type") {
            Some(s) => s,
            None => {
                return Err(
                    RPayError::ParseError(
                        String::from_str("the notification payload misses a required field"),
                    ),
                );
            },
        };
        let trade_state = match take_string(ms, "trade_state") {
            Some(s) => s,
            None => {
                return Err(
                    RPayError::ParseError(
                        String::from_str("the notification payload misses a required field"),
                    ),
                );
            },
        };
        let trade_state_desc = match take_string(ms, "trade_state_desc") {
            Some(s) => s,
            None => {
                return Err(
                    RPayError::ParseError(
                        String::from_str("the notification payload misses a required field"),
                    ),
                );
            },
        };
        let bank_type = match take_string(ms, "bank_type") {
            Some(s) => s,
            None => {
                return Err(
                    RPayError::ParseError(
                        String::from_str("the notification payload misses a required field"),
                    ),
                );
            },
        };
        let attach = match take_string(ms, "attach") {
            Some(s) => s,
            None => {
                return Err(
                    RPayError::ParseError(
                        String::from_str("the notification payload misses a required field"),
                    ),
                );
            },
        };
        let success_time = match take_string(ms, "success_time") {
            Some(s) => s,
            None => {
                return Err(
                    RPayError::ParseError(
                        String::from_str("the notification payload misses a required field"),
                    ),
                );
            },
        };
        let openid = match get_member(ms, "payer") {
            Some(JsonValue::Obj(pm)) => {
                match take_string(pm, "openid") {
                    Some(s) => s,
                    None => {
                        return Err(
                            RPayError::ParseError(
                                String::from_str("the notification payer misses its account id"),
                            ),
                        );
                    },
                }
            },
            _ => {
                return Err(
                    RPayError::ParseError(
                        String::from_str("the notification payload misses its payer"),
                    ),
                );
            },
        };
        let total: i64 = match get_member(ms, "amount") {
            Some(JsonValue::Obj(am)) => {
                match get_member(am, "total") {
                    Some(JsonValue::Int(t)) => *t,
                    _ => {
                        return Err(
                            RPayError::ParseError(
                                String::from_str("the notification amount misses its total"),
                            ),
                        );
                    },
                }
            },
            _ => {
                return Err(
                    RPayError::ParseError(
                        String::from_str("the notification payload misses its amount"),
                    ),
                );
            },
        };
        if total < -2147483648 || total > 2147483647 {
            return Err(
                RPayError::ParseError(
                    String::from_str("the notification total does not fit the amount field"),
                ),
            );
        }
        Ok(
            WechatPayDecodeData {
                mchid,
                appid,
                out_trade_no,
                transaction_id,
                trade_type,
                trade_state,
                trade_state_desc,
                bank_type,
                attach,
                success_time,
                payer: PayerInfo { openid },
                amount: AmountInfo { total: total as i32 },
            },
        )
    }
}

} // verus!
