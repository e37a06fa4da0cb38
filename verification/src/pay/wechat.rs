use vstd::prelude::*;
use crate::canonical::{build_client_sign_string, client_sign_chars};
use crate::errors::{RPayError, RPayResult};
use crate::model::{SignData, WechatPay};
use crate::numfmt::{dec_chars, i64_to_dec_string, is_hex_digit_char};
use crate::utils::{
    base64_chars, fresh_upper_nonce, now_unix_seconds, pkcs8_key_parses, rsa_sha256_signature,
    rsa_sign_ok, sha256_sign,
};

verus! {

impl WechatPay {
    /// Builds a merchant context from its credentials; the gateway host is
    /// the fixed production domain.
    pub fn new(
        app_id: &str,
        mch_id: &str,
        private_key: &str,
        serial_no: &str,
        v3_key: &str,
        notify_url: &str,
    ) -> (r: Self)
        ensures
            r.app_id@ == app_id@,
            r.mch_id@ == mch_id@,
            r.private_key@ == private_key@,
            r.serial_no@ == serial_no@,
            r.v3_key@ == v3_key@,
            r.notify_url@ == notify_url@,
            r.domain@ == "https://api.mch.weixin.qq.com"@,
    {
        WechatPay {
            app_id: String::from_str(app_id),
            mch_id: String::from_str(mch_id),
            private_key: String::from_str(private_key),
            serial_no: String::from_str(serial_no),
            v3_key: String::from_str(v3_key),
            notify_url: String::from_str(notify_url),
            domain: String::from_str("https://api.mch.weixin.qq.com"),
        }
    }

    /// The wall clock in Unix seconds, rendered in decimal.
    pub fn now_timestamp(&self) -> (r: String)
        ensures
            exists|t: i64| r@ == dec_chars(t as int),
    {
        let t = now_unix_seconds();
        let s = i64_to_dec_string(t);
        proof {
            assert(s@ == dec_chars(t as int));
        }
        s
    }

    /// A fresh nonce of 32 uppercase hexadecimal digits.
    pub fn nonce_str(&self) -> (r: String)
        ensures
            r@.len() == 32,
            forall|i: int| 0 <= i < r@.len() ==> is_hex_digit_char(#[trigger] r@[i], true),
    {
        fresh_upper_nonce()
    }

    /// Signs a client-side pay invocation for a prepay id the gateway
    /// returned: the package is `prefix` followed by the prepay id, and the
    /// signature covers app id, a fresh timestamp, a fresh nonce and that
    /// package, in the four-line canonical layout. Signing succeeds exactly
    /// when the key parses and the signing backend accepts it.
    pub fn mut_sign_data(&self, prefix: &str, prepay_id: &str) -> (r: RPayResult<SignData>)
        ensures
            r is Ok <==> (pkcs8_key_parses(self.private_key@) && rsa_sign_ok(self.private_key@)),
            r matches Ok(d) ==> {
                &&& d.app_id@ == self.app_id@
                &&& d.sign_type@ == "RSA"@
                &&& d.package@ == prefix@ + prepay_id@
                &&& d.nonce_str@.len() == 32
                &&& d.pay_sign@ == base64_chars(
                    rsa_sha256_signature(
                        self.private_key@,
                        vstd::utf8::encode_utf8(
                            client_sign_chars(self.app_id@, d.timestamp@, d.nonce_str@, d.package@),
                        ),
                    ),
                )
            },
            (r matches Err(RPayError::KeyError(_))) <==> !pkcs8_key_parses(self.private_key@),
            r matches Err(e) ==> (e is KeyError || e is SignError),
    {
        let now_time = i64_to_dec_string(now_unix_seconds());
        let nonce_str = self.nonce_str();
        let mut ext_str = String::from_str(prefix);
        ext_str.append(prepay_id);
        let sign_source = build_client_sign_string(
            self.app_id.as_str(),
            now_time.as_str(),
            nonce_str.as_str(),
            ext_str.as_str(),
        );
        let signed_str = match sha256_sign(self.private_key.clone(), sign_source) {
            Ok(s) => s,
            Err(e) => {
                return Err(e);
            },
        };
        Ok(
            SignData {
                app_id: self.app_id.clone(),
                sign_type: String::from_str("RSA"),
                package: ext_str,
                nonce_str,
                timestamp: now_time,
                pay_sign: signed_str,
            },
        )
    }
}

} // verus!
