use vstd::prelude::*;
use crate::canonical::{auth_header_chars, canonical_request_chars};
use crate::common::HttpMethod;
use crate::constant::MCH_HOST;
use crate::errors::{RPayError, RPayResult};
use crate::pay::config::WechatV3PayConfig;
use crate::numfmt::is_hex_digit_char;
use crate::utils::{
    base64_chars, build_header, pkcs8_key_parses, rsa_sha256_signature, rsa_sign_ok, BuiltHeader,
};

verus! {

/// One outbound HTTP request, fully prepared: the transport has nothing left
/// to decide but the exchange itself.
#[derive(Debug, Clone)]
pub struct Request {
    /// Full URL, host included.
    pub url: String,
    /// The authentication header and the nonce and timestamp inside it;
    /// absent for calls that need no signature.
    pub headers: Option<BuiltHeader>,
    /// The exact body to transmit.
    pub body: Option<String>,
    /// The HTTP verb.
    pub method: HttpMethod,
}

impl Request {
    /// Builds the authentication header for a gateway request; the request
    /// itself is untouched. Construction succeeds exactly when signing
    /// succeeds: when the configured key parses and the backend accepts it.
    pub fn build_header(
        sdk: &WechatV3PayConfig,
        method: HttpMethod,
        url: &str,
        body: &str,
    ) -> (r: RPayResult<BuiltHeader>)
        ensures
            r is Ok <==> (pkcs8_key_parses(sdk.spec_private_key()) && rsa_sign_ok(
                sdk.spec_private_key(),
            )),
            r matches Ok(h) ==> {
                &&& h.nonce@.len() == 32
                &&& forall|i: int|
                    0 <= i < h.nonce@.len() ==> is_hex_digit_char(#[trigger] h.nonce@[i], true)
                &&& h.authorization@ == auth_header_chars(
                    sdk.mch_id@,
                    h.nonce@,
                    base64_chars(
                        rsa_sha256_signature(
                            sdk.spec_private_key(),
                            vstd::utf8::encode_utf8(
                                canonical_request_chars(
                                    method.spec_str(),
                                    url@,
                                    h.timestamp as int,
                                    h.nonce@,
                                    body@,
                                ),
                            ),
                        ),
                    ),
                    h.timestamp as int,
                    sdk.spec_serial_no(),
                )
            },
            (r matches Err(RPayError::KeyError(_))) <==> !pkcs8_key_parses(
                sdk.spec_private_key(),
            ),
            r matches Err(e) ==> (e is KeyError || e is SignError),
    {
        build_header(sdk, method, url, body)
    }

    /// Prepares a signed gateway request: signs the canonical string over the
    /// path and body, and joins the gateway host to the path. Preparation
    /// succeeds exactly when signing succeeds: when the configured key parses
    /// and the backend accepts it.
    pub fn build_pay_request(
        wechat_sdk: &WechatV3PayConfig,
        method: HttpMethod,
        url: &str,
        body: String,
    ) -> (r: RPayResult<Request>)
        ensures
            r is Ok <==> (pkcs8_key_parses(wechat_sdk.spec_private_key()) && rsa_sign_ok(
                wechat_sdk.spec_private_key(),
            )),
            r matches Ok(req) ==> {
                &&& req.method == method
                &&& req.url@ == MCH_HOST@ + url@
                &&& req.body matches Some(b) && b@ == body@
                &&& req.headers matches Some(h) && {
                    &&& h.nonce@.len() == 32
                    &&& h.authorization@ == auth_header_chars(
                        wechat_sdk.mch_id@,
                        h.nonce@,
                        base64_chars(
                            rsa_sha256_signature(
                                wechat_sdk.spec_private_key(),
                                vstd::utf8::encode_utf8(
                                    canonical_request_chars(
                                        method.spec_str(),
                                        url@,
                                        h.timestamp as int,
                                        h.nonce@,
                                        body@,
                                    ),
                                ),
                            ),
                        ),
                        h.timestamp as int,
                        wechat_sdk.spec_serial_no(),
                    )
                }
            },
            (r matches Err(RPayError::KeyError(_))) <==> !pkcs8_key_parses(
                wechat_sdk.spec_private_key(),
            ),
            r matches Err(e) ==> (e is KeyError || e is SignError),
    {
        let header = match build_header(wechat_sdk, method, url, body.as_str()) {
            Ok(h) => h,
            Err(e) => {
                return Err(e);
            },
        };
        let mut full_url = String::from_str(MCH_HOST);
        full_url.append(url);
        Ok(Request { url: full_url, headers: Some(header), body: Some(body), method })
    }
}

} // verus!
