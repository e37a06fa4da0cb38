use vstd::prelude::*;
use crate::canonical::{build_client_sign_string, client_sign_chars};
use crate::errors::{RPayError, RPayResult};
use crate::model::{AppResult, JsapiResult, PayType};
use crate::numfmt::i64_to_dec_string;
use crate::pay::config::WechatV3PayConfig;
use crate::utils::{
    base64_chars, fresh_upper_nonce, now_unix_seconds, pkcs8_key_parses, rsa_sha256_signature,
    rsa_sign_ok, sha256_sign,
};

verus! {

/// What the gateway's order-creation response left for the caller, by
/// product: a prepay id to re-sign, or a URL to hand on directly.
#[derive(Debug, Clone)]
pub struct PayInfo {
    /// Prepay id of the created order, for the products that return one.
    pub prepay_id: Option<String>,
    /// Redirect URL, returned by the H5 product.
    pub h5_url: Option<String>,
    /// QR-payload URL, returned by the Native product.
    pub code_url: Option<String>,
    /// The product the response belongs to.
    pub pay_type: PayType,
}

/// A client-usable payment value: either a URL the caller forwards as it is,
/// or a signed invocation payload for the payer's device.
#[derive(Debug, Clone)]
pub enum PaySignature {
    /// Redirect URL of an H5 order.
    H5Url(String),
    /// QR-payload URL of a Native order.
    NativeUrl(String),
    /// Signed invocation payload of a JSAPI order.
    Jsapi(JsapiResult),
    /// Signed invocation payload of an App order.
    App(AppResult),
}

impl PayInfo {
    /// The prepay id, or empty where none was returned.
    pub open spec fn spec_prepay_id(&self) -> Seq<char> {
        match self.prepay_id {
            Some(p) => p@,
            None => Seq::empty(),
        }
    }

    /// The redirect URL, or empty where none was returned.
    pub open spec fn spec_h5_url(&self) -> Seq<char> {
        match self.h5_url {
            Some(u) => u@,
            None => Seq::empty(),
        }
    }

    /// The QR-payload URL, or empty where none was returned.
    pub open spec fn spec_code_url(&self) -> Seq<char> {
        match self.code_url {
            Some(u) => u@,
            None => Seq::empty(),
        }
    }

    /// Turns a gateway response into the value the payer's client uses.
    ///
    /// H5 and Native orders hand their URL through unchanged. JSAPI and App
    /// orders get a second, client-facing signature over the four-line
    /// canonical string of app id, fresh timestamp, fresh nonce and package;
    /// the JSAPI package is `prepay_id=<id>`, the App signature covers the
    /// raw prepay id, and on those two products the call succeeds exactly
    /// when signing succeeds. The in-person product is not supported here.
    pub fn signature(&self, wechat_sdk: &WechatV3PayConfig) -> (r: RPayResult<PaySignature>)
        ensures
            self.pay_type is H5 ==> (r matches Ok(PaySignature::H5Url(u)) && u@
                == self.spec_h5_url()),
            self.pay_type is Native ==> (r matches Ok(PaySignature::NativeUrl(u)) && u@
                == self.spec_code_url()),
            self.pay_type is Micro ==> r matches Err(RPayError::ValidationError(_)),
            (self.pay_type is Jsapi || self.pay_type is App) ==> (r is Ok <==> (pkcs8_key_parses(
                wechat_sdk.spec_private_key(),
            ) && rsa_sign_ok(wechat_sdk.spec_private_key()))),
            (self.pay_type is Jsapi || self.pay_type is App) ==> ((r matches Err(
                RPayError::KeyError(_),
            )) <==> !pkcs8_key_parses(wechat_sdk.spec_private_key())),
            (self.pay_type is Jsapi || self.pay_type is App) && (r is Err) ==> (r matches Err(
                e,
            ) && (e is KeyError || e is SignError)),
            self.pay_type is Jsapi && (r matches Ok(v)) ==> (r matches Ok(v) && v matches PaySignature::Jsapi(j) && {
                &&& j.app_id@ == wechat_sdk.app_id@
                &&& j.prepay_id@ == self.spec_prepay_id()
                &&& j.package@ == "prepay_id="@ + self.spec_prepay_id()
                &&& j.sign_type@ == "RSA"@
                &&& j.nonce_str@.len() == 32
                &&& j.pay_sign@ == base64_chars(
                    rsa_sha256_signature(
                        wechat_sdk.spec_private_key(),
                        vstd::utf8::encode_utf8(
                            client_sign_chars(j.app_id@, j.time_stamp@, j.nonce_str@, j.package@),
                        ),
                    ),
                )
            }),
            self.pay_type is App && (r matches Ok(v)) ==> (r matches Ok(v) && v matches PaySignature::App(a) && {
                &&& a.appid@ == wechat_sdk.app_id@
                &&& a.partner_id@ == wechat_sdk.mch_id@
                &&& a.prepay_id@ == self.spec_prepay_id()
                &&& a.package_value@ == "Sign=WXPay"@
                &&& a.nonce_str@.len() == 32
                &&& a.sign@ == base64_chars(
                    rsa_sha256_signature(
                        wechat_sdk.spec_private_key(),
                        vstd::utf8::encode_utf8(
                            client_sign_chars(a.appid@, a.time_stamp@, a.nonce_str@, a.prepay_id@),
                        ),
                    ),
                )
            }),
            r matches Err(e) ==> (e is KeyError || e is SignError || e is ValidationError),
    {
        let timestamp = i64_to_dec_string(now_unix_seconds());
        let nonce_str = fresh_upper_nonce();
        match self.pay_type {
            PayType::H5 => {
                let url = match &self.h5_url {
                    Some(u) => u.clone(),
                    None => String::new(),
                };
                proof {
                    assert(url@ =~= self.spec_h5_url());
                }
                Ok(PaySignature::H5Url(url))
            },
            PayType::Native => {
                let url = match &self.code_url {
                    Some(u) => u.clone(),
                    None => String::new(),
                };
                proof {
                    assert(url@ =~= self.spec_code_url());
                }
                Ok(PaySignature::NativeUrl(url))
            },
            PayType::Jsapi => {
                let prepay_id = match &self.prepay_id {
                    Some(p) => p.clone(),
                    None => String::new(),
                };
                proof {
                    assert(prepay_id@ =~= self.spec_prepay_id());
                }
                let mut package = String::from_str("prepay_id=");
                package.append(prepay_id.as_str());
                let sign_source = build_client_sign_string(
                    wechat_sdk.app_id.as_str(),
                    timestamp.as_str(),
                    nonce_str.as_str(),
                    package.as_str(),
                );
                let pem = String::from_str(wechat_sdk.private_key_or_empty());
                let pay_sign = match sha256_sign(pem, sign_source) {
                    Ok(s) => s,
                    Err(e) => {
                        return Err(e);
                    },
                };
                Ok(
                    PaySignature::Jsapi(
                        JsapiResult {
                            app_id: wechat_sdk.app_id.clone(),
                            time_stamp: timestamp,
                            nonce_str,
                            prepay_id,
                            package,
                            sign_type: String::from_str("RSA"),
                            pay_sign,
                        },
                    ),
                )
            },
            PayType::App => {
                let prepay_id = match &self.prepay_id {
                    Some(p) => p.clone(),
                    None => String::new(),
                };
                proof {
                    assert(prepay_id@ =~= self.spec_prepay_id());
                }
                let sign_source = build_client_sign_string(
                    wechat_sdk.app_id.as_str(),
                    timestamp.as_str(),
                    nonce_str.as_str(),
                    prepay_id.as_str(),
                );
                let pem = String::from_str(wechat_sdk.private_key_or_empty());
                let sign = match sha256_sign(pem, sign_source) {
                    Ok(s) => s,
                    Err(e) => {
                        return Err(e);
                    },
                };
                Ok(
                    PaySignature::App(
                        AppResult {
                            partner_id: wechat_sdk.mch_id.clone(),
                            appid: wechat_sdk.app_id.clone(),
                            time_stamp: timestamp,
                            nonce_str,
                            package_value: String::from_str("Sign=WXPay"),
                            prepay_id,
                            sign,
                        },
                    ),
                )
            },
            PayType::Micro => Err(
                RPayError::ValidationError(
                    String::from_str("the in-person product is not supported"),
                ),
            ),
        }
    }
}

} // verus!
