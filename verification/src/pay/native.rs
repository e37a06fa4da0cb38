use vstd::prelude::*;
use crate::canonical::{auth_header_chars, canonical_request_chars};
use crate::common::{HttpMethod, RPayResponse};
use crate::constant::{MCH_HOST, V3_PAY_TRANSACTIONS_NATIVE};
use crate::errors::{RPayError, RPayResult};
use crate::json::{
    append_json_string, append_opt_bool_member, append_opt_str_member, json_string_chars,
    opt_bool_member_chars, opt_str_member_chars,
};
use crate::model::{Amount, Detail, SceneInfo, SettleInfo};
use crate::pay::config::WechatV3PayConfig;
use crate::pay::validate::{
    amount_wf, base_fields_wf, check_amount, check_base_fields, check_detail, check_scene,
    detail_wf, scene_wf,
};
use crate::request::Request;
use crate::utils::{base64_chars, pkcs8_key_parses, rsa_sha256_signature, rsa_sign_ok};
use crate::wire::{
    amount_json_chars, append_amount_json, append_detail_json, append_scene_info_json,
    append_settle_info_json, detail_json_chars, scene_info_json_chars, settle_info_json_chars,
};

verus! {

/// An order-creation request of the Native product: the gateway answers
/// with a QR-payload URL, and no payer identity is required.
#[derive(Debug, Clone)]
pub struct NativePay {
    /// Application identifier; overwritten from the configuration.
    pub app_id: String,
    /// Merchant identifier; overwritten from the configuration.
    pub mch_id: String,
    /// Description of the goods.
    pub description: String,
    /// Order number on the merchant side.
    pub out_trade_no: String,
    /// When the order expires, in RFC 3339 form.
    pub time_expire: Option<String>,
    /// Attached data, echoed in queries and notifications.
    pub attach: Option<String>,
    /// Notification callback URL; overwritten from the configuration.
    pub notify_url: String,
    /// Order discount tag.
    pub goods_tag: Option<String>,
    /// Whether electronic invoicing is offered.
    pub support_fapiao: Option<bool>,
    /// Order amount.
    pub amount: Amount,
    /// Discount detail block.
    pub detail: Option<Detail>,
    /// Scene description.
    pub scene_info: Option<SceneInfo>,
    /// Settlement options.
    pub settle_info: Option<SettleInfo>,
}

impl NativePay {
    /// A Native request is well formed when the shared order fields are
    /// within their ceilings, the amount is well formed, and each optional
    /// block present is well formed.
    pub open spec fn wf(self) -> bool {
        &&& base_fields_wf(
            self.app_id@,
            self.mch_id@,
            self.description@,
            self.out_trade_no@,
            self.time_expire,
            self.attach,
            self.notify_url@,
            self.goods_tag,
        )
        &&& amount_wf(self.amount)
        &&& match self.detail {
            Some(d) => detail_wf(d),
            None => true,
        }
        &&& match self.scene_info {
            Some(s) => scene_wf(s),
            None => true,
        }
    }

    /// Checks the request; a request with a field over its ceiling is
    /// rejected before anything is signed or sent.
    pub fn validate(&self) -> (r: RPayResult<()>)
        ensures
            r is Ok <==> self.wf(),
            r matches Err(e) ==> e is ValidationError,
    {
        let base_ok = check_base_fields(
            self.app_id.as_str(),
            self.mch_id.as_str(),
            self.description.as_str(),
            self.out_trade_no.as_str(),
            &self.time_expire,
            &self.attach,
            self.notify_url.as_str(),
            &self.goods_tag,
        );
        let detail_ok = match &self.detail {
            Some(d) => check_detail(d),
            None => true,
        };
        let scene_ok = match &self.scene_info {
            Some(s) => check_scene(s),
            None => true,
        };
        if base_ok && check_amount(&self.amount) && detail_ok && scene_ok {
            Ok(())
        } else {
            Err(
                RPayError::ValidationError(
                    String::from_str("the Native request has an oversized field"),
                ),
            )
        }
    }

    /// The exact wire body of the request: compact JSON, fields in their
    /// fixed order, absent optional blocks omitted.
    pub open spec fn wire_chars(self) -> Seq<char> {
        ("{\"appid\":")@ + json_string_chars(self.app_id@) + (",\"mchid\":")@ + json_string_chars(
            self.mch_id@,
        ) + (",\"description\":")@ + json_string_chars(self.description@) + (",\"out_trade_no\":")@
            + json_string_chars(self.out_trade_no@) + opt_str_member_chars(
            (",\"time_expire\":")@,
            self.time_expire,
        ) + opt_str_member_chars((",\"attach\":")@, self.attach) + (",\"notify_url\":")@
            + json_string_chars(self.notify_url@) + opt_str_member_chars(
            (",\"goods_tag\":")@,
            self.goods_tag,
        ) + opt_bool_member_chars((",\"support_fapiao\":")@, self.support_fapiao)
            + (",\"amount\":")@ + amount_json_chars(self.amount) + (match self.detail {
            Some(d) => (",\"detail\":")@ + detail_json_chars(d),
            None => Seq::empty(),
        }) + (match self.scene_info {
            Some(s) => (",\"scene_info\":")@ + scene_info_json_chars(s),
            None => Seq::empty(),
        }) + (match self.settle_info {
            Some(s) => (",\"settle_info\":")@ + settle_info_json_chars(s),
            None => Seq::empty(),
        }) + ("}")@
    }

    /// Serializes the request to its wire body.
    #[verifier::rlimit(100)]
    pub fn to_wire_body(&self) -> (r: String)
        ensures
            r@ == self.wire_chars(),
    {
        let mut out = String::new();
        out.append("{\"appid\":");
        append_json_string(&mut out, self.app_id.as_str());
        out.append(",\"mchid\":");
        append_json_string(&mut out, self.mch_id.as_str());
        out.append(",\"description\":");
        append_json_string(&mut out, self.description.as_str());
        out.append(",\"out_trade_no\":");
        append_json_string(&mut out, self.out_trade_no.as_str());
        append_opt_str_member(&mut out, ",\"time_expire\":", &self.time_expire);
        append_opt_str_member(&mut out, ",\"attach\":", &self.attach);
        out.append(",\"notify_url\":");
        append_json_string(&mut out, self.notify_url.as_str());
        append_opt_str_member(&mut out, ",\"goods_tag\":", &self.goods_tag);
        append_opt_bool_member(&mut out, ",\"support_fapiao\":", &self.support_fapiao);
        out.append(",\"amount\":");
        append_amount_json(&mut out, &self.amount);
        match &self.detail {
            Some(d) => {
                out.append(",\"detail\":");
                append_detail_json(&mut out, d);
            },
            None => {},
        }
        match &self.scene_info {
            Some(s) => {
                out.append(",\"scene_info\":");
                append_scene_info_json(&mut out, s);
            },
            None => {},
        }
        match &self.settle_info {
            Some(s) => {
                out.append(",\"settle_info\":");
                append_settle_info_json(&mut out, s);
            },
            None => {},
        }
        out.append("}");
        proof {
            assert(out@ =~= self.wire_chars());
        }
        out
    }

    /// Prepares the signed order-creation request: overwrites the merchant
    /// fields from the configuration, validates, serializes, and signs. An
    /// invalid request is rejected before anything is signed; a valid one
    /// succeeds exactly when signing succeeds.
    pub fn prepare(&mut self, wechat_sdk: &WechatV3PayConfig) -> (r: RPayResult<Request>)
        ensures
            final(self).app_id@ == wechat_sdk.app_id@,
            final(self).mch_id@ == wechat_sdk.mch_id@,
            final(self).notify_url@ == wechat_sdk.spec_notify_url(),
            final(self).description == old(self).description,
            final(self).out_trade_no == old(self).out_trade_no,
            final(self).time_expire == old(self).time_expire,
            final(self).attach == old(self).attach,
            final(self).goods_tag == old(self).goods_tag,
            final(self).support_fapiao == old(self).support_fapiao,
            final(self).amount == old(self).amount,
            final(self).detail == old(self).detail,
            final(self).scene_info == old(self).scene_info,
            final(self).settle_info == old(self).settle_info,
            !final(self).wf() ==> r matches Err(RPayError::ValidationError(_)),
            r is Ok <==> (final(self).wf() && pkcs8_key_parses(wechat_sdk.spec_private_key())
                && rsa_sign_ok(wechat_sdk.spec_private_key())),
            (r matches Err(RPayError::KeyError(_))) <==> (final(self).wf() && !pkcs8_key_parses(
                wechat_sdk.spec_private_key(),
            )),
            r matches Ok(req) ==> {
                &&& req.method is POST
                &&& req.url@ == MCH_HOST@ + V3_PAY_TRANSACTIONS_NATIVE@
                &&& req.body matches Some(b) && b@ == final(self).wire_chars()
                &&& req.headers matches Some(h) && {
                    &&& h.authorization@ == auth_header_chars(
                        wechat_sdk.mch_id@,
                        h.nonce@,
                        base64_chars(
                            rsa_sha256_signature(
                                wechat_sdk.spec_private_key(),
                                vstd::utf8::encode_utf8(
                                    canonical_request_chars(
                                        HttpMethod::POST.spec_str(),
                                        V3_PAY_TRANSACTIONS_NATIVE@,
                                        h.timestamp as int,
                                        h.nonce@,
                                        final(self).wire_chars(),
                                    ),
                                ),
                            ),
                        ),
                        h.timestamp as int,
                        wechat_sdk.spec_serial_no(),
                    )
                }
            },
            r matches Err(e) ==> (e is ValidationError || e is KeyError || e is SignError),
    {
        self.app_id = wechat_sdk.app_id.clone();
        self.mch_id = wechat_sdk.mch_id.clone();
        self.notify_url = match &wechat_sdk.notify_url {
            Some(u) => u.clone(),
            None => String::new(),
        };
        proof {
            assert(self.notify_url@ =~= wechat_sdk.spec_notify_url());
        }
        match self.validate() {
            Ok(()) => {},
            Err(e) => {
                return Err(e);
            },
        }
        let body = self.to_wire_body();
        Request::build_pay_request(wechat_sdk, HttpMethod::POST, V3_PAY_TRANSACTIONS_NATIVE, body)
    }
}

/// The gateway's response to a Native order creation.
#[derive(Debug, Clone)]
pub struct NativeResponse {
    /// Error code, present when the gateway refused the order.
    pub code: Option<String>,
    /// Error description, present when the gateway refused the order.
    pub message: Option<String>,
    /// The QR-payload URL, directly usable by the caller.
    pub code_url: Option<String>,
}

impl RPayResponse for NativeResponse {
}

} // verus!
