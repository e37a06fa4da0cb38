use vstd::prelude::*;
use crate::canonical::{auth_header_chars, canonical_request_chars};
use crate::common::{HttpMethod, RPayResponse};
use crate::constant::{MCH_HOST, V3_PAY_TRANSACTIONS_H5};
use crate::errors::{RPayError, RPayResult};
use crate::json::{
    append_json_string, append_opt_bool_member, append_opt_str_member, json_string_chars,
    opt_bool_member_chars, opt_str_member_chars,
};
use crate::model::{Amount, Detail, SettleInfo, StoreInfo};
use crate::pay::config::WechatV3PayConfig;
use crate::pay::validate::{
    amount_wf, base_fields_wf, check_amount, check_base_fields, check_detail,
    check_opt_len_at_most, check_store, detail_wf, opt_len_at_most, store_wf,
};
use crate::request::Request;
use crate::utils::{base64_chars, pkcs8_key_parses, rsa_sha256_signature, rsa_sign_ok};
use crate::wire::{
    amount_json_chars, append_amount_json, append_detail_json, append_settle_info_json,
    append_store_info_json, detail_json_chars, settle_info_json_chars, store_info_json_chars,
};

verus! {

/// The browser-side scene block of an H5 order.
#[derive(Debug, Clone)]
pub struct H5ReqSceneInfo {
    /// Client IP of the payer's terminal.
    pub payer_client_ip: String,
    /// Device number of the merchant terminal.
    pub device_id: Option<String>,
    /// The store the payment happens at.
    pub store_info: Option<StoreInfo>,
    /// The H5-specific sub-block; required for this product.
    pub h5_info: H5Info,
}

/// The H5-specific scene sub-block.
#[derive(Debug, Clone)]
pub struct H5Info {
    /// Scene type tag.
    pub h5_type: String,
    /// Application name.
    pub app_name: Option<String>,
    /// Site URL.
    pub app_url: Option<String>,
    /// Bundle id on iOS.
    pub bundle_id: Option<String>,
    /// Package name on Android.
    pub package_name: Option<String>,
}

/// The wire form of the H5 scene sub-block; its type tag is written under
/// the key `type`.
pub open spec fn h5_info_json_chars(h: H5Info) -> Seq<char> {
    ("{\"type\":")@ + json_string_chars(h.h5_type@) + opt_str_member_chars(
        (",\"app_name\":")@,
        h.app_name,
    ) + opt_str_member_chars((",\"app_url\":")@, h.app_url) + opt_str_member_chars(
        (",\"bundle_id\":")@,
        h.bundle_id,
    ) + opt_str_member_chars((",\"package_name\":")@, h.package_name) + ("}")@
}

/// Appends the wire form of the H5 scene sub-block.
pub fn append_h5_info_json(out: &mut String, h: &H5Info)
    ensures
        final(out)@ == old(out)@ + h5_info_json_chars(*h),
{
    out.append("{\"type\":");
    append_json_string(out, h.h5_type.as_str());
    append_opt_str_member(out, ",\"app_name\":", &h.app_name);
    append_opt_str_member(out, ",\"app_url\":", &h.app_url);
    append_opt_str_member(out, ",\"bundle_id\":", &h.bundle_id);
    append_opt_str_member(out, ",\"package_name\":", &h.package_name);
    out.append("}");
    proof {
        assert(out@ =~= old(out)@ + h5_info_json_chars(*h));
    }
}

/// The wire form of the H5 scene block.
pub open spec fn h5_scene_json_chars(s: H5ReqSceneInfo) -> Seq<char> {
    ("{\"payer_client_ip\":")@ + json_string_chars(s.payer_client_ip@) + opt_str_member_chars(
        (",\"device_id\":")@,
        s.device_id,
    ) + (match s.store_info {
        Some(st) => (",\"store_info\":")@ + store_info_json_chars(st),
        None => Seq::empty(),
    }) + (",\"h5_info\":")@ + h5_info_json_chars(s.h5_info) + ("}")@
}

/// Appends the wire form of the H5 scene block.
pub fn append_h5_scene_json(out: &mut String, s: &H5ReqSceneInfo)
    ensures
        final(out)@ == old(out)@ + h5_scene_json_chars(*s),
{
    out.append("{\"payer_client_ip\":");
    append_json_string(out, s.payer_client_ip.as_str());
    append_opt_str_member(out, ",\"device_id\":", &s.device_id);
    match &s.store_info {
        Some(st) => {
            out.append(",\"store_info\":");
            append_store_info_json(out, st);
        },
        None => {},
    }
    out.append(",\"h5_info\":");
    append_h5_info_json(out, &s.h5_info);
    out.append("}");
    proof {
        assert(out@ =~= old(out)@ + h5_scene_json_chars(*s));
    }
}

/// The H5 scene block is well formed when the client IP is present, the
/// scene type tag is present, and every text is within its ceiling.
pub open spec fn h5_scene_wf(s: H5ReqSceneInfo) -> bool {
    &&& 1 <= s.payer_client_ip@.len() <= 45
    &&& opt_len_at_most(s.device_id, 32)
    &&& match s.store_info {
        Some(st) => store_wf(st),
        None => true,
    }
    &&& 1 <= s.h5_info.h5_type@.len() <= 32
}

pub fn check_h5_scene(s: &H5ReqSceneInfo) -> (r: bool)
    ensures
        r == h5_scene_wf(*s),
{
    let li = s.payer_client_ip.as_str().unicode_len();
    let lt = s.h5_info.h5_type.as_str().unicode_len();
    let store_ok = match &s.store_info {
        Some(st) => check_store(st),
        None => true,
    };
    1 <= li && li <= 45 && check_opt_len_at_most(&s.device_id, 32) && store_ok && 1 <= lt && lt
        <= 32
}

/// An order-creation request of the H5 product. The scene block with its H5
/// sub-block is required: without it validation fails and nothing is signed
/// or sent.
#[derive(Debug, Clone)]
pub struct H5Pay {
    /// Application identifier; overwritten from the configuration.
    pub app_id: String,
    /// Merchant identifier; overwritten from the configuration.
    pub mch_id: String,
    /// Description of the goods.
    pub description: String,
    /// Order number on the merchant side.
    pub out_trade_no: String,
    /// When the order expires, in RFC 3339 form.
    pub time_expire: Option<String>,
    /// Attached data, echoed in queries and notifications.
    pub attach: Option<String>,
    /// Notification callback URL; overwritten from the configuration.
    pub notify_url: String,
    /// Order discount tag.
    pub goods_tag: Option<String>,
    /// Whether electronic invoicing is offered.
    pub support_fapiao: Option<bool>,
    /// Order amount.
    pub amount: Amount,
    /// Discount detail block.
    pub detail: Option<Detail>,
    /// Scene description; required for this product.
    pub scene_info: Option<H5ReqSceneInfo>,
    /// Settlement options.
    pub settle_info: Option<SettleInfo>,
}

impl H5Pay {
    /// An H5 request is well formed when the shared order fields are within
    /// their ceilings, the amount and the required scene block are well
    /// formed, and the optional detail block, when present, is well formed.
    pub open spec fn wf(self) -> bool {
        &&& base_fields_wf(
            self.app_id@,
            self.mch_id@,
            self.description@,
            self.out_trade_no@,
            self.time_expire,
            self.attach,
            self.notify_url@,
            self.goods_tag,
        )
        &&& amount_wf(self.amount)
        &&& match self.scene_info {
            Some(s) => h5_scene_wf(s),
            None => false,
        }
        &&& match self.detail {
            Some(d) => detail_wf(d),
            None => true,
        }
    }

    /// Checks the request; a request without its scene block, or with a
    /// field over its ceiling, is rejected before anything is signed or
    /// sent.
    pub fn validate(&self) -> (r: RPayResult<()>)
        ensures
            r is Ok <==> self.wf(),
            r matches Err(e) ==> e is ValidationError,
    {
        let base_ok = check_base_fields(
            self.app_id.as_str(),
            self.mch_id.as_str(),
            self.description.as_str(),
            self.out_trade_no.as_str(),
            &self.time_expire,
            &self.attach,
            self.notify_url.as_str(),
            &self.goods_tag,
        );
        let scene_ok = match &self.scene_info {
            Some(s) => check_h5_scene(s),
            None => false,
        };
        let detail_ok = match &self.detail {
            Some(d) => check_detail(d),
            None => true,
        };
        if base_ok && check_amount(&self.amount) && scene_ok && detail_ok {
            Ok(())
        } else {
            Err(
                RPayError::ValidationError(
                    String::from_str("the H5 request has a missing or oversized field"),
                ),
            )
        }
    }

    /// The exact wire body of the request: compact JSON, fields in their
    /// fixed order, absent optional blocks omitted.
    pub open spec fn wire_chars(self) -> Seq<char> {
        ("{\"appid\":")@ + json_string_chars(self.app_id@) + (",\"mchid\":")@ + json_string_chars(
            self.mch_id@,
        ) + (",\"description\":")@ + json_string_chars(self.description@) + (",\"out_trade_no\":")@
            + json_string_chars(self.out_trade_no@) + opt_str_member_chars(
            (",\"time_expire\":")@,
            self.time_expire,
        ) + opt_str_member_chars((",\"attach\":")@, self.attach) + (",\"notify_url\":")@
            + json_string_chars(self.notify_url@) + opt_str_member_chars(
            (",\"goods_tag\":")@,
            self.goods_tag,
        ) + opt_bool_member_chars((",\"support_fapiao\":")@, self.support_fapiao)
            + (",\"amount\":")@ + amount_json_chars(self.amount) + (match self.detail {
            Some(d) => (",\"detail\":")@ + detail_json_chars(d),
            None => Seq::empty(),
        }) + (match self.scene_info {
            Some(s) => (",\"scene_info\":")@ + h5_scene_json_chars(s),
            None => Seq::empty(),
        }) + (match self.settle_info {
            Some(s) => (",\"settle_info\":")@ + settle_info_json_chars(s),
            None => Seq::empty(),
        }) + ("}")@
    }

    /// Serializes the request to its wire body.
    #[verifier::rlimit(100)]
    pub fn to_wire_body(&self) -> (r: String)
        ensures
            r@ == self.wire_chars(),
    {
        let mut out = String::new();
        out.append("{\"appid\":");
        append_json_string(&mut out, self.app_id.as_str());
        out.append(",\"mchid\":");
        append_json_string(&mut out, self.mch_id.as_str());
        out.append(",\"description\":");
        append_json_string(&mut out, self.description.as_str());
        out.append(",\"out_trade_no\":");
        append_json_string(&mut out, self.out_trade_no.as_str());
        append_opt_str_member(&mut out, ",\"time_expire\":", &self.time_expire);
        append_opt_str_member(&mut out, ",\"attach\":", &self.attach);
        out.append(",\"notify_url\":");
        append_json_string(&mut out, self.notify_url.as_str());
        append_opt_str_member(&mut out, ",\"goods_tag\":", &self.goods_tag);
        append_opt_bool_member(&mut out, ",\"support_fapiao\":", &self.support_fapiao);
        out.append(",\"amount\":");
        append_amount_json(&mut out, &self.amount);
        match &self.detail {
            Some(d) => {
                out.append(",\"detail\":");
                append_detail_json(&mut out, d);
            },
            None => {},
        }
        match &self.scene_info {
            Some(s) => {
                out.append(",\"scene_info\":");
                append_h5_scene_json(&mut out, s);
            },
            None => {},
        }
        match &self.settle_info {
            Some(s) => {
                out.append(",\"settle_info\":");
                append_settle_info_json(&mut out, s);
            },
            None => {},
        }
        out.append("}");
        proof {
            assert(out@ =~= self.wire_chars());
        }
        out
    }

    /// Prepares the signed order-creation request: overwrites the merchant
    /// fields from the configuration, validates, serializes, and signs. An
    /// invalid request is rejected before anything is signed; a valid one
    /// succeeds exactly when signing succeeds.
    pub fn prepare(&mut self, wechat_sdk: &WechatV3PayConfig) -> (r: RPayResult<Request>)
        ensures
            final(self).app_id@ == wechat_sdk.app_id@,
            final(self).mch_id@ == wechat_sdk.mch_id@,
            final(self).notify_url@ == wechat_sdk.spec_notify_url(),
            final(self).description == old(self).description,
            final(self).out_trade_no == old(self).out_trade_no,
            final(self).time_expire == old(self).time_expire,
            final(self).attach == old(self).attach,
            final(self).goods_tag == old(self).goods_tag,
            final(self).support_fapiao == old(self).support_fapiao,
            final(self).amount == old(self).amount,
            final(self).detail == old(self).detail,
            final(self).scene_info == old(self).scene_info,
            final(self).settle_info == old(self).settle_info,
            !final(self).wf() ==> r matches Err(RPayError::ValidationError(_)),
            r is Ok <==> (final(self).wf() && pkcs8_key_parses(wechat_sdk.spec_private_key())
                && rsa_sign_ok(wechat_sdk.spec_private_key())),
            (r matches Err(RPayError::KeyError(_))) <==> (final(self).wf() && !pkcs8_key_parses(
                wechat_sdk.spec_private_key(),
            )),
            r matches Ok(req) ==> {
                &&& req.method is POST
                &&& req.url@ == MCH_HOST@ + V3_PAY_TRANSACTIONS_H5@
                &&& req.body matches Some(b) && b@ == final(self).wire_chars()
                &&& req.headers matches Some(h) && {
                    &&& h.authorization@ == auth_header_chars(
                        wechat_sdk.mch_id@,
                        h.nonce@,
                        base64_chars(
                            rsa_sha256_signature(
                                wechat_sdk.spec_private_key(),
                                vstd::utf8::encode_utf8(
                                    canonical_request_chars(
                                        HttpMethod::POST.spec_str(),
                                        V3_PAY_TRANSACTIONS_H5@,
                                        h.timestamp as int,
                                        h.nonce@,
                                        final(self).wire_chars(),
                                    ),
                                ),
                            ),
                        ),
                        h.timestamp as int,
                        wechat_sdk.spec_serial_no(),
                    )
                }
            },
            r matches Err(e) ==> (e is ValidationError || e is KeyError || e is SignError),
    {
        self.app_id = wechat_sdk.app_id.clone();
        self.mch_id = wechat_sdk.mch_id.clone();
        self.notify_url = match &wechat_sdk.notify_url {
            Some(u) => u.clone(),
            None => String::new(),
        };
        proof {
            assert(self.notify_url@ =~= wechat_sdk.spec_notify_url());
        }
        match self.validate() {
            Ok(()) => {},
            Err(e) => {
                return Err(e);
            },
        }
        let body = self.to_wire_body();
        Request::build_pay_request(wechat_sdk, HttpMethod::POST, V3_PAY_TRANSACTIONS_H5, body)
    }
}

/// The gateway's response to an H5 order creation.
#[derive(Debug, Clone)]
pub struct H5Response {
    /// Error code, present when the gateway refused the order.
    pub code: Option<String>,
    /// Error description, present when the gateway refused the order.
    pub message: Option<String>,
    /// The redirect URL, directly usable by the caller.
    pub h5_url: Option<String>,
}

impl RPayResponse for H5Response {
}

} // verus!
