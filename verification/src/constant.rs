use vstd::prelude::*;

verus! {

pub const ACCEPT: &'static str = "Accept";

pub const AUTHORIZATION: &'static str = "Authorization";

pub const TIMEOUT: u64 = 30;

/// Host of the payment gateway.
pub const MCH_HOST: &'static str = "https://api.mch.weixin.qq.com";

pub const V3_PAY_TRANSACTIONS_JS_API: &'static str = "/v3/pay/transactions/jsapi";

pub const V3_PAY_TRANSACTIONS_H5: &'static str = "/v3/pay/transactions/h5";

pub const V3_PAY_TRANSACTIONS_APP: &'static str = "/v3/pay/transactions/app";

pub const V3_PAY_TRANSACTIONS_NATIVE: &'static str = "/v3/pay/transactions/native";

pub const V3_REFUND_DOMESTIC_REFUNDS: &'static str = "/v3/refund/domestic/refunds";

/// Token endpoint of the account platform.
pub const CGI_BIN_TOKEN_WECHAT_HOST: &'static str = "https://api.weixin.qq.com/cgi-bin/token";

/// Host of the template management endpoints.
pub const NEW_TMPL_HOST: &'static str = "https://api.weixin.qq.com/wxaapi/newtmpl";

pub const MESSAGE_HOST: &'static str = "https://api.weixin.qq.com/cgi-bin/message";

pub const MESSAGE_SEND: &'static str = "/subscribe/send?access_token=";

} // verus!
