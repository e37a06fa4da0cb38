use vstd::prelude::*;
use crate::canonical::{auth_header_chars, canonical_request_chars};
use crate::common::{HttpMethod, RPayResponse};
use crate::constant::{MCH_HOST, V3_REFUND_DOMESTIC_REFUNDS};
use crate::errors::{RPayError, RPayResult};
use crate::json::{
    append_json_i64, append_json_string, append_json_u64, append_opt_str_member,
    json_string_chars, opt_str_member_chars,
};
use crate::numfmt::dec_chars;
use crate::pay::config::WechatV3PayConfig;
use crate::pay::validate::{check_opt_len_at_most, opt_len_at_most};
use crate::request::Request;
use crate::utils::{base64_chars, pkcs8_key_parses, rsa_sha256_signature, rsa_sign_ok};

verus! {

/// One item of goods a refund covers.
#[derive(Debug, Clone)]
pub struct GoodsDetail {
    /// Goods code on the merchant side.
    pub merchant_goods_id: String,
    /// Goods code on the gateway side.
    pub wechatpay_goods_id: Option<String>,
    /// Name of the goods.
    pub goods_name: Option<String>,
    /// Unit price in minor units.
    pub unit_price: u64,
    /// Refunded amount for this item, in minor units.
    pub refund_amount: u64,
    /// How many of the item are returned.
    pub refund_quantity: u64,
}

/// One funding account a refund draws from.
#[derive(Debug, Clone)]
pub struct FundsFromItem {
    /// The account type.
    pub account: String,
    /// Amount drawn from this account, in minor units.
    pub amount: u64,
}

/// The amount block of a refund request.
#[derive(Debug, Clone)]
pub struct AmountReq {
    /// Amount to refund, in minor units; cannot exceed the original total.
    pub refund: i64,
    /// The funding accounts, where the refund draws from named accounts.
    pub from: Option<Vec<FundsFromItem>>,
    /// Total of the original order, in minor units.
    pub total: i64,
    /// Three-letter currency code; domestic merchants use CNY only.
    pub currency: String,
}

/// A domestic refund request.
#[derive(Debug, Clone)]
pub struct Refunds {
    /// Order number on the gateway side; this or the merchant order number
    /// identifies the trade.
    pub transaction_id: Option<String>,
    /// Refund number on the merchant side.
    pub out_trade_no: String,
    /// Reason shown to the payer.
    pub reason: Option<String>,
    /// Refund notification callback URL; overwritten from the configuration.
    pub notify_url: Option<String>,
    /// Which funds the refund draws from.
    pub funds_account: Option<String>,
    /// The amount block.
    pub amount: AmountReq,
    /// The goods the refund covers.
    pub goods_detail: Option<Vec<GoodsDetail>>,
}

/// The wire form of one funding account.
pub open spec fn funds_item_json_chars(f: FundsFromItem) -> Seq<char> {
    ("{\"account\":")@ + json_string_chars(f.account@) + (",\"amount\":")@ + dec_chars(
        f.amount as int,
    ) + ("}")@
}

/// Appends the wire form of one funding account.
pub fn append_funds_item_json(out: &mut String, f: &FundsFromItem)
    ensures
        final(out)@ == old(out)@ + funds_item_json_chars(*f),
{
    out.append("{\"account\":");
    append_json_string(out, f.account.as_str());
    out.append(",\"amount\":");
    append_json_u64(out, f.amount);
    out.append("}");
    proof {
        assert(out@ =~= old(out)@ + funds_item_json_chars(*f));
    }
}

/// The comma-joined wire forms of the funding accounts.
pub open spec fn funds_items_chars(v: Seq<FundsFromItem>) -> Seq<char>
    decreases v.len(),
{
    if v.len() == 0 {
        Seq::empty()
    } else if v.len() == 1 {
        funds_item_json_chars(v[0])
    } else {
        funds_item_json_chars(v[0]) + seq![','] + funds_items_chars(v.drop_first())
    }
}

proof fn lemma_funds_items_snoc(s: Seq<FundsFromItem>, x: FundsFromItem)
    ensures
        funds_items_chars(s.push(x)) == if s.len() == 0 {
            funds_item_json_chars(x)
        } else {
            funds_items_chars(s) + seq![','] + funds_item_json_chars(x)
        },
    decreases s.len(),
{
    broadcast use vstd::seq::group_seq_axioms;

    if s.len() == 0 {
        assert(s.push(x)[0] == x);
    } else if s.len() == 1 {
        assert(s.push(x)[0] == s[0]);
        assert(s.push(x).drop_first() =~= seq![x]);
        assert(funds_items_chars(seq![x]) == funds_item_json_chars(x));
        assert(funds_items_chars(s) == funds_item_json_chars(s[0]));
    } else {
        assert(s.push(x)[0] == s[0]);
        assert(s.push(x).drop_first() =~= s.drop_first().push(x));
        lemma_funds_items_snoc(s.drop_first(), x);
        assert(funds_item_json_chars(s[0]) + seq![','] + (funds_items_chars(s.drop_first())
            + seq![','] + funds_item_json_chars(x)) =~= (funds_item_json_chars(s[0]) + seq![',']
            + funds_items_chars(s.drop_first())) + seq![','] + funds_item_json_chars(x));
    }
}

/// The wire form of the funding-account list.
pub open spec fn funds_array_chars(v: Seq<FundsFromItem>) -> Seq<char> {
    seq!['['] + funds_items_chars(v) + seq![']']
}

/// Appends the wire form of the funding-account list.
pub fn append_funds_array_json(out: &mut String, v: &Vec<FundsFromItem>)
    ensures
        final(out)@ == old(out)@ + funds_array_chars(v@),
{
    out.append("[");
    let ghost mid = out@;
    let n = v.len();
    let mut i: usize = 0;
    while i < n
        invariant
            i <= n,
            n == v@.len(),
            out@ == mid + funds_items_chars(v@.take(i as int)),
        decreases n - i,
    {
        if i > 0 {
            out.append(",");
        }
        append_funds_item_json(out, &v[i]);
        proof {
            broadcast use vstd::seq::group_seq_axioms;

            reveal_strlit(",");
            assert(v@.take(i + 1) =~= v@.take(i as int).push(v@[i as int]));
            lemma_funds_items_snoc(v@.take(i as int), v@[i as int]);
            assert(out@ =~= mid + funds_items_chars(v@.take(i + 1)));
        }
        i = i + 1;
    }
    out.append("]");
    proof {
        reveal_strlit("[");
        reveal_strlit("]");
        assert(v@.take(n as int) =~= v@);
        assert(out@ =~= old(out)@ + funds_array_chars(v@));
    }
}

/// The wire form of one refunded goods item.
pub open spec fn refund_goods_json_chars(g: GoodsDetail) -> Seq<char> {
    ("{\"merchant_goods_id\":")@ + json_string_chars(g.merchant_goods_id@) + opt_str_member_chars(
        (",\"wechatpay_goods_id\":")@,
        g.wechatpay_goods_id,
    ) + opt_str_member_chars((",\"goods_name\":")@, g.goods_name) + (",\"unit_price\":")@
        + dec_chars(g.unit_price as int) + (",\"refund_amount\":")@ + dec_chars(
        g.refund_amount as int,
    ) + (",\"refund_quantity\":")@ + dec_chars(g.refund_quantity as int) + ("}")@
}

/// Appends the wire form of one refunded goods item.
pub fn append_refund_goods_json(out: &mut String, g: &GoodsDetail)
    ensures
        final(out)@ == old(out)@ + refund_goods_json_chars(*g),
{
    out.append("{\"merchant_goods_id\":");
    append_json_string(out, g.merchant_goods_id.as_str());
    append_opt_str_member(out, ",\"wechatpay_goods_id\":", &g.wechatpay_goods_id);
    append_opt_str_member(out, ",\"goods_name\":", &g.goods_name);
    out.append(",\"unit_price\":");
    append_json_u64(out, g.unit_price);
    out.append(",\"refund_amount\":");
    append_json_u64(out, g.refund_amount);
    out.append(",\"refund_quantity\":");
    append_json_u64(out, g.refund_quantity);
    out.append("}");
    proof {
        assert(out@ =~= old(out)@ + refund_goods_json_chars(*g));
    }
}

/// The comma-joined wire forms of the refunded goods.
pub open spec fn refund_goods_items_chars(v: Seq<GoodsDetail>) -> Seq<char>
    decreases v.len(),
{
    if v.len() == 0 {
        Seq::empty()
    } else if v.len() == 1 {
        refund_goods_json_chars(v[0])
    } else {
        refund_goods_json_chars(v[0]) + seq![','] + refund_goods_items_chars(v.drop_first())
    }
}

proof fn lemma_refund_goods_snoc(s: Seq<GoodsDetail>, x: GoodsDetail)
    ensures
        refund_goods_items_chars(s.push(x)) == if s.len() == 0 {
            refund_goods_json_chars(x)
        } else {
            refund_goods_items_chars(s) + seq![','] + refund_goods_json_chars(x)
        },
    decreases s.len(),
{
    broadcast use vstd::seq::group_seq_axioms;

    if s.len() == 0 {
        assert(s.push(x)[0] == x);
    } else if s.len() == 1 {
        assert(s.push(x)[0] == s[0]);
        assert(s.push(x).drop_first() =~= seq![x]);
        assert(refund_goods_items_chars(seq![x]) == refund_goods_json_chars(x));
        assert(refund_goods_items_chars(s) == refund_goods_json_chars(s[0]));
    } else {
        assert(s.push(x)[0] == s[0]);
        assert(s.push(x).drop_first() =~= s.drop_first().push(x));
        lemma_refund_goods_snoc(s.drop_first(), x);
        assert(refund_goods_json_chars(s[0]) + seq![','] + (refund_goods_items_chars(
            s.drop_first(),
        ) + seq![','] + refund_goods_json_chars(x)) =~= (refund_goods_json_chars(s[0]) + seq![',']
            + refund_goods_items_chars(s.drop_first())) + seq![','] + refund_goods_json_chars(x));
    }
}

/// The wire form of the refunded-goods list.
pub open spec fn refund_goods_array_chars(v: Seq<GoodsDetail>) -> Seq<char> {
    seq!['['] + refund_goods_items_chars(v) + seq![']']
}

/// Appends the wire form of the refunded-goods list.
pub fn append_refund_goods_array_json(out: &mut String, v: &Vec<GoodsDetail>)
    ensures
        final(out)@ == old(out)@ + refund_goods_array_chars(v@),
{
    out.append("[");
    let ghost mid = out@;
    let n = v.len();
    let mut i: usize = 0;
    while i < n
        invariant
            i <= n,
            n == v@.len(),
            out@ == mid + refund_goods_items_chars(v@.take(i as int)),
        decreases n - i,
    {
        if i > 0 {
            out.append(",");
        }
        append_refund_goods_json(out, &v[i]);
        proof {
            broadcast use vstd::seq::group_seq_axioms;

            reveal_strlit(",");
            assert(v@.take(i + 1) =~= v@.take(i as int).push(v@[i as int]));
            lemma_refund_goods_snoc(v@.take(i as int), v@[i as int]);
            assert(out@ =~= mid + refund_goods_items_chars(v@.take(i + 1)));
        }
        i = i + 1;
    }
    out.append("]");
    proof {
        reveal_strlit("[");
        reveal_strlit("]");
        assert(v@.take(n as int) =~= v@);
        assert(out@ =~= old(out)@ + refund_goods_array_chars(v@));
    }
}

/// The wire form of the refund amount block.
pub open spec fn amount_req_json_chars(a: AmountReq) -> Seq<char> {
    ("{\"refund\":")@ + dec_chars(a.refund as int) + (match a.from {
        Some(v) => (",\"from\":")@ + funds_array_chars(v@),
        None => Seq::empty(),
    }) + (",\"total\":")@ + dec_chars(a.total as int) + (",\"currency\":")@ + json_string_chars(
        a.currency@,
    ) + ("}")@
}

/// Appends the wire form of the refund amount block.
pub fn append_amount_req_json(out: &mut String, a: &AmountReq)
    ensures
        final(out)@ == old(out)@ + amount_req_json_chars(*a),
{
    out.append("{\"refund\":");
    append_json_i64(out, a.refund);
    match &a.from {
        Some(v) => {
            out.append(",\"from\":");
            append_funds_array_json(out, v);
        },
        None => {},
    }
    out.append(",\"total\":");
    append_json_i64(out, a.total);
    out.append(",\"currency\":");
    append_json_string(out, a.currency.as_str());
    out.append("}");
    proof {
        assert(out@ =~= old(out)@ + amount_req_json_chars(*a));
    }
}

/// The refund amount block is well formed when both totals are non-negative
/// integers in minor units, the refund does not exceed the original total,
/// and the currency code is present and within its ceiling.
pub open spec fn amount_req_wf(a: AmountReq) -> bool {
    &&& 0 <= a.refund
    &&& 0 <= a.total
    &&& a.refund <= a.total
    &&& 1 <= a.currency@.len() <= 16
}

pub fn check_amount_req(a: &AmountReq) -> (r: bool)
    ensures
        r == amount_req_wf(*a),
{
    let lc = a.currency.as_str().unicode_len();
    0 <= a.refund && 0 <= a.total && a.refund <= a.total && 1 <= lc && lc <= 16
}

impl Refunds {
    /// A refund request is well formed when the trade is identified (by the
    /// gateway or the merchant order number), every text is within its
    /// ceiling and the amount block is well formed.
    pub open spec fn wf(self) -> bool {
        &&& 1 <= self.out_trade_no@.len() <= 64
        &&& opt_len_at_most(self.transaction_id, 32)
        &&& opt_len_at_most(self.reason, 80)
        &&& opt_len_at_most(self.notify_url, 256)
        &&& opt_len_at_most(self.funds_account, 32)
        &&& amount_req_wf(self.amount)
    }

    /// Checks the request; a request with an oversized field or an
    /// inconsistent amount block is rejected before anything is signed or
    /// sent.
    pub fn validate(&self) -> (r: RPayResult<()>)
        ensures
            r is Ok <==> self.wf(),
            r matches Err(e) ==> e is ValidationError,
    {
        let lo = self.out_trade_no.as_str().unicode_len();
        if 1 <= lo && lo <= 64 && check_opt_len_at_most(&self.transaction_id, 32)
            && check_opt_len_at_most(&self.reason, 80) && check_opt_len_at_most(
            &self.notify_url,
            256,
        ) && check_opt_len_at_most(&self.funds_account, 32) && check_amount_req(&self.amount) {
            Ok(())
        } else {
            Err(
                RPayError::ValidationError(
                    String::from_str("the refund request has a missing or oversized field"),
                ),
            )
        }
    }

    /// The exact wire body of the request: compact JSON, fields in their
    /// fixed order, absent optional members omitted.
    pub open spec fn wire_chars(self) -> Seq<char> {
        ("{")@ + (match self.transaction_id {
            Some(t) => ("\"transaction_id\":")@ + json_string_chars(t@) + (",")@,
            None => Seq::empty(),
        }) + ("\"out_trade_no\":")@ + json_string_chars(self.out_trade_no@) + opt_str_member_chars(
            (",\"reason\":")@,
            self.reason,
        ) + opt_str_member_chars((",\"notify_url\":")@, self.notify_url) + opt_str_member_chars(
            (",\"funds_account\":")@,
            self.funds_account,
        ) + (",\"amount\":")@ + amount_req_json_chars(self.amount) + (match self.goods_detail {
            Some(v) => (",\"goods_detail\":")@ + refund_goods_array_chars(v@),
            None => Seq::empty(),
        }) + ("}")@
    }

    /// Serializes the request to its wire body.
    #[verifier::rlimit(100)]
    pub fn to_wire_body(&self) -> (r: String)
        ensures
            r@ == self.wire_chars(),
    {
        let mut out = String::new();
        out.append("{");
        match &self.transaction_id {
            Some(t) => {
                out.append("\"transaction_id\":");
                append_json_string(&mut out, t.as_str());
                out.append(",");
            },
            None => {},
        }
        out.append("\"out_trade_no\":");
        append_json_string(&mut out, self.out_trade_no.as_str());
        append_opt_str_member(&mut out, ",\"reason\":", &self.reason);
        append_opt_str_member(&mut out, ",\"notify_url\":", &self.notify_url);
        append_opt_str_member(&mut out, ",\"funds_account\":", &self.funds_account);
        out.append(",\"amount\":");
        append_amount_req_json(&mut out, &self.amount);
        match &self.goods_detail {
            Some(v) => {
                out.append(",\"goods_detail\":");
                append_refund_goods_array_json(&mut out, v);
            },
            None => {},
        }
        out.append("}");
        proof {
            assert(out@ =~= self.wire_chars());
        }
        out
    }

    /// Prepares the signed refund request: overwrites the notification URL
    /// from the configuration's refund callback, validates, serializes, and
    /// signs. An invalid request is rejected before anything is signed; a
    /// valid one succeeds exactly when signing succeeds.
    pub fn prepare(&mut self, wechat_sdk: &WechatV3PayConfig) -> (r: RPayResult<Request>)
        ensures
            final(self).notify_url == wechat_sdk.refund_notify_url,
            final(self).transaction_id == old(self).transaction_id,
            final(self).out_trade_no == old(self).out_trade_no,
            final(self).reason == old(self).reason,
            final(self).funds_account == old(self).funds_account,
            final(self).amount == old(self).amount,
            final(self).goods_detail == old(self).goods_detail,
            !final(self).wf() ==> r matches Err(RPayError::ValidationError(_)),
            r is Ok <==> (final(self).wf() && pkcs8_key_parses(wechat_sdk.spec_private_key())
                && rsa_sign_ok(wechat_sdk.spec_private_key())),
            (r matches Err(RPayError::KeyError(_))) <==> (final(self).wf() && !pkcs8_key_parses(
                wechat_sdk.spec_private_key(),
            )),
            r matches Ok(req) ==> {
                &&& req.method is POST
                &&& req.url@ == MCH_HOST@ + V3_REFUND_DOMESTIC_REFUNDS@
                &&& req.body matches Some(b) && b@ == final(self).wire_chars()
                &&& req.headers matches Some(h) && {
                    &&& h.authorization@ == auth_header_chars(
                        wechat_sdk.mch_id@,
                        h.nonce@,
                        base64_chars(
                            rsa_sha256_signature(
                                wechat_sdk.spec_private_key(),
                                vstd::utf8::encode_utf8(
                                    canonical_request_chars(
                                        HttpMethod::POST.spec_str(),
                                        V3_REFUND_DOMESTIC_REFUNDS@,
                                        h.timestamp as int,
                                        h.nonce@,
                                        final(self).wire_chars(),
                                    ),
                                ),
                            ),
                        ),
                        h.timestamp as int,
                        wechat_sdk.spec_serial_no(),
                    )
                }
            },
            r matches Err(e) ==> (e is ValidationError || e is KeyError || e is SignError),
    {
        self.notify_url = wechat_sdk.refund_notify_url.clone();
        match self.validate() {
            Ok(()) => {},
            Err(e) => {
                return Err(e);
            },
        }
        let body = self.to_wire_body();
        Request::build_pay_request(wechat_sdk, HttpMethod::POST, V3_REFUND_DOMESTIC_REFUNDS, body)
    }
}

/// The gateway's response to a refund creation: the full refund-state
/// record, needing no further signing.
#[derive(Debug, Clone)]
pub struct RefundResponse {
    /// Refund number on the gateway side.
    pub refund_id: String,
    /// Order number on the merchant side.
    pub out_trade_no: String,
    /// Trade number on the gateway side.
    pub transaction_id: String,
    /// Refund number on the merchant side.
    pub out_refund_no: String,
    /// The channel the money returns through.
    pub channel: String,
    /// The account the refund lands on.
    pub user_received_account: String,
    /// When the refund succeeded.
    pub success_time: Option<String>,
    /// When the refund was created.
    pub create_time: String,
    /// State of the refund.
    pub status: String,
    /// The funds account the refund draws from.
    pub funds_account: Option<String>,
    /// The amount record.
    pub amount: RefundAmount,
    /// Per-discount refund records.
    pub promotion_detail: Option<Vec<RefundPromotionDetail>>,
}

impl RPayResponse for RefundResponse {
}

/// The amount record inside a refund response.
#[derive(Debug, Clone)]
pub struct RefundAmount {
    /// Refunded amount, in minor units.
    pub refund: i64,
    /// Total of the original order, in minor units.
    pub total: i64,
    /// What the payer actually paid, in minor units.
    pub payer_total: Option<i64>,
    /// What the payer gets back, discounts excluded.
    pub payer_refund: Option<i64>,
    /// Currency code.
    pub currency: Option<String>,
}

/// One discount's share of a refund.
#[derive(Debug, Clone)]
pub struct RefundPromotionDetail {
    /// Discount voucher id.
    pub promotion_id: String,
    /// Scope of the discount.
    pub scope: Option<String>,
    /// Kind of the discount.
    pub promotion_type: Option<String>,
    /// Face value of the voucher, in minor units.
    pub amount: i64,
    /// The voucher's share of the refund, in minor units.
    pub refund_amount: i64,
    /// The goods the share covers.
    pub goods_detail: Option<GoodsDetail>,
}

} // verus!
