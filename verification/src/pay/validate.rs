use vstd::prelude::*;
use crate::model::{Amount, Detail, GoodsDetailItem, Payer, SceneInfo, StoreInfo};

verus! {

/// Whether an optional text is within a length ceiling; an absent one is.
pub open spec fn opt_len_at_most(v: Option<String>, max: int) -> bool {
    match v {
        Some(s) => s@.len() <= max,
        None => true,
    }
}

/// Checks an optional text against a length ceiling.
pub fn check_opt_len_at_most(v: &Option<String>, max: usize) -> (r: bool)
    ensures
        r == opt_len_at_most(*v, max as int),
{
    match v {
        Some(s) => s.as_str().unicode_len() <= max,
        None => true,
    }
}

/// The shared fields every order-creation request carries, within the
/// gateway's documented ceilings; the identifying and describing fields must
/// be present.
pub open spec fn base_fields_wf(
    app_id: Seq<char>,
    mch_id: Seq<char>,
    description: Seq<char>,
    out_trade_no: Seq<char>,
    time_expire: Option<String>,
    attach: Option<String>,
    notify_url: Seq<char>,
    goods_tag: Option<String>,
) -> bool {
    &&& 1 <= app_id.len() <= 32
    &&& 1 <= mch_id.len() <= 32
    &&& 1 <= description.len() <= 127
    &&& 1 <= out_trade_no.len() <= 32
    &&& opt_len_at_most(time_expire, 64)
    &&& opt_len_at_most(attach, 128)
    &&& notify_url.len() <= 255
    &&& opt_len_at_most(goods_tag, 32)
}

/// Checks the shared order fields.
pub fn check_base_fields(
    app_id: &str,
    mch_id: &str,
    description: &str,
    out_trade_no: &str,
    time_expire: &Option<String>,
    attach: &Option<String>,
    notify_url: &str,
    goods_tag: &Option<String>,
) -> (r: bool)
    ensures
        r == base_fields_wf(
            app_id@,
            mch_id@,
            description@,
            out_trade_no@,
            *time_expire,
            *attach,
            notify_url@,
            *goods_tag,
        ),
{
    let la = app_id.unicode_len();
    let lm = mch_id.unicode_len();
    let ld = description.unicode_len();
    let lo = out_trade_no.unicode_len();
    let ln = notify_url.unicode_len();
    1 <= la && la <= 32 && 1 <= lm && lm <= 32 && 1 <= ld && ld <= 127 && 1 <= lo && lo <= 32
        && check_opt_len_at_most(time_expire, 64) && check_opt_len_at_most(attach, 128) && ln
        <= 255 && check_opt_len_at_most(goods_tag, 32)
}

/// An amount is well formed when its currency code is present and within the
/// ceiling; the total is a non-negative integer in minor units by its type.
pub open spec fn amount_wf(a: Amount) -> bool {
    1 <= a.currency@.len() <= 16
}

pub fn check_amount(a: &Amount) -> (r: bool)
    ensures
        r == amount_wf(*a),
{
    let l = a.currency.as_str().unicode_len();
    1 <= l && l <= 16
}

/// A payer is well formed when the account id is present and within the
/// ceiling.
pub open spec fn payer_wf(p: Payer) -> bool {
    1 <= p.openid@.len() <= 128
}

pub fn check_payer(p: &Payer) -> (r: bool)
    ensures
        r == payer_wf(*p),
{
    let l = p.openid.as_str().unicode_len();
    1 <= l && l <= 128
}

/// A store block is well formed within the documented ceilings.
pub open spec fn store_wf(s: StoreInfo) -> bool {
    &&& 1 <= s.id@.len() <= 32
    &&& opt_len_at_most(s.name, 256)
    &&& opt_len_at_most(s.area_code, 32)
    &&& s.address@.len() <= 512
}

pub fn check_store(s: &StoreInfo) -> (r: bool)
    ensures
        r == store_wf(*s),
{
    let li = s.id.as_str().unicode_len();
    let la = s.address.as_str().unicode_len();
    1 <= li && li <= 32 && check_opt_len_at_most(&s.name, 256) && check_opt_len_at_most(
        &s.area_code,
        32,
    ) && la <= 512
}

/// A scene block is well formed when the client IP is present and every text
/// is within its ceiling.
pub open spec fn scene_wf(s: SceneInfo) -> bool {
    &&& 1 <= s.payer_client_ip@.len() <= 45
    &&& s.device_id@.len() <= 32
    &&& store_wf(s.store_info)
}

pub fn check_scene(s: &SceneInfo) -> (r: bool)
    ensures
        r == scene_wf(*s),
{
    let li = s.payer_client_ip.as_str().unicode_len();
    let ld = s.device_id.as_str().unicode_len();
    1 <= li && li <= 45 && ld <= 32 && check_store(&s.store_info)
}

/// One goods item is well formed within the documented ceilings.
pub open spec fn goods_item_wf(g: GoodsDetailItem) -> bool {
    &&& opt_len_at_most(g.merchant_goods_id, 32)
    &&& opt_len_at_most(g.wechatpay_goods_id, 32)
    &&& g.goods_name@.len() <= 256
}

pub fn check_goods_item(g: &GoodsDetailItem) -> (r: bool)
    ensures
        r == goods_item_wf(*g),
{
    let ln = g.goods_name.as_str().unicode_len();
    check_opt_len_at_most(&g.merchant_goods_id, 32) && check_opt_len_at_most(
        &g.wechatpay_goods_id,
        32,
    ) && ln <= 256
}

/// A detail block is well formed when it lists between one and six thousand
/// goods items, all of them well formed, within the documented ceilings.
pub open spec fn detail_wf(d: Detail) -> bool {
    &&& opt_len_at_most(d.invoice_id, 32)
    &&& 1 <= d.goods_detail@.len() <= 6000
    &&& forall|i: int|
        0 <= i < d.goods_detail@.len() ==> goods_item_wf(#[trigger] d.goods_detail@[i])
}

pub fn check_detail(d: &Detail) -> (r: bool)
    ensures
        r == detail_wf(*d),
{
    if !check_opt_len_at_most(&d.invoice_id, 32) {
        return false;
    }
    let n = d.goods_detail.len();
    if n < 1 || n > 6000 {
        return false;
    }
    let mut i: usize = 0;
    while i < n
        invariant
            i <= n,
            n == d.goods_detail@.len(),
            forall|j: int| 0 <= j < i ==> goods_item_wf(#[trigger] d.goods_detail@[j]),
        decreases n - i,
    {
        if !check_goods_item(&d.goods_detail[i]) {
            return false;
        }
        i = i + 1;
    }
    true
}

} // verus!
