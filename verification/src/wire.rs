use vstd::prelude::*;
use crate::json::{
    append_json_bool, append_json_opt_string, append_json_string, append_json_u64,
    json_bool_chars, json_opt_string_chars, json_string_chars,
};
use crate::model::{Amount, Detail, GoodsDetailItem, Payer, SceneInfo, SettleInfo, StoreInfo};
use crate::numfmt::dec_chars;

verus! {

/// The wire form of an order amount.
pub open spec fn amount_json_chars(a: Amount) -> Seq<char> {
    ("{\"total\":")@ + dec_chars(a.total as int) + (",\"currency\":")@ + json_string_chars(
        a.currency@,
    ) + ("}")@
}

/// Appends the wire form of an order amount.
pub fn append_amount_json(out: &mut String, a: &Amount)
    ensures
        final(out)@ == old(out)@ + amount_json_chars(*a),
{
    out.append("{\"total\":");
    append_json_u64(out, a.total);
    out.append(",\"currency\":");
    append_json_string(out, a.currency.as_str());
    out.append("}");
    proof {
        assert(out@ =~= old(out)@ + amount_json_chars(*a));
    }
}

/// The wire form of a payer.
pub open spec fn payer_json_chars(p: Payer) -> Seq<char> {
    ("{\"openid\":")@ + json_string_chars(p.openid@) + ("}")@
}

/// Appends the wire form of a payer.
pub fn append_payer_json(out: &mut String, p: &Payer)
    ensures
        final(out)@ == old(out)@ + payer_json_chars(*p),
{
    out.append("{\"openid\":");
    append_json_string(out, p.openid.as_str());
    out.append("}");
    proof {
        assert(out@ =~= old(out)@ + payer_json_chars(*p));
    }
}

/// The wire form of a store; absent optional fields are written as `null`.
pub open spec fn store_info_json_chars(s: StoreInfo) -> Seq<char> {
    ("{\"id\":")@ + json_string_chars(s.id@) + (",\"name\":")@ + json_opt_string_chars(s.name)
        + (",\"area_code\":")@ + json_opt_string_chars(s.area_code) + (",\"address\":")@
        + json_string_chars(s.address@) + ("}")@
}

/// Appends the wire form of a store.
pub fn append_store_info_json(out: &mut String, s: &StoreInfo)
    ensures
        final(out)@ == old(out)@ + store_info_json_chars(*s),
{
    out.append("{\"id\":");
    append_json_string(out, s.id.as_str());
    out.append(",\"name\":");
    append_json_opt_string(out, &s.name);
    out.append(",\"area_code\":");
    append_json_opt_string(out, &s.area_code);
    out.append(",\"address\":");
    append_json_string(out, s.address.as_str());
    out.append("}");
    proof {
        assert(out@ =~= old(out)@ + store_info_json_chars(*s));
    }
}

/// The wire form of a scene block.
pub open spec fn scene_info_json_chars(s: SceneInfo) -> Seq<char> {
    ("{\"payer_client_ip\":")@ + json_string_chars(s.payer_client_ip@) + (",\"device_id\":")@
        + json_string_chars(s.device_id@) + (",\"store_info\":")@ + store_info_json_chars(
        s.store_info,
    ) + ("}")@
}

/// Appends the wire form of a scene block.
pub fn append_scene_info_json(out: &mut String, s: &SceneInfo)
    ensures
        final(out)@ == old(out)@ + scene_info_json_chars(*s),
{
    out.append("{\"payer_client_ip\":");
    append_json_string(out, s.payer_client_ip.as_str());
    out.append(",\"device_id\":");
    append_json_string(out, s.device_id.as_str());
    out.append(",\"store_info\":");
    append_store_info_json(out, &s.store_info);
    out.append("}");
    proof {
        assert(out@ =~= old(out)@ + scene_info_json_chars(*s));
    }
}

/// The wire form of the settlement block.
pub open spec fn settle_info_json_chars(s: SettleInfo) -> Seq<char> {
    ("{\"profit_sharing\":")@ + json_bool_chars(s.profit_sharing) + ("}")@
}

/// Appends the wire form of the settlement block.
pub fn append_settle_info_json(out: &mut String, s: &SettleInfo)
    ensures
        final(out)@ == old(out)@ + settle_info_json_chars(*s),
{
    out.append("{\"profit_sharing\":");
    append_json_bool(out, s.profit_sharing);
    out.append("}");
    proof {
        assert(out@ =~= old(out)@ + settle_info_json_chars(*s));
    }
}

/// The wire form of one item of goods; absent optional fields are written as
/// `null`.
pub open spec fn goods_item_json_chars(g: GoodsDetailItem) -> Seq<char> {
    ("{\"merchant_goods_id\":")@ + json_opt_string_chars(g.merchant_goods_id)
        + (",\"wechatpay_goods_id\":")@ + json_opt_string_chars(g.wechatpay_goods_id)
        + (",\"goods_name\":")@ + json_string_chars(g.goods_name@) + (",\"quantity\":")@
        + dec_chars(g.quantity as int) + (",\"unit_price\":")@ + dec_chars(g.unit_price as int)
        + ("}")@
}

/// Appends the wire form of one item of goods.
pub fn append_goods_item_json(out: &mut String, g: &GoodsDetailItem)
    ensures
        final(out)@ == old(out)@ + goods_item_json_chars(*g),
{
    out.append("{\"merchant_goods_id\":");
    append_json_opt_string(out, &g.merchant_goods_id);
    out.append(",\"wechatpay_goods_id\":");
    append_json_opt_string(out, &g.wechatpay_goods_id);
    out.append(",\"goods_name\":");
    append_json_string(out, g.goods_name.as_str());
    out.append(",\"quantity\":");
    append_json_u64(out, g.quantity);
    out.append(",\"unit_price\":");
    append_json_u64(out, g.unit_price);
    out.append("}");
    proof {
        assert(out@ =~= old(out)@ + goods_item_json_chars(*g));
    }
}

/// The comma-joined wire forms of a list of goods items.
pub open spec fn goods_items_chars(v: Seq<GoodsDetailItem>) -> Seq<char>
    decreases v.len(),
{
    if v.len() == 0 {
        Seq::empty()
    } else if v.len() == 1 {
        goods_item_json_chars(v[0])
    } else {
        goods_item_json_chars(v[0]) + seq![','] + goods_items_chars(v.drop_first())
    }
}

/// Appending one more item extends the joined form with a comma and that
/// item (the comma is absent for the first item).
proof fn lemma_goods_items_snoc(s: Seq<GoodsDetailItem>, x: GoodsDetailItem)
    ensures
        goods_items_chars(s.push(x)) == if s.len() == 0 {
            goods_item_json_chars(x)
        } else {
            goods_items_chars(s) + seq![','] + goods_item_json_chars(x)
        },
    decreases s.len(),
{
    broadcast use vstd::seq::group_seq_axioms;

    if s.len() == 0 {
        assert(s.push(x).len() == 1);
        assert(s.push(x)[0] == x);
        assert(goods_items_chars(s.push(x)) == goods_item_json_chars(x));
    } else if s.len() == 1 {
        assert(s.push(x)[0] == s[0]);
        assert(s.push(x).drop_first() =~= seq![x]);
        assert(goods_items_chars(seq![x]) == goods_item_json_chars(x));
        assert(goods_items_chars(s.push(x)) == goods_item_json_chars(s[0]) + seq![',']
            + goods_item_json_chars(x));
        assert(goods_items_chars(s) == goods_item_json_chars(s[0]));
    } else {
        assert(s.push(x)[0] == s[0]);
        assert(s.push(x).drop_first() =~= s.drop_first().push(x));
        lemma_goods_items_snoc(s.drop_first(), x);
        assert(goods_items_chars(s.push(x)) == goods_item_json_chars(s[0]) + seq![','] + (
        goods_items_chars(s.drop_first()) + seq![','] + goods_item_json_chars(x)));
        assert(goods_item_json_chars(s[0]) + seq![','] + (goods_items_chars(s.drop_first())
            + seq![','] + goods_item_json_chars(x)) =~= (goods_item_json_chars(s[0]) + seq![',']
            + goods_items_chars(s.drop_first())) + seq![','] + goods_item_json_chars(x));
    }
}

/// The wire form of a goods list.
pub open spec fn goods_array_chars(v: Seq<GoodsDetailItem>) -> Seq<char> {
    seq!['['] + goods_items_chars(v) + seq![']']
}

/// Appends the wire form of a goods list.
pub fn append_goods_array_json(out: &mut String, v: &Vec<GoodsDetailItem>)
    ensures
        final(out)@ == old(out)@ + goods_array_chars(v@),
{
    out.append("[");
    let ghost mid = out@;
    let n = v.len();
    let mut i: usize = 0;
    while i < n
        invariant
            i <= n,
            n == v@.len(),
            out@ == mid + goods_items_chars(v@.take(i as int)),
        decreases n - i,
    {
        if i > 0 {
            out.append(",");
        }
        append_goods_item_json(out, &v[i]);
        proof {
            broadcast use vstd::seq::group_seq_axioms;

            reveal_strlit(",");
            assert(v@.take(i + 1) =~= v@.take(i as int).push(v@[i as int]));
            lemma_goods_items_snoc(v@.take(i as int), v@[i as int]);
            assert(out@ =~= mid + goods_items_chars(v@.take(i + 1)));
        }
        i = i + 1;
    }
    out.append("]");
    proof {
        reveal_strlit("[");
        reveal_strlit("]");
        assert(v@.take(n as int) =~= v@);
        assert(out@ =~= old(out)@ + goods_array_chars(v@));
    }
}

/// The wire form of an order's detail block.
pub open spec fn detail_json_chars(d: Detail) -> Seq<char> {
    ("{\"cost_price\":")@ + dec_chars(d.cost_price as int) + (",\"invoice_id\":")@
        + json_opt_string_chars(d.invoice_id) + (",\"goods_detail\":")@ + goods_array_chars(
        d.goods_detail@,
    ) + ("}")@
}

/// Appends the wire form of an order's detail block.
pub fn append_detail_json(out: &mut String, d: &Detail)
    ensures
        final(out)@ == old(out)@ + detail_json_chars(*d),
{
    out.append("{\"cost_price\":");
    append_json_u64(out, d.cost_price);
    out.append(",\"invoice_id\":");
    append_json_opt_string(out, &d.invoice_id);
    out.append(",\"goods_detail\":");
    append_goods_array_json(out, &d.goods_detail);
    out.append("}");
    proof {
        assert(out@ =~= old(out)@ + detail_json_chars(*d));
    }
}

} // verus!
