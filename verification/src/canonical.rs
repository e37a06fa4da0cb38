use vstd::prelude::*;
use crate::common::HttpMethod;
use crate::numfmt::{dec_chars, i64_to_dec_string, lemma_dec_chars_injective};

verus! {

/// The newline that terminates every canonical field.
pub open spec fn nlc() -> Seq<char> {
    seq!['\n']
}

/// The canonical string of an outbound request: five fields, each followed by
/// a newline, in the fixed order method, path, timestamp, nonce, body.
pub open spec fn canonical_request_chars(
    method: Seq<char>,
    path: Seq<char>,
    timestamp: int,
    nonce: Seq<char>,
    body: Seq<char>,
) -> Seq<char> {
    method + nlc() + path + nlc() + dec_chars(timestamp) + nlc() + nonce + nlc() + body + nlc()
}

/// The canonical string of a client-side pay invocation: four fields, each
/// followed by a newline, in the fixed order app id, timestamp, nonce,
/// package.
pub open spec fn client_sign_chars(
    app_id: Seq<char>,
    timestamp: Seq<char>,
    nonce: Seq<char>,
    package: Seq<char>,
) -> Seq<char> {
    app_id + nlc() + timestamp + nlc() + nonce + nlc() + package + nlc()
}

/// The value of the `Authorization` header: the fixed scheme token, then
/// merchant id, nonce, signature, timestamp and certificate serial number as
/// quoted comma-separated attributes.
pub open spec fn auth_header_chars(
    mch_id: Seq<char>,
    nonce: Seq<char>,
    signature: Seq<char>,
    timestamp: int,
    serial_no: Seq<char>,
) -> Seq<char> {
    ("WECHATPAY2-SHA256-RSA2048 mchid=\"")@ + mch_id + ("\",nonce_str=\"")@ + nonce
        + ("\",signature=\"")@ + signature + ("\",timestamp=\"")@ + dec_chars(timestamp)
        + ("\",serial_no=\"")@ + serial_no + ("\"")@
}

/// Builds the canonical string of an outbound request.
pub fn build_canonical_request(
    method: &HttpMethod,
    path: &str,
    timestamp: i64,
    nonce: &str,
    body: &str,
) -> (r: String)
    ensures
        r@ == canonical_request_chars(method.spec_str(), path@, timestamp as int, nonce@, body@),
{
    let mut out = String::new();
    out.append(method.as_str());
    out.append("\n");
    out.append(path);
    out.append("\n");
    let ts = i64_to_dec_string(timestamp);
    out.append(ts.as_str());
    out.append("\n");
    out.append(nonce);
    out.append("\n");
    out.append(body);
    out.append("\n");
    proof {
        reveal_strlit("\n");
        assert(("\n")@ =~= nlc());
        assert(out@ =~= canonical_request_chars(
            method.spec_str(),
            path@,
            timestamp as int,
            nonce@,
            body@,
        ));
    }
    out
}

/// Builds the canonical string of a client-side pay invocation.
pub fn build_client_sign_string(
    app_id: &str,
    timestamp: &str,
    nonce: &str,
    package: &str,
) -> (r: String)
    ensures
        r@ == client_sign_chars(app_id@, timestamp@, nonce@, package@),
{
    let mut out = String::new();
    out.append(app_id);
    out.append("\n");
    out.append(timestamp);
    out.append("\n");
    out.append(nonce);
    out.append("\n");
    out.append(package);
    out.append("\n");
    proof {
        reveal_strlit("\n");
        assert(("\n")@ =~= nlc());
        assert(out@ =~= client_sign_chars(app_id@, timestamp@, nonce@, package@));
    }
    out
}

/// Equal concatenations with the same prefix have the same remainder.
pub proof fn lemma_concat_cancel_prefix(p: Seq<char>, y1: Seq<char>, y2: Seq<char>)
    requires
        p + y1 == p + y2,
    ensures
        y1 == y2,
{
    broadcast use vstd::seq::group_seq_axioms;

    let s1 = p + y1;
    let s2 = p + y2;
    assert(s1 == s2);
    assert(s1.len() == p.len() + y1.len());
    assert(s2.len() == p.len() + y2.len());
    assert(s1.subrange(p.len() as int, s1.len() as int) =~= y1);
    assert(s2.subrange(p.len() as int, s2.len() as int) =~= y2);
}

/// Equal concatenations with the same suffix have the same front.
pub proof fn lemma_concat_cancel_suffix(x1: Seq<char>, x2: Seq<char>, s: Seq<char>)
    requires
        x1 + s == x2 + s,
    ensures
        x1 == x2,
{
    broadcast use vstd::seq::group_seq_axioms;

    let s1 = x1 + s;
    let s2 = x2 + s;
    assert(s1 == s2);
    assert(s1.len() == x1.len() + s.len());
    assert(s2.len() == x2.len() + s.len());
    assert(s1.subrange(0, x1.len() as int) =~= x1);
    assert(s2.subrange(0, x2.len() as int) =~= x2);
}

/// Changing exactly one field of a canonical request changes the canonical
/// string: if two canonical strings are equal and the requests agree on four
/// of the five fields, they agree on the fifth as well.
pub proof fn lemma_canonical_request_field_sensitive(
    m1: Seq<char>, p1: Seq<char>, t1: int, n1: Seq<char>, b1: Seq<char>,
    m2: Seq<char>, p2: Seq<char>, t2: int, n2: Seq<char>, b2: Seq<char>,
)
    requires
        canonical_request_chars(m1, p1, t1, n1, b1) == canonical_request_chars(m2, p2, t2, n2, b2),
    ensures
        (p1 == p2 && t1 == t2 && n1 == n2 && b1 == b2) ==> m1 == m2,
        (m1 == m2 && t1 == t2 && n1 == n2 && b1 == b2) ==> p1 == p2,
        (m1 == m2 && p1 == p2 && n1 == n2 && b1 == b2) ==> t1 == t2,
        (m1 == m2 && p1 == p2 && t1 == t2 && b1 == b2) ==> n1 == n2,
        (m1 == m2 && p1 == p2 && t1 == t2 && n1 == n2) ==> b1 == b2,
{
    let s1 = canonical_request_chars(m1, p1, t1, n1, b1);
    let s2 = canonical_request_chars(m2, p2, t2, n2, b2);
    if p1 == p2 && t1 == t2 && n1 == n2 && b1 == b2 {
        let suf = nlc() + p1 + nlc() + dec_chars(t1) + nlc() + n1 + nlc() + b1 + nlc();
        assert(s1 =~= m1 + suf);
        assert(s2 =~= m2 + suf);
        lemma_concat_cancel_suffix(m1, m2, suf);
    }
    if m1 == m2 && t1 == t2 && n1 == n2 && b1 == b2 {
        let pre = m1 + nlc();
        let suf = nlc() + dec_chars(t1) + nlc() + n1 + nlc() + b1 + nlc();
        assert(s1 =~= pre + (p1 + suf));
        assert(s2 =~= pre + (p2 + suf));
        lemma_concat_cancel_prefix(pre, p1 + suf, p2 + suf);
        lemma_concat_cancel_suffix(p1, p2, suf);
    }
    if m1 == m2 && p1 == p2 && n1 == n2 && b1 == b2 {
        let pre = m1 + nlc() + p1 + nlc();
        let suf = nlc() + n1 + nlc() + b1 + nlc();
        assert(s1 =~= pre + (dec_chars(t1) + suf));
        assert(s2 =~= pre + (dec_chars(t2) + suf));
        lemma_concat_cancel_prefix(pre, dec_chars(t1) + suf, dec_chars(t2) + suf);
        lemma_concat_cancel_suffix(dec_chars(t1), dec_chars(t2), suf);
        lemma_dec_chars_injective(t1, t2);
    }
    if m1 == m2 && p1 == p2 && t1 == t2 && b1 == b2 {
        let pre = m1 + nlc() + p1 + nlc() + dec_chars(t1) + nlc();
        let suf = nlc() + b1 + nlc();
        assert(s1 =~= pre + (n1 + suf));
        assert(s2 =~= pre + (n2 + suf));
        lemma_concat_cancel_prefix(pre, n1 + suf, n2 + suf);
        lemma_concat_cancel_suffix(n1, n2, suf);
    }
    if m1 == m2 && p1 == p2 && t1 == t2 && n1 == n2 {
        let pre = m1 + nlc() + p1 + nlc() + dec_chars(t1) + nlc() + n1 + nlc();
        let suf = nlc();
        assert(s1 =~= pre + (b1 + suf));
        assert(s2 =~= pre + (b2 + suf));
        lemma_concat_cancel_prefix(pre, b1 + suf, b2 + suf);
        lemma_concat_cancel_suffix(b1, b2, suf);
    }
}

/// The same sensitivity holds of the four-field client pay-invocation string.
pub proof fn lemma_client_sign_field_sensitive(
    a1: Seq<char>, t1: Seq<char>, n1: Seq<char>, k1: Seq<char>,
    a2: Seq<char>, t2: Seq<char>, n2: Seq<char>, k2: Seq<char>,
)
    requires
        client_sign_chars(a1, t1, n1, k1) == client_sign_chars(a2, t2, n2, k2),
    ensures
        (t1 == t2 && n1 == n2 && k1 == k2) ==> a1 == a2,
        (a1 == a2 && n1 == n2 && k1 == k2) ==> t1 == t2,
        (a1 == a2 && t1 == t2 && k1 == k2) ==> n1 == n2,
        (a1 == a2 && t1 == t2 && n1 == n2) ==> k1 == k2,
{
    let s1 = client_sign_chars(a1, t1, n1, k1);
    let s2 = client_sign_chars(a2, t2, n2, k2);
    if t1 == t2 && n1 == n2 && k1 == k2 {
        let suf = nlc() + t1 + nlc() + n1 + nlc() + k1 + nlc();
        assert(s1 =~= a1 + suf);
        assert(s2 =~= a2 + suf);
        lemma_concat_cancel_suffix(a1, a2, suf);
    }
    if a1 == a2 && n1 == n2 && k1 == k2 {
        let pre = a1 + nlc();
        let suf = nlc() + n1 + nlc() + k1 + nlc();
        assert(s1 =~= pre + (t1 + suf));
        assert(s2 =~= pre + (t2 + suf));
        lemma_concat_cancel_prefix(pre, t1 + suf, t2 + suf);
        lemma_concat_cancel_suffix(t1, t2, suf);
    }
    if a1 == a2 && t1 == t2 && k1 == k2 {
        let pre = a1 + nlc() + t1 + nlc();
        let suf = nlc() + k1 + nlc();
        assert(s1 =~= pre + (n1 + suf));
        assert(s2 =~= pre + (n2 + suf));
        lemma_concat_cancel_prefix(pre, n1 + suf, n2 + suf);
        lemma_concat_cancel_suffix(n1, n2, suf);
    }
    if a1 == a2 && t1 == t2 && n1 == n2 {
        let pre = a1 + nlc() + t1 + nlc() + n1 + nlc();
        let suf = nlc();
        assert(s1 =~= pre + (k1 + suf));
        assert(s2 =~= pre + (k2 + suf));
        lemma_concat_cancel_prefix(pre, k1 + suf, k2 + suf);
        lemma_concat_cancel_suffix(k1, k2, suf);
    }
}

} // verus!
