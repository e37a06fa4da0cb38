use vstd::prelude::*;
use crate::numfmt::{dec_chars, hex_digit, hex_pad_chars, hex_digit_str, i64_to_dec_string,
    u64_to_dec_string};

verus! {

/// How one character is written inside a JSON string: the two-character
/// escapes for quote, backslash and the common control characters, the
/// `\u00XX` form for the remaining control characters, and the character
/// itself otherwise.
pub open spec fn json_escaped_char(c: char) -> Seq<char> {
    if c == '"' {
        seq!['\\', '"']
    } else if c == '\\' {
        seq!['\\', '\\']
    } else if c == '\u{8}' {
        seq!['\\', 'b']
    } else if c == '\t' {
        seq!['\\', 't']
    } else if c == '\n' {
        seq!['\\', 'n']
    } else if c == '\u{c}' {
        seq!['\\', 'f']
    } else if c == '\r' {
        seq!['\\', 'r']
    } else if (c as u32) < 32 {
        seq!['\\', 'u', '0', '0'] + hex_pad_chars(c as u32 as nat, 2, false)
    } else {
        seq![c]
    }
}

/// The body of a JSON string: every character escaped as JSON asks.
pub open spec fn json_escaped(s: Seq<char>) -> Seq<char>
    decreases s.len(),
{
    if s.len() == 0 {
        Seq::empty()
    } else {
        json_escaped_char(s[0]) + json_escaped(s.drop_first())
    }
}

/// A whole JSON string: quote, escaped body, quote.
pub open spec fn json_string_chars(s: Seq<char>) -> Seq<char> {
    seq!['"'] + json_escaped(s) + seq!['"']
}

/// Escaping distributes over concatenation.
pub proof fn lemma_json_escaped_append(s: Seq<char>, t: Seq<char>)
    ensures
        json_escaped(s + t) == json_escaped(s) + json_escaped(t),
    decreases s.len(),
{
    broadcast use vstd::seq::group_seq_axioms;

    if s.len() == 0 {
        assert(s + t =~= t);
        assert(json_escaped(s) + json_escaped(t) =~= json_escaped(t));
    } else {
        assert((s + t).drop_first() =~= s.drop_first() + t);
        lemma_json_escaped_append(s.drop_first(), t);
        assert((s + t)[0] == s[0]);
        assert(json_escaped(s + t) == json_escaped_char(s[0]) + (json_escaped(s.drop_first())
            + json_escaped(t)));
        assert(json_escaped_char(s[0]) + (json_escaped(s.drop_first()) + json_escaped(t))
            =~= (json_escaped_char(s[0]) + json_escaped(s.drop_first())) + json_escaped(t));
    }
}

/// Escaping one more character appends that character's escape.
pub proof fn lemma_json_escaped_snoc(s: Seq<char>, c: char)
    ensures
        json_escaped(s.push(c)) == json_escaped(s) + json_escaped_char(c),
{
    broadcast use vstd::seq::group_seq_axioms;

    assert(s.push(c) =~= s + seq![c]);
    lemma_json_escaped_append(s, seq![c]);
    assert(seq![c].drop_first() =~= Seq::<char>::empty());
    assert(json_escaped(Seq::<char>::empty()) =~= Seq::<char>::empty());
    assert(json_escaped(seq![c]) == json_escaped_char(c) + json_escaped(seq![c].drop_first()));
    assert(json_escaped(seq![c]) =~= json_escaped_char(c));
}

/// Relies on std's `String::push`: appends exactly one character.
#[verifier::external_body]
pub(crate) fn string_push_char(s: &mut String, c: char)
    ensures
        final(s)@ == old(s)@.push(c),
{
    s.push(c);
}

/// Appends the JSON escape of one character.
fn append_escaped_char(out: &mut String, c: char)
    ensures
        final(out)@ == old(out)@ + json_escaped_char(c),
{
    if c == '"' {
        out.append("\\\"");
        proof {
            reveal_strlit("\\\"");
            assert(out@ =~= old(out)@ + json_escaped_char(c));
        }
    } else if c == '\\' {
        out.append("\\\\");
        proof {
            reveal_strlit("\\\\");
            assert(out@ =~= old(out)@ + json_escaped_char(c));
        }
    } else if c == '\u{8}' {
        out.append("\\b");
        proof {
            reveal_strlit("\\b");
            assert(out@ =~= old(out)@ + json_escaped_char(c));
        }
    } else if c == '\t' {
        out.append("\\t");
        proof {
            reveal_strlit("\\t");
            assert(out@ =~= old(out)@ + json_escaped_char(c));
        }
    } else if c == '\n' {
        out.append("\\n");
        proof {
            reveal_strlit("\\n");
            assert(out@ =~= old(out)@ + json_escaped_char(c));
        }
    } else if c == '\u{c}' {
        out.append("\\f");
        proof {
            reveal_strlit("\\f");
            assert(out@ =~= old(out)@ + json_escaped_char(c));
        }
    } else if c == '\r' {
        out.append("\\r");
        proof {
            reveal_strlit("\\r");
            assert(out@ =~= old(out)@ + json_escaped_char(c));
        }
    } else if (c as u32) < 32 {
        let code = c as u32;
        out.append("\\u00");
        out.append(hex_digit_str(((code / 16) % 16) as u64, false));
        out.append(hex_digit_str((code % 16) as u64, false));
        proof {
            reveal_strlit("\\u00");
            let n = c as u32 as nat;
            assert(hex_pad_chars(n, 2, false) =~= hex_pad_chars(n / 16, 1, false).push(
                hex_digit((n % 16) as int, false),
            ));
            assert(hex_pad_chars((n / 16) / 16, 0, false) =~= Seq::<char>::empty());
            assert(hex_pad_chars(n / 16, 1, false) =~= Seq::<char>::empty().push(
                hex_digit(((n / 16) % 16) as int, false),
            ));
            assert(out@ =~= old(out)@ + json_escaped_char(c));
        }
    } else {
        string_push_char(out, c);
        proof {
            assert(out@ =~= old(out)@ + json_escaped_char(c));
        }
    }
}

/// Appends the escaped body of a JSON string.
pub fn append_json_escaped(out: &mut String, s: &str)
    ensures
        final(out)@ == old(out)@ + json_escaped(s@),
{
    let n = s.unicode_len();
    let mut i: usize = 0;
    while i < n
        invariant
            i <= n,
            n == s@.len(),
            out@ == old(out)@ + json_escaped(s@.take(i as int)),
        decreases n - i,
    {
        let c = s.get_char(i);
        append_escaped_char(out, c);
        proof {
            broadcast use vstd::seq::group_seq_axioms;

            assert(s@.take(i + 1) =~= s@.take(i as int).push(s@[i as int]));
            lemma_json_escaped_snoc(s@.take(i as int), s@[i as int]);
            assert(out@ =~= old(out)@ + json_escaped(s@.take(i + 1)));
        }
        i = i + 1;
    }
    proof {
        assert(s@.take(n as int) =~= s@);
    }
}

/// Appends a whole JSON string, quotes included.
pub fn append_json_string(out: &mut String, s: &str)
    ensures
        final(out)@ == old(out)@ + json_string_chars(s@),
{
    out.append("\"");
    append_json_escaped(out, s);
    out.append("\"");
    proof {
        reveal_strlit("\"");
        assert(out@ =~= old(out)@ + json_string_chars(s@));
    }
}

/// Appends a non-negative integer.
pub fn append_json_u64(out: &mut String, n: u64)
    ensures
        final(out)@ == old(out)@ + dec_chars(n as int),
{
    let t = u64_to_dec_string(n);
    out.append(t.as_str());
}

/// Appends an integer.
pub fn append_json_i64(out: &mut String, n: i64)
    ensures
        final(out)@ == old(out)@ + dec_chars(n as int),
{
    let t = i64_to_dec_string(n);
    out.append(t.as_str());
}

/// The JSON text of a boolean.
pub open spec fn json_bool_chars(b: bool) -> Seq<char> {
    if b {
        "true"@
    } else {
        "false"@
    }
}

/// Appends a boolean.
pub fn append_json_bool(out: &mut String, b: bool)
    ensures
        final(out)@ == old(out)@ + json_bool_chars(b),
{
    if b {
        out.append("true");
    } else {
        out.append("false");
    }
}

/// The JSON text of an optional string where the absent case is written as
/// `null`.
pub open spec fn json_opt_string_chars(s: Option<String>) -> Seq<char> {
    match s {
        Some(v) => json_string_chars(v@),
        None => "null"@,
    }
}

/// Appends an optional string, writing `null` where there is none.
pub fn append_json_opt_string(out: &mut String, s: &Option<String>)
    ensures
        final(out)@ == old(out)@ + json_opt_string_chars(*s),
{
    match s {
        Some(v) => {
            append_json_string(out, v.as_str());
        },
        None => {
            out.append("null");
        },
    }
}

} // verus!

verus! {

/// A member that is omitted when its value is absent: the member prefix
/// (comma, quoted key and colon) followed by the string value, or nothing.
pub open spec fn opt_str_member_chars(prefix: Seq<char>, v: Option<String>) -> Seq<char> {
    match v {
        Some(s) => prefix + json_string_chars(s@),
        None => Seq::empty(),
    }
}

/// Appends an optional string member, omitting it when absent.
pub fn append_opt_str_member(out: &mut String, prefix: &str, v: &Option<String>)
    ensures
        final(out)@ == old(out)@ + opt_str_member_chars(prefix@, *v),
{
    match v {
        Some(s) => {
            out.append(prefix);
            append_json_string(out, s.as_str());
            proof {
                assert(out@ =~= old(out)@ + opt_str_member_chars(prefix@, *v));
            }
        },
        None => {
            proof {
                assert(out@ =~= old(out)@ + opt_str_member_chars(prefix@, *v));
            }
        },
    }
}

/// A boolean member that is omitted when its value is absent.
pub open spec fn opt_bool_member_chars(prefix: Seq<char>, v: Option<bool>) -> Seq<char> {
    match v {
        Some(b) => prefix + json_bool_chars(b),
        None => Seq::empty(),
    }
}

/// Appends an optional boolean member, omitting it when absent.
pub fn append_opt_bool_member(out: &mut String, prefix: &str, v: &Option<bool>)
    ensures
        final(out)@ == old(out)@ + opt_bool_member_chars(prefix@, *v),
{
    match v {
        Some(b) => {
            out.append(prefix);
            append_json_bool(out, *b);
            proof {
                assert(out@ =~= old(out)@ + opt_bool_member_chars(prefix@, *v));
            }
        },
        None => {
            proof {
                assert(out@ =~= old(out)@ + opt_bool_member_chars(prefix@, *v));
            }
        },
    }
}

} // verus!
