use vstd::prelude::*;

verus! {

/// A parsed JSON value. Numbers that are not integers fitting `i64` keep
/// their raw text; an object keeps its members in order of appearance.
#[derive(Debug)]
pub enum JsonValue {
    Null,
    Bool(bool),
    Int(i64),
    /// A number with a fraction or exponent, or one out of `i64` range,
    /// kept as its raw text.
    Num(String),
    Str(String),
    Arr(Vec<JsonValue>),
    Obj(Vec<(String, JsonValue)>),
}

/// The first member under the key, as JSON object lookup finds it.
pub open spec fn obj_lookup(ms: Seq<(String, JsonValue)>, key: Seq<char>) -> Option<JsonValue>
    decreases ms.len(),
{
    if ms.len() == 0 {
        None
    } else if ms[0].0@ == key {
        Some(ms[0].1)
    } else {
        obj_lookup(ms.drop_first(), key)
    }
}

/// The member under the key where it is a string.
pub open spec fn lookup_string(ms: Seq<(String, JsonValue)>, key: Seq<char>) -> Option<Seq<char>> {
    match obj_lookup(ms, key) {
        Some(JsonValue::Str(s)) => Some(s@),
        _ => None,
    }
}

/// The member under the key where it is an integer.
pub open spec fn lookup_int(ms: Seq<(String, JsonValue)>, key: Seq<char>) -> Option<i64> {
    match obj_lookup(ms, key) {
        Some(JsonValue::Int(n)) => Some(n),
        _ => None,
    }
}

/// The member under the key where it is an object.
pub open spec fn lookup_obj(ms: Seq<(String, JsonValue)>, key: Seq<char>) -> Option<
    Seq<(String, JsonValue)>,
> {
    match obj_lookup(ms, key) {
        Some(JsonValue::Obj(inner)) => Some(inner@),
        _ => None,
    }
}

proof fn lemma_obj_lookup_miss_prefix(ms: Seq<(String, JsonValue)>, key: Seq<char>, i: int)
    requires
        0 <= i <= ms.len(),
        forall|j: int| 0 <= j < i ==> (#[trigger] ms[j].0)@ != key,
    ensures
        obj_lookup(ms, key) == obj_lookup(ms.skip(i), key),
    decreases i,
{
    broadcast use vstd::seq::group_seq_axioms;

    if i == 0 {
        assert(ms.skip(0) =~= ms);
    } else {
        assert(ms[0].0@ != key);
        assert(obj_lookup(ms, key) == obj_lookup(ms.drop_first(), key));
        assert(ms.drop_first() =~= ms.skip(1));
        lemma_obj_lookup_miss_prefix(ms.skip(1), key, i - 1);
        assert(ms.skip(1).skip(i - 1) =~= ms.skip(i));
    }
}

/// Finds the first member under the key, exactly as [`obj_lookup`] does.
pub fn get_member<'a>(ms: &'a Vec<(String, JsonValue)>, key: &str) -> (r: Option<&'a JsonValue>)
    ensures
        match r {
            Some(v) => obj_lookup(ms@, key@) == Some(*v),
            None => obj_lookup(ms@, key@) is None,
        },
{
    broadcast use vstd::seq::group_seq_axioms;

    let wanted = String::from_str(key);
    let n = ms.len();
    let mut i: usize = 0;
    while i < n
        invariant
            i <= n,
            n == ms@.len(),
            wanted@ == key@,
            forall|j: int| 0 <= j < i ==> (#[trigger] ms@[j].0)@ != key@,
        decreases n - i,
    {
        if ms[i].0 == wanted {
            proof {
                lemma_obj_lookup_miss_prefix(ms@, key@, i as int);
                assert(ms@.skip(i as int)[0] == ms@[i as int]);
                assert(ms@.skip(i as int).len() > 0);
            }
            return Some(&ms[i].1);
        }
        i = i + 1;
    }
    proof {
        lemma_obj_lookup_miss_prefix(ms@, key@, n as int);
        assert(ms@.skip(n as int).len() == 0);
    }
    None
}

fn is_ws(c: char) -> (r: bool)
    ensures
        r == spec_is_ws(c),
{
    c == ' ' || c == '\t' || c == '\n' || c == '\r'
}

fn skip_ws(s: &str, i: usize) -> (j: usize)
    requires
        i <= s@.len(),
    ensures
        i <= j <= s@.len(),
        j as int == spec_skip_ws(s@, i as int),
{
    let n = s.unicode_len();
    let mut j = i;
    while j < n && is_ws(s.get_char(j))
        invariant
            i <= j <= n,
            n == s@.len(),
            spec_skip_ws(s@, i as int) == spec_skip_ws(s@, j as int),
        decreases n - j,
    {
        j = j + 1;
    }
    j
}

/// Relies on std's `char::from_u32`: it succeeds exactly on the valid
/// scalar values (everything up to 0x10FFFF except the surrogate range) and
/// yields the character with that scalar value — which is also what
/// [`spec_char_of`] picks, a character's scalar value determining it.
#[verifier::external_body]
fn char_from_u32(v: u32) -> (r: Option<char>)
    ensures
        r is Some <==> (v < 0xD800 || (0xE000 <= v && v <= 0x10FFFF)),
        r matches Some(c) ==> c as u32 == v && c == spec_char_of(v),
{
    char::from_u32(v)
}

fn hex_val(c: char) -> (r: Option<u32>)
    ensures
        r matches Some(v) ==> v < 16,
        match r {
            Some(v) => spec_hex_digit_ok(c) && v == spec_hex_digit_val(c),
            None => !spec_hex_digit_ok(c),
        },
{
    let u = c as u32;
    if 48 <= u && u <= 57 {
        Some(u - 48)
    } else if 97 <= u && u <= 102 {
        Some(u - 97 + 10)
    } else if 65 <= u && u <= 70 {
        Some(u - 65 + 10)
    } else {
        None
    }
}

fn parse_hex4(s: &str, i: usize) -> (r: Option<(u32, usize)>)
    requires
        i <= s@.len(),
    ensures
        r matches Some(p) ==> i < p.1 <= s@.len() && p.0 < 0x10000,
        match r {
            Some(p) => spec_hex4(s@, i as int) == Some((p.0, p.1 as int)),
            None => spec_hex4(s@, i as int) is None,
        },
{
    let n = s.unicode_len();
    if n - i < 4 {
        return None;
    }
    let d0 = match hex_val(s.get_char(i)) {
        Some(d) => d,
        None => {
            return None;
        },
    };
    let d1 = match hex_val(s.get_char(i + 1)) {
        Some(d) => d,
        None => {
            return None;
        },
    };
    let d2 = match hex_val(s.get_char(i + 2)) {
        Some(d) => d,
        None => {
            return None;
        },
    };
    let d3 = match hex_val(s.get_char(i + 3)) {
        Some(d) => d,
        None => {
            return None;
        },
    };
    Some((4096 * d0 + 256 * d1 + 16 * d2 + d3, i + 4))
}

/// Parses a JSON string starting at its opening quote, escape sequences
/// (surrogate pairs included) decoded.
fn parse_string_at(s: &str, i: usize) -> (r: Option<(String, usize)>)
    requires
        i <= s@.len(),
    ensures
        r matches Some(p) ==> i < p.1 <= s@.len(),
        match r {
            Some(p) => spec_parse_string(s@, i as int) == Some((p.0@, p.1 as int)),
            None => spec_parse_string(s@, i as int) is None,
        },
{
    let n = s.unicode_len();
    if i >= n || s.get_char(i) != '"' {
        return None;
    }
    let mut out = String::new();
    let mut j = i + 1;
    while j < n
        invariant
            i < j <= n,
            n == s@.len(),
            spec_parse_string(s@, i as int) == spec_string_body(s@, j as int, out@),
        decreases n - j,
    {
        let c = s.get_char(j);
        if c == '"' {
            return Some((out, j + 1));
        } else if c == '\\' {
            if j + 1 >= n {
                return None;
            }
            let e = s.get_char(j + 1);
            if e == '"' || e == '\\' || e == '/' {
                crate::json::string_push_char(&mut out, e);
                j = j + 2;
            } else if e == 'b' {
                crate::json::string_push_char(&mut out, '\u{8}');
                j = j + 2;
            } else if e == 'f' {
                crate::json::string_push_char(&mut out, '\u{c}');
                j = j + 2;
            } else if e == 'n' {
                crate::json::string_push_char(&mut out, '\n');
                j = j + 2;
            } else if e == 'r' {
                crate::json::string_push_char(&mut out, '\r');
                j = j + 2;
            } else if e == 't' {
                crate::json::string_push_char(&mut out, '\t');
                j = j + 2;
            } else if e == 'u' {
                let (hi, after_hi) = match parse_hex4(s, j + 2) {
                    Some(p) => p,
                    None => {
                        return None;
                    },
                };
                if 0xD800 <= hi && hi <= 0xDBFF {
                    if n - after_hi < 2 || s.get_char(after_hi) != '\\' || s.get_char(
                        after_hi + 1,
                    ) != 'u' {
                        return None;
                    }
                    let (lo, after_lo) = match parse_hex4(s, after_hi + 2) {
                        Some(p) => p,
                        None => {
                            return None;
                        },
                    };
                    if !(0xDC00 <= lo && lo <= 0xDFFF) {
                        return None;
                    }
                    let scalar: u32 = 0x10000 + ((hi - 0xD800) * 0x400) + (lo - 0xDC00);
                    let c2 = match char_from_u32(scalar) {
                        Some(c2) => c2,
                        None => {
                            return None;
                        },
                    };
                    crate::json::string_push_char(&mut out, c2);
                    j = after_lo;
                } else if 0xDC00 <= hi && hi <= 0xDFFF {
                    return None;
                } else {
                    let c2 = match char_from_u32(hi) {
                        Some(c2) => c2,
                        None => {
                            return None;
                        },
                    };
                    crate::json::string_push_char(&mut out, c2);
                    j = after_hi;
                }
            } else {
                return None;
            }
        } else if (c as u32) < 32 {
            return None;
        } else {
            crate::json::string_push_char(&mut out, c);
            j = j + 1;
        }
    }
    None
}

fn is_digit(c: char) -> (r: bool)
    ensures
        r == spec_is_digit(c),
{
    let u = c as u32;
    48 <= u && u <= 57
}

/// Parses a JSON number; integers fitting `i64` become [`JsonValue::Int`],
/// every other well-formed number keeps its raw text.
#[verifier::rlimit(100)]
fn parse_number_at(s: &str, i: usize) -> (r: Option<(JsonValue, usize)>)
    requires
        i <= s@.len(),
    ensures
        r matches Some(p) ==> i < p.1 <= s@.len(),
        match r {
            Some(p) => spec_number(s@, i as int) matches Some(q) && represents(p.0, q.0) && p.1
                == q.1,
            None => spec_number(s@, i as int) is None,
        },
{
    let n = s.unicode_len();
    let mut j = i;
    let mut neg = false;
    if j < n && s.get_char(j) == '-' {
        neg = true;
        j = j + 1;
    }
    let digits_start = j;
    while j < n && is_digit(s.get_char(j))
        invariant
            i <= digits_start <= j <= n,
            n == s@.len(),
            spec_scan_digits(s@, digits_start as int) == spec_scan_digits(s@, j as int),
        decreases n - j,
    {
        j = j + 1;
    }
    proof {
        assert(spec_scan_digits(s@, digits_start as int) == j as int);
    }
    if j == digits_start {
        return None;
    }
    // JSON forbids leading zeros: a zero digit opens the integer part only
    // when it is the whole integer part.
    if j > digits_start + 1 && s.get_char(digits_start) == '0' {
        return None;
    }
    let int_end = j;
    let mut plain = true;
    let ghost mut has_frac = false;
    if j < n && s.get_char(j) == '.' {
        plain = false;
        proof {
            has_frac = true;
        }
        j = j + 1;
        let frac_start = j;
        while j < n && is_digit(s.get_char(j))
            invariant
                i < frac_start <= j <= n,
                n == s@.len(),
                frac_start == int_end + 1,
                spec_scan_digits(s@, frac_start as int) == spec_scan_digits(s@, j as int),
            decreases n - j,
        {
            j = j + 1;
        }
        proof {
            assert(spec_scan_digits(s@, int_end + 1) == j as int);
        }
        if j == frac_start {
            return None;
        }
    }
    let ghost j1 = j as int;
    let ghost mut has_exp = false;
    if j < n && (s.get_char(j) == 'e' || s.get_char(j) == 'E') {
        plain = false;
        proof {
            has_exp = true;
        }
        j = j + 1;
        if j < n && (s.get_char(j) == '+' || s.get_char(j) == '-') {
            j = j + 1;
        }
        let exp_start = j;
        while j < n && is_digit(s.get_char(j))
            invariant
                i < exp_start <= j <= n,
                n == s@.len(),
                spec_scan_digits(s@, exp_start as int) == spec_scan_digits(s@, j as int),
            decreases n - j,
        {
            j = j + 1;
        }
        proof {
            assert(spec_scan_digits(s@, exp_start as int) == j as int);
        }
        if j == exp_start {
            return None;
        }
    }
    if !plain {
        let raw = s.substring_char(i, j);
        proof {
            assert(spec_number(s@, i as int) == Some(
                (JsonModel::Num(s@.subrange(i as int, j as int)), j as int),
            ));
        }
        return Some((JsonValue::Num(String::from_str(raw)), j));
    }
    proof {
        lemma_spec_scan_digits_bounds(s@, digits_start as int);
    }
    let mut val: u64 = 0;
    let mut k = digits_start;
    while k < int_end
        invariant
            digits_start <= k <= int_end <= n,
            i <= digits_start,
            i < j <= n,
            int_end as int == spec_scan_digits(s@, digits_start as int),
            j == int_end,
            n == s@.len(),
            val as int == spec_digits_val(s@, digits_start as int, k as int),
            forall|x: int|
                digits_start <= x < int_end ==> spec_is_digit(#[trigger] s@[x]),
            neg == ((i as int) < s@.len() && s@[i as int] == '-'),
            digits_start as int == (if neg {
                i + 1
            } else {
                i as int
            }),
            int_end > digits_start,
            !(int_end > digits_start + 1 && s@[digits_start as int] == '0'),
            !((int_end as int) < s@.len() && s@[int_end as int] == '.'),
            !((int_end as int) < s@.len() && (s@[int_end as int] == 'e' || s@[int_end as int]
                == 'E')),
        decreases int_end - k,
    {
        let d: u64 = (s.get_char(k) as u32) as u64;
        proof {
            assert(spec_is_digit(s@[k as int]));
        }
        if d < 48 || d > 57 {
            let raw = s.substring_char(i, j);
            return Some((JsonValue::Num(String::from_str(raw)), j));
        }
        let v10 = match val.checked_mul(10) {
            Some(v) => v,
            None => {
                proof {
                    lemma_spec_digits_val_mono(s@, digits_start as int, k + 1, int_end as int);
                    lemma_spec_digits_val_nonneg(s@, digits_start as int, k as int);
                }
                let raw = s.substring_char(i, j);
                return Some((JsonValue::Num(String::from_str(raw)), j));
            },
        };
        val = match v10.checked_add(d - 48) {
            Some(v) => v,
            None => {
                proof {
                    lemma_spec_digits_val_mono(s@, digits_start as int, k + 1, int_end as int);
                    lemma_spec_digits_val_nonneg(s@, digits_start as int, k as int);
                }
                let raw = s.substring_char(i, j);
                return Some((JsonValue::Num(String::from_str(raw)), j));
            },
        };
        k = k + 1;
    }
    if neg {
        if val <= 0x8000000000000000 {
            let signed: i64 = (-(val as i128)) as i64;
            Some((JsonValue::Int(signed), j))
        } else {
            let raw = s.substring_char(i, j);
            Some((JsonValue::Num(String::from_str(raw)), j))
        }
    } else {
        if val <= 0x7FFFFFFFFFFFFFFF {
            Some((JsonValue::Int(val as i64), j))
        } else {
            let raw = s.substring_char(i, j);
            Some((JsonValue::Num(String::from_str(raw)), j))
        }
    }
}

/// Checks for a keyword (`true`, `false`, `null`) written character by
/// character at the position.
fn match_keyword(s: &str, i: usize, kw: &str) -> (r: bool)
    requires
        i <= s@.len(),
    ensures
        r ==> i + kw@.len() <= s@.len(),
        r == spec_match(s@, i as int, kw@),
{
    let n = s.unicode_len();
    let m = kw.unicode_len();
    if m > n - i {
        return false;
    }
    let mut k: usize = 0;
    while k < m
        invariant
            k <= m,
            i + m <= n,
            n == s@.len(),
            m == kw@.len(),
            forall|l: int| 0 <= l < k ==> s@[i + l] == kw@[l],
        decreases m - k,
    {
        if s.get_char(i + k) != kw.get_char(k) {
            proof {
                assert(s@.subrange(i as int, i + m) != kw@) by {
                    assert(s@.subrange(i as int, i + m)[k as int] != kw@[k as int]);
                }
            }
            return false;
        }
        k = k + 1;
    }
    proof {
        assert(s@.subrange(i as int, i + m) =~= kw@);
    }
    true
}

/// Parses one JSON value, leading whitespace skipped: exactly what the
/// specification parser yields at any sufficient fuel.
#[verifier::rlimit(100)]
#[verifier::spinoff_prover]
fn parse_value(s: &str, i: usize) -> (r: Option<(JsonValue, usize)>)
    requires
        i <= s@.len(),
    ensures
        r matches Some(p) ==> i < p.1 <= s@.len(),
        forall|fuel: nat|
            fuel >= value_fuel(s@, i as int) ==> #[trigger] spec_value(s@, i as int, fuel)
                == spec_value_at(s@, i as int),
        match r {
            Some(p) => spec_value_at(s@, i as int) matches Some(q) && represents(p.0, q.0) && p.1
                == q.1,
            None => spec_value_at(s@, i as int) is None,
        },
    decreases s@.len() - i, 0int,
{
    let n = s.unicode_len();
    let j = skip_ws(s, i);
    if j >= n {
        return None;
    }
    let c = s.get_char(j);
    if c == '{' {
        let sub = parse_obj_members(s, j + 1, true);
        proof {
            lemma_value_obj(s@, i as int, j as int);
        }
        match sub {
            Some((ms, k)) => Some((JsonValue::Obj(ms), k)),
            None => None,
        }
    } else if c == '[' {
        let sub = parse_arr_items(s, j + 1, true);
        proof {
            lemma_value_arr(s@, i as int, j as int);
        }
        match sub {
            Some((vs, k)) => Some((JsonValue::Arr(vs), k)),
            None => None,
        }
    } else if c == '"' {
        match parse_string_at(s, j) {
            Some((t, k)) => Some((JsonValue::Str(t), k)),
            None => None,
        }
    } else if c == 't' {
        if match_keyword(s, j, "true") {
            proof {
                reveal_strlit("true");
            }
            Some((JsonValue::Bool(true), j + 4))
        } else {
            None
        }
    } else if c == 'f' {
        if match_keyword(s, j, "false") {
            proof {
                reveal_strlit("false");
            }
            Some((JsonValue::Bool(false), j + 5))
        } else {
            None
        }
    } else if c == 'n' {
        if match_keyword(s, j, "null") {
            proof {
                reveal_strlit("null");
            }
            Some((JsonValue::Null, j + 4))
        } else {
            None
        }
    } else if c == '-' || is_digit(c) {
        parse_number_at(s, j)
    } else {
        None
    }
}

/// Parses the members of an object, the opening brace already consumed; a
/// closing brace is accepted only at the start or after a member, never
/// after a comma.
#[verifier::rlimit(100)]
#[verifier::spinoff_prover]
fn parse_obj_members(s: &str, i: usize, first: bool) -> (r: Option<
    (Vec<(String, JsonValue)>, usize),
>)
    requires
        i <= s@.len(),
    ensures
        r matches Some(p) ==> i < p.1 <= s@.len(),
        forall|fuel: nat|
            fuel >= list_fuel(s@, i as int) ==> #[trigger] spec_members(s@, i as int, first, fuel)
                == spec_members_at(s@, i as int, first),
        match r {
            Some(p) => spec_members_at(s@, i as int, first) matches Some(q) && members_represent(
                p.0@,
                q.0,
            ) && p.1 == q.1,
            None => spec_members_at(s@, i as int, first) is None,
        },
    decreases s@.len() - i, 1int,
{
    let n = s.unicode_len();
    let j = skip_ws(s, i);
    if j >= n {
        return None;
    }
    if first && s.get_char(j) == '}' {
        let empty: Vec<(String, JsonValue)> = Vec::new();
        proof {
            assert(members_represent(empty@, Seq::empty()));
        }
        return Some((empty, j + 1));
    }
    let (key, k1) = match parse_string_at(s, j) {
        Some(p) => p,
        None => {
            return None;
        },
    };
    let ghost gkey = key@;
    let k2 = skip_ws(s, k1);
    if k2 >= n || s.get_char(k2) != ':' {
        return None;
    }
    let sub = parse_value(s, k2 + 1);
    let (val, k3) = match sub {
        Some(p) => p,
        None => {
            proof {
                lemma_members_value_none(
                    s@,
                    i as int,
                    first,
                    j as int,
                    gkey,
                    k1 as int,
                    k2 as int,
                );
            }
            return None;
        },
    };
    let ghost gq = spec_value_at(s@, (k2 + 1) as int)->Some_0;
    let k4 = skip_ws(s, k3);
    if k4 >= n {
        proof {
            lemma_members_after_value(
                s@,
                i as int,
                first,
                j as int,
                gkey,
                k1 as int,
                k2 as int,
                gq.0,
                k3 as int,
            );
        }
        return None;
    }
    let mut result: Vec<(String, JsonValue)> = Vec::new();
    result.push((key, val));
    proof {
        assert(result@ =~= seq![(result@[0].0, result@[0].1)]);
        assert(members_represent(result@, seq![(gkey, gq.0)]));
    }
    if s.get_char(k4) == '}' {
        proof {
            lemma_members_after_value(
                s@,
                i as int,
                first,
                j as int,
                gkey,
                k1 as int,
                k2 as int,
                gq.0,
                k3 as int,
            );
        }
        Some((result, k4 + 1))
    } else if s.get_char(k4) == ',' {
        let tail = parse_obj_members(s, k4 + 1, false);
        proof {
            lemma_members_comma(
                s@,
                i as int,
                first,
                j as int,
                gkey,
                k1 as int,
                k2 as int,
                gq.0,
                k3 as int,
                k4 as int,
            );
        }
        let (mut rest, k5) = match tail {
            Some(p) => p,
            None => {
                return None;
            },
        };
        let ghost grest = rest@;
        result.append(&mut rest);
        proof {
            let sq = spec_members_at(s@, (k4 + 1) as int, false)->Some_0;
            lemma_members_represent_cons((result@[0].0, result@[0].1), (gkey, gq.0), grest, sq.0);
            assert(result@ =~= seq![(result@[0].0, result@[0].1)] + grest);
        }
        Some((result, k5))
    } else {
        proof {
            lemma_members_after_value(
                s@,
                i as int,
                first,
                j as int,
                gkey,
                k1 as int,
                k2 as int,
                gq.0,
                k3 as int,
            );
        }
        None
    }
}

/// Parses the items of an array, the opening bracket already consumed; a
/// closing bracket is accepted only at the start or after an item, never
/// after a comma.
#[verifier::rlimit(100)]
#[verifier::spinoff_prover]
fn parse_arr_items(s: &str, i: usize, first: bool) -> (r: Option<(Vec<JsonValue>, usize)>)
    requires
        i <= s@.len(),
    ensures
        r matches Some(p) ==> i < p.1 <= s@.len(),
        forall|fuel: nat|
            fuel >= list_fuel(s@, i as int) ==> #[trigger] spec_items(s@, i as int, first, fuel)
                == spec_items_at(s@, i as int, first),
        match r {
            Some(p) => spec_items_at(s@, i as int, first) matches Some(q) && items_represent(
                p.0@,
                q.0,
            ) && p.1 == q.1,
            None => spec_items_at(s@, i as int, first) is None,
        },
    decreases s@.len() - i, 1int,
{
    let n = s.unicode_len();
    let j = skip_ws(s, i);
    if j >= n {
        return None;
    }
    if first && s.get_char(j) == ']' {
        let empty: Vec<JsonValue> = Vec::new();
        proof {
            assert(items_represent(empty@, Seq::empty()));
        }
        return Some((empty, j + 1));
    }
    let sub = parse_value(s, j);
    let (val, k1) = match sub {
        Some(p) => p,
        None => {
            proof {
                lemma_items_value_none(s@, i as int, first, j as int);
            }
            return None;
        },
    };
    let ghost gq = spec_value_at(s@, j as int)->Some_0;
    let k2 = skip_ws(s, k1);
    if k2 >= n {
        proof {
            lemma_items_after_value(s@, i as int, first, j as int, gq.0, k1 as int);
        }
        return None;
    }
    let mut result: Vec<JsonValue> = Vec::new();
    result.push(val);
    proof {
        assert(result@ =~= seq![result@[0]]);
        assert(items_represent(result@, seq![gq.0]));
    }
    if s.get_char(k2) == ']' {
        proof {
            lemma_items_after_value(s@, i as int, first, j as int, gq.0, k1 as int);
        }
        Some((result, k2 + 1))
    } else if s.get_char(k2) == ',' {
        let tail = parse_arr_items(s, k2 + 1, false);
        proof {
            lemma_items_comma(s@, i as int, first, j as int, gq.0, k1 as int, k2 as int);
        }
        let (mut rest, k3) = match tail {
            Some(p) => p,
            None => {
                return None;
            },
        };
        let ghost grest = rest@;
        result.append(&mut rest);
        proof {
            let sq = spec_items_at(s@, (k2 + 1) as int, false)->Some_0;
            lemma_items_represent_cons(result@[0], gq.0, grest, sq.0);
            assert(result@ =~= seq![result@[0]] + grest);
        }
        Some((result, k3))
    } else {
        proof {
            lemma_items_after_value(s@, i as int, first, j as int, gq.0, k1 as int);
        }
        None
    }
}

/// Parses a complete JSON document: one value with nothing but whitespace
/// after it.
pub fn parse_json(s: &str) -> (r: Option<JsonValue>)
    ensures
        match r {
            Some(v) => spec_parse_json(s@) matches Some(m) && represents(v, m),
            None => spec_parse_json(s@) is None,
        },
{
    let n = s.unicode_len();
    match parse_value(s, 0) {
        Some((v, j)) => {
            let k = skip_ws(s, j);
            if k == n {
                Some(v)
            } else {
                None
            }
        },
        None => None,
    }
}

} // verus!

verus! {

broadcast use vstd::seq::group_seq_axioms;

/// The specification-level counterpart of [`JsonValue`]: the same shape over
/// mathematical sequences.
pub enum JsonModel {
    Null,
    Bool(bool),
    Int(i64),
    Num(Seq<char>),
    Str(Seq<char>),
    Arr(Seq<JsonModel>),
    Obj(Seq<(Seq<char>, JsonModel)>),
}

/// Whether a parsed value is exactly the model: equal shape, with every
/// text read as its view.
pub open spec fn represents(v: JsonValue, m: JsonModel) -> bool
    decreases m,
{
    match m {
        JsonModel::Null => v is Null,
        JsonModel::Bool(b) => v matches JsonValue::Bool(b2) && b2 == b,
        JsonModel::Int(x) => v matches JsonValue::Int(y) && y == x,
        JsonModel::Num(t) => v matches JsonValue::Num(u) && u@ == t,
        JsonModel::Str(t) => v matches JsonValue::Str(u) && u@ == t,
        JsonModel::Arr(ms) => v matches JsonValue::Arr(xs) && xs@.len() == ms.len() && (forall|
            k: int,
        |
            0 <= k < ms.len() ==> represents(xs@[k], #[trigger] ms[k])),
        JsonModel::Obj(gs) => v matches JsonValue::Obj(fs) && fs@.len() == gs.len() && (forall|
            k: int,
        |
            0 <= k < gs.len() ==> (fs@[k].0@ == (#[trigger] gs[k]).0 && represents(
                fs@[k].1,
                gs[k].1,
            ))),
    }
}

/// Whether a parsed member list is exactly the model member list.
pub open spec fn members_represent(
    fs: Seq<(String, JsonValue)>,
    gs: Seq<(Seq<char>, JsonModel)>,
) -> bool {
    fs.len() == gs.len() && (forall|k: int|
        0 <= k < gs.len() ==> (fs[k].0@ == (#[trigger] gs[k]).0 && represents(fs[k].1, gs[k].1)))
}

/// Whether a parsed item list is exactly the model item list.
pub open spec fn items_represent(xs: Seq<JsonValue>, ms: Seq<JsonModel>) -> bool {
    xs.len() == ms.len() && (forall|k: int| 0 <= k < ms.len() ==> represents(xs[k], #[trigger] ms[k]))
}

pub open spec fn spec_is_ws(c: char) -> bool {
    c == ' ' || c == '\t' || c == '\n' || c == '\r'
}

/// The first position at or after `i` that does not hold whitespace.
pub open spec fn spec_skip_ws(s: Seq<char>, i: int) -> int
    decreases s.len() - i,
{
    if 0 <= i && i < s.len() && spec_is_ws(s[i]) {
        spec_skip_ws(s, i + 1)
    } else {
        i
    }
}

pub proof fn lemma_spec_skip_ws_bounds(s: Seq<char>, i: int)
    requires
        0 <= i <= s.len(),
    ensures
        i <= spec_skip_ws(s, i) <= s.len(),
    decreases s.len() - i,
{
    if i < s.len() && spec_is_ws(s[i]) {
        lemma_spec_skip_ws_bounds(s, i + 1);
    }
}

pub open spec fn spec_hex_digit_ok(c: char) -> bool {
    (48 <= c as u32 && c as u32 <= 57) || (97 <= c as u32 && c as u32 <= 102) || (65 <= c as u32
        && c as u32 <= 70)
}

pub open spec fn spec_hex_digit_val(c: char) -> u32 {
    if 48 <= c as u32 && c as u32 <= 57 {
        (c as u32 - 48) as u32
    } else if 97 <= c as u32 && c as u32 <= 102 {
        (c as u32 - 87) as u32
    } else if 65 <= c as u32 && c as u32 <= 70 {
        (c as u32 - 55) as u32
    } else {
        0
    }
}

/// Four hexadecimal digits read at the position, with the position after
/// them.
pub open spec fn spec_hex4(s: Seq<char>, i: int) -> Option<(u32, int)> {
    if i + 4 <= s.len() && spec_hex_digit_ok(s[i]) && spec_hex_digit_ok(s[i + 1])
        && spec_hex_digit_ok(s[i + 2]) && spec_hex_digit_ok(s[i + 3]) {
        Some(
            (
                (4096 * spec_hex_digit_val(s[i]) + 256 * spec_hex_digit_val(s[i + 1]) + 16
                    * spec_hex_digit_val(s[i + 2]) + spec_hex_digit_val(s[i + 3])) as u32,
                i + 4,
            ),
        )
    } else {
        None
    }
}

/// The character with the given scalar value.
pub open spec fn spec_char_of(v: u32) -> char {
    choose|c: char| #[trigger] (c as u32) == v
}

/// The body of a JSON string from position `j` (just inside the opening
/// quote), decoded onto `acc`; yields the decoded text and the position
/// after the closing quote.
pub open spec fn spec_string_body(s: Seq<char>, j: int, acc: Seq<char>) -> Option<(Seq<char>, int)>
    decreases s.len() - j,
{
    if j < 0 || j >= s.len() {
        None
    } else if s[j] == '"' {
        Some((acc, j + 1))
    } else if s[j] == '\\' {
        if j + 1 >= s.len() {
            None
        } else {
            let e = s[j + 1];
            if e == '"' || e == '\\' || e == '/' {
                spec_string_body(s, j + 2, acc.push(e))
            } else if e == 'b' {
                spec_string_body(s, j + 2, acc.push('\u{8}'))
            } else if e == 'f' {
                spec_string_body(s, j + 2, acc.push('\u{c}'))
            } else if e == 'n' {
                spec_string_body(s, j + 2, acc.push('\n'))
            } else if e == 'r' {
                spec_string_body(s, j + 2, acc.push('\r'))
            } else if e == 't' {
                spec_string_body(s, j + 2, acc.push('\t'))
            } else if e == 'u' {
                match spec_hex4(s, j + 2) {
                    None => None,
                    Some((hi, after_hi)) => {
                        if 0xD800 <= hi && hi <= 0xDBFF {
                            if after_hi + 2 > s.len() || s[after_hi] != '\\' || s[after_hi + 1]
                                != 'u' {
                                None
                            } else {
                                match spec_hex4(s, after_hi + 2) {
                                    None => None,
                                    Some((lo, after_lo)) => {
                                        if !(0xDC00 <= lo && lo <= 0xDFFF) {
                                            None
                                        } else {
                                            spec_string_body(
                                                s,
                                                after_lo,
                                                acc.push(
                                                    spec_char_of(
                                                        (0x10000 + (hi - 0xD800) * 0x400 + (lo
                                                            - 0xDC00)) as u32,
                                                    ),
                                                ),
                                            )
                                        }
                                    },
                                }
                            }
                        } else if 0xDC00 <= hi && hi <= 0xDFFF {
                            None
                        } else {
                            spec_string_body(s, after_hi, acc.push(spec_char_of(hi)))
                        }
                    },
                }
            } else {
                None
            }
        }
    } else if (s[j] as u32) < 32 {
        None
    } else {
        spec_string_body(s, j + 1, acc.push(s[j]))
    }
}

/// A JSON string starting at its opening quote.
pub open spec fn spec_parse_string(s: Seq<char>, i: int) -> Option<(Seq<char>, int)> {
    if 0 <= i && i < s.len() && s[i] == '"' {
        spec_string_body(s, i + 1, Seq::empty())
    } else {
        None
    }
}

pub open spec fn spec_is_digit(c: char) -> bool {
    '0' <= c && c <= '9'
}

/// The first position at or after `i` that does not hold a decimal digit.
pub open spec fn spec_scan_digits(s: Seq<char>, i: int) -> int
    decreases s.len() - i,
{
    if 0 <= i && i < s.len() && spec_is_digit(s[i]) {
        spec_scan_digits(s, i + 1)
    } else {
        i
    }
}

pub proof fn lemma_spec_scan_digits_bounds(s: Seq<char>, i: int)
    requires
        0 <= i <= s.len(),
    ensures
        i <= spec_scan_digits(s, i) <= s.len(),
        forall|k: int| i <= k < spec_scan_digits(s, i) ==> spec_is_digit(#[trigger] s[k]),
    decreases s.len() - i,
{
    if i < s.len() && spec_is_digit(s[i]) {
        lemma_spec_scan_digits_bounds(s, i + 1);
    }
}

/// The number written by the digits in `[a, b)`.
pub open spec fn spec_digits_val(s: Seq<char>, a: int, b: int) -> int
    decreases b - a,
{
    if a >= b {
        0
    } else {
        spec_digits_val(s, a, b - 1) * 10 + (s[b - 1] as u32 - 48)
    }
}

proof fn lemma_spec_digits_val_nonneg(s: Seq<char>, a: int, b: int)
    requires
        forall|k: int| a <= k < b ==> spec_is_digit(#[trigger] s[k]),
    ensures
        spec_digits_val(s, a, b) >= 0,
    decreases b - a,
{
    if a < b {
        lemma_spec_digits_val_nonneg(s, a, b - 1);
        assert(spec_is_digit(s[b - 1]));
        assert(s[b - 1] as u32 >= 48);
    }
}

proof fn lemma_spec_digits_val_mono(s: Seq<char>, a: int, k: int, b: int)
    requires
        a <= k <= b,
        forall|x: int| a <= x < b ==> spec_is_digit(#[trigger] s[x]),
    ensures
        spec_digits_val(s, a, b) >= spec_digits_val(s, a, k),
    decreases b - k,
{
    if k < b {
        lemma_spec_digits_val_mono(s, a, k, b - 1);
        lemma_spec_digits_val_nonneg(s, a, b - 1);
        assert(spec_is_digit(s[b - 1]));
        assert(s[b - 1] as u32 >= 48);
    }
}

/// A JSON number starting at the position: a well-formed integer within
/// `i64` becomes `Int`, every other well-formed number keeps its raw text.
pub open spec fn spec_number(s: Seq<char>, i: int) -> Option<(JsonModel, int)> {
    let n = s.len() as int;
    let neg = i < n && s[i] == '-';
    let ds = if neg { i + 1 } else { i };
    let int_end = spec_scan_digits(s, ds);
    if int_end == ds {
        None
    } else if int_end > ds + 1 && s[ds] == '0' {
        None
    } else {
        let has_frac = int_end < n && s[int_end] == '.';
        let j1 = if has_frac { spec_scan_digits(s, int_end + 1) } else { int_end };
        if has_frac && j1 == int_end + 1 {
            None
        } else {
            let has_exp = j1 < n && (s[j1] == 'e' || s[j1] == 'E');
            let es = if has_exp {
                if j1 + 1 < n && (s[j1 + 1] == '+' || s[j1 + 1] == '-') {
                    j1 + 2
                } else {
                    j1 + 1
                }
            } else {
                j1
            };
            let j = if has_exp { spec_scan_digits(s, es) } else { j1 };
            if has_exp && j == es {
                None
            } else if has_frac || has_exp {
                Some((JsonModel::Num(s.subrange(i, j)), j))
            } else {
                let val = spec_digits_val(s, ds, int_end);
                if val > 0xFFFFFFFFFFFFFFFF {
                    Some((JsonModel::Num(s.subrange(i, j)), j))
                } else if neg {
                    if val <= 0x8000000000000000 {
                        Some((JsonModel::Int((-val) as i64), j))
                    } else {
                        Some((JsonModel::Num(s.subrange(i, j)), j))
                    }
                } else {
                    if val <= 0x7FFFFFFFFFFFFFFF {
                        Some((JsonModel::Int(val as i64), j))
                    } else {
                        Some((JsonModel::Num(s.subrange(i, j)), j))
                    }
                }
            }
        }
    }
}

/// Whether the keyword stands at the position.
pub open spec fn spec_match(s: Seq<char>, i: int, kw: Seq<char>) -> bool {
    i + kw.len() <= s.len() && s.subrange(i, i + kw.len()) == kw
}

proof fn lemma_members_represent_cons(
    f0: (String, JsonValue),
    g0: (Seq<char>, JsonModel),
    fs: Seq<(String, JsonValue)>,
    gs: Seq<(Seq<char>, JsonModel)>,
)
    requires
        f0.0@ == g0.0,
        represents(f0.1, g0.1),
        members_represent(fs, gs),
    ensures
        members_represent(seq![f0] + fs, seq![g0] + gs),
{
    let cf = seq![f0] + fs;
    let cg = seq![g0] + gs;
    assert forall|k: int| 0 <= k < cg.len() implies (cf[k].0@ == (#[trigger] cg[k]).0 && represents(
        cf[k].1,
        cg[k].1,
    )) by {
        if k == 0 {
            assert(cf[0] == f0);
            assert(cg[0] == g0);
        } else {
            assert(cf[k] == fs[k - 1]);
            assert(cg[k] == gs[k - 1]);
        }
    }
}

proof fn lemma_items_represent_cons(
    x0: JsonValue,
    m0: JsonModel,
    xs: Seq<JsonValue>,
    ms: Seq<JsonModel>,
)
    requires
        represents(x0, m0),
        items_represent(xs, ms),
    ensures
        items_represent(seq![x0] + xs, seq![m0] + ms),
{
    let cx = seq![x0] + xs;
    let cm = seq![m0] + ms;
    assert forall|k: int| 0 <= k < cm.len() implies represents(cx[k], #[trigger] cm[k]) by {
        if k == 0 {
            assert(cx[0] == x0);
            assert(cm[0] == m0);
        } else {
            assert(cx[k] == xs[k - 1]);
            assert(cm[k] == ms[k - 1]);
        }
    }
}

/// One JSON value at the position, leading whitespace skipped. The fuel only
/// bounds the recursion: every amount of at least `2 * (s.len() - i) + 4`
/// gives the same answer, and the executable parser is proved against all of
/// them.
pub open spec fn spec_value(s: Seq<char>, i: int, fuel: nat) -> Option<(JsonModel, int)>
    decreases fuel,
{
    if fuel == 0 {
        None
    } else {
        let j = spec_skip_ws(s, i);
        if j >= s.len() {
            None
        } else {
            let c = s[j];
            if c == '{' {
                match spec_members(s, j + 1, true, (fuel - 1) as nat) {
                    Some((ms, k)) => Some((JsonModel::Obj(ms), k)),
                    None => None,
                }
            } else if c == '[' {
                match spec_items(s, j + 1, true, (fuel - 1) as nat) {
                    Some((vs, k)) => Some((JsonModel::Arr(vs), k)),
                    None => None,
                }
            } else if c == '"' {
                match spec_parse_string(s, j) {
                    Some((t, k)) => Some((JsonModel::Str(t), k)),
                    None => None,
                }
            } else if c == 't' {
                if spec_match(s, j, ("true")@) {
                    Some((JsonModel::Bool(true), j + 4))
                } else {
                    None
                }
            } else if c == 'f' {
                if spec_match(s, j, ("false")@) {
                    Some((JsonModel::Bool(false), j + 5))
                } else {
                    None
                }
            } else if c == 'n' {
                if spec_match(s, j, ("null")@) {
                    Some((JsonModel::Null, j + 4))
                } else {
                    None
                }
            } else if c == '-' || spec_is_digit(c) {
                spec_number(s, j)
            } else {
                None
            }
        }
    }
}

/// The members of an object, the opening brace already consumed; a closing
/// brace is accepted only at the start or after a member.
pub open spec fn spec_members(s: Seq<char>, i: int, first: bool, fuel: nat) -> Option<
    (Seq<(Seq<char>, JsonModel)>, int),
>
    decreases fuel,
{
    if fuel == 0 {
        None
    } else {
        let j = spec_skip_ws(s, i);
        if j >= s.len() {
            None
        } else if first && s[j] == '}' {
            Some((Seq::empty(), j + 1))
        } else {
            match spec_parse_string(s, j) {
                None => None,
                Some((key, k1)) => {
                    let k2 = spec_skip_ws(s, k1);
                    if k2 >= s.len() || s[k2] != ':' {
                        None
                    } else {
                        match spec_value(s, k2 + 1, (fuel - 1) as nat) {
                            None => None,
                            Some((val, k3)) => {
                                let k4 = spec_skip_ws(s, k3);
                                if k4 >= s.len() {
                                    None
                                } else if s[k4] == '}' {
                                    Some((seq![(key, val)], k4 + 1))
                                } else if s[k4] == ',' {
                                    match spec_members(s, k4 + 1, false, (fuel - 1) as nat) {
                                        None => None,
                                        Some((rest, k5)) => Some((seq![(key, val)] + rest, k5)),
                                    }
                                } else {
                                    None
                                }
                            },
                        }
                    }
                },
            }
        }
    }
}

/// The items of an array, the opening bracket already consumed; a closing
/// bracket is accepted only at the start or after an item.
pub open spec fn spec_items(s: Seq<char>, i: int, first: bool, fuel: nat) -> Option<
    (Seq<JsonModel>, int),
>
    decreases fuel,
{
    if fuel == 0 {
        None
    } else {
        let j = spec_skip_ws(s, i);
        if j >= s.len() {
            None
        } else if first && s[j] == ']' {
            Some((Seq::empty(), j + 1))
        } else {
            match spec_value(s, j, (fuel - 1) as nat) {
                None => None,
                Some((val, k1)) => {
                    let k2 = spec_skip_ws(s, k1);
                    if k2 >= s.len() {
                        None
                    } else if s[k2] == ']' {
                        Some((seq![val], k2 + 1))
                    } else if s[k2] == ',' {
                        match spec_items(s, k2 + 1, false, (fuel - 1) as nat) {
                            None => None,
                            Some((rest, k3)) => Some((seq![val] + rest, k3)),
                        }
                    } else {
                        None
                    }
                },
            }
        }
    }
}

/// Fuel that always suffices for one value at the position.
pub open spec fn value_fuel(s: Seq<char>, i: int) -> nat {
    (2 * (s.len() - i) + 4) as nat
}

/// Fuel that always suffices for a member or item list at the position.
pub open spec fn list_fuel(s: Seq<char>, i: int) -> nat {
    (2 * (s.len() - i) + 5) as nat
}

/// One JSON value at the position, at its canonical fuel.
pub open spec fn spec_value_at(s: Seq<char>, i: int) -> Option<(JsonModel, int)> {
    spec_value(s, i, value_fuel(s, i))
}

/// An object's members at the position, at their canonical fuel.
pub open spec fn spec_members_at(s: Seq<char>, i: int, first: bool) -> Option<
    (Seq<(Seq<char>, JsonModel)>, int),
> {
    spec_members(s, i, first, list_fuel(s, i))
}

/// An array's items at the position, at their canonical fuel.
pub open spec fn spec_items_at(s: Seq<char>, i: int, first: bool) -> Option<
    (Seq<JsonModel>, int),
> {
    spec_items(s, i, first, list_fuel(s, i))
}

proof fn lemma_value_obj(s: Seq<char>, i: int, j: int)
    requires
        0 <= i <= s.len(),
        j == spec_skip_ws(s, i),
        i <= j < s.len(),
        s[j] == '{',
        forall|fuel: nat|
            fuel >= list_fuel(s, j + 1) ==> #[trigger] spec_members(s, j + 1, true, fuel)
                == spec_members_at(s, j + 1, true),
    ensures
        forall|fuel: nat|
            fuel >= value_fuel(s, i) ==> #[trigger] spec_value(s, i, fuel) == (
            match spec_members_at(s, j + 1, true) {
                Some((ms, k)) => Some((JsonModel::Obj(ms), k)),
                None => None,
            }),
{
    assert forall|fuel: nat| fuel >= value_fuel(s, i) implies #[trigger] spec_value(s, i, fuel)
        == (match spec_members_at(s, j + 1, true) {
        Some((ms, k)) => Some((JsonModel::Obj(ms), k)),
        None => None,
    }) by {
        assert((fuel - 1) as nat >= list_fuel(s, j + 1));
        assert(spec_members(s, j + 1, true, (fuel - 1) as nat) == spec_members_at(s, j + 1, true));
    }
}

proof fn lemma_value_arr(s: Seq<char>, i: int, j: int)
    requires
        0 <= i <= s.len(),
        j == spec_skip_ws(s, i),
        i <= j < s.len(),
        s[j] == '[',
        forall|fuel: nat|
            fuel >= list_fuel(s, j + 1) ==> #[trigger] spec_items(s, j + 1, true, fuel)
                == spec_items_at(s, j + 1, true),
    ensures
        forall|fuel: nat|
            fuel >= value_fuel(s, i) ==> #[trigger] spec_value(s, i, fuel) == (
            match spec_items_at(s, j + 1, true) {
                Some((vs, k)) => Some((JsonModel::Arr(vs), k)),
                None => None,
            }),
{
    assert forall|fuel: nat| fuel >= value_fuel(s, i) implies #[trigger] spec_value(s, i, fuel)
        == (match spec_items_at(s, j + 1, true) {
        Some((vs, k)) => Some((JsonModel::Arr(vs), k)),
        None => None,
    }) by {
        assert((fuel - 1) as nat >= list_fuel(s, j + 1));
        assert(spec_items(s, j + 1, true, (fuel - 1) as nat) == spec_items_at(s, j + 1, true));
    }
}

proof fn lemma_members_value_none(
    s: Seq<char>,
    i: int,
    first: bool,
    j: int,
    key: Seq<char>,
    k1: int,
    k2: int,
)
    requires
        0 <= i <= s.len(),
        j == spec_skip_ws(s, i),
        i <= j < s.len(),
        !(first && s[j] == '}'),
        spec_parse_string(s, j) == Some((key, k1)),
        j < k1 <= s.len(),
        k2 == spec_skip_ws(s, k1),
        k1 <= k2,
        k2 < s.len(),
        s[k2] == ':',
        forall|fuel: nat|
            fuel >= value_fuel(s, k2 + 1) ==> #[trigger] spec_value(s, k2 + 1, fuel)
                == spec_value_at(s, k2 + 1),
        spec_value_at(s, k2 + 1) is None,
    ensures
        forall|fuel: nat|
            fuel >= list_fuel(s, i) ==> (#[trigger] spec_members(s, i, first, fuel)) is None,
{
    assert forall|fuel: nat| fuel >= list_fuel(s, i) implies (#[trigger] spec_members(
        s,
        i,
        first,
        fuel,
    )) is None by {
        assert((fuel - 1) as nat >= value_fuel(s, k2 + 1));
        assert(spec_value(s, k2 + 1, (fuel - 1) as nat) == spec_value_at(s, k2 + 1));
    }
}

proof fn lemma_members_after_value(
    s: Seq<char>,
    i: int,
    first: bool,
    j: int,
    key: Seq<char>,
    k1: int,
    k2: int,
    v: JsonModel,
    k3: int,
)
    requires
        0 <= i <= s.len(),
        j == spec_skip_ws(s, i),
        i <= j < s.len(),
        !(first && s[j] == '}'),
        spec_parse_string(s, j) == Some((key, k1)),
        j < k1 <= s.len(),
        k2 == spec_skip_ws(s, k1),
        k1 <= k2,
        k2 < s.len(),
        s[k2] == ':',
        forall|fuel: nat|
            fuel >= value_fuel(s, k2 + 1) ==> #[trigger] spec_value(s, k2 + 1, fuel)
                == spec_value_at(s, k2 + 1),
        spec_value_at(s, k2 + 1) == Some((v, k3)),
        k2 + 1 < k3 <= s.len(),
        spec_skip_ws(s, k3) < s.len() ==> s[spec_skip_ws(s, k3)] != ',',
    ensures
        forall|fuel: nat|
            fuel >= list_fuel(s, i) ==> #[trigger] spec_members(s, i, first, fuel) == (
            if spec_skip_ws(s, k3) >= s.len() {
                None
            } else if s[spec_skip_ws(s, k3)] == '}' {
                Some((seq![(key, v)], spec_skip_ws(s, k3) + 1))
            } else {
                None
            }),
{
    assert forall|fuel: nat| fuel >= list_fuel(s, i) implies #[trigger] spec_members(
        s,
        i,
        first,
        fuel,
    ) == (if spec_skip_ws(s, k3) >= s.len() {
        None
    } else if s[spec_skip_ws(s, k3)] == '}' {
        Some((seq![(key, v)], spec_skip_ws(s, k3) + 1))
    } else {
        None
    }) by {
        assert((fuel - 1) as nat >= value_fuel(s, k2 + 1));
        assert(spec_value(s, k2 + 1, (fuel - 1) as nat) == spec_value_at(s, k2 + 1));
    }
}

proof fn lemma_members_comma(
    s: Seq<char>,
    i: int,
    first: bool,
    j: int,
    key: Seq<char>,
    k1: int,
    k2: int,
    v: JsonModel,
    k3: int,
    k4: int,
)
    requires
        0 <= i <= s.len(),
        j == spec_skip_ws(s, i),
        i <= j < s.len(),
        !(first && s[j] == '}'),
        spec_parse_string(s, j) == Some((key, k1)),
        j < k1 <= s.len(),
        k2 == spec_skip_ws(s, k1),
        k1 <= k2,
        k2 < s.len(),
        s[k2] == ':',
        forall|fuel: nat|
            fuel >= value_fuel(s, k2 + 1) ==> #[trigger] spec_value(s, k2 + 1, fuel)
                == spec_value_at(s, k2 + 1),
        spec_value_at(s, k2 + 1) == Some((v, k3)),
        k2 + 1 < k3 <= s.len(),
        k4 == spec_skip_ws(s, k3),
        k3 <= k4,
        k4 < s.len(),
        s[k4] == ',',
        forall|fuel: nat|
            fuel >= list_fuel(s, k4 + 1) ==> #[trigger] spec_members(s, k4 + 1, false, fuel)
                == spec_members_at(s, k4 + 1, false),
    ensures
        forall|fuel: nat|
            fuel >= list_fuel(s, i) ==> #[trigger] spec_members(s, i, first, fuel) == (
            match spec_members_at(s, k4 + 1, false) {
                None => None,
                Some((rest, k5)) => Some((seq![(key, v)] + rest, k5)),
            }),
{
    assert forall|fuel: nat| fuel >= list_fuel(s, i) implies #[trigger] spec_members(
        s,
        i,
        first,
        fuel,
    ) == (match spec_members_at(s, k4 + 1, false) {
        None => None,
        Some((rest, k5)) => Some((seq![(key, v)] + rest, k5)),
    }) by {
        assert((fuel - 1) as nat >= value_fuel(s, k2 + 1));
        assert(spec_value(s, k2 + 1, (fuel - 1) as nat) == spec_value_at(s, k2 + 1));
        assert((fuel - 1) as nat >= list_fuel(s, k4 + 1));
        assert(spec_members(s, k4 + 1, false, (fuel - 1) as nat) == spec_members_at(
            s,
            k4 + 1,
            false,
        ));
    }
}

proof fn lemma_items_value_none(s: Seq<char>, i: int, first: bool, j: int)
    requires
        0 <= i <= s.len(),
        j == spec_skip_ws(s, i),
        i <= j < s.len(),
        !(first && s[j] == ']'),
        forall|fuel: nat|
            fuel >= value_fuel(s, j) ==> #[trigger] spec_value(s, j, fuel) == spec_value_at(s, j),
        spec_value_at(s, j) is None,
    ensures
        forall|fuel: nat|
            fuel >= list_fuel(s, i) ==> (#[trigger] spec_items(s, i, first, fuel)) is None,
{
    assert forall|fuel: nat| fuel >= list_fuel(s, i) implies (#[trigger] spec_items(
        s,
        i,
        first,
        fuel,
    )) is None by {
        assert((fuel - 1) as nat >= value_fuel(s, j));
        assert(spec_value(s, j, (fuel - 1) as nat) == spec_value_at(s, j));
    }
}

proof fn lemma_items_after_value(
    s: Seq<char>,
    i: int,
    first: bool,
    j: int,
    v: JsonModel,
    k1: int,
)
    requires
        0 <= i <= s.len(),
        j == spec_skip_ws(s, i),
        i <= j < s.len(),
        !(first && s[j] == ']'),
        forall|fuel: nat|
            fuel >= value_fuel(s, j) ==> #[trigger] spec_value(s, j, fuel) == spec_value_at(s, j),
        spec_value_at(s, j) == Some((v, k1)),
        j < k1 <= s.len(),
        spec_skip_ws(s, k1) < s.len() ==> s[spec_skip_ws(s, k1)] != ',',
    ensures
        forall|fuel: nat|
            fuel >= list_fuel(s, i) ==> #[trigger] spec_items(s, i, first, fuel) == (
            if spec_skip_ws(s, k1) >= s.len() {
                None
            } else if s[spec_skip_ws(s, k1)] == ']' {
                Some((seq![v], spec_skip_ws(s, k1) + 1))
            } else {
                None
            }),
{
    assert forall|fuel: nat| fuel >= list_fuel(s, i) implies #[trigger] spec_items(
        s,
        i,
        first,
        fuel,
    ) == (if spec_skip_ws(s, k1) >= s.len() {
        None
    } else if s[spec_skip_ws(s, k1)] == ']' {
        Some((seq![v], spec_skip_ws(s, k1) + 1))
    } else {
        None
    }) by {
        assert((fuel - 1) as nat >= value_fuel(s, j));
        assert(spec_value(s, j, (fuel - 1) as nat) == spec_value_at(s, j));
    }
}

proof fn lemma_items_comma(
    s: Seq<char>,
    i: int,
    first: bool,
    j: int,
    v: JsonModel,
    k1: int,
    k2: int,
)
    requires
        0 <= i <= s.len(),
        j == spec_skip_ws(s, i),
        i <= j < s.len(),
        !(first && s[j] == ']'),
        forall|fuel: nat|
            fuel >= value_fuel(s, j) ==> #[trigger] spec_value(s, j, fuel) == spec_value_at(s, j),
        spec_value_at(s, j) == Some((v, k1)),
        j < k1 <= s.len(),
        k2 == spec_skip_ws(s, k1),
        k1 <= k2,
        k2 < s.len(),
        s[k2] == ',',
        forall|fuel: nat|
            fuel >= list_fuel(s, k2 + 1) ==> #[trigger] spec_items(s, k2 + 1, false, fuel)
                == spec_items_at(s, k2 + 1, false),
    ensures
        forall|fuel: nat|
            fuel >= list_fuel(s, i) ==> #[trigger] spec_items(s, i, first, fuel) == (
            match spec_items_at(s, k2 + 1, false) {
                None => None,
                Some((rest, k3)) => Some((seq![v] + rest, k3)),
            }),
{
    assert forall|fuel: nat| fuel >= list_fuel(s, i) implies #[trigger] spec_items(
        s,
        i,
        first,
        fuel,
    ) == (match spec_items_at(s, k2 + 1, false) {
        None => None,
        Some((rest, k3)) => Some((seq![v] + rest, k3)),
    }) by {
        assert((fuel - 1) as nat >= value_fuel(s, j));
        assert(spec_value(s, j, (fuel - 1) as nat) == spec_value_at(s, j));
        assert((fuel - 1) as nat >= list_fuel(s, k2 + 1));
        assert(spec_items(s, k2 + 1, false, (fuel - 1) as nat) == spec_items_at(s, k2 + 1, false));
    }
}

/// A complete JSON document: one value with nothing but whitespace after it.
pub open spec fn spec_parse_json(s: Seq<char>) -> Option<JsonModel> {
    match spec_value(s, 0, (2 * s.len() + 4) as nat) {
        Some((m, j)) => {
            if spec_skip_ws(s, j) == s.len() {
                Some(m)
            } else {
                None
            }
        },
        None => None,
    }
}

} // verus!

verus! {

/// The first member under the key of a model object.
pub open spec fn m_obj_lookup(ms: Seq<(Seq<char>, JsonModel)>, key: Seq<char>) -> Option<JsonModel>
    decreases ms.len(),
{
    if ms.len() == 0 {
        None
    } else if ms[0].0 == key {
        Some(ms[0].1)
    } else {
        m_obj_lookup(ms.drop_first(), key)
    }
}

/// The member under the key of a model object where it is a string.
pub open spec fn m_lookup_string(ms: Seq<(Seq<char>, JsonModel)>, key: Seq<char>) -> Option<
    Seq<char>,
> {
    match m_obj_lookup(ms, key) {
        Some(JsonModel::Str(t)) => Some(t),
        _ => None,
    }
}

/// The member under the key of a model object where it is an integer.
pub open spec fn m_lookup_int(ms: Seq<(Seq<char>, JsonModel)>, key: Seq<char>) -> Option<i64> {
    match m_obj_lookup(ms, key) {
        Some(JsonModel::Int(n)) => Some(n),
        _ => None,
    }
}

/// The member under the key of a model object where it is an object.
pub open spec fn m_lookup_obj(ms: Seq<(Seq<char>, JsonModel)>, key: Seq<char>) -> Option<
    Seq<(Seq<char>, JsonModel)>,
> {
    match m_obj_lookup(ms, key) {
        Some(JsonModel::Obj(inner)) => Some(inner),
        _ => None,
    }
}

/// Lookup in a parsed object agrees with lookup in the model it represents.
pub proof fn lemma_represents_lookup(
    fs: Seq<(String, JsonValue)>,
    gs: Seq<(Seq<char>, JsonModel)>,
    key: Seq<char>,
)
    requires
        members_represent(fs, gs),
    ensures
        match obj_lookup(fs, key) {
            Some(v) => m_obj_lookup(gs, key) matches Some(m) && represents(v, m),
            None => m_obj_lookup(gs, key) is None,
        },
    decreases fs.len(),
{
    broadcast use vstd::seq::group_seq_axioms;

    if fs.len() == 0 {
    } else {
        assert(fs[0].0@ == gs[0].0 && represents(fs[0].1, gs[0].1));
        if fs[0].0@ == key {
        } else {
            assert(members_represent(fs.drop_first(), gs.drop_first())) by {
                assert forall|k: int| 0 <= k < gs.drop_first().len() implies (fs.drop_first()[k].0@
                    == (#[trigger] gs.drop_first()[k]).0 && represents(
                    fs.drop_first()[k].1,
                    gs.drop_first()[k].1,
                )) by {
                    assert(fs.drop_first()[k] == fs[k + 1]);
                    assert(gs.drop_first()[k] == gs[k + 1]);
                }
            }
            lemma_represents_lookup(fs.drop_first(), gs.drop_first(), key);
        }
    }
}

/// String lookup carries over to the model exactly.
pub proof fn lemma_lookup_string_model(
    fs: Seq<(String, JsonValue)>,
    gs: Seq<(Seq<char>, JsonModel)>,
    key: Seq<char>,
)
    requires
        members_represent(fs, gs),
    ensures
        lookup_string(fs, key) == m_lookup_string(gs, key),
{
    lemma_represents_lookup(fs, gs, key);
}

/// Integer lookup carries over to the model exactly.
pub proof fn lemma_lookup_int_model(
    fs: Seq<(String, JsonValue)>,
    gs: Seq<(Seq<char>, JsonModel)>,
    key: Seq<char>,
)
    requires
        members_represent(fs, gs),
    ensures
        lookup_int(fs, key) == m_lookup_int(gs, key),
{
    lemma_represents_lookup(fs, gs, key);
}

/// Object lookup carries over to the model, member for member.
pub proof fn lemma_lookup_obj_model(
    fs: Seq<(String, JsonValue)>,
    gs: Seq<(Seq<char>, JsonModel)>,
    key: Seq<char>,
)
    requires
        members_represent(fs, gs),
    ensures
        match lookup_obj(fs, key) {
            Some(inner) => m_lookup_obj(gs, key) matches Some(minner) && members_represent(
                inner,
                minner,
            ),
            None => m_lookup_obj(gs, key) is None,
        },
{
    lemma_represents_lookup(fs, gs, key);
}

} // verus!
