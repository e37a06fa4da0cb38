use vstd::prelude::*;

verus! {

/// The character for one decimal digit.
pub open spec fn dec_digit(d: int) -> char {
    if d == 0 { '0' }
    else if d == 1 { '1' }
    else if d == 2 { '2' }
    else if d == 3 { '3' }
    else if d == 4 { '4' }
    else if d == 5 { '5' }
    else if d == 6 { '6' }
    else if d == 7 { '7' }
    else if d == 8 { '8' }
    else { '9' }
}

/// The decimal rendering of a non-negative integer, without leading zeros
/// (except for the single digit of zero itself).
pub open spec fn udec_chars(n: nat) -> Seq<char>
    decreases n,
{
    if n < 10 {
        seq![dec_digit(n as int)]
    } else {
        udec_chars(n / 10).push(dec_digit((n % 10) as int))
    }
}

/// The decimal rendering of an integer, with a leading minus sign when it is
/// negative.
pub open spec fn dec_chars(n: int) -> Seq<char> {
    if n >= 0 {
        udec_chars(n as nat)
    } else {
        seq!['-'] + udec_chars((-n) as nat)
    }
}

pub open spec fn is_dec_digit_char(c: char) -> bool {
    c == '0' || c == '1' || c == '2' || c == '3' || c == '4' || c == '5' || c == '6' || c == '7'
        || c == '8' || c == '9'
}

/// Every character of a decimal rendering of a non-negative integer is a digit.
pub proof fn lemma_udec_chars_are_digits(n: nat)
    ensures
        udec_chars(n).len() >= 1,
        forall|i: int| 0 <= i < udec_chars(n).len() ==> is_dec_digit_char(#[trigger] udec_chars(n)[i]),
    decreases n,
{
    if n < 10 {
    } else {
        lemma_udec_chars_are_digits(n / 10);
    }
}

/// Distinct non-negative integers have distinct decimal renderings.
pub proof fn lemma_udec_chars_injective(a: nat, b: nat)
    requires
        udec_chars(a) == udec_chars(b),
    ensures
        a == b,
    decreases a,
{
    lemma_udec_chars_are_digits(a);
    lemma_udec_chars_are_digits(b);
    if a < 10 && b < 10 {
        assert(udec_chars(a) =~= seq![dec_digit(a as int)]);
        assert(udec_chars(b) =~= seq![dec_digit(b as int)]);
        assert(udec_chars(a)[0] == dec_digit(a as int));
        assert(udec_chars(b)[0] == dec_digit(b as int));
    } else if a < 10 {
        assert(udec_chars(b).len() >= 2) by {
            lemma_udec_chars_are_digits(b / 10);
        }
        assert(false);
    } else if b < 10 {
        assert(udec_chars(a).len() >= 2) by {
            lemma_udec_chars_are_digits(a / 10);
        }
        assert(false);
    } else {
        let da = (a % 10) as int;
        let db = (b % 10) as int;
        assert(udec_chars(a) == udec_chars(a / 10).push(dec_digit(da)));
        assert(udec_chars(b) == udec_chars(b / 10).push(dec_digit(db)));
        assert(udec_chars(a).last() == dec_digit(da));
        assert(udec_chars(b).last() == dec_digit(db));
        assert(da == db);
        assert(udec_chars(a).drop_last() =~= udec_chars(a / 10));
        assert(udec_chars(b).drop_last() =~= udec_chars(b / 10));
        assert(udec_chars(a / 10) == udec_chars(b / 10));
        lemma_udec_chars_injective(a / 10, b / 10);
        assert(a == 10 * (a / 10) + a % 10) by {
            vstd::arithmetic::div_mod::lemma_fundamental_div_mod(a as int, 10);
        }
        assert(b == 10 * (b / 10) + b % 10) by {
            vstd::arithmetic::div_mod::lemma_fundamental_div_mod(b as int, 10);
        }
    }
}

/// Distinct integers have distinct decimal renderings.
pub proof fn lemma_dec_chars_injective(a: int, b: int)
    requires
        dec_chars(a) == dec_chars(b),
    ensures
        a == b,
{
    if a >= 0 && b >= 0 {
        lemma_udec_chars_injective(a as nat, b as nat);
    } else if a < 0 && b < 0 {
        assert(seq!['-'] + udec_chars((-a) as nat) == seq!['-'] + udec_chars((-b) as nat));
        assert(udec_chars((-a) as nat) =~= udec_chars((-b) as nat)) by {
            let s1 = seq!['-'] + udec_chars((-a) as nat);
            let s2 = seq!['-'] + udec_chars((-b) as nat);
            assert forall|i: int| 0 <= i < udec_chars((-a) as nat).len()
                implies #[trigger] udec_chars((-a) as nat)[i] == udec_chars((-b) as nat)[i] by {
                assert(s1[i + 1] == s2[i + 1]);
            }
        }
        lemma_udec_chars_injective((-a) as nat, (-b) as nat);
    } else if a < 0 {
        lemma_udec_chars_are_digits(b as nat);
        assert(dec_chars(a)[0] == '-');
        assert(dec_chars(b)[0] == '-');
        assert(is_dec_digit_char('-'));
        assert(false);
    } else {
        lemma_udec_chars_are_digits(a as nat);
        assert(dec_chars(a)[0] == '-');
        assert(is_dec_digit_char('-'));
        assert(false);
    }
}

/// The text of one decimal digit.
fn dec_digit_str(d: u64) -> (r: &'static str)
    requires
        d < 10,
    ensures
        r@ == seq![dec_digit(d as int)],
{
    proof {
        reveal_strlit("0");
        reveal_strlit("1");
        reveal_strlit("2");
        reveal_strlit("3");
        reveal_strlit("4");
        reveal_strlit("5");
        reveal_strlit("6");
        reveal_strlit("7");
        reveal_strlit("8");
        reveal_strlit("9");
    }
    let r: &'static str = if d == 0 { "0" }
    else if d == 1 { "1" }
    else if d == 2 { "2" }
    else if d == 3 { "3" }
    else if d == 4 { "4" }
    else if d == 5 { "5" }
    else if d == 6 { "6" }
    else if d == 7 { "7" }
    else if d == 8 { "8" }
    else { "9" };
    proof {
        assert(r@ =~= seq![dec_digit(d as int)]);
    }
    r
}

/// Renders a non-negative integer in decimal.
pub fn u64_to_dec_string(n: u64) -> (r: String)
    ensures
        r@ == udec_chars(n as nat),
    decreases n,
{
    if n < 10 {
        String::from_str(dec_digit_str(n))
    } else {
        let mut s = u64_to_dec_string(n / 10);
        s.append(dec_digit_str(n % 10));
        proof {
            assert(s@ =~= udec_chars(n as nat));
        }
        s
    }
}

/// Renders an integer in decimal, with a minus sign when negative.
pub fn i64_to_dec_string(n: i64) -> (r: String)
    ensures
        r@ == dec_chars(n as int),
{
    if n >= 0 {
        u64_to_dec_string(n as u64)
    } else {
        let m: u64 = (-(n as i128)) as u64;
        let mut s = String::from_str("-");
        let tail = u64_to_dec_string(m);
        s.append(tail.as_str());
        proof {
            reveal_strlit("-");
            assert(s@ =~= dec_chars(n as int));
        }
        s
    }
}

/// The character for one hexadecimal digit, in the requested case.
pub open spec fn hex_digit(d: int, upper: bool) -> char {
    if d == 0 { '0' }
    else if d == 1 { '1' }
    else if d == 2 { '2' }
    else if d == 3 { '3' }
    else if d == 4 { '4' }
    else if d == 5 { '5' }
    else if d == 6 { '6' }
    else if d == 7 { '7' }
    else if d == 8 { '8' }
    else if d == 9 { '9' }
    else if d == 10 { if upper { 'A' } else { 'a' } }
    else if d == 11 { if upper { 'B' } else { 'b' } }
    else if d == 12 { if upper { 'C' } else { 'c' } }
    else if d == 13 { if upper { 'D' } else { 'd' } }
    else if d == 14 { if upper { 'E' } else { 'e' } }
    else { if upper { 'F' } else { 'f' } }
}

/// The zero-padded rendering of the low `k` hexadecimal digits of `n`.
pub open spec fn hex_pad_chars(n: nat, k: nat, upper: bool) -> Seq<char>
    decreases k,
{
    if k == 0 {
        Seq::empty()
    } else {
        hex_pad_chars(n / 16, (k - 1) as nat, upper).push(hex_digit((n % 16) as int, upper))
    }
}

pub open spec fn is_hex_digit_char(c: char, upper: bool) -> bool {
    is_dec_digit_char(c)
        || (if upper {
            c == 'A' || c == 'B' || c == 'C' || c == 'D' || c == 'E' || c == 'F'
        } else {
            c == 'a' || c == 'b' || c == 'c' || c == 'd' || c == 'e' || c == 'f'
        })
}

/// A padded hexadecimal rendering has exactly `k` digits, all hexadecimal.
pub proof fn lemma_hex_pad_chars_digits(n: nat, k: nat, upper: bool)
    ensures
        hex_pad_chars(n, k, upper).len() == k,
        forall|i: int| 0 <= i < k ==> is_hex_digit_char(
            #[trigger] hex_pad_chars(n, k, upper)[i],
            upper,
        ),
    decreases k,
{
    if k == 0 {
    } else {
        lemma_hex_pad_chars_digits(n / 16, (k - 1) as nat, upper);
    }
}

/// The text of one hexadecimal digit.
pub(crate) fn hex_digit_str(d: u64, upper: bool) -> (r: &'static str)
    requires
        d < 16,
    ensures
        r@ == seq![hex_digit(d as int, upper)],
{
    if d < 10 {
        dec_digit_str(d)
    } else {
        proof {
            reveal_strlit("A");
            reveal_strlit("B");
            reveal_strlit("C");
            reveal_strlit("D");
            reveal_strlit("E");
            reveal_strlit("F");
            reveal_strlit("a");
            reveal_strlit("b");
            reveal_strlit("c");
            reveal_strlit("d");
            reveal_strlit("e");
            reveal_strlit("f");
        }
        let r: &'static str = if d == 10 { if upper { "A" } else { "a" } }
        else if d == 11 { if upper { "B" } else { "b" } }
        else if d == 12 { if upper { "C" } else { "c" } }
        else if d == 13 { if upper { "D" } else { "d" } }
        else if d == 14 { if upper { "E" } else { "e" } }
        else { if upper { "F" } else { "f" } };
        proof {
            assert(r@ =~= seq![hex_digit(d as int, upper)]);
        }
        r
    }
}

/// Renders the 32 hexadecimal digits of a 128-bit value, zero padded.
pub fn u128_to_hex32(n: u128, upper: bool) -> (r: String)
    ensures
        r@ == hex_pad_chars(n as nat, 32, upper),
{
    let mut out = String::new();
    let mut j: usize = 0;
    let mut m: u128 = n;
    while j < 32
        invariant
            j <= 32,
            m as nat == spec_shift_down(n as nat, j as nat),
            out@ == hex_pad_chars(n as nat, j as nat, upper),
        decreases 32 - j,
    {
        proof {
            lemma_hex_pad_unfold_left(n as nat, j as nat, upper);
        }
        let d: u64 = (m % 16) as u64;
        let mut next = String::from_str(hex_digit_str(d, upper));
        next.append(out.as_str());
        proof {
            assert(next@ =~= seq![hex_digit((spec_shift_down(n as nat, j as nat) % 16) as int, upper)]
                + hex_pad_chars(n as nat, j as nat, upper));
        }
        out = next;
        m = m / 16;
        j = j + 1;
    }
    out
}

/// `n` with its low `j` hexadecimal digits removed.
pub open spec fn spec_shift_down(n: nat, j: nat) -> nat
    decreases j,
{
    if j == 0 {
        n
    } else {
        spec_shift_down(n, (j - 1) as nat) / 16
    }
}

proof fn lemma_shift_swap(n: nat, j: nat)
    ensures
        spec_shift_down(n, j + 1) == spec_shift_down(n / 16, j),
    decreases j,
{
    assert(spec_shift_down(n, 0) == n);
    assert(spec_shift_down(n / 16, 0) == n / 16);
    if j == 0 {
        assert(spec_shift_down(n, 1) == spec_shift_down(n, 0) / 16);
    } else {
        lemma_shift_swap(n, (j - 1) as nat);
        assert(spec_shift_down(n, j + 1) == spec_shift_down(n, j) / 16);
        assert(spec_shift_down(n / 16, j) == spec_shift_down(n / 16, (j - 1) as nat) / 16);
    }
}

/// The low `k + 1` digits are the digit above the low `k` digits, then those
/// `k` digits.
proof fn lemma_hex_pad_unfold_left(n: nat, k: nat, upper: bool)
    ensures
        hex_pad_chars(n, k + 1, upper) == seq![
            hex_digit((spec_shift_down(n, k) % 16) as int, upper),
        ] + hex_pad_chars(n, k, upper),
    decreases k,
{
    if k == 0 {
        assert(hex_pad_chars(n / 16, 0, upper) =~= Seq::<char>::empty());
        assert(spec_shift_down(n, 0) == n);
        assert(hex_pad_chars(n, 1, upper) =~= seq![hex_digit((n % 16) as int, upper)]
            + hex_pad_chars(n, 0, upper));
    } else {
        lemma_hex_pad_unfold_left(n / 16, (k - 1) as nat, upper);
        lemma_shift_swap(n, (k - 1) as nat);
        assert(hex_pad_chars(n, k + 1, upper) =~= seq![
            hex_digit((spec_shift_down(n, k) % 16) as int, upper),
        ] + hex_pad_chars(n, k, upper));
    }
}

} // verus!
