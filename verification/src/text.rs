//! Decimal text: rendering integers with optional zero padding, and reading
//! unsigned decimal numbers back from bytes.

use vstd::prelude::*;

verus! {

/// The ASCII digit for `d` in `0..=9`.
pub open spec fn digit_char(d: int) -> char {
    if d == 0 {
        '0'
    } else if d == 1 {
        '1'
    } else if d == 2 {
        '2'
    } else if d == 3 {
        '3'
    } else if d == 4 {
        '4'
    } else if d == 5 {
        '5'
    } else if d == 6 {
        '6'
    } else if d == 7 {
        '7'
    } else if d == 8 {
        '8'
    } else {
        '9'
    }
}

/// Decimal digits of `n`, most significant first, without leading zeros
/// (`"0"` for zero).
pub open spec fn dec(n: nat) -> Seq<char>
    decreases n,
{
    if n < 10 {
        seq![digit_char(n as int)]
    } else {
        dec(n / 10) + seq![digit_char((n % 10) as int)]
    }
}

/// `k` zero characters.
pub open spec fn zeros(k: int) -> Seq<char> {
    Seq::new(if k > 0 { k as nat } else { 0 }, |i: int| '0')
}

/// Decimal digits of `n`, left-padded with zeros to at least `width`
/// characters (Rust's `{:0width}` for unsigned values).
pub open spec fn dec_pad(n: nat, width: int) -> Seq<char> {
    zeros(width - dec(n).len()) + dec(n)
}

/// Decimal text of a signed value zero-padded to `width` characters, the
/// sign counted in the width (Rust's `{:0width}` for signed values).
pub open spec fn signed_pad(v: int, width: int) -> Seq<char> {
    if v < 0 {
        seq!['-'] + dec_pad((-v) as nat, width - 1)
    } else {
        dec_pad(v as nat, width)
    }
}

/// ISO 8601 calendar date text `YYYY-MM-DD`.
pub open spec fn date_text(year: int, month: int, day: int) -> Seq<char> {
    signed_pad(year, 4) + seq!['-'] + dec_pad(month as nat, 2) + seq!['-'] + dec_pad(
        day as nat,
        2,
    )
}

/// The one-character literal that holds the digit `d`.
fn digit_str(d: u64) -> (r: &'static str)
    requires
        d < 10,
    ensures
        r@ == seq![digit_char(d as int)],
{
    proof {
        reveal_strlit("0");
        reveal_strlit("1");
        reveal_strlit("2");
        reveal_strlit("3");
        reveal_strlit("4");
        reveal_strlit("5");
        reveal_strlit("6");
        reveal_strlit("7");
        reveal_strlit("8");
        reveal_strlit("9");
    }
    if d == 0 {
        "0"
    } else if d == 1 {
        "1"
    } else if d == 2 {
        "2"
    } else if d == 3 {
        "3"
    } else if d == 4 {
        "4"
    } else if d == 5 {
        "5"
    } else if d == 6 {
        "6"
    } else if d == 7 {
        "7"
    } else if d == 8 {
        "8"
    } else {
        "9"
    }
}

/// Appends the decimal digits of `n`.
pub fn push_dec(s: &mut String, n: u64)
    ensures
        final(s)@ == old(s)@ + dec(n as nat),
    decreases n,
{
    if n >= 10 {
        push_dec(s, n / 10);
    }
    s.append(digit_str(n % 10));
    proof {
        assert(old(s)@ + dec(n as nat) =~= final(s)@);
    }
}

/// Number of decimal digits of `n`.
pub open spec fn num_digits(n: nat) -> nat
    decreases n,
{
    if n < 10 {
        1
    } else {
        num_digits(n / 10) + 1
    }
}

/// The length of the decimal text is the digit count; a `u64` has at most
/// twenty digits.
pub proof fn lemma_dec_len(n: nat)
    ensures
        dec(n).len() == num_digits(n),
        1 <= num_digits(n),
        n <= u64::MAX ==> num_digits(n) <= 20,
    decreases n,
{
    if n >= 10 {
        lemma_dec_len(n / 10);
    }
    assert(pow10(20) == 100_000_000_000_000_000_000) by {
        reveal_with_fuel(pow10, 21);
    }
    lemma_num_digits_bound(n, 20, 100_000_000_000_000_000_000);
}

/// Ten to the power `k`.
pub open spec fn pow10(k: nat) -> nat
    decreases k,
{
    if k == 0 {
        1
    } else {
        10 * pow10((k - 1) as nat)
    }
}

/// A number below `10^k` has at most `k` digits.
proof fn lemma_num_digits_bound(n: nat, k: nat, p: nat)
    requires
        k >= 1,
        p == pow10(k),
    ensures
        n < p ==> num_digits(n) <= k,
    decreases k,
{
    reveal_with_fuel(pow10, 2);
    if k > 1 && n >= 10 {
        lemma_num_digits_bound(n / 10, (k - 1) as nat, p / 10);
    }
}

/// Number of decimal digits of `n`, computed.
fn count_digits(n: u64) -> (r: usize)
    ensures
        r == num_digits(n as nat),
        r <= 20,
    decreases n,
{
    proof {
        lemma_dec_len(n as nat);
    }
    if n < 10 {
        1
    } else {
        count_digits(n / 10) + 1
    }
}

/// Appends `k` zero characters.
fn push_zeros(s: &mut String, k: usize)
    ensures
        final(s)@ == old(s)@ + zeros(k as int),
{
    let mut i: usize = 0;
    while i < k
        invariant
            i <= k,
            s@ == old(s)@ + zeros(i as int),
        decreases k - i,
    {
        proof {
            reveal_strlit("0");
        }
        s.append("0");
        i = i + 1;
        assert(s@ =~= old(s)@ + zeros(i as int));
    }
}

/// Appends `n` zero-padded to at least `width` characters.
pub fn push_dec_pad(s: &mut String, n: u64, width: usize)
    ensures
        final(s)@ == old(s)@ + dec_pad(n as nat, width as int),
{
    let len = count_digits(n);
    proof {
        lemma_dec_len(n as nat);
    }
    if width > len {
        push_zeros(s, width - len);
    } else {
        assert(zeros(width - len) =~= Seq::<char>::empty());
    }
    push_dec(s, n);
    assert(final(s)@ =~= old(s)@ + dec_pad(n as nat, width as int));
}

/// Appends a signed value zero-padded to `width` characters, sign included.
pub fn push_signed_pad(s: &mut String, v: i64, width: usize)
    requires
        v > i64::MIN,
        width >= 1,
    ensures
        final(s)@ == old(s)@ + signed_pad(v as int, width as int),
{
    if v < 0 {
        proof {
            reveal_strlit("-");
        }
        s.append("-");
        push_dec_pad(s, (-v) as u64, width - 1);
        assert(final(s)@ =~= old(s)@ + signed_pad(v as int, width as int));
    } else {
        push_dec_pad(s, v as u64, width);
    }
}

/// Appends `YYYY-MM-DD`.
pub fn push_date(s: &mut String, year: i32, month: u8, day: u8)
    ensures
        final(s)@ == old(s)@ + date_text(year as int, month as int, day as int),
{
    proof {
        reveal_strlit("-");
    }
    push_signed_pad(s, year as i64, 4);
    s.append("-");
    push_dec_pad(s, month as u64, 2);
    s.append("-");
    push_dec_pad(s, day as u64, 2);
    assert(final(s)@ =~= old(s)@ + date_text(year as int, month as int, day as int));
}

// ---------------------------------------------------------------------------
// Reading decimal numbers
// ---------------------------------------------------------------------------

/// `b` is an ASCII decimal digit.
pub open spec fn is_digit(b: u8) -> bool {
    48 <= b <= 57
}

/// Every byte of `s` is a decimal digit.
pub open spec fn all_digits(s: Seq<u8>) -> bool {
    forall|i: int| 0 <= i < s.len() ==> is_digit(#[trigger] s[i])
}

/// The value of a string of decimal digits (most significant first).
pub open spec fn digits_value(s: Seq<u8>) -> nat
    decreases s.len(),
{
    if s.len() == 0 {
        0
    } else {
        digits_value(s.drop_last()) * 10 + ((s.last() - 48) as nat)
    }
}

/// What `u64::from_str` accepts: an optional `+`, then at least one decimal
/// digit, with a value that fits into `u64`.
pub open spec fn parse_u64_spec(s: Seq<u8>) -> Option<u64> {
    let d = if s.len() > 0 && s[0] == 43 {
        s.drop_first()
    } else {
        s
    };
    if d.len() > 0 && all_digits(d) && digits_value(d) <= u64::MAX {
        Some(digits_value(d) as u64)
    } else {
        None
    }
}

/// Reads an unsigned decimal number from `s[start..end]` the way
/// `u64::from_str` does.
pub fn parse_u64(s: &[u8], start: usize, end: usize) -> (r: Option<u64>)
    requires
        start <= end <= s@.len(),
    ensures
        r == parse_u64_spec(s@.subrange(start as int, end as int)),
{
    let ghost sub = s@.subrange(start as int, end as int);
    let mut i = start;
    if i < end && s[i] == 43 {
        i = i + 1;
    }
    let ghost d = s@.subrange(i as int, end as int);
    assert(d =~= (if sub.len() > 0 && sub[0] == 43 { sub.drop_first() } else { sub }));
    if i == end {
        return None;
    }
    let mut value: u64 = 0;
    let mut j = i;
    while j < end
        invariant
            i <= j <= end <= s@.len(),
            i < end,
            sub == s@.subrange(start as int, end as int),
            d == s@.subrange(i as int, end as int),
            d =~= (if sub.len() > 0 && sub[0] == 43 { sub.drop_first() } else { sub }),
            all_digits(s@.subrange(i as int, j as int)),
            value == digits_value(s@.subrange(i as int, j as int)),
        decreases end - j,
    {
        let b = s[j];
        assert(s@.subrange(i as int, j + 1).drop_last() =~= s@.subrange(i as int, j as int));
        assert(d[j - i] == b);
        if b < 48 || b > 57 {
            assert(!all_digits(d));
            return None;
        }
        let digit = (b - 48) as u64;
        if value > (u64::MAX - digit) / 10 {
            proof {
                assert(value * 10 + digit > u64::MAX) by (nonlinear_arith)
                    requires
                        value > (u64::MAX - digit) / 10,
                        digit <= 9,
                ;
                if all_digits(d) {
                    lemma_digits_value_prefix_le(d, (j - i) as int + 1);
                    assert(s@.subrange(i as int, j + 1) =~= d.subrange(0, (j - i) + 1));
                }
            }
            return None;
        }
        value = value * 10 + digit;
        j = j + 1;
        assert(all_digits(s@.subrange(i as int, j as int)));
    }
    assert(s@.subrange(i as int, j as int) =~= d);
    Some(value)
}

/// A longer digit string is worth at least as much as any of its prefixes.
proof fn lemma_digits_value_prefix_le(d: Seq<u8>, k: int)
    requires
        0 <= k <= d.len(),
        all_digits(d),
    ensures
        digits_value(d.subrange(0, k)) <= digits_value(d) || d.len() == 0,
    decreases d.len() - k,
{
    if k < d.len() {
        lemma_digits_value_prefix_le(d, k + 1);
        assert(d.subrange(0, k + 1).drop_last() =~= d.subrange(0, k));
        assert(is_digit(d[k]));
    } else {
        assert(d.subrange(0, k) =~= d);
    }
}


/// The bytes of an ASCII character sequence.
pub open spec fn ascii_bytes(c: Seq<char>) -> Seq<u8> {
    Seq::new(c.len(), |i: int| c[i] as u8)
}

/// Every character of the decimal text is an ASCII digit, and its bytes
/// read back as `n`.
pub proof fn lemma_dec_ascii(n: nat)
    ensures
        dec(n).len() >= 1,
        forall|i: int| 0 <= i < dec(n).len() ==> '0' <= #[trigger] dec(n)[i] <= '9',
        all_digits(ascii_bytes(dec(n))),
        digits_value(ascii_bytes(dec(n))) == n,
    decreases n,
{
    let b = ascii_bytes(dec(n));
    if n < 10 {
        assert(digit_char(n as int) as u8 == 48 + n);
        assert(b.drop_last() =~= Seq::<u8>::empty());
        assert(b.last() == 48 + n);
        assert(digits_value(b.drop_last()) == 0);
    } else {
        lemma_dec_ascii(n / 10);
        let d = (n % 10) as int;
        assert(digit_char(d) as u8 == 48 + d);
        assert(b.drop_last() =~= ascii_bytes(dec(n / 10)));
        assert(b.last() == 48 + d);
        assert(n == (n / 10) * 10 + d);
        assert forall|i: int| 0 <= i < dec(n).len() implies '0' <= #[trigger] dec(n)[i] <= '9' by {
            if i < dec(n / 10).len() {
                assert(dec(n)[i] == dec(n / 10)[i]);
            }
        }
        assert forall|i: int| 0 <= i < b.len() implies is_digit(#[trigger] b[i]) by {
            if i < b.len() - 1 {
                assert(b[i] == ascii_bytes(dec(n / 10))[i]);
            }
        }
    }
}

/// A decimal text is what `u64::from_str` reads back.
pub proof fn lemma_dec_parses(n: nat)
    requires
        n <= u64::MAX,
    ensures
        parse_u64_spec(ascii_bytes(dec(n))) == Some(n as u64),
{
    lemma_dec_ascii(n);
    assert(is_digit(ascii_bytes(dec(n))[0]));
}


/// Leading zeros do not change the value of a digit string.
proof fn lemma_zeros_prefix_value(k: nat, d: Seq<char>)
    ensures
        digits_value(ascii_bytes(zeros(k as int) + d)) == digits_value(ascii_bytes(d)),
    decreases d.len(), k,
{
    let b = ascii_bytes(zeros(k as int) + d);
    if d.len() == 0 {
        assert(zeros(k as int) + d =~= zeros(k as int));
        if k > 0 {
            lemma_zeros_prefix_value((k - 1) as nat, d);
            assert(b.drop_last() =~= ascii_bytes(zeros(k - 1) + d));
            assert(b.last() == 48);
        } else {
            assert(b =~= Seq::<u8>::empty());
            assert(ascii_bytes(d) =~= Seq::<u8>::empty());
        }
    } else {
        lemma_zeros_prefix_value(k, d.drop_last());
        assert(b.drop_last() =~= ascii_bytes(zeros(k as int) + d.drop_last()));
        assert(ascii_bytes(d).drop_last() =~= ascii_bytes(d.drop_last()));
        assert(b.last() == ascii_bytes(d).last());
    }
}

/// A number below `10^w` padded to `w` places takes exactly `w` digits, and
/// they read back as the number.
pub proof fn lemma_dec_pad_value(n: nat, w: nat)
    requires
        w >= 1,
        n < pow10(w),
    ensures
        dec_pad(n, w as int).len() == w,
        all_digits(ascii_bytes(dec_pad(n, w as int))),
        digits_value(ascii_bytes(dec_pad(n, w as int))) == n,
{
    lemma_dec_len(n);
    lemma_num_digits_bound(n, w, pow10(w));
    lemma_dec_ascii(n);
    let k = (w - dec(n).len()) as nat;
    lemma_zeros_prefix_value(k, dec(n));
    let t = dec_pad(n, w as int);
    assert(t =~= zeros(k as int) + dec(n));
    assert forall|i: int| 0 <= i < t.len() implies is_digit(#[trigger] ascii_bytes(t)[i]) by {
        if i >= k {
            assert(t[i] == dec(n)[i - k]);
            assert(ascii_bytes(dec(n))[i - k] == dec(n)[i - k] as u8);
        }
    }
}

} // verus!
