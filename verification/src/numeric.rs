//! Decimal text read and written by the wire codecs.
//!
//! The wire format carries the envelope discriminant as a decimal string and
//! numeric payload fields as decimal number text. The functions here relate
//! that text to mathematical integers: [`dec_val`] is the value of a digit
//! string, [`dec_seq`] the canonical digit string of a value, and the
//! parse/format functions are proved against them.

use vstd::prelude::*;

verus! {

/// Whether `c` is a decimal digit.
pub open spec fn is_digit(c: char) -> bool {
    48 <= c as int <= 57
}

/// The value of a single decimal digit.
pub open spec fn digit_val(c: char) -> int {
    c as int - 48
}

/// Whether every character of `s` is a decimal digit.
pub open spec fn is_digits(s: Seq<char>) -> bool {
    forall|i: int| 0 <= i < s.len() ==> is_digit(#[trigger] s[i])
}

/// The value of the digit string `s`, most significant digit first.
pub open spec fn dec_val(s: Seq<char>) -> int
    decreases s.len(),
{
    if s.len() == 0 {
        0
    } else {
        dec_val(s.drop_last()) * 10 + digit_val(s.last())
    }
}

/// A digit string has a non-negative value.
pub proof fn lemma_dec_val_nonneg(s: Seq<char>)
    requires
        is_digits(s),
    ensures
        dec_val(s) >= 0,
    decreases s.len(),
{
    if s.len() > 0 {
        assert(is_digits(s.drop_last())) by {
            assert(forall|i: int|
                0 <= i < s.drop_last().len() ==> s.drop_last()[i] == s[i]);
        }
        lemma_dec_val_nonneg(s.drop_last());
    }
}

/// Extending a digit prefix by one character multiplies its value by ten
/// and adds the new digit.
pub proof fn lemma_dec_val_extend(s: Seq<char>, k: int)
    requires
        0 <= k < s.len(),
    ensures
        dec_val(s.take(k + 1)) == dec_val(s.take(k)) * 10 + digit_val(s[k]),
{
    assert(s.take(k + 1).drop_last() =~= s.take(k));
    assert(s.take(k + 1).last() == s[k]);
}

/// The value of a digit string is at least the value of any of its
/// prefixes: later digits can only grow it.
pub proof fn lemma_dec_val_prefix_le(s: Seq<char>, k: int)
    requires
        is_digits(s),
        0 <= k <= s.len(),
    ensures
        dec_val(s) >= dec_val(s.take(k)),
        dec_val(s.take(k)) >= 0,
    decreases s.len() - k,
{
    assert(is_digits(s.take(k))) by {
        assert(forall|i: int| 0 <= i < s.take(k).len() ==> s.take(k)[i] == s[i]);
    }
    lemma_dec_val_nonneg(s.take(k));
    if k < s.len() {
        lemma_dec_val_extend(s, k);
        lemma_dec_val_prefix_le(s, k + 1);
    } else {
        assert(s.take(k) =~= s);
    }
}

/// Parse an unsigned decimal string. Returns the value exactly when the
/// string is non-empty, all digits, and its value fits in a `u64`.
pub fn parse_u64(s: &str) -> (r: Option<u64>)
    ensures
        match r {
            Some(v) => s@.len() > 0 && is_digits(s@) && dec_val(s@) == v,
            None => s@.len() == 0 || !is_digits(s@) || dec_val(s@) > u64::MAX,
        },
{
    let n = s.unicode_len();
    if n == 0 {
        return None;
    }
    let mut i: usize = 0;
    let mut acc: u64 = 0;
    while i < n
        invariant
            0 <= i <= n,
            n == s@.len(),
            is_digits(s@.take(i as int)),
            acc == dec_val(s@.take(i as int)),
        decreases n - i,
    {
        let c = s.get_char(i);
        let code = c as u32;
        if code < 48 || code > 57 {
            assert(!is_digit(s@[i as int]));
            return None;
        }
        let wide: u128 = (acc as u128) * 10 + ((code - 48) as u128);
        proof {
            lemma_dec_val_extend(s@, i as int);
        }
        if wide > u64::MAX as u128 {
            proof {
                if is_digits(s@) {
                    lemma_dec_val_prefix_le(s@, i as int + 1);
                }
            }
            return None;
        }
        acc = wide as u64;
        i = i + 1;
    }
    proof {
        assert(s@.take(n as int) =~= s@);
    }
    Some(acc)
}

/// Parse an unsigned decimal string into a `u32`.
pub fn parse_u32(s: &str) -> (r: Option<u32>)
    ensures
        match r {
            Some(v) => s@.len() > 0 && is_digits(s@) && dec_val(s@) == v,
            None => s@.len() == 0 || !is_digits(s@) || dec_val(s@) > u32::MAX,
        },
{
    match parse_u64(s) {
        Some(v) if v <= u32::MAX as u64 => Some(v as u32),
        _ => None,
    }
}

/// Parse an unsigned decimal string into a `u8`.
pub fn parse_u8(s: &str) -> (r: Option<u8>)
    ensures
        match r {
            Some(v) => s@.len() > 0 && is_digits(s@) && dec_val(s@) == v,
            None => s@.len() == 0 || !is_digits(s@) || dec_val(s@) > u8::MAX,
        },
{
    match parse_u64(s) {
        Some(v) if v <= u8::MAX as u64 => Some(v as u8),
        _ => None,
    }
}

/// Whether `s` is a decimal integer: digits with an optional leading minus.
pub open spec fn is_dec_int(s: Seq<char>) -> bool {
    if s.len() > 0 && s[0] == '-' {
        s.len() > 1 && is_digits(s.skip(1))
    } else {
        s.len() > 0 && is_digits(s)
    }
}

/// The value of the decimal integer `s`.
pub open spec fn dec_int_val(s: Seq<char>) -> int {
    if s.len() > 0 && s[0] == '-' {
        -dec_val(s.skip(1))
    } else {
        dec_val(s)
    }
}

/// Parse a signed decimal string. Returns the value exactly when the string
/// is a decimal integer whose value fits in an `i64`.
pub fn parse_i64(s: &str) -> (r: Option<i64>)
    ensures
        match r {
            Some(v) => is_dec_int(s@) && dec_int_val(s@) == v,
            None => !is_dec_int(s@) || dec_int_val(s@) > i64::MAX || dec_int_val(s@)
                < i64::MIN,
        },
{
    let n = s.unicode_len();
    if n == 0 {
        return None;
    }
    if s.get_char(0) == '-' {
        let digits = s.substring_char(1, n);
        proof {
            assert(digits@ =~= s@.skip(1));
        }
        match parse_u64(digits) {
            Some(mag) => {
                if mag <= i64::MAX as u64 {
                    Some(-(mag as i64))
                } else if mag == 9223372036854775808u64 {
                    Some(i64::MIN)
                } else {
                    None
                }
            },
            None => {
                proof {
                    if is_digits(s@.skip(1)) && s@.skip(1).len() > 0 {
                        lemma_dec_val_nonneg(s@.skip(1));
                    }
                }
                None
            },
        }
    } else {
        match parse_u64(s) {
            Some(v) if v <= i64::MAX as u64 => Some(v as i64),
            _ => None,
        }
    }
}

/// The character of a single decimal digit.
pub open spec fn digit_char(d: nat) -> char {
    ((d + 48) as u32) as char
}

/// The canonical decimal digit string of `n`: no sign, no leading zero
/// (except for zero itself).
pub open spec fn dec_seq(n: nat) -> Seq<char>
    decreases n,
{
    if n < 10 {
        seq![digit_char(n)]
    } else {
        dec_seq(n / 10) + seq![digit_char(n % 10)]
    }
}

/// The canonical digit string of `n` is a non-empty digit string whose
/// value is `n`: formatting inverts parsing.
pub proof fn lemma_dec_seq_val(n: nat)
    ensures
        dec_seq(n).len() >= 1,
        is_digits(dec_seq(n)),
        dec_val(dec_seq(n)) == n,
    decreases n,
{
    if n < 10 {
        assert(digit_char(n) as int == n + 48);
        assert(dec_val(Seq::<char>::empty()) == 0);
        assert(dec_seq(n).drop_last() =~= Seq::<char>::empty());
        assert(dec_seq(n).last() == digit_char(n));
    } else {
        assert(digit_char(n % 10) as int == n % 10 + 48);
        assert(n == (n / 10) * 10 + n % 10) by {
            vstd::arithmetic::div_mod::lemma_fundamental_div_mod(n as int, 10);
        }
        lemma_dec_seq_val(n / 10);
        assert(dec_seq(n).drop_last() =~= dec_seq(n / 10));
        assert(dec_seq(n).last() == digit_char(n % 10));
        assert(forall|i: int|
            0 <= i < dec_seq(n / 10).len() ==> dec_seq(n)[i] == dec_seq(n / 10)[i]);
    }
}

/// The one-character string of a single decimal digit.
fn digit_string(d: u64) -> (r: String)
    requires
        d < 10,
    ensures
        r@ == seq![digit_char(d as nat)],
{
    let r = if d == 0 {
        String::from_str("0")
    } else if d == 1 {
        String::from_str("1")
    } else if d == 2 {
        String::from_str("2")
    } else if d == 3 {
        String::from_str("3")
    } else if d == 4 {
        String::from_str("4")
    } else if d == 5 {
        String::from_str("5")
    } else if d == 6 {
        String::from_str("6")
    } else if d == 7 {
        String::from_str("7")
    } else if d == 8 {
        String::from_str("8")
    } else {
        String::from_str("9")
    };
    proof {
        reveal_strlit("0");
        reveal_strlit("1");
        reveal_strlit("2");
        reveal_strlit("3");
        reveal_strlit("4");
        reveal_strlit("5");
        reveal_strlit("6");
        reveal_strlit("7");
        reveal_strlit("8");
        reveal_strlit("9");
        assert(r@ =~= seq![digit_char(d as nat)]);
    }
    r
}

/// Format `n` as its canonical decimal digit string.
pub fn format_u64(n: u64) -> (r: String)
    ensures
        r@ == dec_seq(n as nat),
    decreases n,
{
    if n < 10 {
        digit_string(n)
    } else {
        let mut s = format_u64(n / 10);
        let d = digit_string(n % 10);
        s.append(d.as_str());
        proof {
            assert(s@ =~= dec_seq(n as nat));
        }
        s
    }
}

/// The canonical decimal text of the integer `n`: a minus sign for negative
/// values, then the digit string of the magnitude.
pub open spec fn dec_int_seq(n: int) -> Seq<char> {
    if n < 0 {
        seq!['-'] + dec_seq((-n) as nat)
    } else {
        dec_seq(n as nat)
    }
}

/// Format `n` as its canonical decimal text.
pub fn format_i64(n: i64) -> (r: String)
    ensures
        r@ == dec_int_seq(n as int),
{
    if n >= 0 {
        format_u64(n as u64)
    } else {
        let wide: i128 = -(n as i128);
        let mag: u64 = wide as u64;
        let mut s = String::from_str("-");
        let d = format_u64(mag);
        s.append(d.as_str());
        proof {
            reveal_strlit("-");
            assert(s@ =~= dec_int_seq(n as int));
        }
        s
    }
}

/// The cents denoted by unsigned decimal number text: a digit string,
/// optionally followed by a dot and one or two fraction digits. Anything
/// else — no digits, a lone dot, more than two fraction digits — denotes no
/// cent amount.
pub open spec fn cents_val(u: Seq<char>) -> Option<int> {
    if u.len() > 0 && is_digits(u) {
        Some(dec_val(u) * 100)
    } else if u.len() >= 3 && u[u.len() - 2] == '.' && is_digits(u.take(u.len() - 2)) && u.len()
        - 2 >= 1 && is_digit(u.last()) {
        Some(dec_val(u.take(u.len() - 2)) * 100 + digit_val(u.last()) * 10)
    } else if u.len() >= 4 && u[u.len() - 3] == '.' && is_digits(u.take(u.len() - 3)) && u.len()
        - 3 >= 1 && is_digit(u[u.len() - 2]) && is_digit(u.last()) {
        Some(
            dec_val(u.take(u.len() - 3)) * 100 + digit_val(u[u.len() - 2]) * 10 + digit_val(
                u.last(),
            ),
        )
    } else {
        None
    }
}

/// The cents denoted by decimal number text, with an optional leading
/// minus sign.
pub open spec fn cents_of(s: Seq<char>) -> Option<int> {
    if s.len() > 0 && s[0] == '-' {
        match cents_val(s.skip(1)) {
            Some(c) => Some(-c),
            None => None,
        }
    } else {
        cents_val(s)
    }
}

/// Parse unsigned decimal number text into cents, exact when the amount
/// fits; an amount past `i64::MAX` cents is reported as too large.
fn parse_cents_mag(u: &str) -> (r: Option<u128>)
    ensures
        match r {
            Some(c) => cents_val(u@) == Some(c as int),
            None => cents_val(u@) is None || (cents_val(u@) matches Some(c) && c > 100 * (
            u64::MAX as int)),
        },
{
    let m = u.unicode_len();
    if let Some(v) = parse_u64(u) {
        return Some((v as u128) * 100);
    }
    proof {
        if u@.len() > 0 && is_digits(u@) {
            lemma_dec_val_nonneg(u@);
        }
    }
    if m >= 3 && u.get_char(m - 2) == '.' {
        let last = u.get_char(m - 1);
        let lc = last as u32;
        if lc < 48 || lc > 57 {
            return None;
        }
        let int_part = u.substring_char(0, m - 2);
        proof {
            assert(int_part@ =~= u@.take(m as int - 2));
        }
        match parse_u64(int_part) {
            Some(v) => Some((v as u128) * 100 + ((lc - 48) as u128) * 10),
            None => {
                proof {
                    if int_part@.len() > 0 && is_digits(int_part@) {
                        assert(dec_val(int_part@) > u64::MAX);
                    }
                }
                None
            },
        }
    } else if m >= 4 && u.get_char(m - 3) == '.' {
        let c1 = u.get_char(m - 2) as u32;
        let c2 = u.get_char(m - 1) as u32;
        if c1 < 48 || c1 > 57 || c2 < 48 || c2 > 57 {
            return None;
        }
        let int_part = u.substring_char(0, m - 3);
        proof {
            assert(int_part@ =~= u@.take(m as int - 3));
        }
        match parse_u64(int_part) {
            Some(v) => Some((v as u128) * 100 + ((c1 - 48) as u128) * 10 + ((c2 - 48) as u128)),
            None => {
                proof {
                    if int_part@.len() > 0 && is_digits(int_part@) {
                        assert(dec_val(int_part@) > u64::MAX);
                    }
                }
                None
            },
        }
    } else {
        None
    }
}

/// Parse decimal number text into signed cents. Returns the amount exactly
/// when the text denotes one that fits in an `i64`.
pub fn parse_cents(s: &str) -> (r: Option<i64>)
    ensures
        match r {
            Some(c) => cents_of(s@) == Some(c as int),
            None => cents_of(s@) is None || (cents_of(s@) matches Some(c) && !(i64::MIN <= c
                <= i64::MAX)),
        },
{
    let n = s.unicode_len();
    if n > 0 && s.get_char(0) == '-' {
        let u = s.substring_char(1, n);
        proof {
            assert(u@ =~= s@.skip(1));
        }
        match parse_cents_mag(u) {
            Some(mag) => {
                if mag <= 9223372036854775808u128 {
                    let wide: i128 = -(mag as i128);
                    Some(wide as i64)
                } else {
                    None
                }
            },
            None => None,
        }
    } else {
        match parse_cents_mag(s) {
            Some(mag) => {
                if mag <= i64::MAX as u128 {
                    Some(mag as i64)
                } else {
                    None
                }
            },
            None => None,
        }
    }
}

/// Formatted text parses back to the value it was formatted from.
pub proof fn lemma_dec_int_seq_val(n: int)
    ensures
        is_dec_int(dec_int_seq(n)),
        dec_int_val(dec_int_seq(n)) == n,
{
    if n < 0 {
        lemma_dec_seq_val((-n) as nat);
        let s = dec_int_seq(n);
        assert(s[0] == '-');
        assert(s.skip(1) =~= dec_seq((-n) as nat));
    } else {
        lemma_dec_seq_val(n as nat);
        let s = dec_int_seq(n);
        assert(s.len() >= 1);
        assert(is_digit(s[0]));
        assert(s[0] != '-');
    }
}

} // verus!
