//! Money amounts as whole hundredths of the currency unit.
//!
//! An amount is an `i64` count of hundredths ("cents"). Its text form is a plain decimal
//! number: an optional sign, digits, and at most two digits after a decimal point.
//!
//! Hundredths are exact, and nothing is rounded: a text that asks for more than an amount can
//! hold is no amount. So a number with a third decimal (`45.123`), one with an exponent
//! (`1e3`), `inf` and `nan`, and a number whose hundredths do not fit an `i64` are all read
//! as no amount, where a reader of floating-point numbers would take them. What that means
//! for a field is the caller's to say: absent for a money column, zero for a balance.

use vstd::prelude::*;

verus! {

/// The largest whole part whose hundredfold can still be a magnitude of an `i64`.
pub const WHOLE_LIMIT: u64 = 92_233_720_368_547_758;

/// Whether `c` is one of `0` to `9`.
pub open spec fn is_digit(c: char) -> bool {
    0x30 <= c as u32 <= 0x39
}

/// The number that the digit `c` stands for.
pub open spec fn digit_value(c: char) -> nat {
    (c as u32 - 0x30) as nat
}

/// The digit that stands for `d`, for `d` below ten.
pub open spec fn digit_char(d: nat) -> char {
    ((d + 0x30) as u8) as char
}

/// Whether `s` holds digits only.
pub open spec fn all_digits(s: Seq<char>) -> bool {
    forall|i: int| 0 <= i < s.len() ==> is_digit(#[trigger] s[i])
}

/// The number that the digit string `s` denotes in base ten; zero for the empty string.
pub open spec fn digits_value(s: Seq<char>) -> nat
    decreases s.len(),
{
    if s.len() == 0 {
        0
    } else {
        digits_value(s.drop_last()) * 10 + digit_value(s.last())
    }
}

/// The hundredths denoted by an unsigned decimal text: digits, optionally followed by a point
/// and at most two more digits, with at least one digit in all. `None` for any other text.
pub open spec fn unsigned_cents(s: Seq<char>) -> Option<nat> {
    let n = s.len() as int;
    if n >= 1 && all_digits(s) {
        Some(digits_value(s) * 100)
    } else if n >= 2 && s[n - 1] == '.' && all_digits(s.take(n - 1)) {
        Some(digits_value(s.take(n - 1)) * 100)
    } else if n >= 2 && s[n - 2] == '.' && all_digits(s.take(n - 2)) && is_digit(s[n - 1]) {
        Some(digits_value(s.take(n - 2)) * 100 + digit_value(s[n - 1]) * 10)
    } else if n >= 3 && s[n - 3] == '.' && all_digits(s.take(n - 3)) && is_digit(s[n - 2])
        && is_digit(s[n - 1]) {
        Some(digits_value(s.take(n - 3)) * 100 + digit_value(s[n - 2]) * 10 + digit_value(s[n - 1]))
    } else {
        None
    }
}

/// The hundredths denoted by a decimal text with an optional leading `-` or `+`.
pub open spec fn signed_cents(s: Seq<char>) -> Option<int> {
    if s.len() > 0 && s[0] == '-' {
        match unsigned_cents(s.skip(1)) {
            Some(v) => Some(-(v as int)),
            None => None,
        }
    } else if s.len() > 0 && s[0] == '+' {
        match unsigned_cents(s.skip(1)) {
            Some(v) => Some(v as int),
            None => None,
        }
    } else {
        match unsigned_cents(s) {
            Some(v) => Some(v as int),
            None => None,
        }
    }
}

/// The amount that a text denotes: its hundredths where the text is a decimal number whose
/// hundredths fit an `i64`, otherwise nothing.
pub open spec fn amount_of(s: Seq<char>) -> Option<i64> {
    match signed_cents(s) {
        Some(v) => if i64::MIN <= v <= i64::MAX {
            Some(v as i64)
        } else {
            None
        },
        None => None,
    }
}

/// What a text denotes as an amount, zero where it denotes none.
pub open spec fn amount_or_zero(text: Seq<char>) -> int {
    match amount_of(text) {
        Some(v) => v as int,
        None => 0,
    }
}

/// The digits of `n` in base ten, without leading zeros; `"0"` for zero.
pub open spec fn nat_digits(n: nat) -> Seq<char>
    decreases n,
{
    if n < 10 {
        seq![digit_char(n)]
    } else {
        nat_digits(n / 10).push(digit_char(n % 10))
    }
}

/// The canonical text of an amount: `-` if negative, the whole part, a point, two digits.
pub open spec fn amount_text(c: int) -> Seq<char> {
    let m = if c < 0 {
        -c
    } else {
        c
    };
    let sign = if c < 0 {
        seq!['-']
    } else {
        Seq::<char>::empty()
    };
    sign + nat_digits((m / 100) as nat) + seq![
        '.',
        digit_char(((m % 100) / 10) as nat),
        digit_char((m % 10) as nat),
    ]
}

/// The magnitude of `c`.
pub open spec fn magnitude(c: int) -> int {
    if c < 0 {
        -c
    } else {
        c
    }
}

proof fn lemma_digit_char(d: nat)
    requires
        d < 10,
    ensures
        is_digit(digit_char(d)),
        digit_value(digit_char(d)) == d,
        digit_char(d) != '.',
        digit_char(d) != '-',
        digit_char(d) != '+',
{
    let b = (d + 0x30) as u8;
    assert(b as char as u32 == b as u32);
}

proof fn lemma_nat_digits(n: nat)
    ensures
        nat_digits(n).len() >= 1,
        all_digits(nat_digits(n)),
        digits_value(nat_digits(n)) == n,
    decreases n,
{
    if n < 10 {
        lemma_digit_char(n);
        let s = nat_digits(n);
        assert(s.drop_last() == Seq::<char>::empty());
        assert(digits_value(s.drop_last()) == 0);
    } else {
        lemma_nat_digits(n / 10);
        lemma_digit_char(n % 10);
        let s = nat_digits(n);
        assert(s.drop_last() == nat_digits(n / 10));
    }
}

proof fn lemma_digits_value_prefix(s: Seq<char>, k: int)
    requires
        0 <= k <= s.len(),
    ensures
        digits_value(s.take(k)) <= digits_value(s),
    decreases s.len() - k,
{
    if k == s.len() {
        assert(s.take(k) == s);
    } else {
        lemma_digits_value_prefix(s.drop_last(), k);
        assert(s.drop_last().take(k) == s.take(k));
    }
}

/// Formatting an amount and reading the text back gives the amount again.
pub proof fn lemma_amount_text_round_trip(c: i64)
    ensures
        amount_of(amount_text(c as int)) == Some(c),
{
    let v = c as int;
    let m = magnitude(v);
    let whole = nat_digits((m / 100) as nat);
    let tens = digit_char(((m % 100) / 10) as nat);
    let ones = digit_char((m % 10) as nat);
    let body = whole + seq!['.', tens, ones];
    lemma_nat_digits((m / 100) as nat);
    lemma_digit_char(((m % 100) / 10) as nat);
    lemma_digit_char((m % 10) as nat);
    let n = body.len() as int;
    assert(body[n - 3] == '.');
    assert(body[n - 2] == tens);
    assert(body[n - 1] == ones);
    assert(body.take(n - 3) == whole);
    assert(!all_digits(body)) by {
        assert(!is_digit(body[n - 3]));
    }
    assert(unsigned_cents(body) == Some(m as nat)) by {
        assert(m == (m / 100) * 100 + ((m % 100) / 10) * 10 + m % 10);
    }
    let t = amount_text(v);
    if v < 0 {
        assert(t == seq!['-'] + whole + seq!['.', tens, ones]);
        assert(t[0] == '-');
        assert(t.skip(1) == body);
    } else {
        assert(t == Seq::<char>::empty() + whole + seq!['.', tens, ones]);
        assert(t == body);
        assert(t[0] == whole[0]);
        assert(is_digit(whole[0]));
    }
}

/// Whether `c` is one of `0` to `9`.
pub fn is_ascii_digit(c: char) -> (r: bool)
    ensures
        r == is_digit(c),
{
    let u: u32 = c as u32;
    0x30 <= u && u <= 0x39
}

/// Checks that `chars[from..to]` are digits.
fn digits_only(chars: &Vec<char>, from: usize, to: usize) -> (r: bool)
    requires
        from <= to <= chars.len(),
    ensures
        r == all_digits(chars@.subrange(from as int, to as int)),
{
    let mut i: usize = from;
    while i < to
        invariant
            from <= i <= to <= chars.len(),
            all_digits(chars@.subrange(from as int, i as int)),
        decreases to - i,
    {
        if !is_ascii_digit(chars[i]) {
            proof {
                let s = chars@.subrange(from as int, to as int);
                assert(s[i - from] == chars@[i as int]);
            }
            return false;
        }
        proof {
            let s = chars@.subrange(from as int, i + 1);
            assert forall|j: int| 0 <= j < s.len() implies is_digit(#[trigger] s[j]) by {
                if j < i - from {
                    assert(s[j] == chars@.subrange(from as int, i as int)[j]);
                }
            }
        }
        i += 1;
    }
    true
}

/// The value of the digits `chars[from..to]`, or `None` when it exceeds [`WHOLE_LIMIT`].
fn whole_value(chars: &Vec<char>, from: usize, to: usize) -> (r: Option<u64>)
    requires
        from <= to <= chars.len(),
        all_digits(chars@.subrange(from as int, to as int)),
    ensures
        match r {
            Some(v) => v == digits_value(chars@.subrange(from as int, to as int)) && v
                <= WHOLE_LIMIT,
            None => digits_value(chars@.subrange(from as int, to as int)) > WHOLE_LIMIT,
        },
{
    let ghost s = chars@.subrange(from as int, to as int);
    let mut acc: u64 = 0;
    let mut i: usize = from;
    while i < to
        invariant
            from <= i <= to <= chars.len(),
            s == chars@.subrange(from as int, to as int),
            all_digits(s),
            acc == digits_value(s.take(i - from)),
            acc <= WHOLE_LIMIT,
        decreases to - i,
    {
        let c = chars[i];
        proof {
            assert(s[i - from] == c);
            let next = s.take(i - from + 1);
            assert(next.drop_last() == s.take(i - from));
            assert(next.last() == c);
        }
        let d: u64 = (c as u32 - 0x30) as u64;
        acc = acc * 10 + d;
        if acc > WHOLE_LIMIT {
            proof {
                lemma_digits_value_prefix(s, i - from + 1);
            }
            return None;
        }
        i += 1;
    }
    proof {
        assert(s.take(to - from) == s);
    }
    Some(acc)
}

/// The value of the digit `c`.
fn digit_of(c: char) -> (d: u64)
    requires
        is_digit(c),
    ensures
        d == digit_value(c),
{
    (c as u32 - 0x30) as u64
}

/// Reads an unsigned decimal text `chars[from..]` as hundredths; `None` where the text is no
/// such number or its hundredths exceed `2^63`.
fn parse_unsigned(chars: &Vec<char>, from: usize) -> (r: Option<u64>)
    requires
        from <= chars.len(),
    ensures
        match r {
            Some(v) => unsigned_cents(chars@.skip(from as int)) == Some(v as nat) && v
                <= 0x8000_0000_0000_0000,
            None => match unsigned_cents(chars@.skip(from as int)) {
                Some(v) => v > 0x8000_0000_0000_0000,
                None => true,
            },
        },
{
    let len: usize = chars.len();
    let n: usize = len - from;
    let ghost s = chars@.skip(from as int);
    proof {
        assert(s == chars@.subrange(from as int, len as int));
        assert forall|k: int| 0 <= k <= n implies #[trigger] s.take(k) == chars@.subrange(
            from as int,
            from + k,
        ) by {}
        assert(s.take(n as int) == s);
    }
    let whole_end: usize;
    let fraction: u64;
    if n >= 1 && digits_only(chars, from, len) {
        whole_end = len;
        fraction = 0;
    } else if n >= 2 && chars[len - 1] == '.' && digits_only(chars, from, len - 1) {
        whole_end = len - 1;
        fraction = 0;
    } else if n >= 2 && chars[len - 2] == '.' && digits_only(chars, from, len - 2)
        && is_ascii_digit(chars[len - 1]) {
        whole_end = len - 2;
        fraction = digit_of(chars[len - 1]) * 10;
    } else if n >= 3 && chars[len - 3] == '.' && digits_only(chars, from, len - 3)
        && is_ascii_digit(chars[len - 2]) && is_ascii_digit(chars[len - 1]) {
        whole_end = len - 3;
        fraction = digit_of(chars[len - 2]) * 10 + digit_of(chars[len - 1]);
    } else {
        return None;
    }
    assert(unsigned_cents(s) == Some(
        digits_value(chars@.subrange(from as int, whole_end as int)) * 100 + fraction as nat,
    ));
    match whole_value(chars, from, whole_end) {
        Some(whole) => {
            let cents: u64 = whole * 100 + fraction;
            if cents > 0x8000_0000_0000_0000 {
                None
            } else {
                Some(cents)
            }
        },
        None => None,
    }
}

/// Reads a decimal text as an amount in hundredths.
///
/// The text is an optional `-` or `+`, then digits, optionally a point and at most two more
/// digits, with at least one digit in all. Any other text, and a number whose hundredths do
/// not fit an `i64`, gives `None`.
pub fn parse_amount(chars: &Vec<char>) -> (r: Option<i64>)
    ensures
        r == amount_of(chars@),
{
    let negative: bool = chars.len() > 0 && chars[0] == '-';
    let signed: bool = negative || (chars.len() > 0 && chars[0] == '+');
    let from: usize = if signed {
        1
    } else {
        0
    };
    proof {
        assert(chars@.skip(0) == chars@);
    }
    match parse_unsigned(chars, from) {
        Some(m) => {
            if negative {
                if m == 0x8000_0000_0000_0000 {
                    Some(i64::MIN)
                } else {
                    Some(-(m as i64))
                }
            } else if m == 0x8000_0000_0000_0000 {
                None
            } else {
                Some(m as i64)
            }
        },
        None => None,
    }
}

/// Reads a decimal text as an amount in hundredths, taking a text that is none for zero.
pub fn parse_amount_or_zero(chars: &Vec<char>) -> (r: i64)
    ensures
        r == amount_or_zero(chars@),
{
    match parse_amount(chars) {
        Some(v) => v,
        None => 0,
    }
}

/// The digit for `d`.
fn char_of_digit(d: u64) -> (c: char)
    requires
        d < 10,
    ensures
        c == digit_char(d as nat),
{
    ((d + 0x30) as u8) as char
}

/// The base-ten digits of `n`.
fn digits_of(n: u64) -> (r: Vec<char>)
    ensures
        r@ == nat_digits(n as nat),
    decreases n,
{
    if n < 10 {
        let mut r: Vec<char> = Vec::new();
        r.push(char_of_digit(n));
        r
    } else {
        let mut r = digits_of(n / 10);
        r.push(char_of_digit(n % 10));
        r
    }
}

/// Writes an amount as text: `-` if negative, the whole part, a point and two digits.
pub fn format_amount(c: i64) -> (r: Vec<char>)
    ensures
        r@ == amount_text(c as int),
        amount_of(r@) == Some(c),
{
    let m: u64 = if c == i64::MIN {
        0x8000_0000_0000_0000
    } else if c < 0 {
        (-c) as u64
    } else {
        c as u64
    };
    let mut r: Vec<char> = Vec::new();
    if c < 0 {
        r.push('-');
    }
    let mut whole = digits_of(m / 100);
    r.append(&mut whole);
    r.push('.');
    r.push(char_of_digit((m % 100) / 10));
    r.push(char_of_digit(m % 10));
    proof {
        lemma_amount_text_round_trip(c);
        assert(r@ =~= amount_text(c as int));
    }
    r
}

} // verus!
