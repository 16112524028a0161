//! Small text routines the gateway's messages and URLs are built from:
//! decimal rendering of integers, decimal parsing, and trimming trailing
//! slashes.

use vstd::prelude::*;
use vstd::string::StringSliceAdditionalSpecFns;

verus! {

/// The ASCII digit for `d` (for `d` below ten).
pub open spec fn digit_char(d: nat) -> char {
    if d == 0 {
        '0'
    } else if d == 1 {
        '1'
    } else if d == 2 {
        '2'
    } else if d == 3 {
        '3'
    } else if d == 4 {
        '4'
    } else if d == 5 {
        '5'
    } else if d == 6 {
        '6'
    } else if d == 7 {
        '7'
    } else if d == 8 {
        '8'
    } else {
        '9'
    }
}

/// The decimal representation of `n`, without sign or leading zeros.
pub open spec fn decimal(n: nat) -> Seq<char>
    decreases n,
{
    if n < 10 {
        seq![digit_char(n)]
    } else {
        decimal(n / 10) + seq![digit_char(n % 10)]
    }
}

fn digit_str(d: u64) -> (s: &'static str)
    requires
        d < 10,
    ensures
        s@ == seq![digit_char(d as nat)],
{
    proof {
        reveal_strlit("0");
        reveal_strlit("1");
        reveal_strlit("2");
        reveal_strlit("3");
        reveal_strlit("4");
        reveal_strlit("5");
        reveal_strlit("6");
        reveal_strlit("7");
        reveal_strlit("8");
        reveal_strlit("9");
    }
    if d == 0 {
        "0"
    } else if d == 1 {
        "1"
    } else if d == 2 {
        "2"
    } else if d == 3 {
        "3"
    } else if d == 4 {
        "4"
    } else if d == 5 {
        "5"
    } else if d == 6 {
        "6"
    } else if d == 7 {
        "7"
    } else if d == 8 {
        "8"
    } else {
        "9"
    }
}

/// Appends the decimal representation of `n` to `s`.
pub fn append_decimal(s: &mut String, n: u64)
    ensures
        final(s)@ == old(s)@ + decimal(n as nat),
    decreases n,
{
    if n >= 10 {
        append_decimal(s, n / 10);
    }
    s.append(digit_str(n % 10));
    assert(final(s)@ =~= old(s)@ + decimal(n as nat));
}

/// The decimal representation of `n` as a string.
pub fn decimal_string(n: u64) -> (s: String)
    ensures
        s@ == decimal(n as nat),
{
    let mut s = String::new();
    append_decimal(&mut s, n);
    assert(s@ =~= decimal(n as nat));
    s
}

/// The byte is an ASCII decimal digit.
pub open spec fn is_digit_byte(b: u8) -> bool {
    48 <= b <= 57
}

/// All bytes are ASCII decimal digits.
pub open spec fn all_digit_bytes(b: Seq<u8>) -> bool {
    forall|i: int| 0 <= i < b.len() ==> is_digit_byte(#[trigger] b[i])
}

/// The number that the digit bytes `b` spell in decimal.
pub open spec fn digits_value(b: Seq<u8>) -> nat
    decreases b.len(),
{
    if b.len() == 0 {
        0
    } else {
        digits_value(b.drop_last()) * 10 + (b.last() - 48) as nat
    }
}

/// The digits of an unsigned decimal number as `u64::from_str` reads it: an
/// optional leading `+`, then at least one digit.
pub open spec fn unsigned_digits(b: Seq<u8>) -> Option<Seq<u8>> {
    let digits = if b.len() > 0 && b[0] == 43 {
        b.drop_first()
    } else {
        b
    };
    if digits.len() > 0 && all_digit_bytes(digits) {
        Some(digits)
    } else {
        None
    }
}

/// What parsing the bytes `b` as a `u64` gives: the value when `b` is an
/// optionally `+`-prefixed, non-empty run of decimal digits whose value fits.
pub open spec fn parse_u64_spec(b: Seq<u8>) -> Option<u64> {
    match unsigned_digits(b) {
        Some(d) => if digits_value(d) <= u64::MAX {
            Some(digits_value(d) as u64)
        } else {
            None
        },
        None => None,
    }
}

proof fn lemma_digits_value_prefix(b: Seq<u8>, i: int)
    requires
        0 <= i < b.len(),
    ensures
        digits_value(b.take(i + 1)) == digits_value(b.take(i)) * 10 + (b[i] - 48) as nat,
{
    assert(b.take(i + 1).drop_last() =~= b.take(i));
}

proof fn lemma_digits_value_monotone(b: Seq<u8>, i: int)
    requires
        0 <= i <= b.len(),
        all_digit_bytes(b),
    ensures
        digits_value(b.take(i)) <= digits_value(b),
    decreases b.len() - i,
{
    if i < b.len() {
        lemma_digits_value_prefix(b, i);
        lemma_digits_value_monotone(b, i + 1);
        assert(is_digit_byte(b[i]));
    } else {
        assert(b.take(i) =~= b);
    }
}

/// Parses `s` as `u64::from_str` does: an optional `+`, then decimal digits,
/// with no other characters; `None` when the text is not such a number or the
/// value does not fit in a `u64`.
pub fn parse_u64(s: &str) -> (r: Option<u64>)
    ensures
        r == parse_u64_spec(s.spec_bytes()),
{
    let bytes = s.as_bytes();
    let ghost b = s.spec_bytes();
    let mut start: usize = 0;
    if bytes.len() > 0 && bytes[0] == 43u8 {
        start = 1;
    }
    let ghost digits = if b.len() > 0 && b[0] == 43 {
        b.drop_first()
    } else {
        b
    };
    assert(digits =~= b.subrange(start as int, b.len() as int));
    if start >= bytes.len() {
        return None;
    }
    let mut value: u64 = 0;
    let mut i: usize = start;
    while i < bytes.len()
        invariant
            bytes@ == b,
            b == s.spec_bytes(),
            start <= i <= b.len(),
            digits =~= b.subrange(start as int, b.len() as int),
            digits == (if b.len() > 0 && b[0] == 43 {
                b.drop_first()
            } else {
                b
            }),
            all_digit_bytes(digits.take(i - start)),
            value as nat == digits_value(digits.take(i - start)),
        decreases b.len() - i,
    {
        let c = bytes[i];
        if c < 48u8 || c > 57u8 {
            assert(digits[i - start] == c);
            assert(!is_digit_byte(digits[i - start]));
            assert(!all_digit_bytes(digits));
            assert(unsigned_digits(b) is None);
            return None;
        }
        proof {
            lemma_digits_value_prefix(digits, i - start);
            assert(digits.take(i - start + 1) =~= digits.take(i - start).push(c));
        }
        let next = value.checked_mul(10);
        match next {
            None => {
                proof {
                    assert(value * 10 > u64::MAX);
                    if all_digit_bytes(digits) {
                        lemma_digits_value_monotone(digits, i - start + 1);
                        assert(digits_value(digits.take(i - start + 1)) >= value * 10);
                        assert(digits_value(digits) > u64::MAX);
                        assert(unsigned_digits(b) == Some(digits));
                    }
                }
                return None;
            },
            Some(m) => {
                let d = (c - 48u8) as u64;
                match m.checked_add(d) {
                    None => {
                        proof {
                            if all_digit_bytes(digits) {
                                lemma_digits_value_monotone(digits, i - start + 1);
                            }
                        }
                        return None;
                    },
                    Some(v) => {
                        value = v;
                    },
                }
            },
        }
        i = i + 1;
    }
    assert(digits.take(b.len() - start) =~= digits);
    Some(value)
}

/// `a` comes strictly before `b` in lexicographic byte order (the order of
/// `str`'s `Ord`).
pub open spec fn lex_lt(a: Seq<u8>, b: Seq<u8>) -> bool
    decreases a.len(),
{
    if a.len() == 0 {
        b.len() > 0
    } else if b.len() == 0 {
        false
    } else if a[0] < b[0] {
        true
    } else if a[0] > b[0] {
        false
    } else {
        lex_lt(a.drop_first(), b.drop_first())
    }
}

/// Lexicographic order is irreflexive and asymmetric.
pub proof fn lemma_lex_lt_asymmetric(a: Seq<u8>, b: Seq<u8>)
    ensures
        !lex_lt(a, a),
        lex_lt(a, b) ==> !lex_lt(b, a),
    decreases a.len(),
{
    if a.len() > 0 {
        lemma_lex_lt_asymmetric(a.drop_first(), a.drop_first());
        if b.len() > 0 {
            lemma_lex_lt_asymmetric(a.drop_first(), b.drop_first());
        }
    }
}

/// Lexicographic order is transitive.
pub proof fn lemma_lex_lt_transitive(a: Seq<u8>, b: Seq<u8>, c: Seq<u8>)
    requires
        lex_lt(a, b),
        lex_lt(b, c),
    ensures
        lex_lt(a, c),
    decreases a.len(),
{
    if a.len() > 0 && b.len() > 0 && c.len() > 0 && a[0] == b[0] && b[0] == c[0] {
        lemma_lex_lt_transitive(a.drop_first(), b.drop_first(), c.drop_first());
    }
}

/// Two different byte strings are ordered one way or the other.
pub proof fn lemma_lex_lt_total(a: Seq<u8>, b: Seq<u8>)
    requires
        a != b,
    ensures
        lex_lt(a, b) || lex_lt(b, a),
    decreases a.len(),
{
    if a.len() > 0 && b.len() > 0 && a[0] == b[0] {
        if a.drop_first() == b.drop_first() {
            assert(a =~= seq![a[0]] + a.drop_first());
            assert(b =~= seq![b[0]] + b.drop_first());
        }
        lemma_lex_lt_total(a.drop_first(), b.drop_first());
    } else if a.len() == 0 && b.len() == 0 {
        assert(a =~= b);
    }
}

/// Whether `a` comes strictly before `b` in lexicographic byte order.
pub fn bytes_lt(a: &[u8], b: &[u8]) -> (r: bool)
    ensures
        r == lex_lt(a@, b@),
{
    let mut i: usize = 0;
    assert(a@.skip(0) =~= a@);
    assert(b@.skip(0) =~= b@);
    while i < a.len() && i < b.len()
        invariant
            i <= a@.len(),
            i <= b@.len(),
            a@.take(i as int) == b@.take(i as int),
            lex_lt(a@, b@) == lex_lt(a@.skip(i as int), b@.skip(i as int)),
        decreases a@.len() - i,
    {
        proof {
            assert(a@.skip(i as int).drop_first() =~= a@.skip(i + 1));
            assert(b@.skip(i as int).drop_first() =~= b@.skip(i + 1));
        }
        if a[i] < b[i] {
            return true;
        }
        if a[i] > b[i] {
            return false;
        }
        assert(a@.take(i + 1) =~= a@.take(i as int).push(a@[i as int]));
        assert(b@.take(i + 1) =~= b@.take(i as int).push(b@[i as int]));
        i = i + 1;
    }
    i < b.len()
}

/// `s` with every trailing `/` removed.
pub open spec fn trim_trailing_slashes(s: Seq<char>) -> Seq<char>
    decreases s.len(),
{
    if s.len() > 0 && s.last() == '/' {
        trim_trailing_slashes(s.drop_last())
    } else {
        s
    }
}

/// `s` with every trailing `/` removed (as `str::trim_end_matches('/')`).
pub fn trim_end_slashes(s: &str) -> (r: &str)
    ensures
        r@ == trim_trailing_slashes(s@),
{
    let mut n = s.unicode_len();
    assert(s@.subrange(0, n as int) =~= s@);
    while n > 0 && s.get_char(n - 1) == '/'
        invariant
            n <= s@.len(),
            trim_trailing_slashes(s@) == trim_trailing_slashes(s@.subrange(0, n as int)),
        decreases n,
    {
        assert(s@.subrange(0, n as int).drop_last() =~= s@.subrange(0, n - 1));
        n = n - 1;
    }
    s.substring_char(0, n)
}

} // verus!
