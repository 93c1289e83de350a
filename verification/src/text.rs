use vstd::prelude::*;

verus! {

/// `String::push` from std: appends one character at the end.
#[verifier::external_body]
pub(crate) fn string_push(s: &mut String, c: char)
    ensures
        final(s)@ == old(s)@.push(c),
{
    s.push(c);
}

/// The decimal digit `d` (0 to 9) as text.
pub open spec fn spec_digit(d: nat) -> Seq<char> {
    if d == 0 {
        "0"@
    } else if d == 1 {
        "1"@
    } else if d == 2 {
        "2"@
    } else if d == 3 {
        "3"@
    } else if d == 4 {
        "4"@
    } else if d == 5 {
        "5"@
    } else if d == 6 {
        "6"@
    } else if d == 7 {
        "7"@
    } else if d == 8 {
        "8"@
    } else {
        "9"@
    }
}

/// The decimal representation of `n`, without leading zeros.
pub open spec fn spec_decimal(n: nat) -> Seq<char>
    decreases n,
{
    if n < 10 {
        spec_digit(n)
    } else {
        spec_decimal(n / 10) + spec_digit(n % 10)
    }
}

fn digit_str(d: u64) -> (s: &'static str)
    requires
        d < 10,
    ensures
        s@ == spec_digit(d as nat),
{
    if d == 0 {
        "0"
    } else if d == 1 {
        "1"
    } else if d == 2 {
        "2"
    } else if d == 3 {
        "3"
    } else if d == 4 {
        "4"
    } else if d == 5 {
        "5"
    } else if d == 6 {
        "6"
    } else if d == 7 {
        "7"
    } else if d == 8 {
        "8"
    } else {
        "9"
    }
}

/// `n` written in decimal.
pub fn decimal_string(n: u64) -> (s: String)
    ensures
        s@ == spec_decimal(n as nat),
    decreases n,
{
    if n < 10 {
        String::from_str(digit_str(n))
    } else {
        let mut s = decimal_string(n / 10);
        s.append(digit_str(n % 10));
        s
    }
}

/// `n` written in decimal, padded on the left with zeros to at least two characters.
pub open spec fn spec_two_digit(n: nat) -> Seq<char> {
    if n < 10 {
        "0"@ + spec_digit(n)
    } else {
        spec_decimal(n)
    }
}

/// `n` written in decimal, padded on the left with zeros to at least two characters.
pub fn two_digit_string(n: u64) -> (s: String)
    ensures
        s@ == spec_two_digit(n as nat),
{
    if n < 10 {
        let mut s = String::from_str("0");
        s.append(digit_str(n));
        s
    } else {
        decimal_string(n)
    }
}

pub open spec fn spec_is_digit(c: char) -> bool {
    '0' <= c && c <= '9'
}

/// The value of a run of decimal digits.
pub open spec fn spec_digits_value(s: Seq<char>) -> nat
    decreases s.len(),
{
    if s.len() == 0 {
        0
    } else {
        spec_digits_value(s.drop_last()) * 10 + ((s.last() as int - '0' as int) as nat)
    }
}

/// Whether every character of `s` is a decimal digit.
pub open spec fn spec_all_digits(s: Seq<char>) -> bool {
    forall|i: int| 0 <= i < s.len() ==> spec_is_digit(#[trigger] s[i])
}

/// The text of an unsigned number once an optional leading `+` is set aside.
pub open spec fn spec_unsigned_digits(s: Seq<char>) -> Seq<char> {
    if s.len() > 0 && s[0] == '+' {
        s.drop_first()
    } else {
        s
    }
}

/// Parsing a byte-sized unsigned number the way the standard library does: an optional
/// leading `+`, then at least one decimal digit and nothing else, with a value of at most 255.
pub open spec fn spec_parse_u8(s: Seq<char>) -> Option<u8> {
    let digits = spec_unsigned_digits(s);
    if digits.len() == 0 {
        None
    } else if spec_all_digits(digits) && spec_digits_value(digits) <= 255 {
        Some(spec_digits_value(digits) as u8)
    } else {
        None
    }
}

proof fn lemma_digits_value_grows(s: Seq<char>, i: int, j: int)
    requires
        0 <= i <= j <= s.len(),
        spec_all_digits(s),
    ensures
        spec_digits_value(s.take(i)) <= spec_digits_value(s.take(j)),
    decreases j - i,
{
    if i < j {
        lemma_digits_value_grows(s, i, j - 1);
        assert(s.take(j).drop_last() =~= s.take(j - 1));
    }
}

/// Parses a byte-sized unsigned number (see `spec_parse_u8`).
pub fn parse_u8(text: &str) -> (r: Option<u8>)
    ensures
        r == spec_parse_u8(text@),
{
    let n = text.unicode_len();
    if n == 0 {
        return None;
    }
    let first = text.get_char(0);
    if first == '+' && n == 1 {
        return None;
    }
    let start: usize = if first == '+' {
        1
    } else {
        0
    };
    let ghost digits = spec_unsigned_digits(text@);
    assert(digits =~= text@.subrange(start as int, n as int));
    let mut acc: u32 = 0;
    let mut i: usize = start;
    while i < n
        invariant
            start <= i <= n,
            n == text@.len(),
            start < n,
            digits == spec_unsigned_digits(text@),
            digits =~= text@.subrange(start as int, n as int),
            forall|k: int| 0 <= k < i - start ==> spec_is_digit(#[trigger] digits[k]),
            acc as nat == spec_digits_value(digits.take(i - start)),
            acc <= 255,
        decreases n - i,
    {
        let c = text.get_char(i);
        if !('0' <= c && c <= '9') {
            assert(digits[i - start] == c);
            assert(!spec_all_digits(digits));
            return None;
        }
        let d = (c as u32) - ('0' as u32);
        let next = acc * 10 + d;
        assert(digits.take(i + 1 - start).drop_last() =~= digits.take(i - start));
        if next > 255 {
            proof {
                if spec_all_digits(digits) {
                    lemma_digits_value_grows(digits, i + 1 - start, digits.len() as int);
                    assert(digits.take(digits.len() as int) =~= digits);
                }
            }
            return None;
        }
        acc = next;
        i = i + 1;
    }
    assert(digits.take(n - start) =~= digits);
    Some(acc as u8)
}

/// The text after `prefix` when `name` starts with it.
pub open spec fn spec_strip_prefix(name: Seq<char>, prefix: Seq<char>) -> Option<Seq<char>> {
    if prefix.len() <= name.len() && name.take(prefix.len() as int) == prefix {
        Some(name.skip(prefix.len() as int))
    } else {
        None
    }
}

/// Whether `name` starts with `prefix`.
pub fn starts_with(name: &str, prefix: &str) -> (b: bool)
    ensures
        b == (prefix@.len() <= name@.len() && name@.take(prefix@.len() as int) == prefix@),
{
    let n = name.unicode_len();
    let m = prefix.unicode_len();
    if m > n {
        return false;
    }
    let mut i: usize = 0;
    while i < m
        invariant
            i <= m <= n,
            n == name@.len(),
            m == prefix@.len(),
            forall|k: int| 0 <= k < i ==> name@[k] == prefix@[k],
        decreases m - i,
    {
        if name.get_char(i) != prefix.get_char(i) {
            assert(name@.take(m as int)[i as int] != prefix@[i as int]);
            return false;
        }
        i = i + 1;
    }
    assert(name@.take(m as int) =~= prefix@);
    true
}

proof fn lemma_digit_char(d: nat)
    requires
        d < 10,
    ensures
        spec_digit(d).len() == 1,
        spec_is_digit(spec_digit(d)[0]),
        spec_digit(d)[0] as int - '0' as int == d,
{
    reveal_strlit("0");
    reveal_strlit("1");
    reveal_strlit("2");
    reveal_strlit("3");
    reveal_strlit("4");
    reveal_strlit("5");
    reveal_strlit("6");
    reveal_strlit("7");
    reveal_strlit("8");
    reveal_strlit("9");
}

proof fn lemma_append_digit(s: Seq<char>, d: nat)
    requires
        d < 10,
    ensures
        spec_digits_value(s + spec_digit(d)) == spec_digits_value(s) * 10 + d,
{
    lemma_digit_char(d);
    assert((s + spec_digit(d)).drop_last() =~= s);
}

/// The decimal text of a number is a non-empty run of digits, not starting with `+`,
/// whose value is the number.
pub proof fn lemma_decimal_digits(n: nat)
    ensures
        spec_decimal(n).len() > 0,
        spec_all_digits(spec_decimal(n)),
        spec_digits_value(spec_decimal(n)) == n,
        spec_decimal(n)[0] != '+',
    decreases n,
{
    if n < 10 {
        lemma_digit_char(n);
        lemma_append_digit(Seq::<char>::empty(), n);
        assert(Seq::<char>::empty() + spec_digit(n) =~= spec_digit(n));
    } else {
        lemma_decimal_digits(n / 10);
        lemma_digit_char(n % 10);
        lemma_append_digit(spec_decimal(n / 10), n % 10);
        let t = spec_decimal(n);
        assert(t == spec_decimal(n / 10) + spec_digit(n % 10));
        assert forall|i: int| 0 <= i < t.len() implies spec_is_digit(#[trigger] t[i]) by {
            if i < spec_decimal(n / 10).len() {
                assert(t[i] == spec_decimal(n / 10)[i]);
            } else {
                assert(t[i] == spec_digit(n % 10)[0]);
            }
        }
        assert(t[0] == spec_decimal(n / 10)[0]);
        vstd::arithmetic::div_mod::lemma_fundamental_div_mod(n as int, 10);
    }
}

/// Parsing reads back what writing a byte in decimal produced, with or without the
/// padding to two digits.
pub proof fn lemma_parse_reads_decimal(n: u8)
    ensures
        spec_parse_u8(spec_decimal(n as nat)) == Some(n),
        spec_parse_u8(spec_two_digit(n as nat)) == Some(n),
{
    lemma_decimal_digits(n as nat);
    let t = spec_decimal(n as nat);
    assert(spec_unsigned_digits(t) == t);
    if n < 10 {
        let p = "0"@ + spec_digit(n as nat);
        reveal_strlit("0");
        lemma_digit_char(n as nat);
        lemma_append_digit("0"@, n as nat);
        lemma_append_digit(Seq::<char>::empty(), 0);
        assert(Seq::<char>::empty() + spec_digit(0) =~= "0"@);
        assert(spec_digits_value("0"@) == 0);
        assert(p[0] == '0');
        assert(spec_unsigned_digits(p) == p);
        assert forall|i: int| 0 <= i < p.len() implies spec_is_digit(#[trigger] p[i]) by {
            if i == 0 {
            } else {
                assert(p[i] == spec_digit(n as nat)[0]);
            }
        }
    }
}

/// Whether two texts are equal.
pub fn str_eq(a: &str, b: &str) -> (eq: bool)
    ensures
        eq == (a@ == b@),
{
    if a.unicode_len() != b.unicode_len() {
        return false;
    }
    let r = starts_with(a, b);
    proof {
        assert(a@.take(b@.len() as int) =~= a@);
    }
    r
}

} // verus!
