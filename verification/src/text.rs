//! Characters and decimal numbers: the small pieces every grammar of the
//! library is made of.

use vstd::prelude::*;

verus! {

pub open spec fn is_digit(c: char) -> bool {
    '0' <= c && c <= '9'
}

pub open spec fn is_letter(c: char) -> bool {
    ('a' <= c && c <= 'z') || ('A' <= c && c <= 'Z')
}

/// Space, tab, carriage return and line feed.
pub open spec fn is_space(c: char) -> bool {
    c == ' ' || c == '\t' || c == '\r' || c == '\n'
}

pub open spec fn digit_value(c: char) -> nat {
    (c as nat - '0' as nat) as nat
}

/// Whether every character from `from` up to `to` is a decimal digit.
pub open spec fn all_digits(s: Seq<char>, from: int, to: int) -> bool {
    forall|k: int| from <= k < to ==> is_digit(#[trigger] s[k])
}

/// The end of the longest run of digits that starts at `from`.
pub open spec fn digits_end(s: Seq<char>, from: int) -> int
    decreases s.len() - from,
{
    if 0 <= from < s.len() && is_digit(s[from]) {
        digits_end(s, from + 1)
    } else {
        from
    }
}

/// Ten to the power of `n`.
pub open spec fn pow10(n: nat) -> nat
    decreases n,
{
    if n == 0 {
        1
    } else {
        10 * pow10((n - 1) as nat)
    }
}

/// The number that the digits of `s` spell, most significant first.
pub open spec fn decimal_value(s: Seq<char>) -> nat
    decreases s.len(),
{
    if s.len() == 0 {
        0
    } else {
        decimal_value(s.drop_last()) * 10 + digit_value(s.last())
    }
}

pub fn digit(c: char) -> (r: bool)
    ensures
        r == is_digit(c),
{
    '0' <= c && c <= '9'
}

pub fn letter(c: char) -> (r: bool)
    ensures
        r == is_letter(c),
{
    ('a' <= c && c <= 'z') || ('A' <= c && c <= 'Z')
}

pub fn space(c: char) -> (r: bool)
    ensures
        r == is_space(c),
{
    c == ' ' || c == '\t' || c == '\r' || c == '\n'
}

pub fn digit_of(c: char) -> (r: u8)
    requires
        is_digit(c),
    ensures
        r == digit_value(c),
        r <= 9,
{
    (c as u32 - '0' as u32) as u8
}

/// The characters of a string, for indexing in constant time.
pub fn to_chars(s: &str) -> (v: Vec<char>)
    ensures
        v@ == s@,
{
    let mut v: Vec<char> = Vec::new();
    for c in it: s.chars()
        invariant
            it.seq() == s@,
            v@ == it.seq().take(it.index() as int),
    {
        v.push(c);
    }
    v
}

/// Whether two strings hold the same characters.
pub fn text_eq(a: &str, b: &str) -> (r: bool)
    ensures
        r == (a@ == b@),
{
    let x = to_chars(a);
    let y = to_chars(b);
    if x.len() != y.len() {
        return false;
    }
    let mut i: usize = 0;
    while i < x.len()
        invariant
            i <= x.len(),
            x.len() == y.len(),
            x@ == a@,
            y@ == b@,
            forall|k: int| 0 <= k < i ==> x@[k] == y@[k],
        decreases x.len() - i,
    {
        if x[i] != y[i] {
            assert(a@[i as int] != b@[i as int]);
            return false;
        }
        i += 1;
    }
    assert(x@ =~= y@);
    true
}

/// A number only grows when further digits follow it.
pub proof fn lemma_decimal_prefix(s: Seq<char>, k: int)
    requires
        0 <= k <= s.len(),
    ensures
        decimal_value(s.take(k)) <= decimal_value(s),
    decreases s.len(),
{
    if k == s.len() {
        assert(s.take(k) =~= s);
    } else {
        assert(s.drop_last().take(k) =~= s.take(k));
        lemma_decimal_prefix(s.drop_last(), k);
    }
}

/// Appending one digit multiplies by ten and adds the digit.
pub proof fn lemma_decimal_step(s: Seq<char>, from: int, to: int)
    requires
        0 <= from <= to < s.len(),
    ensures
        decimal_value(s.subrange(from, to + 1)) == decimal_value(s.subrange(from, to)) * 10
            + digit_value(s[to]),
{
    assert(s.subrange(from, to + 1).drop_last() =~= s.subrange(from, to));
}

/// A run of digits that a character other than a digit ends, or the end
/// of the text, is the longest one.
pub proof fn lemma_digits_end(s: Seq<char>, from: int, end: int)
    requires
        0 <= from <= end <= s.len(),
        all_digits(s, from, end),
        end < s.len() ==> !is_digit(s[end]),
    ensures
        digits_end(s, from) == end,
    decreases end - from,
{
    if from < end {
        assert(is_digit(s[from]));
        lemma_digits_end(s, from + 1, end);
    }
}

/// A number with further digits behind it is that number times the power
/// of ten, plus what the further digits spell.
pub proof fn lemma_decimal_concat(a: Seq<char>, b: Seq<char>)
    ensures
        decimal_value(a + b) == decimal_value(a) * pow10(b.len()) + decimal_value(b),
    decreases b.len(),
{
    if b.len() == 0 {
        assert(a + b =~= a);
        assert(pow10(0) == 1);
        assert(decimal_value(b) == 0);
        assert(decimal_value(a) * 1 == decimal_value(a));
    } else {
        assert((a + b).drop_last() =~= a + b.drop_last());
        lemma_decimal_concat(a, b.drop_last());
        let high = decimal_value(a) as int;
        let power = pow10(b.drop_last().len()) as int;
        let low = decimal_value(b.drop_last()) as int;
        let digit = digit_value(b.last()) as int;
        assert((a + b).last() == b.last());
        assert(decimal_value(a + b) == decimal_value(a + b.drop_last()) * 10 + digit);
        assert(decimal_value(a + b.drop_last()) == high * power + low);
        assert(pow10(b.len()) == 10 * power);
        assert(decimal_value(b) == low * 10 + digit);
        assert((high * power + low) * 10 + digit == high * (10 * power) + (low * 10 + digit))
            by (nonlinear_arith);
        assert(decimal_value(a + b) == high * (10 * power) + (low * 10 + digit));
    }
}

pub proof fn lemma_pow10_positive(n: nat)
    ensures
        pow10(n) >= 1,
    decreases n,
{
    if n > 0 {
        lemma_pow10_positive((n - 1) as nat);
    }
}

/// The end of the run of digits that starts at `from`.
pub fn scan_digits(chars: &Vec<char>, from: usize) -> (end: usize)
    requires
        from <= chars.len(),
    ensures
        from <= end <= chars.len(),
        all_digits(chars@, from as int, end as int),
        end < chars.len() ==> !is_digit(chars@[end as int]),
        end == digits_end(chars@, from as int),
{
    let mut end = from;
    while end < chars.len() && digit(chars[end])
        invariant
            from <= end <= chars.len(),
            all_digits(chars@, from as int, end as int),
        decreases chars.len() - end,
    {
        end += 1;
    }
    proof {
        lemma_digits_end(chars@, from as int, end as int);
    }
    end
}

/// The number spelled by the digits from `from` up to `to`, or `None` when
/// it does not fit in 64 bits.
pub fn decimal(chars: &Vec<char>, from: usize, to: usize) -> (r: Option<u64>)
    requires
        from <= to <= chars.len(),
        all_digits(chars@, from as int, to as int),
    ensures
        match r {
            Some(v) => v == decimal_value(chars@.subrange(from as int, to as int)),
            None => decimal_value(chars@.subrange(from as int, to as int)) > u64::MAX,
        },
{
    let ghost whole = chars@.subrange(from as int, to as int);
    let mut acc: u64 = 0;
    let mut i = from;
    assert(chars@.subrange(from as int, from as int) =~= Seq::<char>::empty());
    while i < to
        invariant
            from <= i <= to <= chars.len(),
            all_digits(chars@, from as int, to as int),
            whole == chars@.subrange(from as int, to as int),
            acc == decimal_value(chars@.subrange(from as int, i as int)),
        decreases to - i,
    {
        let d = digit_of(chars[i]);
        proof {
            lemma_decimal_step(chars@, from as int, i as int);
            assert(whole.take(i + 1 - from) =~= chars@.subrange(from as int, i + 1));
            lemma_decimal_prefix(whole, i + 1 - from);
        }
        let next = match acc.checked_mul(10) {
            Some(tenfold) => tenfold.checked_add(d as u64),
            None => None,
        };
        match next {
            Some(v) => {
                acc = v;
            },
            None => {
                return None;
            },
        }
        i += 1;
    }
    Some(acc)
}

/// Where the digits of a signed number start: behind the minus sign, if
/// there is one.
pub open spec fn digits_start(s: Seq<char>) -> int {
    if s.len() > 0 && s[0] == '-' {
        1
    } else {
        0
    }
}

/// Where the digits of an unsigned number start: behind the plus sign, if
/// there is one.
pub open spec fn unsigned_start(s: Seq<char>) -> int {
    if s.len() > 0 && s[0] == '+' {
        1
    } else {
        0
    }
}

/// The number that a text spells in 32 bits without a sign: an optional
/// plus sign and one digit or more, with nothing before or after, and a
/// value that fits.
pub open spec fn unsigned_literal(s: Seq<char>) -> Option<u32> {
    let digits = s.subrange(unsigned_start(s), s.len() as int);
    if digits.len() > 0 && all_digits(s, unsigned_start(s), s.len() as int) && decimal_value(digits)
        <= u32::MAX {
        Some(decimal_value(digits) as u32)
    } else {
        None
    }
}

/// Reads a text as an unsigned number of 32 bits.
pub fn parse_unsigned(text: &str) -> (r: Option<u32>)
    ensures
        r == unsigned_literal(text@),
{
    let chars = to_chars(text);
    let n = chars.len();
    let start: usize = if n > 0 && chars[0] == '+' {
        1
    } else {
        0
    };
    let end = scan_digits(&chars, start);
    if end == start || end != n {
        return None;
    }
    match decimal(&chars, start, end) {
        Some(value) => if value <= u32::MAX as u64 {
            Some(value as u32)
        } else {
            None
        },
        None => None,
    }
}

} // verus!
