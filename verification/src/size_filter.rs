//! The predicate on an entry's length, and the grammar of its parameter: a
//! decimal number followed by a unit of 1024.

use crate::filter::{Attribute, CompOp, Entry, Filter, FilterError};
use crate::text::{
    all_digits, decimal, decimal_value, digit_of, digit_value, digits_end, digits_start, is_digit,
    lemma_decimal_concat, lemma_digits_end, lemma_pow10_positive, pow10, scan_digits, to_chars,
};
use vstd::arithmetic::div_mod::{
    lemma_div_denominator, lemma_div_pos_is_pos, lemma_fundamental_div_mod,
    lemma_fundamental_div_mod_converse, lemma_hoist_over_denominator, lemma_remainder,
};
use vstd::prelude::*;
use vstd::string::StringExecFns;

verus! {

/// The unit of a size: bytes, and four powers of 1024.
#[derive(Clone, Copy, Debug, PartialEq, Eq, Structural)]
pub enum SizeUnit {
    Bytes,
    Kilo,
    Mega,
    Giga,
    Tera,
}

pub open spec fn size_unit_of(c: char) -> Option<SizeUnit> {
    if c == 'b' {
        Some(SizeUnit::Bytes)
    } else if c == 'k' {
        Some(SizeUnit::Kilo)
    } else if c == 'M' {
        Some(SizeUnit::Mega)
    } else if c == 'G' {
        Some(SizeUnit::Giga)
    } else if c == 'T' {
        Some(SizeUnit::Tera)
    } else {
        None
    }
}

/// The bytes in one unit: 1024 to the power of 0 to 4.
pub open spec fn unit_scale(unit: SizeUnit) -> nat {
    match unit {
        SizeUnit::Bytes => 1,
        SizeUnit::Kilo => 1024,
        SizeUnit::Mega => 1048576,
        SizeUnit::Giga => 1073741824,
        SizeUnit::Tera => 1099511627776,
    }
}

/// The whole number nearest to the decimal number `whole.fraction` times
/// `scale`, a half rounded up.
pub open spec fn rounded_product(whole: Seq<char>, fraction: Seq<char>, scale: nat) -> nat {
    let denominator = pow10(fraction.len()) as int;
    ((2 * scale * decimal_value(whole + fraction) + denominator) as int / (2 * denominator)) as nat
}

/// The byte count that a size literal stands for, or `None` for any other
/// text.
///
/// A size literal is an optional minus sign, one digit or more, optionally
/// a point and further digits, and one of the unit letters `b k M G T`,
/// with nothing before or after. Its value is the rounded product of the
/// number and the unit, held to the range of 64 bits: a literal with a minus
/// sign gives 0.
pub open spec fn size_literal(s: Seq<char>) -> Option<nat> {
    let start = digits_start(s);
    let whole_end = digits_end(s, start);
    let has_point = whole_end < s.len() && s[whole_end] == '.';
    let fraction_start = if has_point {
        whole_end + 1
    } else {
        whole_end
    };
    let fraction_end = if has_point {
        digits_end(s, fraction_start)
    } else {
        whole_end
    };
    if whole_end > start && fraction_end + 1 == s.len() && size_unit_of(s[fraction_end]) is Some {
        let amount = rounded_product(
            s.subrange(start, whole_end),
            s.subrange(fraction_start, fraction_end),
            unit_scale(size_unit_of(s[fraction_end])->0),
        );
        Some(
            if start == 1 {
                0
            } else if amount > u64::MAX {
                u64::MAX as nat
            } else {
                amount
            },
        )
    } else {
        None
    }
}

/// The whole part of `factor` times the decimal fraction `0.fraction`.
pub open spec fn scaled_fraction(factor: nat, fraction: Seq<char>) -> nat {
    ((factor * decimal_value(fraction)) as int / (pow10(fraction.len()) as int)) as nat
}

proof fn lemma_single_digit(c: char)
    ensures
        decimal_value(seq![c]) == digit_value(c),
{
    assert(seq![c].drop_last() =~= Seq::<char>::empty());
    assert(decimal_value(Seq::<char>::empty()) == 0);
}

/// The scaled fraction of a digit and what follows it, from the scaled
/// fraction of what follows.
proof fn lemma_scaled_fraction_step(factor: nat, c: char, rest: Seq<char>)
    ensures
        scaled_fraction(factor, seq![c] + rest) == (digit_value(c) * factor + scaled_fraction(
            factor,
            rest,
        )) / 10,
{
    let power = pow10(rest.len()) as int;
    let low = decimal_value(rest) as int;
    let digit = digit_value(c) as int;
    let m = factor as int;
    lemma_pow10_positive(rest.len());
    lemma_single_digit(c);
    lemma_decimal_concat(seq![c], rest);
    assert(decimal_value(seq![c] + rest) == digit * power + low);
    assert(pow10((seq![c] + rest).len()) == 10 * power);
    let x = m * (digit * power + low);
    assert(x == m * low + (m * digit) * power) by (nonlinear_arith)
        requires
            x == m * (digit * power + low),
    ;
    assert(m * low >= 0 && m * digit >= 0 && x >= 0) by (nonlinear_arith)
        requires
            m >= 0,
            low >= 0,
            digit >= 0,
            power >= 1,
            x == m * (digit * power + low),
    ;
    lemma_div_denominator(x, power, 10);
    lemma_hoist_over_denominator(m * low, m * digit, power as nat);
    assert(x / power == (m * low) / power + m * digit);
    assert(power * 10 == 10 * power);
}

/// Rounding the product is scaling the whole part and rounding the scaled
/// fraction.
proof fn lemma_rounded_product(whole: Seq<char>, fraction: Seq<char>, scale: nat)
    ensures
        rounded_product(whole, fraction, scale) == decimal_value(whole) * scale + (scaled_fraction(
            2 * scale,
            fraction,
        ) + 1) / 2,
{
    let d = pow10(fraction.len()) as int;
    let i = decimal_value(whole) as int;
    let f = decimal_value(fraction) as int;
    let m = 2 * scale as int;
    lemma_pow10_positive(fraction.len());
    lemma_decimal_concat(whole, fraction);
    let n = decimal_value(whole + fraction) as int;
    assert(n == i * d + f);
    let q = (m * f) / d;
    let r = (m * f) % d;
    assert(m * f >= 0) by (nonlinear_arith)
        requires
            m >= 0,
            f >= 0,
    ;
    lemma_fundamental_div_mod(m * f, d);
    lemma_remainder(m * f, d);
    let numerator = m * n + d;
    assert(numerator == (m * i + q + 1) * d + r) by (nonlinear_arith)
        requires
            numerator == m * n + d,
            n == i * d + f,
            m * f == d * q + r,
    ;
    lemma_fundamental_div_mod_converse(numerator, d, m * i + q + 1, r);
    assert(numerator >= 0) by (nonlinear_arith)
        requires
            numerator == m * n + d,
            m >= 0,
            n >= 0,
            d >= 1,
    ;
    lemma_div_denominator(numerator, d, 2);
    assert(d * 2 == 2 * d);
    assert(q >= 0) by {
        lemma_div_pos_is_pos(m * f, d);
    }
    assert(m * i == 2 * (scale * i)) by (nonlinear_arith)
        requires
            m == 2 * scale,
    ;
    assert(scale * i >= 0) by (nonlinear_arith)
        requires
            scale >= 0,
            i >= 0,
    ;
    assert(2 * scale * n == m * n) by (nonlinear_arith)
        requires
            m == 2 * scale,
    ;
    assert(i * scale == scale * i) by (nonlinear_arith);
}

fn scale_from(c: char) -> (r: Option<u64>)
    ensures
        match r {
            Some(scale) => size_unit_of(c) matches Some(unit) && scale == unit_scale(unit),
            None => size_unit_of(c) is None,
        },
{
    match c {
        'b' => Some(1),
        'k' => Some(1024),
        'M' => Some(1048576),
        'G' => Some(1073741824),
        'T' => Some(1099511627776),
        _ => None,
    }
}

/// The whole part of `factor` times the fraction that the digits from
/// `from` up to `to` spell behind the point.
fn scale_fraction(chars: &Vec<char>, from: usize, to: usize, factor: u64) -> (r: u64)
    requires
        from <= to <= chars.len(),
        all_digits(chars@, from as int, to as int),
        factor <= 0x1000_0000_0000,
    ensures
        r == scaled_fraction(factor as nat, chars@.subrange(from as int, to as int)),
        r <= factor,
{
    let mut scaled: u64 = 0;
    let mut i = to;
    assert(chars@.subrange(to as int, to as int) =~= Seq::<char>::empty());
    assert(pow10(0) == 1);
    assert(factor * 0 == 0);
    while i > from
        invariant
            from <= i <= to <= chars.len(),
            all_digits(chars@, from as int, to as int),
            factor <= 0x1000_0000_0000,
            scaled == scaled_fraction(factor as nat, chars@.subrange(i as int, to as int)),
            scaled <= factor,
        decreases i,
    {
        i -= 1;
        let d = digit_of(chars[i]) as u64;
        proof {
            assert(chars@.subrange(i as int, to as int) =~= seq![chars@[i as int]]
                + chars@.subrange(i + 1, to as int));
            lemma_scaled_fraction_step(
                factor as nat,
                chars@[i as int],
                chars@.subrange(i + 1, to as int),
            );
            assert(d * factor <= 9 * factor) by (nonlinear_arith)
                requires
                    d <= 9,
                    factor >= 0,
            ;
        }
        scaled = (d * factor + scaled) / 10;
    }
    scaled
}

/// Reads a parameter as a size in bytes.
pub fn parse_size(param: &str) -> (r: Option<u64>)
    ensures
        match r {
            Some(bytes) => size_literal(param@) == Some(bytes as nat),
            None => size_literal(param@) is None,
        },
{
    let chars = to_chars(param);
    let n = chars.len();
    let start: usize = if n > 0 && chars[0] == '-' {
        1
    } else {
        0
    };
    let whole_end = scan_digits(&chars, start);
    let has_point = whole_end < n && chars[whole_end] == '.';
    let fraction_start = if has_point {
        whole_end + 1
    } else {
        whole_end
    };
    let fraction_end = if has_point {
        scan_digits(&chars, fraction_start)
    } else {
        whole_end
    };
    if whole_end == start || fraction_end >= n || fraction_end + 1 != n {
        return None;
    }
    let scale = match scale_from(chars[fraction_end]) {
        Some(scale) => scale,
        None => {
            return None;
        },
    };
    if start == 1 {
        return Some(0);
    }
    let ghost whole = param@.subrange(start as int, whole_end as int);
    let ghost fraction = param@.subrange(fraction_start as int, fraction_end as int);
    proof {
        lemma_rounded_product(whole, fraction, scale as nat);
    }
    let halves = scale_fraction(&chars, fraction_start, fraction_end, 2 * scale);
    match decimal(&chars, start, whole_end) {
        None => {
            assert(decimal_value(whole) * scale >= decimal_value(whole)) by (nonlinear_arith)
                requires
                    scale >= 1,
            ;
            Some(u64::MAX)
        },
        Some(units) => {
            assert(units * scale <= u64::MAX * 1099511627776) by (nonlinear_arith)
                requires
                    0 <= units <= u64::MAX,
                    0 <= scale <= 1099511627776,
            ;
            let total: u128 = units as u128 * scale as u128 + ((halves + 1) / 2) as u128;
            if total > u64::MAX as u128 {
                Some(u64::MAX)
            } else {
                Some(total as u64)
            }
        },
    }
}

/// How a length compares with a threshold.
pub open spec fn compare_size(operator: CompOp, len: u64, size: u64) -> bool {
    match operator {
        CompOp::Lower => len < size,
        CompOp::LowerEqual => len <= size,
        CompOp::Equal => len == size,
        CompOp::GreaterEqual => len >= size,
        CompOp::Greater => len > size,
        _ => false,
    }
}

/// Compares an entry's length in bytes with a threshold.
pub struct SizeFilter {
    size: u64,
    comp_op: CompOp,
}

impl SizeFilter {
    #[verifier::type_invariant]
    spec fn well_formed(self) -> bool {
        self.comp_op.is_ordering()
    }

    /// The threshold in bytes.
    pub closed spec fn size(&self) -> u64 {
        self.size
    }

    pub closed spec fn comp_op(&self) -> CompOp {
        self.comp_op
    }

    /// The threshold in bytes.
    pub fn threshold(&self) -> (r: u64)
        ensures
            r == self.size(),
    {
        self.size
    }

    /// Builds the filter of an operator and a size literal. An operator
    /// that does not order numbers is rejected before the literal is read.
    pub fn new(op: CompOp, size_param: &str) -> (r: Result<SizeFilter, FilterError>)
        ensures
            match r {
                Ok(filter) => op.is_ordering() && size_literal(size_param@) == Some(
                    filter.size() as nat,
                ) && filter.comp_op() == op,
                Err(e) => if !op.is_ordering() {
                    e == FilterError::UnsupportedOperatorError {
                        attribute: Attribute::Size,
                        operator: op,
                    }
                } else {
                    e.is_invalid_size(size_param@) && size_literal(size_param@) is None
                },
            },
    {
        if !op.ordering() {
            return Err(
                FilterError::UnsupportedOperatorError { attribute: Attribute::Size, operator: op },
            );
        }
        match parse_size(size_param) {
            Some(size) => Ok(SizeFilter { size, comp_op: op }),
            None => Err(
                FilterError::InvalidSizeLiteralError { parameter: String::from_str(size_param) },
            ),
        }
    }
}

impl Filter for SizeFilter {
    open spec fn matches(&self, entry: &Entry) -> bool {
        match entry.metadata {
            Some(metadata) => compare_size(self.comp_op(), metadata.len, self.size()),
            None => false,
        }
    }

    fn test(&self, entry: &Entry) -> (r: bool) {
        match &entry.metadata {
            Some(metadata) => match self.comp_op {
                CompOp::Lower => metadata.len < self.size,
                CompOp::LowerEqual => metadata.len <= self.size,
                CompOp::Equal => metadata.len == self.size,
                CompOp::GreaterEqual => metadata.len >= self.size,
                CompOp::Greater => metadata.len > self.size,
                _ => false,
            },
            None => false,
        }
    }
}

/// A whole number of units is that many times the bytes of the unit, as
/// far as 64 bits hold it: `10M` is 10 times 1024 times 1024 bytes.
pub proof fn law_size_scaling(digits: Seq<char>, letter: char)
    requires
        digits.len() > 0,
        all_digits(digits, 0, digits.len() as int),
        size_unit_of(letter) is Some,
    ensures
        size_literal(digits.push(letter)) == Some(
            if decimal_value(digits) * unit_scale(size_unit_of(letter)->0) > u64::MAX {
                u64::MAX as nat
            } else {
                decimal_value(digits) * unit_scale(size_unit_of(letter)->0)
            },
        ),
{
    let s = digits.push(letter);
    let n = digits.len() as int;
    let scale = unit_scale(size_unit_of(letter)->0);
    assert(s[0] == digits[0]);
    assert(all_digits(s, 0, n)) by {
        assert forall|k: int| 0 <= k < n implies is_digit(#[trigger] s[k]) by {
            assert(s[k] == digits[k]);
        }
    }
    lemma_digits_end(s, 0, n);
    assert(s.subrange(0, n) =~= digits);
    assert(s.subrange(n, n) =~= Seq::<char>::empty());
    lemma_rounded_product(digits, Seq::<char>::empty(), scale);
    assert(decimal_value(Seq::<char>::empty()) == 0);
    assert(pow10(0) == 1);
    assert(2 * scale * 0 == 0);
    assert(scaled_fraction(2 * scale, Seq::<char>::empty()) == 0);
}

} // verus!
