//! Decimal text of integers and of fixed-point numbers, as it stands in a query string.

use super::text::{lemma_utf8_concat, utf8};
use vstd::prelude::*;
use vstd::utf8::{is_ascii_chars, is_ascii_chars_encode_utf8};

verus! {

/// The character of one decimal digit.
pub open spec fn digit_char(d: int) -> char {
    if d == 0 {
        '0'
    } else if d == 1 {
        '1'
    } else if d == 2 {
        '2'
    } else if d == 3 {
        '3'
    } else if d == 4 {
        '4'
    } else if d == 5 {
        '5'
    } else if d == 6 {
        '6'
    } else if d == 7 {
        '7'
    } else if d == 8 {
        '8'
    } else {
        '9'
    }
}

/// A natural number in decimal: no leading zeros, no separators, `"0"` for zero.
pub open spec fn nat_text(n: nat) -> Seq<char>
    decreases n,
{
    if n < 10 {
        seq![digit_char(n as int)]
    } else {
        nat_text(n / 10) + seq![digit_char((n % 10) as int)]
    }
}

/// An integer in decimal: a minus sign before the digits of a negative number.
pub open spec fn int_text(n: int) -> Seq<char> {
    if n < 0 {
        seq!['-'] + nat_text((-n) as nat)
    } else {
        nat_text(n as nat)
    }
}

/// Formats an integer with `itoa::Buffer::format`, which renders an integer
/// primitive as the standard library's `Display` does: in decimal, with a
/// minus sign for negative values and without padding. The contract states
/// that rendering as [`int_text`]; nothing of it is proved here.
#[verifier::external_body]
pub(crate) fn format_integer(val: i128) -> (s: String)
    ensures
        s@ == int_text(val as int),
{
    itoa::Buffer::new().format(val).to_owned()
}

/// The largest scale of a [`Decimal`]: the number of digits after the point.
pub const MAX_SCALE: u32 = 28;

/// The largest magnitude of a [`Decimal`]'s mantissa: 96 bits.
pub const MAX_MANTISSA: i128 = 0xFFFF_FFFF_FFFF_FFFF_FFFF_FFFF;

/// Whether a mantissa and a scale make a fixed-point number.
pub open spec fn decimal_in_range(mantissa: int, scale: int) -> bool {
    &&& -(MAX_MANTISSA as int) <= mantissa <= MAX_MANTISSA as int
    &&& 0 <= scale <= MAX_SCALE as int
}

/// A fixed-point number: `mantissa / 10^scale`, exact.
#[derive(Clone, Copy, Debug)]
pub struct Decimal {
    mantissa: i128,
    scale: u32,
}

/// The value of a [`Decimal`].
pub struct DecimalView {
    pub mantissa: int,
    pub scale: nat,
}

impl View for Decimal {
    type V = DecimalView;

    closed spec fn view(&self) -> DecimalView {
        DecimalView { mantissa: self.mantissa as int, scale: self.scale as nat }
    }
}

impl Decimal {
    #[verifier::type_invariant]
    spec fn in_range(self) -> bool {
        decimal_in_range(self.mantissa as int, self.scale as int)
    }

    /// The number `mantissa / 10^scale`, where mantissa and scale are in range.
    pub fn new(mantissa: i128, scale: u32) -> (d: Option<Decimal>)
        ensures
            d is Some <==> decimal_in_range(mantissa as int, scale as int),
            d is Some ==> d->0@ == (DecimalView { mantissa: mantissa as int, scale: scale as nat }),
    {
        if scale <= MAX_SCALE && -MAX_MANTISSA <= mantissa && mantissa <= MAX_MANTISSA {
            Some(Decimal { mantissa, scale })
        } else {
            None
        }
    }

    pub fn mantissa(&self) -> (m: i128)
        ensures
            m == self@.mantissa,
            decimal_in_range(self@.mantissa, self@.scale as int),
    {
        proof {
            use_type_invariant(self);
        }
        self.mantissa
    }

    pub fn scale(&self) -> (s: u32)
        ensures
            s == self@.scale,
            decimal_in_range(self@.mantissa, self@.scale as int),
    {
        proof {
            use_type_invariant(self);
        }
        self.scale
    }

    /// The number as text.
    pub fn to_text(&self) -> (s: String)
        ensures
            s@ == decimal_text(self@.mantissa, self@.scale),
    {
        proof {
            use_type_invariant(self);
        }
        format_decimal(self.mantissa, self.scale)
    }
}

/// The text that `rust_decimal` gives a number: its `Display` form.
pub uninterp spec fn decimal_text(mantissa: int, scale: nat) -> Seq<char>;

/// Renders a number with the `Display` impl of `rust_decimal::Decimal`, on the
/// value that `Decimal::from_i128_with_scale` makes of mantissa and scale.
/// That constructor panics on a scale over 28 or a mantissa of more than 96
/// bits, which the bounds leave out. The text is named in the contract, not
/// described.
#[verifier::external_body]
fn format_decimal(mantissa: i128, scale: u32) -> (s: String)
    requires
        decimal_in_range(mantissa as int, scale as int),
    ensures
        s@ == decimal_text(mantissa as int, scale as nat),
{
    rust_decimal::Decimal::from_i128_with_scale(mantissa, scale).to_string()
}

/// Whether a byte is an ASCII decimal digit.
pub open spec fn is_decimal_digit(b: u8) -> bool {
    48 <= b <= 57
}

/// The number that a run of digits stands for; `None` where a byte of it is
/// no digit. The empty run stands for zero.
pub open spec fn digits_int(s: Seq<u8>) -> Option<int>
    decreases s.len(),
{
    if s.len() == 0 {
        Some(0)
    } else {
        match digits_int(s.drop_last()) {
            Some(v) => if is_decimal_digit(s.last()) {
                Some(v * 10 + (s.last() - 48))
            } else {
                None
            },
            None => None,
        }
    }
}

/// The integer that a text stands for, where the text is an integer written
/// in the one way that [`int_text`] writes it: digits without a leading zero,
/// after a minus sign for a negative number; zero is `0`.
pub open spec fn integer_of(s: Seq<u8>) -> Option<int> {
    if s.len() > 0 && s[0] == 45 {
        let digits = s.drop_first();
        if digits.len() > 0 && digits[0] != 48 {
            match digits_int(digits) {
                Some(v) => Some(-v),
                None => None,
            }
        } else {
            None
        }
    } else if s.len() == 1 || (s.len() > 1 && s[0] != 48) {
        digits_int(s)
    } else {
        None
    }
}

/// The largest magnitude that [`parse_integer`] reads.
pub const MAX_INTEGER: u128 = 0xFFFF_FFFF_FFFF_FFFF;

/// An integer, if it is one of at most 64 bits in magnitude.
pub open spec fn within_64_bits(n: Option<int>) -> Option<int> {
    match n {
        Some(n) => if -(MAX_INTEGER as int) <= n <= MAX_INTEGER as int {
            Some(n)
        } else {
            None
        },
        None => None,
    }
}

/// A run of digits has a value only if each of its prefixes has one, and its
/// value is no less than theirs.
pub proof fn lemma_digits_prefix(s: Seq<u8>, k: int)
    requires
        0 <= k <= s.len(),
    ensures
        digits_int(s.take(k)) is None ==> digits_int(s) is None,
        digits_int(s) is Some ==> digits_int(s.take(k)) is Some && digits_int(s.take(k))->0
            <= digits_int(s)->0 && 0 <= digits_int(s.take(k))->0,
    decreases s.len() - k,
{
    if k == s.len() {
        assert(s.take(k) =~= s);
        lemma_digits_nonnegative(s);
    } else {
        let next = s.take(k + 1);
        assert(next.drop_last() =~= s.take(k));
        lemma_digits_prefix(s, k + 1);
        lemma_digits_nonnegative(s.take(k));
    }
}

/// The value of a run of digits is not negative.
pub proof fn lemma_digits_nonnegative(s: Seq<u8>)
    ensures
        digits_int(s) is Some ==> digits_int(s)->0 >= 0,
    decreases s.len(),
{
    if s.len() > 0 {
        lemma_digits_nonnegative(s.drop_last());
    }
}

/// Reads a run of digits of at most 64 bits.
fn parse_digits(s: &[u8], start: usize) -> (r: Option<u128>)
    requires
        start <= s@.len(),
    ensures
        r == match within_64_bits(digits_int(s@.skip(start as int))) {
            Some(n) => Some(n as u128),
            None => None,
        },
{
    let ghost digits = s@.skip(start as int);
    let n = s.len();
    let mut acc: u128 = 0;
    let mut i: usize = start;
    proof {
        assert(digits.take(0).len() == 0);
    }
    while i < n
        invariant
            start <= i <= n,
            n == s@.len(),
            digits == s@.skip(start as int),
            acc <= MAX_INTEGER,
            digits_int(digits.take(i - start)) == Some(acc as int),
        decreases n - i,
    {
        let b = s[i];
        let ghost next = digits.take(i + 1 - start);
        proof {
            assert(next.drop_last() =~= digits.take(i - start));
            assert(next.last() == b);
            lemma_digits_prefix(digits, i + 1 - start);
        }
        if b < 48 || b > 57 {
            return None;
        }
        let d: u128 = (b - 48) as u128;
        let grown: u128 = acc * 10 + d;
        if grown > MAX_INTEGER {
            return None;
        }
        acc = grown;
        i = i + 1;
    }
    proof {
        assert(digits.take(n - start) =~= digits);
    }
    Some(acc)
}

/// Reads an integer of at most 64 bits in magnitude from its text.
pub fn parse_integer(s: &[u8]) -> (r: Option<i128>)
    ensures
        r == match within_64_bits(integer_of(s@)) {
            Some(n) => Some(n as i128),
            None => None,
        },
{
    let n = s.len();
    if n == 0 {
        return None;
    }
    if s[0] == 45 {
        if n == 1 || s[1] == 48 {
            return None;
        }
        proof {
            assert(s@.skip(1) =~= s@.drop_first());
            lemma_digits_nonnegative(s@.drop_first());
        }
        match parse_digits(s, 1) {
            Some(v) => Some(-(v as i128)),
            None => None,
        }
    } else {
        if n > 1 && s[0] == 48 {
            return None;
        }
        proof {
            assert(s@.skip(0) =~= s@);
            lemma_digits_nonnegative(s@);
        }
        match parse_digits(s, 0) {
            Some(v) => Some(v as i128),
            None => None,
        }
    }
}

/// The bytes of one ASCII character.
proof fn lemma_utf8_of_ascii(c: char)
    requires
        '\0' <= c <= '\u{7f}',
    ensures
        utf8(seq![c]) == seq![c as u8],
{
    let t = seq![c];
    assert(is_ascii_chars(t));
    is_ascii_chars_encode_utf8(t);
    assert(utf8(t) =~= seq![c as u8]);
}

/// The text of a natural number is its digits: reading them gives the number
/// back, and only zero begins with the digit zero.
pub proof fn lemma_nat_text_digits(n: nat)
    ensures
        utf8(nat_text(n)).len() >= 1,
        digits_int(utf8(nat_text(n))) == Some(n as int),
        n < 10 <==> utf8(nat_text(n)).len() == 1,
        n > 0 ==> utf8(nat_text(n))[0] != 48,
        is_decimal_digit(utf8(nat_text(n))[0]),
    decreases n,
{
    if n < 10 {
        let c = digit_char(n as int);
        lemma_utf8_of_ascii(c);
        let bytes = utf8(nat_text(n));
        assert(bytes =~= seq![c as u8]);
        assert(c as u8 == 48 + n);
        assert(bytes.drop_last().len() == 0);
        assert(digits_int(bytes.drop_last()) == Some(0int));
    } else {
        let head = nat_text(n / 10);
        let c = digit_char((n % 10) as int);
        lemma_nat_text_digits(n / 10);
        lemma_utf8_of_ascii(c);
        lemma_utf8_concat(head, seq![c]);
        let bytes = utf8(nat_text(n));
        assert(bytes =~= utf8(head) + seq![c as u8]);
        assert(bytes.drop_last() =~= utf8(head));
        assert(bytes.last() == c as u8);
        assert(c as u8 == 48 + n % 10);
        assert(bytes[0] == utf8(head)[0]);
    }
}

/// Reading the text of an integer gives the integer back.
pub proof fn lemma_integer_of_text(n: int)
    ensures
        integer_of(utf8(int_text(n))) == Some(n),
{
    if n < 0 {
        let m = (-n) as nat;
        lemma_nat_text_digits(m);
        lemma_utf8_of_ascii('-');
        lemma_utf8_concat(seq!['-'], nat_text(m));
        let bytes = utf8(int_text(n));
        assert(bytes =~= seq![45u8] + utf8(nat_text(m)));
        assert(bytes.drop_first() =~= utf8(nat_text(m)));
    } else {
        lemma_nat_text_digits(n as nat);
    }
}

} // verus!
