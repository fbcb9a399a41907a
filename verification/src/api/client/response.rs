//! The envelope of a response: rate-limit headers, status, and a body that
//! is either the expected payload or the exchange's error object.

use super::error::{BinanceError, HeaderParseIntError};
use super::number::{digits_int, int_text, is_decimal_digit, lemma_nat_text_digits};
use super::text::utf8;
use vstd::prelude::*;

verus! {

#[verifier::external_type_specification]
#[verifier::external_body]
#[verifier::reject_recursive_types(T)]
pub struct ExHeaderMap<T>(http::HeaderMap<T>);

#[verifier::external_type_specification]
#[verifier::external_body]
pub struct ExHeaderValue(http::HeaderValue);

#[verifier::external_type_specification]
#[verifier::external_body]
pub struct ExStatusCode(http::StatusCode);

/// What a header map holds: for each name that a lookup finds, the bytes of
/// the first value under it.
pub uninterp spec fn header_values(headers: http::HeaderMap<http::HeaderValue>) -> Map<
    Seq<char>,
    Seq<u8>,
>;

/// `HeaderMap::get` with a string as the name, and `HeaderValue::as_bytes` on
/// what it finds: the bytes of the first value under that name, or `None`
/// where the map has no such header.
#[verifier::external_body]
fn header_get(headers: &http::HeaderMap<http::HeaderValue>, name: &str) -> (value: Option<Vec<u8>>)
    ensures
        value is Some <==> header_values(*headers).contains_key(name@),
        value is Some ==> value->0@ == header_values(*headers)[name@],
{
    headers.get(name).map(|v| v.as_bytes().to_vec())
}

/// The number that a run of digits stands for, read from the left; the first
/// byte that is no digit, or that takes the number over 65535, decides the
/// error.
pub open spec fn digits_value(digits: Seq<u8>) -> Result<int, HeaderParseIntError>
    decreases digits.len(),
{
    if digits.len() == 0 {
        Ok(0)
    } else {
        match digits_value(digits.drop_last()) {
            Err(e) => Err(e),
            Ok(v) => if !is_decimal_digit(digits.last()) {
                Err(HeaderParseIntError::InvalidDigit)
            } else if v * 10 + (digits.last() - 48) > u16::MAX {
                Err(HeaderParseIntError::PosOverflow)
            } else {
                Ok(v * 10 + (digits.last() - 48))
            },
        }
    }
}

/// The digits of a header value: what follows one optional `+`.
pub open spec fn unsigned_digits(value: Seq<u8>) -> Seq<u8> {
    if value.len() > 0 && value[0] == 43 {
        value.drop_first()
    } else {
        value
    }
}

/// A header value as an unsigned 16-bit number: decimal digits after an
/// optional `+`, and nothing else.
pub open spec fn parse_u16(value: Seq<u8>) -> Result<u16, HeaderParseIntError> {
    if value.len() == 0 {
        Err(HeaderParseIntError::Empty)
    } else if unsigned_digits(value).len() == 0 {
        Err(HeaderParseIntError::InvalidDigit)
    } else {
        match digits_value(unsigned_digits(value)) {
            Ok(v) => Ok(v as u16),
            Err(e) => Err(e),
        }
    }
}

/// Parses a header value as [`parse_u16`] says.
pub fn parse_header_value(value: &[u8]) -> (r: Result<u16, HeaderParseIntError>)
    ensures
        r == parse_u16(value@),
{
    let n = value.len();
    if n == 0 {
        return Err(HeaderParseIntError::Empty);
    }
    let start: usize = if value[0] == 43 {
        1
    } else {
        0
    };
    if start == n {
        return Err(HeaderParseIntError::InvalidDigit);
    }
    let ghost digits = unsigned_digits(value@);
    let mut acc: u16 = 0;
    let mut i: usize = start;
    proof {
        assert(digits.take(0).len() == 0);
        assert(digits =~= value@.skip(start as int));
    }
    while i < n
        invariant
            start <= i <= n,
            n == value@.len(),
            start <= 1,
            digits == value@.skip(start as int),
            digits == unsigned_digits(value@),
            digits.len() == n - start,
            start < n,
            digits_value(digits.take(i - start)) == Ok::<int, HeaderParseIntError>(acc as int),
        decreases n - i,
    {
        let b = value[i];
        let ghost next = digits.take(i + 1 - start);
        proof {
            assert(next.drop_last() =~= digits.take(i - start));
            assert(next.last() == b);
        }
        if b < 48 || b > 57 {
            proof {
                assert(digits_value(next) == Err::<int, HeaderParseIntError>(
                    HeaderParseIntError::InvalidDigit,
                ));
                lemma_digits_error_stays(digits, i + 1 - start);
            }
            return Err(HeaderParseIntError::InvalidDigit);
        }
        let d: u16 = (b - 48) as u16;
        if acc > 6553 || (acc == 6553 && d > 5) {
            proof {
                assert(digits_value(next) == Err::<int, HeaderParseIntError>(
                    HeaderParseIntError::PosOverflow,
                ));
                lemma_digits_error_stays(digits, i + 1 - start);
            }
            return Err(HeaderParseIntError::PosOverflow);
        }
        acc = acc * 10 + d;
        i = i + 1;
    }
    proof {
        assert(digits.take(n - start) =~= digits);
    }
    Ok(acc)
}

/// Once a prefix of the digits has failed, the whole has failed the same way.
pub proof fn lemma_digits_error_stays(digits: Seq<u8>, k: int)
    requires
        0 <= k <= digits.len(),
        digits_value(digits.take(k)) is Err,
    ensures
        digits_value(digits) == digits_value(digits.take(k)),
    decreases digits.len() - k,
{
    if k == digits.len() {
        assert(digits.take(k) =~= digits);
    } else {
        let next = digits.take(k + 1);
        assert(next.drop_last() =~= digits.take(k));
        lemma_digits_error_stays(digits, k + 1);
    }
}

/// A run of digits parses to the number that it stands for, where that
/// number has 16 bits; it fails where it stands for no number or for a
/// larger one.
pub proof fn lemma_digits_value(digits: Seq<u8>)
    ensures
        match digits_value(digits) {
            Ok(v) => digits_int(digits) == Some(v) && 0 <= v <= u16::MAX,
            Err(_) => digits_int(digits) is None || digits_int(digits)->0 > u16::MAX,
        },
    decreases digits.len(),
{
    if digits.len() > 0 {
        lemma_digits_value(digits.drop_last());
    }
}

/// A header value parses to a number exactly when it is a run of one digit
/// or more, after at most one `+`, that stands for that number.
pub proof fn lemma_parse_u16_ok(value: Seq<u8>, n: u16)
    ensures
        parse_u16(value) == Ok::<u16, HeaderParseIntError>(n) <==> unsigned_digits(value).len() > 0
            && digits_int(unsigned_digits(value)) == Some(n as int),
{
    lemma_digits_value(unsigned_digits(value));
}

/// Every number of 16 bits, written in decimal, parses to itself.
pub proof fn lemma_parse_u16_of_text(n: u16)
    ensures
        parse_u16(utf8(int_text(n as int))) == Ok::<u16, HeaderParseIntError>(n),
{
    lemma_nat_text_digits(n as nat);
    lemma_parse_u16_ok(utf8(int_text(n as int)), n);
}

/// The rate-limit figures that the exchange reports in response headers.
/// Each is there only if its header is.
#[derive(Copy, Clone, Debug)]
pub struct BinanceHttpHeader {
    pub x_mbx_used_weight: Option<u16>,
    pub x_mbx_used_weight_1m: Option<u16>,
    pub retry_after: Option<u16>,
}

impl Default for BinanceHttpHeader {
    fn default() -> (h: BinanceHttpHeader)
        ensures
            h == (BinanceHttpHeader {
                x_mbx_used_weight: None,
                x_mbx_used_weight_1m: None,
                retry_after: None,
            }),
    {
        BinanceHttpHeader { x_mbx_used_weight: None, x_mbx_used_weight_1m: None, retry_after: None }
    }
}

/// One figure: absent without its header, a number where the header's value
/// is one, an error where it is not.
pub open spec fn header_figure(value: Option<Seq<u8>>) -> Result<Option<u16>, HeaderParseIntError> {
    match value {
        None => Ok(None),
        Some(bytes) => match parse_u16(bytes) {
            Ok(n) => Ok(Some(n)),
            Err(e) => Err(e),
        },
    }
}

/// The three figures from the values of their headers; the first header that
/// fails to parse, in the order of the arguments, gives the error.
pub open spec fn header_figures(
    used_weight: Option<Seq<u8>>,
    used_weight_1m: Option<Seq<u8>>,
    retry_after: Option<Seq<u8>>,
) -> Result<BinanceHttpHeader, HeaderParseIntError> {
    match header_figure(used_weight) {
        Err(e) => Err(e),
        Ok(x_mbx_used_weight) => match header_figure(used_weight_1m) {
            Err(e) => Err(e),
            Ok(x_mbx_used_weight_1m) => match header_figure(retry_after) {
                Err(e) => Err(e),
                Ok(retry_after) => Ok(
                    BinanceHttpHeader { x_mbx_used_weight, x_mbx_used_weight_1m, retry_after },
                ),
            },
        },
    }
}

/// The value under a name, if the map has one.
pub open spec fn header_lookup(values: Map<Seq<char>, Seq<u8>>, name: Seq<char>) -> Option<
    Seq<u8>,
> {
    if values.contains_key(name) {
        Some(values[name])
    } else {
        None
    }
}

/// The three figures that the headers of a response hold.
pub open spec fn figures_of(headers: http::HeaderMap<http::HeaderValue>) -> Result<
    BinanceHttpHeader,
    HeaderParseIntError,
> {
    header_figures(
        header_lookup(header_values(headers), "x-mbx-used-weight"@),
        header_lookup(header_values(headers), "x-mbx-used-weight-1m"@),
        header_lookup(header_values(headers), "retry-after"@),
    )
}

/// The view of an optional byte vector.
pub open spec fn bytes_of(value: Option<Vec<u8>>) -> Option<Seq<u8>> {
    match value {
        Some(v) => Some(v@),
        None => None,
    }
}

fn parse_figure(value: &Option<Vec<u8>>) -> (r: Result<Option<u16>, HeaderParseIntError>)
    ensures
        r == header_figure(bytes_of(*value)),
{
    match value {
        None => Ok(None),
        Some(bytes) => match parse_header_value(bytes.as_slice()) {
            Ok(n) => Ok(Some(n)),
            Err(e) => Err(e),
        },
    }
}

impl BinanceHttpHeader {
    /// The figures from the raw values of the three headers.
    pub fn from_values(
        used_weight: Option<Vec<u8>>,
        used_weight_1m: Option<Vec<u8>>,
        retry_after: Option<Vec<u8>>,
    ) -> (r: Result<BinanceHttpHeader, HeaderParseIntError>)
        ensures
            r == header_figures(
                bytes_of(used_weight),
                bytes_of(used_weight_1m),
                bytes_of(retry_after),
            ),
    {
        let x_mbx_used_weight = match parse_figure(&used_weight) {
            Ok(v) => v,
            Err(e) => {
                return Err(e);
            },
        };
        let x_mbx_used_weight_1m = match parse_figure(&used_weight_1m) {
            Ok(v) => v,
            Err(e) => {
                return Err(e);
            },
        };
        let retry_after = match parse_figure(&retry_after) {
            Ok(v) => v,
            Err(e) => {
                return Err(e);
            },
        };
        Ok(BinanceHttpHeader { x_mbx_used_weight, x_mbx_used_weight_1m, retry_after })
    }

    /// The figures from the headers of a response: `x-mbx-used-weight`,
    /// `x-mbx-used-weight-1m` and `retry-after`.
    pub fn try_from(headers: &http::HeaderMap<http::HeaderValue>) -> (r: Result<
        BinanceHttpHeader,
        HeaderParseIntError,
    >)
        ensures
            r == figures_of(*headers),
    {
        let used_weight = header_get(headers, "x-mbx-used-weight");
        let used_weight_1m = header_get(headers, "x-mbx-used-weight-1m");
        let retry_after = header_get(headers, "retry-after");
        BinanceHttpHeader::from_values(used_weight, used_weight_1m, retry_after)
    }
}

/// A payload with the status and the rate-limit figures that came with it.
#[derive(Debug)]
pub struct Response<T> {
    pub headers: BinanceHttpHeader,
    pub status: http::StatusCode,
    pub payload: T,
}

/// A decoded body: the payload that was asked for, or the error object that
/// the exchange sent in its place.
#[derive(Clone, Debug)]
pub enum SuccessOrError<T, E> {
    Success(T),
    Error(E),
}

impl<T, E> SuccessOrError<T, E> {
    /// Pairs the body with status and headers: a payload is the result, an
    /// error object the exchange's refusal.
    pub fn to_result(self, status: http::StatusCode, headers: BinanceHttpHeader) -> (r: Result<
        Response<T>,
        BinanceError<E>,
    >)
        ensures
            r == match self {
                SuccessOrError::Success(payload) => Ok::<Response<T>, BinanceError<E>>(
                    Response { headers, status, payload },
                ),
                SuccessOrError::Error(payload) => Err::<Response<T>, BinanceError<E>>(
                    BinanceError::Binance(Response { headers, status, payload }),
                ),
            },
    {
        match self {
            SuccessOrError::Success(result) => Ok(Response { headers, status, payload: result }),
            SuccessOrError::Error(err) => Err(
                BinanceError::Binance(Response { headers, status, payload: err }),
            ),
        }
    }
}

} // verus!
