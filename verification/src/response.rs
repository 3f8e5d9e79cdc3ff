//! The reply to a look-up: its JSON body and the service's rate-limit counts.

use vstd::prelude::*;
use vstd::string::StringSliceAdditionalSpecFns;
use vstd::utf8::{decode_utf8, encode_utf8_decode_utf8, valid_utf8};

verus! {

/// The reply to a look-up.
pub struct Response {
    /// The reply's body: the JSON description of what was asked for.
    pub response_json: String,
    /// How many more requests the service will answer.
    pub rate_limit_remaining: usize,
    /// How many requests the service answers in all.
    pub rate_limit_requests_limit: usize,
}

/// The byte `b'+'`, which may stand before the digits of a number.
pub open spec fn is_plus(b: u8) -> bool {
    b == 43
}

/// A decimal digit, `b'0'` to `b'9'`.
pub open spec fn is_digit(b: u8) -> bool {
    48 <= b <= 57
}

pub open spec fn all_digits(s: Seq<u8>) -> bool {
    forall|i: int| 0 <= i < s.len() ==> is_digit(#[trigger] s[i])
}

/// The number that the decimal digits `s` write, most significant first.
pub open spec fn digits_value(s: Seq<u8>) -> nat
    decreases s.len(),
{
    if s.len() == 0 {
        0
    } else {
        digits_value(s.drop_last()) * 10 + (s.last() - 48) as nat
    }
}

/// `s` without the one `+` that may lead it.
pub open spec fn unsigned_digits(s: Seq<u8>) -> Seq<u8> {
    if s.len() > 0 && is_plus(s[0]) {
        s.drop_first()
    } else {
        s
    }
}

/// The `usize` that the text `s` writes in decimal: an optional `+`, then one
/// digit or more, of a value that fits. `None` for any other text.
pub open spec fn decimal_usize(s: Seq<u8>) -> Option<usize> {
    let d = unsigned_digits(s);
    if d.len() > 0 && all_digits(d) && digits_value(d) <= usize::MAX {
        Some(digits_value(d) as usize)
    } else {
        None
    }
}

/// What a rate-limit header says: 0 where the reply lacks it, else the number
/// it writes, `None` where it writes none.
pub open spec fn rate_limit_of(header: Option<Seq<u8>>) -> Option<usize> {
    match header {
        None => Some(0),
        Some(h) => decimal_usize(h),
    }
}

/// A prefix of a digit string writes no more than the whole string.
proof fn lemma_digits_value_prefix_le(d: Seq<u8>, k: int)
    requires
        all_digits(d),
        0 <= k <= d.len(),
    ensures
        digits_value(d.take(k)) <= digits_value(d),
    decreases d.len(),
{
    if k < d.len() {
        let rest = d.drop_last();
        assert(d.take(k) =~= rest.take(k));
        assert(all_digits(rest));
        lemma_digits_value_prefix_le(rest, k);
    } else {
        assert(d.take(k) =~= d);
    }
}

/// The number that `s` writes in decimal, as `str::parse::<usize>` reads it.
pub fn parse_decimal_usize(s: &[u8]) -> (r: Option<usize>)
    ensures
        r == decimal_usize(s@),
{
    let start: usize = if s.len() > 0 && s[0] == 43u8 { 1 } else { 0 };
    let ghost d = unsigned_digits(s@);
    assert(d =~= s@.skip(start as int));
    if start == s.len() {
        return None;
    }
    let mut value: usize = 0;
    let mut i: usize = start;
    while i < s.len()
        invariant
            start <= i <= s.len(),
            start < s.len(),
            d == s@.skip(start as int),
            d == unsigned_digits(s@),
            all_digits(d.take(i - start)),
            value == digits_value(d.take(i - start)),
        decreases s.len() - i,
    {
        let b: u8 = s[i];
        let ghost k: int = i - start;
        assert(d[k] == b);
        if b < 48u8 || b > 57u8 {
            assert(!all_digits(d));
            return None;
        }
        let digit: usize = (b - 48u8) as usize;
        let ghost next = d.take(k + 1);
        assert(next.drop_last() =~= d.take(k));
        assert(all_digits(next));
        assert(digits_value(next) == value * 10 + digit);
        let scaled = value.checked_mul(10);
        let total = match scaled {
            Some(v) => v.checked_add(digit),
            None => None,
        };
        match total {
            Some(t) => {
                value = t;
                i = i + 1;
            },
            None => {
                proof {
                    if all_digits(d) {
                        lemma_digits_value_prefix_le(d, k + 1);
                    }
                }
                return None;
            },
        }
    }
    assert(d.take(i - start) =~= d);
    Some(value)
}

/// What a rate-limit header of the reply says; `header` is `None` where the
/// reply lacks it.
pub fn rate_limit_from_header(header: Option<&[u8]>) -> (r: Option<usize>)
    ensures
        r == rate_limit_of(
            match header {
                None => None,
                Some(h) => Some(h@),
            },
        ),
{
    match header {
        None => Some(0),
        Some(h) => parse_decimal_usize(h),
    }
}

/// Reads `bytes` as UTF-8 text, by `std::str::from_utf8`: the text where the
/// bytes are valid UTF-8, whose encoding is then those bytes; else `None`.
#[verifier::external_body]
fn str_from_utf8(bytes: &[u8]) -> (r: Option<&str>)
    ensures
        r is Some <==> valid_utf8(bytes@),
        r matches Some(s) ==> s.spec_bytes() == bytes@,
{
    std::str::from_utf8(bytes).ok()
}

/// A rate-limit header that is there counts the number its whole text writes,
/// as `str::parse::<usize>` reads it (0 included); a missing one counts 0.
pub proof fn lemma_rate_limit_reads_whole_header(h: Seq<u8>)
    ensures
        rate_limit_of(Some(h)) == decimal_usize(h),
        rate_limit_of(None) == Some(0usize),
{
}

/// One digit writes its own value, from 0 to 9.
pub proof fn lemma_decimal_single_digit(c: u8)
    requires
        48 <= c <= 57,
    ensures
        decimal_usize(seq![c]) == Some((c - 48) as usize),
{
    let s = seq![c];
    assert(unsigned_digits(s) =~= s);
    assert(s.drop_last() =~= Seq::<u8>::empty());
    assert(digits_value(Seq::<u8>::empty()) == 0);
    assert(digits_value(s) == (c - 48) as nat);
    assert(all_digits(s));
}

/// A digit written after a number multiplies it by ten and adds the digit's
/// value; where that does not fit in a `usize`, the text writes no number.
pub proof fn lemma_decimal_append_digit(s: Seq<u8>, n: usize, c: u8)
    requires
        decimal_usize(s) == Some(n),
        48 <= c <= 57,
    ensures
        n * 10 + (c - 48) <= usize::MAX ==> decimal_usize(s.push(c)) == Some(
            (n * 10 + (c - 48)) as usize,
        ),
        n * 10 + (c - 48) > usize::MAX ==> decimal_usize(s.push(c)) == None::<usize>,
{
    let d = unsigned_digits(s);
    let e = unsigned_digits(s.push(c));
    assert(s.len() > 0);
    assert(s.push(c)[0] == s[0]);
    if is_plus(s[0]) {
        assert(e =~= d.push(c));
    } else {
        assert(e =~= d.push(c));
    }
    assert(e.drop_last() =~= d);
    assert(all_digits(e));
    assert(digits_value(e) == digits_value(d) * 10 + (c - 48));
}

/// A `+` before the digits of a number leaves the number unchanged.
pub proof fn lemma_decimal_leading_plus(d: Seq<u8>)
    requires
        d.len() > 0,
        48 <= d[0] <= 57,
    ensures
        decimal_usize(seq![43u8] + d) == decimal_usize(d),
{
    let s = seq![43u8] + d;
    assert(unsigned_digits(s) =~= d);
    assert(unsigned_digits(d) =~= d);
}

/// A byte that is not a digit, nor a `+` in first place, means the text
/// writes no number; so does an empty text, or a lone `+`.
pub proof fn lemma_decimal_rejects_other_text(s: Seq<u8>, i: int)
    requires
        0 <= i < s.len(),
        !(48 <= s[i] <= 57),
        !(i == 0 && s[i] == 43),
    ensures
        decimal_usize(s) == None::<usize>,
        decimal_usize(Seq::<u8>::empty()) == None::<usize>,
        decimal_usize(seq![43u8]) == None::<usize>,
{
    let d = unsigned_digits(s);
    if s.len() > 0 && is_plus(s[0]) {
        assert(d[i - 1] == s[i]);
    } else {
        assert(d[i] == s[i]);
    }
    assert(seq![43u8].drop_first().len() == 0);
}

impl Response {
    /// A reply with body `raw_json`, of which the service allows `allowed`
    /// requests and will answer `remaining` more.
    pub fn new(raw_json: String, allowed: usize, remaining: usize) -> (r: Response)
        ensures
            r.response_json@ == raw_json@,
            r.rate_limit_remaining == remaining,
            r.rate_limit_requests_limit == allowed,
    {
        Response {
            response_json: raw_json,
            rate_limit_remaining: remaining,
            rate_limit_requests_limit: allowed,
        }
    }

    /// The reply that the service's answer makes: its body read as UTF-8 text,
    /// and the numbers that its two rate-limit headers write (0 for a missing
    /// header). `None` where the body is not UTF-8 or a header that is there
    /// writes no number.
    pub fn from_http(
        body: &[u8],
        requests_limit_header: Option<&[u8]>,
        remaining_header: Option<&[u8]>,
    ) -> (r: Option<Response>)
        ensures
            ({
                let limit = rate_limit_of(
                    match requests_limit_header {
                        None => None,
                        Some(h) => Some(h@),
                    },
                );
                let remaining = rate_limit_of(
                    match remaining_header {
                        None => None,
                        Some(h) => Some(h@),
                    },
                );
                &&& r is Some <==> (valid_utf8(body@) && limit is Some && remaining is Some)
                &&& r matches Some(resp) ==> {
                    &&& resp.response_json@ == decode_utf8(body@)
                    &&& resp.rate_limit_requests_limit == limit->0
                    &&& resp.rate_limit_remaining == remaining->0
                }
            }),
            r matches Some(resp) ==> match requests_limit_header {
                None => resp.rate_limit_requests_limit == 0,
                Some(h) => decimal_usize(h@) == Some(resp.rate_limit_requests_limit),
            },
            r matches Some(resp) ==> match remaining_header {
                None => resp.rate_limit_remaining == 0,
                Some(h) => decimal_usize(h@) == Some(resp.rate_limit_remaining),
            },
    {
        let remaining = rate_limit_from_header(remaining_header);
        let allowed = rate_limit_from_header(requests_limit_header);
        let text = str_from_utf8(body);
        match (remaining, allowed, text) {
            (Some(remaining), Some(allowed), Some(text)) => {
                proof {
                    encode_utf8_decode_utf8(text@);
                }
                Some(Response::new(text.to_owned(), allowed, remaining))
            },
            _ => None,
        }
    }
}

} // verus!
