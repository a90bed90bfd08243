//! One capture attempt's fetch logic: the cache-busting request URL and the
//! classification of the transport's outcome into bytes or a typed failure.
//! The HTTP exchange itself is the host's; this module decides what to
//! request and what the answer means.

use vstd::prelude::*;
use vstd::string::StringExecFns;
use crate::digest::hex_digit;
use crate::digest::hex_digit_char;

verus! {

/// Relies on `alloc::string::String::push`: appends exactly the one
/// character to the end of the string.
pub assume_specification[ String::push ](s: &mut String, c: char)
    ensures
        final(s)@ == old(s)@ + seq![c],
;

/// Why a single fetch attempt failed.
#[derive(Clone, Copy, PartialEq, Eq, Structural, Debug)]
pub enum FetchError {
    /// The server answered with a non-2xx HTTP status.
    BadStatus(u16),
    /// A transport-level failure (DNS, timeout, connection reset): no HTTP
    /// response was received at all.
    Transport,
}

/// What the transport reports for one HTTP exchange: a response with its
/// status code and body bytes, or a transport-level failure.
pub enum Exchange {
    /// An HTTP response arrived, whatever its status.
    Response(u16, Vec<u8>),
    /// No response: the exchange failed below HTTP.
    Failed,
}

/// An HTTP status code that counts as success.
pub open spec fn is_success_status(code: u16) -> bool {
    200 <= code < 300
}

/// Turn one transport outcome into the attempt's result: the body bytes for
/// a 2xx response, `BadStatus` for any other response, `Transport` when no
/// response arrived.
pub fn classify_exchange(x: Exchange) -> (r: Result<Vec<u8>, FetchError>)
    ensures
        match x {
            Exchange::Response(code, body) => {
                &&& is_success_status(code) ==> (r matches Ok(b) && b == body)
                &&& !is_success_status(code) ==> r == Err::<Vec<u8>, FetchError>(
                    FetchError::BadStatus(code),
                )
            },
            Exchange::Failed => r == Err::<Vec<u8>, FetchError>(FetchError::Transport),
        },
{
    match x {
        Exchange::Response(code, body) => {
            if 200 <= code && code < 300 {
                Ok(body)
            } else {
                Err(FetchError::BadStatus(code))
            }
        },
        Exchange::Failed => Err(FetchError::Transport),
    }
}

/// The decimal digit characters of `n`, most significant first, with no
/// leading zero except for `n == 0` itself.
pub open spec fn dec_chars_of(n: nat) -> Seq<char>
    decreases n,
{
    if n < 10 {
        seq![hex_digit_char(n as u8)]
    } else {
        dec_chars_of(n / 10) + seq![hex_digit_char((n % 10) as u8)]
    }
}

/// Format `n` in decimal.
pub fn u64_to_dec(n: u64) -> (r: String)
    ensures
        r@ == dec_chars_of(n as nat),
{
    let mut digits: Vec<char> = Vec::new();
    let mut m: u64 = n;
    proof {
        assert(dec_chars_of(n as nat) =~= dec_chars_of(n as nat) + digits@.reverse());
    }
    loop
        invariant_except_break
            dec_chars_of(n as nat) == dec_chars_of(m as nat) + digits@.reverse(),
        ensures
            dec_chars_of(n as nat) == digits@.reverse(),
        decreases m,
    {
        let ghost pre = digits@;
        let d = (m % 10) as u8;
        digits.push(hex_digit(d));
        proof {
            assert(pre.push(hex_digit_char(d)).reverse() =~= seq![hex_digit_char(d)]
                + pre.reverse());
            if m >= 10 {
                assert(dec_chars_of(m as nat) == dec_chars_of((m as nat) / 10) + seq![
                    hex_digit_char(((m as nat) % 10) as u8),
                ]);
                assert((m / 10) as nat == (m as nat) / 10);
                assert(dec_chars_of(n as nat) =~= dec_chars_of((m / 10) as nat)
                    + digits@.reverse());
            } else {
                assert(dec_chars_of(m as nat) =~= seq![hex_digit_char(d)]);
                assert(dec_chars_of(n as nat) =~= digits@.reverse());
            }
        }
        m = m / 10;
        if m == 0 {
            break ;
        }
    }
    let mut s = String::new();
    let mut i: usize = digits.len();
    while i > 0
        invariant
            i <= digits@.len(),
            s@ == digits@.reverse().subrange(0, digits@.len() - i),
        decreases i,
    {
        i = i - 1;
        let c = digits[i];
        proof {
            let rev = digits@.reverse();
            let k = digits@.len() - i - 1;
            assert(rev[k as int] == c);
            assert(rev.subrange(0, k + 1) =~= rev.subrange(0, k as int).push(c));
            assert(rev.subrange(0, k as int).push(c) =~= rev.subrange(0, k as int) + seq![c]);
        }
        s.push(c);
    }
    proof {
        assert(digits@.reverse().subrange(0, digits@.len() as int) =~= digits@.reverse());
    }
    s
}

/// The URL one capture attempt requests: the source URL with the current
/// epoch-seconds value appended as a throwaway query string, so that no
/// intermediate cache can answer two attempts alike.
pub fn cache_busted_url(url: &str, epoch_secs: u64) -> (r: String)
    ensures
        r@ == url@ + "?"@ + dec_chars_of(epoch_secs as nat),
{
    let mut u = url.to_owned();
    u.append("?");
    let ts = u64_to_dec(epoch_secs);
    u.append(ts.as_str());
    u
}

} // verus!
