//! Three-way classification of provider errors.
//!
//! The fetch engine inspects the text of each failed request and picks
//! one of three recovery policies.  Matching is heuristic (substring
//! tests against known provider phrases) and case-insensitive over the
//! ASCII range.

use vstd::prelude::*;
use vstd::string::StringSliceAdditionalSpecFns;

verus! {

/// Broad classification of provider errors, each with its own recovery
/// policy in the fetch engine.
#[derive(Debug, Clone, Copy, PartialEq, Eq, Structural)]
pub enum RpcErrorKind {
    /// The requested block range exceeds the provider's limit.
    RangeTooLarge,
    /// The provider signalled throttling.
    RateLimited,
    /// Timeout, connection reset, or any other unclassified issue.
    Transient,
}

/// ASCII lower-casing of one byte; other bytes pass through.
pub open spec fn ascii_lower_byte(b: u8) -> u8 {
    if 65 <= b <= 90 {
        (b + 32) as u8
    } else {
        b
    }
}

/// ASCII lower-casing of a byte sequence.
pub open spec fn lower_bytes(s: Seq<u8>) -> Seq<u8> {
    s.map_values(|b: u8| ascii_lower_byte(b))
}

/// `needle` occurs in `hay` starting at position `i`.
pub open spec fn match_at(hay: Seq<u8>, needle: Seq<u8>, i: int) -> bool {
    &&& 0 <= i
    &&& i + needle.len() <= hay.len()
    &&& forall|j: int| 0 <= j < needle.len() ==> hay[i + j] == needle[j]
}

/// `needle` occurs somewhere in `hay`.
pub open spec fn contains_sub(hay: Seq<u8>, needle: Seq<u8>) -> bool {
    exists|i: int| match_at(hay, needle, i)
}

/// The lowered message matches one of the known range-limit phrases.
pub open spec fn is_range_message(low: Seq<u8>) -> bool {
    ||| contains_sub(low, "block range".spec_bytes())
    ||| contains_sub(low, "range too large".spec_bytes())
    ||| (contains_sub(low, "exceed".spec_bytes()) && contains_sub(low, "block".spec_bytes()))
    ||| contains_sub(low, "max range".spec_bytes())
    ||| contains_sub(low, "query returned more than".spec_bytes())
    ||| contains_sub(low, "log response size exceeded".spec_bytes())
    ||| (contains_sub(low, "eth_getlogs".spec_bytes()) && contains_sub(low, "limit".spec_bytes()))
}

/// The lowered message matches one of the known rate-limit phrases.
pub open spec fn is_rate_limit_message(low: Seq<u8>) -> bool {
    ||| contains_sub(low, "429".spec_bytes())
    ||| contains_sub(low, "rate limit".spec_bytes())
    ||| contains_sub(low, "too many request".spec_bytes())
    ||| contains_sub(low, "throttl".spec_bytes())
    ||| contains_sub(low, "backoff".spec_bytes())
    ||| contains_sub(low, "capacity".spec_bytes())
}

/// Classification of a raw error message: range-limit phrases win over
/// rate-limit phrases; everything else is transient.
pub open spec fn classify_spec(msg: Seq<u8>) -> RpcErrorKind {
    let low = lower_bytes(msg);
    if is_range_message(low) {
        RpcErrorKind::RangeTooLarge
    } else if is_rate_limit_message(low) {
        RpcErrorKind::RateLimited
    } else {
        RpcErrorKind::Transient
    }
}

/// ASCII lower-casing of a byte vector.
fn lower_ascii(msg: &Vec<u8>) -> (r: Vec<u8>)
    ensures
        r@ == lower_bytes(msg@),
{
    let mut out: Vec<u8> = Vec::new();
    let mut i: usize = 0;
    while i < msg.len()
        invariant
            i <= msg@.len(),
            out@ == lower_bytes(msg@.subrange(0, i as int)),
        decreases msg@.len() - i,
    {
        let b = msg[i];
        if 65 <= b && b <= 90 {
            out.push(b + 32);
        } else {
            out.push(b);
        }
        i = i + 1;
        proof {
            assert(msg@.subrange(0, i as int).drop_last() =~= msg@.subrange(0, i - 1));
            assert(out@ =~= lower_bytes(msg@.subrange(0, i as int)));
        }
    }
    proof {
        assert(msg@.subrange(0, msg@.len() as int) =~= msg@);
    }
    out
}

/// Substring test: does `needle` occur anywhere in `hay`?
fn contains_pattern(hay: &Vec<u8>, needle: &[u8]) -> (r: bool)
    ensures
        r == contains_sub(hay@, needle@),
{
    let n = hay.len();
    let m = needle.len();
    if m > n {
        return false;
    }
    let mut i: usize = 0;
    while i <= n - m
        invariant
            m <= n == hay@.len(),
            m == needle@.len(),
            i <= n - m + 1,
            forall|k: int| 0 <= k < i ==> !match_at(hay@, needle@, k),
        decreases n - m + 1 - i,
    {
        let mut j: usize = 0;
        let mut alive = true;
        while alive && j < m
            invariant
                m <= n == hay@.len(),
                m == needle@.len(),
                i + m <= n,
                j <= m,
                alive ==> forall|j2: int| 0 <= j2 < j ==> hay@[i + j2] == needle@[j2],
                !alive ==> !match_at(hay@, needle@, i as int),
            decreases m - j + if alive { 1int } else { 0int },
        {
            if hay[i + j] != needle[j] {
                alive = false;
            } else {
                j = j + 1;
            }
        }
        if alive {
            assert(match_at(hay@, needle@, i as int));
            return true;
        }
        i = i + 1;
    }
    assert(forall|k: int| match_at(hay@, needle@, k) ==> 0 <= k <= n - m);
    false
}

/// Classify a provider error by its message text.
///
/// Lowers the message over the ASCII range, then tests it against the
/// known phrase lists: range-limit phrases first, then rate-limit
/// phrases; anything else is transient.
pub fn classify_error(msg: &Vec<u8>) -> (r: RpcErrorKind)
    ensures
        r == classify_spec(msg@),
{
    let low = lower_ascii(msg);
    if contains_pattern(&low, "block range".as_bytes())
        || contains_pattern(&low, "range too large".as_bytes())
        || (contains_pattern(&low, "exceed".as_bytes()) && contains_pattern(&low, "block".as_bytes()))
        || contains_pattern(&low, "max range".as_bytes())
        || contains_pattern(&low, "query returned more than".as_bytes())
        || contains_pattern(&low, "log response size exceeded".as_bytes())
        || (contains_pattern(&low, "eth_getlogs".as_bytes()) && contains_pattern(&low, "limit".as_bytes()))
    {
        return RpcErrorKind::RangeTooLarge;
    }
    if contains_pattern(&low, "429".as_bytes())
        || contains_pattern(&low, "rate limit".as_bytes())
        || contains_pattern(&low, "too many request".as_bytes())
        || contains_pattern(&low, "throttl".as_bytes())
        || contains_pattern(&low, "backoff".as_bytes())
        || contains_pattern(&low, "capacity".as_bytes())
    {
        return RpcErrorKind::RateLimited;
    }
    RpcErrorKind::Transient
}

} // verus!
