//! Per-chain sync cursor and its on-disk codec.
//!
//! The cursor records the last block through which every monitored
//! contract on a chain has been durably stored.  It is persisted as a
//! small JSON document with two unsigned decimal fields; the codec
//! here renders and parses that document exactly, so that a corrupt
//! file degrades to "never synced" instead of failing the run.

use vstd::prelude::*;

use crate::classify::match_at;

verus! {

/// Sync progress for a single chain: all logs for all monitored
/// contracts through `last_block` are durably stored.
#[derive(Debug, Clone, Copy, PartialEq, Eq, Structural)]
pub struct Cursor {
    /// The last fully-synced block number.
    pub last_block: u64,
    /// Unix timestamp (seconds) of the last successful sync.
    pub synced_at: u64,
}

/// Seconds since the Unix epoch, from the system clock.
///
/// Relies on std's `SystemTime`: `duration_since(UNIX_EPOCH)` measures
/// the wall clock; nothing is assumed about the value.
#[verifier::external_body]
fn now_unix_seconds() -> u64 {
    std::time::SystemTime::now()
        .duration_since(std::time::UNIX_EPOCH)
        .unwrap_or_default()
        .as_secs()
}

impl Cursor {
    /// A cursor at the given block, stamped with the current time.
    pub fn now(last_block: u64) -> (r: Self)
        ensures
            r.last_block == last_block,
    {
        Cursor { last_block, synced_at: now_unix_seconds() }
    }
}

/// ASCII whitespace, as JSON allows between tokens.
pub open spec fn is_ws(b: u8) -> bool {
    b == 32 || b == 9 || b == 10 || b == 13
}

/// An ASCII decimal digit.
pub open spec fn is_digit_byte(b: u8) -> bool {
    48 <= b <= 57
}

/// The decimal rendering of `n`, most significant digit first.
pub open spec fn dec_digits(n: nat) -> Seq<u8>
    decreases n,
{
    if n < 10 {
        seq![(48 + n) as u8]
    } else {
        dec_digits(n / 10).push((48 + n % 10) as u8)
    }
}

/// The value of a run of decimal digit bytes.
pub open spec fn dec_value(s: Seq<u8>) -> int
    decreases s.len(),
{
    if s.len() == 0 {
        0
    } else {
        dec_value(s.drop_last()) * 10 + (s.last() - 48)
    }
}

/// The bytes of `"last_block"`, the first key with its quotes.
pub open spec fn first_key_token() -> Seq<u8> {
    seq![34u8, 108, 97, 115, 116, 95, 98, 108, 111, 99, 107, 34]
}

/// The bytes of `"synced_at"`, the second key with its quotes.
pub open spec fn second_key_token() -> Seq<u8> {
    seq![34u8, 115, 121, 110, 99, 101, 100, 95, 97, 116, 34]
}

/// The bytes of `{"last_block":`, the canonical document head.
pub open spec fn head_token() -> Seq<u8> {
    seq![123u8] + first_key_token() + seq![58u8]
}

/// The bytes of `,"synced_at":`, the canonical separator before the
/// second field.
pub open spec fn mid_token() -> Seq<u8> {
    seq![44u8] + second_key_token() + seq![58u8]
}

/// The canonical document for a cursor:
/// `{"last_block":<n>,"synced_at":<m>}`.
pub open spec fn cursor_json(c: Cursor) -> Seq<u8> {
    head_token() + dec_digits(c.last_block as nat) + mid_token() + dec_digits(c.synced_at as nat)
        + seq![125u8]
}

/// The first position at or after `i` that holds no whitespace.
pub open spec fn skip_ws(s: Seq<u8>, i: int) -> int
    decreases s.len() - i,
{
    if 0 <= i < s.len() && is_ws(s[i]) {
        skip_ws(s, i + 1)
    } else {
        i
    }
}

/// The first position at or after `i` that holds no decimal digit.
pub open spec fn digit_run_end(s: Seq<u8>, i: int) -> int
    decreases s.len() - i,
{
    if 0 <= i < s.len() && is_digit_byte(s[i]) {
        digit_run_end(s, i + 1)
    } else {
        i
    }
}

/// The number starting at `i`: the digit run there, rejected when it
/// is empty or its value does not fit in 64 bits.  Returns the value
/// and the position after the run.
pub open spec fn number_at(s: Seq<u8>, i: int) -> Option<(u64, int)> {
    let j = digit_run_end(s, i);
    if j == i {
        None
    } else {
        let v = dec_value(s.subrange(i, j));
        if v > u64::MAX {
            None
        } else {
            Some((v as u64, j))
        }
    }
}

/// The position after `tok`, when `tok` occurs at `i`.
pub open spec fn token_at(s: Seq<u8>, i: int, tok: Seq<u8>) -> Option<int> {
    if match_at(s, tok, i) {
        Some(i + tok.len())
    } else {
        None
    }
}

/// The cursor a document denotes: an object with the two fields in
/// their canonical order, any amount of whitespace between tokens,
/// and nothing else in the document.  `None` for anything that does
/// not parse.
pub open spec fn parse_cursor_spec(s: Seq<u8>) -> Option<Cursor> {
    match token_at(s, skip_ws(s, 0), seq![123u8]) {
        None => None,
        Some(p1) => match token_at(s, skip_ws(s, p1), first_key_token()) {
            None => None,
            Some(p2) => match token_at(s, skip_ws(s, p2), seq![58u8]) {
                None => None,
                Some(p3) => match number_at(s, skip_ws(s, p3)) {
                    None => None,
                    Some((last_block, p4)) => match token_at(s, skip_ws(s, p4), seq![44u8]) {
                        None => None,
                        Some(p5) => match token_at(s, skip_ws(s, p5), second_key_token()) {
                            None => None,
                            Some(p6) => match token_at(s, skip_ws(s, p6), seq![58u8]) {
                                None => None,
                                Some(p7) => match number_at(s, skip_ws(s, p7)) {
                                    None => None,
                                    Some((synced_at, p8)) => match token_at(
                                        s,
                                        skip_ws(s, p8),
                                        seq![125u8],
                                    ) {
                                        None => None,
                                        Some(p9) => {
                                            if skip_ws(s, p9) == s.len() {
                                                Some(Cursor { last_block, synced_at })
                                            } else {
                                                None
                                            }
                                        },
                                    },
                                },
                            },
                        },
                    },
                },
            },
        },
    }
}

/// The decimal rendering of `n`, as bytes.
pub fn u64_to_dec(n: u64) -> (r: Vec<u8>)
    ensures
        r@ == dec_digits(n as nat),
    decreases n,
{
    if n < 10 {
        let mut v: Vec<u8> = Vec::new();
        v.push(48 + (n as u8));
        proof {
            assert(v@ =~= dec_digits(n as nat));
        }
        v
    } else {
        let mut v = u64_to_dec(n / 10);
        v.push(48 + ((n % 10) as u8));
        v
    }
}

/// The bytes of the document head, `{"last_block":`.
fn head_token_bytes() -> (r: Vec<u8>)
    ensures
        r@ == head_token(),
{
    let mut v: Vec<u8> = Vec::new();
    v.push(123);
    v.push(34);
    v.push(108);
    v.push(97);
    v.push(115);
    v.push(116);
    v.push(95);
    v.push(98);
    v.push(108);
    v.push(111);
    v.push(99);
    v.push(107);
    v.push(34);
    v.push(58);
    proof {
        assert(v@ =~= head_token());
    }
    v
}

/// The bytes of the field separator, `,"synced_at":`.
fn mid_token_bytes() -> (r: Vec<u8>)
    ensures
        r@ == mid_token(),
{
    let mut v: Vec<u8> = Vec::new();
    v.push(44);
    v.push(34);
    v.push(115);
    v.push(121);
    v.push(110);
    v.push(99);
    v.push(101);
    v.push(100);
    v.push(95);
    v.push(97);
    v.push(116);
    v.push(34);
    v.push(58);
    proof {
        assert(v@ =~= mid_token());
    }
    v
}

/// Render a cursor as its canonical document.
pub fn render_cursor(c: &Cursor) -> (r: Vec<u8>)
    ensures
        r@ == cursor_json(*c),
{
    let mut out = head_token_bytes();
    let mut d1 = u64_to_dec(c.last_block);
    out.append(&mut d1);
    let mut mid = mid_token_bytes();
    out.append(&mut mid);
    let mut d2 = u64_to_dec(c.synced_at);
    out.append(&mut d2);
    out.push(125);
    proof {
        assert(out@ =~= cursor_json(*c));
    }
    out
}

/// Everything before a digit run's end is a digit, and the end stays
/// within bounds.
proof fn lemma_digit_run_digits(s: Seq<u8>, i: int)
    requires
        0 <= i <= s.len(),
    ensures
        i <= digit_run_end(s, i) <= s.len(),
        forall|k: int| i <= k < digit_run_end(s, i) ==> is_digit_byte(#[trigger] s[k]),
    decreases s.len() - i,
{
    if i < s.len() && is_digit_byte(s[i]) {
        lemma_digit_run_digits(s, i + 1);
    }
}

/// A digit run ends exactly at the first non-digit position.
proof fn lemma_digit_run_end_is(s: Seq<u8>, i: int, j: int)
    requires
        0 <= i <= j <= s.len(),
        forall|k: int| i <= k < j ==> is_digit_byte(#[trigger] s[k]),
        j == s.len() || !is_digit_byte(s[j]),
    ensures
        digit_run_end(s, i) == j,
    decreases j - i,
{
    if i < j {
        lemma_digit_run_end_is(s, i + 1, j);
    }
}

/// The value of a digit run is never negative.
proof fn lemma_dec_value_nonneg(s: Seq<u8>)
    requires
        forall|k: int| 0 <= k < s.len() ==> is_digit_byte(#[trigger] s[k]),
    ensures
        dec_value(s) >= 0,
    decreases s.len(),
{
    if s.len() > 0 {
        assert(forall|k: int|
            0 <= k < s.drop_last().len() ==> is_digit_byte(#[trigger] s.drop_last()[k]));
        lemma_dec_value_nonneg(s.drop_last());
    }
}

/// Extending a digit run never lowers its value.
proof fn lemma_dec_value_monotone(s: Seq<u8>, i: int, j1: int, j2: int)
    requires
        0 <= i <= j1 <= j2 <= s.len(),
        forall|k: int| i <= k < j2 ==> is_digit_byte(#[trigger] s[k]),
    ensures
        dec_value(s.subrange(i, j1)) <= dec_value(s.subrange(i, j2)),
    decreases j2 - j1,
{
    if j1 < j2 {
        lemma_dec_value_monotone(s, i, j1, j2 - 1);
        let t = s.subrange(i, j2);
        assert(t.drop_last() =~= s.subrange(i, j2 - 1));
        assert(forall|k: int|
            0 <= k < s.subrange(i, j2 - 1).len()
                ==> is_digit_byte(#[trigger] s.subrange(i, j2 - 1)[k]));
        lemma_dec_value_nonneg(s.subrange(i, j2 - 1));
    }
}

/// The decimal rendering consists of digits only, at least one.
pub proof fn lemma_dec_digits_digits(n: nat)
    ensures
        dec_digits(n).len() >= 1,
        forall|k: int| 0 <= k < dec_digits(n).len() ==> is_digit_byte(#[trigger] dec_digits(n)[k]),
    decreases n,
{
    if n >= 10 {
        lemma_dec_digits_digits(n / 10);
    }
}

/// The decimal rendering evaluates back to the number it renders.
proof fn lemma_dec_value_dec_digits(n: nat)
    ensures
        dec_value(dec_digits(n)) == n,
    decreases n,
{
    let d = dec_digits(n);
    if n < 10 {
        assert(d.len() == 1);
        assert(d.last() == (48 + n) as u8);
        assert(d.drop_last() =~= Seq::<u8>::empty());
        assert(dec_value(d.drop_last()) == 0);
        assert(dec_value(d) == 0 * 10 + (((48 + n) as u8) - 48));
    } else {
        lemma_dec_value_dec_digits(n / 10);
        assert(d.drop_last() =~= dec_digits(n / 10));
        assert(dec_value(d) == (n / 10) * 10 + ((48 + n % 10) - 48));
    }
}

/// The first position at or after `start` that holds no whitespace.
fn skip_ws_exec(s: &Vec<u8>, start: usize) -> (r: usize)
    requires
        start <= s@.len(),
    ensures
        r == skip_ws(s@, start as int),
        start <= r <= s@.len(),
{
    let mut i = start;
    loop
        invariant_except_break
            start <= i <= s@.len(),
            skip_ws(s@, start as int) == skip_ws(s@, i as int),
        ensures
            i == skip_ws(s@, start as int),
            start <= i <= s@.len(),
        decreases s@.len() - i,
    {
        if i >= s.len() {
            break;
        }
        let b = s[i];
        if !(b == 32 || b == 9 || b == 10 || b == 13) {
            break;
        }
        i = i + 1;
    }
    i
}

/// The position after `tok`, when `tok` occurs at `i`; `None` when it
/// does not.
fn expect_token(s: &Vec<u8>, i: usize, tok: &Vec<u8>) -> (r: Option<usize>)
    requires
        i <= s@.len(),
    ensures
        match r {
            Some(p) => token_at(s@, i as int, tok@) == Some(p as int) && i <= p <= s@.len(),
            None => token_at(s@, i as int, tok@) is None,
        },
{
    let m = tok.len();
    let n = s.len();
    if m > n - i {
        assert(!match_at(s@, tok@, i as int));
        return None;
    }
    let mut j: usize = 0;
    let mut alive = true;
    while alive && j < m
        invariant
            i + m <= n == s@.len(),
            m == tok@.len(),
            j <= m,
            alive ==> forall|j2: int| 0 <= j2 < j ==> s@[i + j2] == tok@[j2],
            !alive ==> !match_at(s@, tok@, i as int),
        decreases m - j + if alive { 1int } else { 0int },
    {
        if s[i + j] != tok[j] {
            alive = false;
        } else {
            j = j + 1;
        }
    }
    if alive {
        assert(match_at(s@, tok@, i as int));
        Some(i + m)
    } else {
        None
    }
}

/// The number starting at `start`: its value and the position after
/// its digits, or `None` when no digit stands there or the value does
/// not fit in 64 bits.
fn number_at_exec(s: &Vec<u8>, start: usize) -> (r: Option<(u64, usize)>)
    requires
        start <= s@.len(),
    ensures
        match r {
            Some((v, p)) => number_at(s@, start as int) == Some((v, p as int)) && start < p
                <= s@.len(),
            None => number_at(s@, start as int) is None,
        },
{
    proof {
        lemma_digit_run_digits(s@, start as int);
    }
    // Find the end of the digit run.
    let mut j = start;
    loop
        invariant_except_break
            start <= j <= s@.len(),
            digit_run_end(s@, start as int) == digit_run_end(s@, j as int),
        ensures
            j == digit_run_end(s@, start as int),
            start <= j <= s@.len(),
        decreases s@.len() - j,
    {
        if j >= s.len() {
            break;
        }
        let b = s[j];
        if !(48 <= b && b <= 57) {
            break;
        }
        j = j + 1;
    }
    if j == start {
        return None;
    }
    // Accumulate the value, rejecting overflow.
    let mut acc: u64 = 0;
    let mut i = start;
    while i < j
        invariant
            start <= i <= j <= s@.len(),
            j == digit_run_end(s@, start as int),
            forall|k: int| start <= k < j ==> is_digit_byte(#[trigger] s@[k]),
            acc == dec_value(s@.subrange(start as int, i as int)),
        decreases j - i,
    {
        let d = s[i] - 48;
        let d64 = d as u64;
        if acc > (u64::MAX - d64) / 10 {
            proof {
                assert(10 * acc + d64 > u64::MAX) by (nonlinear_arith)
                    requires
                        acc > (u64::MAX - d64) / 10,
                        d64 < 10,
                        acc >= 0,
                ;
                let t = s@.subrange(start as int, i + 1);
                assert(t.drop_last() =~= s@.subrange(start as int, i as int));
                assert(dec_value(t) == 10 * acc + d64);
                lemma_dec_value_monotone(s@, start as int, i + 1, j as int);
                assert(dec_value(s@.subrange(start as int, j as int)) > u64::MAX);
            }
            return None;
        }
        proof {
            assert(10 * acc + d64 <= u64::MAX) by (nonlinear_arith)
                requires
                    acc <= (u64::MAX - d64) / 10,
                    d64 < 10,
                    acc >= 0,
            ;
            let t = s@.subrange(start as int, i + 1);
            assert(t.drop_last() =~= s@.subrange(start as int, i as int));
        }
        acc = acc * 10 + d64;
        i = i + 1;
    }
    proof {
        assert(s@.subrange(start as int, j as int) =~= s@.subrange(start as int, i as int));
    }
    Some((acc, j))
}

/// Parse a cursor document (see [`parse_cursor_spec`] for the accepted
/// grammar).  Anything that does not parse — a corrupt or foreign file
/// — yields `None`, which callers treat as "never synced".
pub fn parse_cursor(s: &Vec<u8>) -> (r: Option<Cursor>)
    ensures
        r == parse_cursor_spec(s@),
{
    let open_brace = one_byte_token(123);
    let close_brace = one_byte_token(125);
    let colon = one_byte_token(58);
    let comma = one_byte_token(44);
    let key1 = first_key_bytes();
    let key2 = second_key_bytes();
    proof {
        assert(open_brace@ =~= seq![123u8]);
        assert(close_brace@ =~= seq![125u8]);
        assert(colon@ =~= seq![58u8]);
        assert(comma@ =~= seq![44u8]);
    }
    let p1 = match expect_token(s, skip_ws_exec(s, 0), &open_brace) {
        Some(p) => p,
        None => {
            return None;
        },
    };
    let p2 = match expect_token(s, skip_ws_exec(s, p1), &key1) {
        Some(p) => p,
        None => {
            return None;
        },
    };
    let p3 = match expect_token(s, skip_ws_exec(s, p2), &colon) {
        Some(p) => p,
        None => {
            return None;
        },
    };
    let (last_block, p4) = match number_at_exec(s, skip_ws_exec(s, p3)) {
        Some(x) => x,
        None => {
            return None;
        },
    };
    let p5 = match expect_token(s, skip_ws_exec(s, p4), &comma) {
        Some(p) => p,
        None => {
            return None;
        },
    };
    let p6 = match expect_token(s, skip_ws_exec(s, p5), &key2) {
        Some(p) => p,
        None => {
            return None;
        },
    };
    let p7 = match expect_token(s, skip_ws_exec(s, p6), &colon) {
        Some(p) => p,
        None => {
            return None;
        },
    };
    let (synced_at, p8) = match number_at_exec(s, skip_ws_exec(s, p7)) {
        Some(x) => x,
        None => {
            return None;
        },
    };
    let p9 = match expect_token(s, skip_ws_exec(s, p8), &close_brace) {
        Some(p) => p,
        None => {
            return None;
        },
    };
    if skip_ws_exec(s, p9) == s.len() {
        Some(Cursor { last_block, synced_at })
    } else {
        None
    }
}

/// A single punctuation token.
fn one_byte_token(b: u8) -> (r: Vec<u8>)
    ensures
        r@ =~= seq![b],
{
    let mut v: Vec<u8> = Vec::new();
    v.push(b);
    v
}

/// The bytes of the first key, `"last_block"`.
fn first_key_bytes() -> (r: Vec<u8>)
    ensures
        r@ == first_key_token(),
{
    let mut v: Vec<u8> = Vec::new();
    v.push(34);
    v.push(108);
    v.push(97);
    v.push(115);
    v.push(116);
    v.push(95);
    v.push(98);
    v.push(108);
    v.push(111);
    v.push(99);
    v.push(107);
    v.push(34);
    proof {
        assert(v@ =~= first_key_token());
    }
    v
}

/// The bytes of the second key, `"synced_at"`.
fn second_key_bytes() -> (r: Vec<u8>)
    ensures
        r@ == second_key_token(),
{
    let mut v: Vec<u8> = Vec::new();
    v.push(34);
    v.push(115);
    v.push(121);
    v.push(110);
    v.push(99);
    v.push(101);
    v.push(100);
    v.push(95);
    v.push(97);
    v.push(116);
    v.push(34);
    proof {
        assert(v@ =~= second_key_token());
    }
    v
}

/// Law: the codec round-trips — parsing a rendered cursor yields the
/// cursor back, for every cursor value.
#[verifier::rlimit(50)]
pub proof fn lemma_cursor_round_trip(c: Cursor)
    ensures
        parse_cursor_spec(cursor_json(c)) == Some(c),
{
    let s = cursor_json(c);
    let h = head_token();
    let d1 = dec_digits(c.last_block as nat);
    let m = mid_token();
    let d2 = dec_digits(c.synced_at as nat);
    lemma_dec_digits_digits(c.last_block as nat);
    lemma_dec_digits_digits(c.synced_at as nat);
    lemma_dec_value_dec_digits(c.last_block as nat);
    lemma_dec_value_dec_digits(c.synced_at as nat);
    let a1 = h.len() as int;
    let a2 = a1 + d1.len();
    let a3 = a2 + m.len();
    let a4 = a3 + d2.len();
    assert(s.len() == a4 + 1);
    assert(forall|k: int| 0 <= k < a1 ==> s[k] == h[k]);
    assert(forall|k: int| 0 <= k < d1.len() ==> s[a1 + k] == d1[k]);
    assert(forall|k: int| 0 <= k < m.len() ==> s[a2 + k] == m[k]);
    assert(forall|k: int| 0 <= k < d2.len() ==> s[a3 + k] == d2[k]);
    assert(s[a4] == 125);
    assert(h[0] == 123);
    assert(forall|k: int| 0 <= k < first_key_token().len() ==> h[1 + k] == first_key_token()[k]);
    assert(h[13] == 58);
    assert(m[0] == 44);
    assert(forall|k: int| 0 <= k < second_key_token().len() ==> m[1 + k] == second_key_token()[k]);
    assert(m[12] == 58);

    // `{` at 0, the first key at 1, `:` at 13.
    assert(s[0] == 123);
    assert(skip_ws(s, 0) == 0);
    assert(match_at(s, seq![123u8], 0));
    assert(token_at(s, 0, seq![123u8]) == Some(1int));
    assert(s[1] == 34);
    assert(skip_ws(s, 1) == 1);
    assert(match_at(s, first_key_token(), 1));
    assert(token_at(s, 1, first_key_token()) == Some(13int));
    assert(s[13] == 58);
    assert(skip_ws(s, 13) == 13);
    assert(match_at(s, seq![58u8], 13));
    assert(token_at(s, 13, seq![58u8]) == Some(a1));

    // The first number fills [a1, a2).
    assert(is_digit_byte(s[a1])) by {
        assert(s[a1] == d1[0]);
    }
    assert(skip_ws(s, a1) == a1);
    assert(forall|k: int| a1 <= k < a2 ==> is_digit_byte(#[trigger] s[k]));
    assert(s[a2] == 44);
    lemma_digit_run_end_is(s, a1, a2);
    assert(s.subrange(a1, a2) =~= d1);
    assert(number_at(s, a1) == Some((c.last_block, a2)));

    // `,` at a2, the second key after it, then `:`.
    assert(skip_ws(s, a2) == a2);
    assert(match_at(s, seq![44u8], a2));
    assert(token_at(s, a2, seq![44u8]) == Some(a2 + 1));
    assert(s[a2 + 1] == 34);
    assert(skip_ws(s, a2 + 1) == a2 + 1);
    assert(match_at(s, second_key_token(), a2 + 1));
    assert(token_at(s, a2 + 1, second_key_token()) == Some(a2 + 12));
    assert(s[a2 + 12] == 58);
    assert(skip_ws(s, a2 + 12) == a2 + 12);
    assert(match_at(s, seq![58u8], a2 + 12));
    assert(token_at(s, a2 + 12, seq![58u8]) == Some(a3));

    // The second number fills [a3, a4), then `}` closes the document.
    assert(is_digit_byte(s[a3])) by {
        assert(s[a3] == d2[0]);
    }
    assert(skip_ws(s, a3) == a3);
    assert(forall|k: int| a3 <= k < a4 ==> is_digit_byte(#[trigger] s[k]));
    assert(!is_digit_byte(s[a4]));
    lemma_digit_run_end_is(s, a3, a4);
    assert(s.subrange(a3, a4) =~= d2);
    assert(number_at(s, a3) == Some((c.synced_at, a4)));
    assert(skip_ws(s, a4) == a4);
    assert(match_at(s, seq![125u8], a4)) by {
        assert(seq![125u8][0] == 125);
    }
    assert(token_at(s, a4, seq![125u8]) == Some(a4 + 1));
    assert(skip_ws(s, a4 + 1) == s.len());
    assert(parse_cursor_spec(s) == Some(Cursor { last_block: c.last_block, synced_at: c.synced_at }));
}

} // verus!
