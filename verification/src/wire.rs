//! Byte-exact printer and parser for the line-oriented JSON wire protocol.
//!
//! Commands go out as one CRLF-terminated line
//! `{"COMMAND":"<verb>","PARAMETERS":[<p0>,<p1>,...]}`; replies come back as
//! one line of either `{"STATUS_CODE":<code>,"STATUS_TEXT":"<text>"}` or
//! `{"C":<code>,"D":"<base64 frame>"}`.  Both reply shapes are instances of
//! one grammar `pre <decimal> mid <text> "}`, parsed strictly: a line parses
//! exactly when it is the printed form of some code and text.

use vstd::prelude::*;

use crate::responses::{JSONPayload, Status};

verus! {

// ---------------------------------------------------------------------------
// Decimal digits
// ---------------------------------------------------------------------------

pub open spec fn is_digit_byte(b: u8) -> bool {
    48 <= b <= 57
}

/// Canonical decimal digits of a non-negative integer, most significant
/// first, no leading zero (except for 0 itself).
pub open spec fn spec_decimal(n: int) -> Seq<u8>
    decreases n,
{
    if n < 10 {
        seq![(48 + if n >= 0 { n } else { 0 }) as u8]
    } else {
        spec_decimal(n / 10).push((48 + n % 10) as u8)
    }
}

/// Numeric value of a digit string, most significant first.
pub open spec fn decimal_value(s: Seq<u8>) -> int
    decreases s.len(),
{
    if s.len() == 0 {
        0
    } else {
        decimal_value(s.drop_last()) * 10 + (s.last() - 48)
    }
}

pub proof fn lemma_decimal_value_nonneg(s: Seq<u8>)
    requires
        forall|j: int| 0 <= j < s.len() ==> is_digit_byte(#[trigger] s[j]),
    ensures
        decimal_value(s) >= 0,
    decreases s.len(),
{
    if s.len() > 0 {
        lemma_decimal_value_nonneg(s.drop_last());
    }
}

/// Appending digits never shrinks the value.
pub proof fn lemma_decimal_value_prefix_le(s: Seq<u8>, i: int, j: int)
    requires
        0 <= i <= j <= s.len(),
        forall|k: int| 0 <= k < s.len() ==> is_digit_byte(#[trigger] s[k]),
    ensures
        decimal_value(s.subrange(0, i)) <= decimal_value(s.subrange(0, j)),
    decreases j - i,
{
    if i < j {
        lemma_decimal_value_prefix_le(s, i, j - 1);
        let sj = s.subrange(0, j);
        assert(sj.drop_last() =~= s.subrange(0, j - 1));
        lemma_decimal_value_nonneg(s.subrange(0, j - 1));
    }
}

/// The canonical digits of `n` evaluate back to `n`, are all digits, and
/// start with `0` only when `n` is 0.
pub proof fn lemma_decimal_roundtrip(n: int)
    requires
        n >= 0,
    ensures
        decimal_value(spec_decimal(n)) == n,
        spec_decimal(n).len() >= 1,
        forall|j: int|
            0 <= j < spec_decimal(n).len() ==> is_digit_byte(#[trigger] spec_decimal(n)[j]),
        spec_decimal(n)[0] == 48 ==> n == 0,
    decreases n,
{
    if n < 10 {
        let s = spec_decimal(n);
        assert(s.drop_last() =~= Seq::<u8>::empty());
        assert(decimal_value(Seq::<u8>::empty()) == 0);
        assert(s.last() == (48 + n) as u8);
        assert((48 + n) as u8 == 48 + n);
    } else {
        lemma_decimal_roundtrip(n / 10);
        let s = spec_decimal(n);
        assert(s.drop_last() =~= spec_decimal(n / 10));
        assert(s.last() == (48 + n % 10) as u8);
        assert((48 + n % 10) as u8 == 48 + n % 10);
        assert(n / 10 * 10 + n % 10 == n);
        assert(s[0] == spec_decimal(n / 10)[0]);
    }
}

// ---------------------------------------------------------------------------
// Scanning helpers of the strict parser
// ---------------------------------------------------------------------------

/// Index just past the digit run starting at `i`.
pub open spec fn digits_end(s: Seq<u8>, i: int) -> int
    recommends
        0 <= i <= s.len(),
    decreases s.len() - i,
{
    if i < s.len() && is_digit_byte(s[i]) {
        digits_end(s, i + 1)
    } else {
        i
    }
}

pub proof fn lemma_digits_end_is(s: Seq<u8>, i: int, k: int)
    requires
        0 <= i <= k <= s.len(),
        forall|j: int| i <= j < k ==> is_digit_byte(#[trigger] s[j]),
        k == s.len() || !is_digit_byte(s[k]),
    ensures
        digits_end(s, i) == k,
    decreases k - i,
{
    if i < k {
        lemma_digits_end_is(s, i + 1, k);
    }
}

/// Index of the first `"` at or after `i`, or the length if there is none.
pub open spec fn quote_end(s: Seq<u8>, i: int) -> int
    recommends
        0 <= i <= s.len(),
    decreases s.len() - i,
{
    if i < s.len() && s[i] != 34 {
        quote_end(s, i + 1)
    } else {
        i
    }
}

pub proof fn lemma_quote_end_is(s: Seq<u8>, i: int, k: int)
    requires
        0 <= i <= k <= s.len(),
        forall|j: int| i <= j < k ==> #[trigger] s[j] != 34,
        k == s.len() || s[k] == 34,
    ensures
        quote_end(s, i) == k,
    decreases k - i,
{
    if i < k {
        lemma_quote_end_is(s, i + 1, k);
    }
}

// ---------------------------------------------------------------------------
// The reply grammar: printing and strict parsing
// ---------------------------------------------------------------------------

/// The printed form `pre <decimal code> mid <text> "}`.
pub open spec fn spec_reply_line(pre: Seq<u8>, code: u32, mid: Seq<u8>, text: Seq<u8>) -> Seq<u8> {
    pre + spec_decimal(code as int) + mid + text + seq![34u8, 125u8]
}

/// Strict parse of `pre <decimal> mid <text> "}`: the decimal must be
/// canonical (no leading zero) and fit in a `u32`, and the text runs to the
/// first `"`.  Returns the code and the text.
pub open spec fn spec_parse_reply(s: Seq<u8>, pre: Seq<u8>, mid: Seq<u8>) -> Option<(u32, Seq<u8>)> {
    let p = pre.len() as int;
    if s.len() < p || s.subrange(0, p) != pre {
        None
    } else {
        let de = digits_end(s, p);
        if de == p {
            None
        } else if s[p] == 48 && de > p + 1 {
            None
        } else {
            let v = decimal_value(s.subrange(p, de));
            if v > 0xFFFF_FFFF {
                None
            } else if s.len() - de < mid.len() || s.subrange(de, de + mid.len()) != mid {
                None
            } else {
                let bs = de + mid.len();
                let be = quote_end(s, bs);
                if be < s.len() && s.len() - be == 2 && s[be + 1] == 125 {
                    Some((v as u32, s.subrange(bs, be)))
                } else {
                    None
                }
            }
        }
    }
}

/// A text may stand inside the quotes of a reply only if it has no `"`.
pub open spec fn text_has_no_quote(text: Seq<u8>) -> bool {
    forall|j: int| 0 <= j < text.len() ==> #[trigger] text[j] != 34
}

/// Strict parsing inverts printing: a printed reply line parses back to
/// exactly its code and text.
pub proof fn lemma_parse_of_print(pre: Seq<u8>, code: u32, mid: Seq<u8>, text: Seq<u8>)
    requires
        mid.len() >= 1,
        !is_digit_byte(mid[0]),
        text_has_no_quote(text),
    ensures
        spec_parse_reply(spec_reply_line(pre, code, mid, text), pre, mid) == Some(
            (code, text),
        ),
{
    let s = spec_reply_line(pre, code, mid, text);
    let p = pre.len() as int;
    let d = spec_decimal(code as int);
    lemma_decimal_roundtrip(code as int);
    assert(s.subrange(0, p) =~= pre);
    let de = p + d.len();
    assert forall|j: int| p <= j < de implies is_digit_byte(#[trigger] s[j]) by {
        assert(s[j] == d[j - p]);
    }
    assert(s[de] == mid[0]);
    lemma_digits_end_is(s, p, de);
    assert(s.subrange(p, de) =~= d);
    assert(s[p] == d[0]);
    assert(s.subrange(de, de + mid.len()) =~= mid);
    let bs = de + mid.len();
    let be = bs + text.len();
    assert forall|j: int| bs <= j < be implies #[trigger] s[j] != 34 by {
        assert(s[j] == text[j - bs]);
    }
    assert(s[be] == 34);
    lemma_quote_end_is(s, bs, be);
    assert(s[be + 1] == 125);
    assert(s.len() - be == 2);
    assert(s.subrange(bs, be) =~= text);
}

// ---------------------------------------------------------------------------
// Fixed byte strings of the protocol
// ---------------------------------------------------------------------------

pub open spec fn status_pre() -> Seq<u8> {
    // {"STATUS_CODE":
    seq![
        123u8, 34u8, 83u8, 84u8, 65u8, 84u8, 85u8, 83u8, 95u8, 67u8, 79u8, 68u8, 69u8, 34u8, 58u8,
    ]
}

pub open spec fn status_mid() -> Seq<u8> {
    // ,"STATUS_TEXT":"
    seq![
        44u8, 34u8, 83u8, 84u8, 65u8, 84u8, 85u8, 83u8, 95u8, 84u8, 69u8, 88u8, 84u8, 34u8, 58u8,
        34u8,
    ]
}

pub open spec fn payload_pre() -> Seq<u8> {
    // {"C":
    seq![123u8, 34u8, 67u8, 34u8, 58u8]
}

pub open spec fn payload_mid() -> Seq<u8> {
    // ,"D":"
    seq![44u8, 34u8, 68u8, 34u8, 58u8, 34u8]
}

pub fn status_pre_vec() -> (r: Vec<u8>)
    ensures
        r@ == status_pre(),
{
    let mut v: Vec<u8> = Vec::new();
    v.push(123u8);
    v.push(34u8);
    v.push(83u8);
    v.push(84u8);
    v.push(65u8);
    v.push(84u8);
    v.push(85u8);
    v.push(83u8);
    v.push(95u8);
    v.push(67u8);
    v.push(79u8);
    v.push(68u8);
    v.push(69u8);
    v.push(34u8);
    v.push(58u8);
    assert(v@ =~= status_pre());
    v
}

pub fn status_mid_vec() -> (r: Vec<u8>)
    ensures
        r@ == status_mid(),
{
    let mut v: Vec<u8> = Vec::new();
    v.push(44u8);
    v.push(34u8);
    v.push(83u8);
    v.push(84u8);
    v.push(65u8);
    v.push(84u8);
    v.push(85u8);
    v.push(83u8);
    v.push(95u8);
    v.push(84u8);
    v.push(69u8);
    v.push(88u8);
    v.push(84u8);
    v.push(34u8);
    v.push(58u8);
    v.push(34u8);
    assert(v@ =~= status_mid());
    v
}

pub fn payload_pre_vec() -> (r: Vec<u8>)
    ensures
        r@ == payload_pre(),
{
    let mut v: Vec<u8> = Vec::new();
    v.push(123u8);
    v.push(34u8);
    v.push(67u8);
    v.push(34u8);
    v.push(58u8);
    assert(v@ =~= payload_pre());
    v
}

pub fn payload_mid_vec() -> (r: Vec<u8>)
    ensures
        r@ == payload_mid(),
{
    let mut v: Vec<u8> = Vec::new();
    v.push(44u8);
    v.push(34u8);
    v.push(68u8);
    v.push(34u8);
    v.push(58u8);
    v.push(34u8);
    assert(v@ =~= payload_mid());
    v
}

// ---------------------------------------------------------------------------
// Executable strict parser
// ---------------------------------------------------------------------------

fn is_digit_exec(b: u8) -> (r: bool)
    ensures
        r == is_digit_byte(b),
{
    48 <= b && b <= 57
}

/// Parses one reply line of the shape `pre <decimal> mid <text> "}`.
/// Returns `Some((code, text))` exactly when the line is the printed form of
/// that code and text.
#[verifier::loop_isolation(false)]
pub fn parse_reply(line: &Vec<u8>, pre: &Vec<u8>, mid: &Vec<u8>) -> (r: Option<(u32, Vec<u8>)>)
    ensures
        r is Some <==> spec_parse_reply(line@, pre@, mid@) is Some,
        r matches Some(cd) ==> spec_parse_reply(line@, pre@, mid@) == Some(
            (cd.0, cd.1@),
        ),
{
    let ghost s = line@;
    let n = line.len();
    let p = pre.len();
    if n < p {
        return None;
    }
    // prefix
    let mut i: usize = 0;
    while i < p
        invariant
            0 <= i <= p <= n,
            n == s.len(),
            p == pre@.len(),
            s == line@,
            forall|j: int| 0 <= j < i ==> s[j] == pre@[j],
        decreases p - i,
    {
        if line[i] != pre[i] {
            assert(s.subrange(0, p as int)[i as int] != pre@[i as int]);
            return None;
        }
        i += 1;
    }
    assert(s.subrange(0, p as int) =~= pre@);
    // digit run
    let mut de: usize = p;
    while de < n && is_digit_exec(line[de])
        invariant
            p <= de <= n,
            n == s.len(),
            s == line@,
            forall|j: int| p <= j < de ==> is_digit_byte(#[trigger] s[j]),
        decreases n - de,
    {
        de += 1;
    }
    proof {
        lemma_digits_end_is(s, p as int, de as int);
    }
    if de == p {
        return None;
    }
    if line[p] == 48 && de > p + 1 {
        return None;
    }
    // numeric value, rejecting overflow past u32 as soon as it appears
    proof {
        assert(s.subrange(p as int, p as int) =~= Seq::<u8>::empty());
        assert(decimal_value(Seq::<u8>::empty()) == 0);
    }
    let mut acc: u64 = 0;
    let mut j: usize = p;
    while j < de
        invariant
            p <= j <= de <= n,
            n == s.len(),
            s == line@,
            forall|k: int| p <= k < de ==> is_digit_byte(#[trigger] s[k]),
            acc == decimal_value(s.subrange(p as int, j as int)),
            acc <= 0xFFFF_FFFF,
        decreases de - j,
    {
        let d = line[j];
        proof {
            assert(s.subrange(p as int, j as int + 1).drop_last() =~= s.subrange(
                p as int,
                j as int,
            ));
            assert(s.subrange(p as int, j as int + 1).last() == d);
            assert(decimal_value(s.subrange(p as int, j as int + 1)) == decimal_value(
                s.subrange(p as int, j as int + 1).drop_last(),
            ) * 10 + (s.subrange(p as int, j as int + 1).last() - 48));
        }
        acc = acc * 10 + ((d - 48) as u64);
        j += 1;
        if acc > 0xFFFF_FFFF {
            proof {
                let run = s.subrange(p as int, de as int);
                assert forall|k: int| 0 <= k < run.len() implies is_digit_byte(
                    #[trigger] run[k],
                ) by {
                    assert(run[k] == s[p + k]);
                }
                lemma_decimal_value_prefix_le(run, j - p, de - p);
                assert(run.subrange(0, j - p) =~= s.subrange(p as int, j as int));
                assert(run.subrange(0, de - p) =~= run);
                assert(decimal_value(run) > 0xFFFF_FFFF);
            }
            return None;
        }
    }
    let code = acc as u32;
    proof {
        lemma_decimal_value_nonneg(s.subrange(p as int, de as int));
    }
    // mid
    let m = mid.len();
    if n - de < m {
        return None;
    }
    let mut i2: usize = 0;
    while i2 < m
        invariant
            0 <= i2 <= m,
            m == mid@.len(),
            de + m <= n,
            n == s.len(),
            s == line@,
            forall|j2: int| 0 <= j2 < i2 ==> s[de + j2] == mid@[j2],
        decreases m - i2,
    {
        if line[de + i2] != mid[i2] {
            assert(s.subrange(de as int, de as int + m)[i2 as int] != mid@[i2 as int]);
            return None;
        }
        i2 += 1;
    }
    assert(s.subrange(de as int, de as int + m) =~= mid@);
    let bs = de + m;
    // text run, up to the first quote
    let mut be: usize = bs;
    while be < n && line[be] != 34u8
        invariant
            bs <= be <= n,
            n == s.len(),
            s == line@,
            forall|j2: int| bs <= j2 < be ==> #[trigger] s[j2] != 34,
        decreases n - be,
    {
        be += 1;
    }
    proof {
        lemma_quote_end_is(s, bs as int, be as int);
    }
    if be >= n {
        return None;
    }
    if n - be != 2 {
        return None;
    }
    if line[be + 1] != 125u8 {
        return None;
    }
    let mut text: Vec<u8> = Vec::new();
    let mut k: usize = bs;
    while k < be
        invariant
            bs <= k <= be <= n,
            n == s.len(),
            s == line@,
            text@ == s.subrange(bs as int, k as int),
        decreases be - k,
    {
        let b = line[k];
        text.push(b);
        proof {
            assert(text@ =~= s.subrange(bs as int, k as int + 1));
        }
        k += 1;
    }
    assert(text@ == s.subrange(bs as int, be as int));
    Some((code, text))
}

// ---------------------------------------------------------------------------
// Reply-specific views
// ---------------------------------------------------------------------------

/// Strict parse of a status reply line.
pub open spec fn spec_parse_status(s: Seq<u8>) -> Option<(u32, Seq<u8>)> {
    spec_parse_reply(s, status_pre(), status_mid())
}

/// Strict parse of a streamed-sample payload line.
pub open spec fn spec_parse_payload(s: Seq<u8>) -> Option<(u32, Seq<u8>)> {
    spec_parse_reply(s, payload_pre(), payload_mid())
}

/// Parses `{"STATUS_CODE":<code>,"STATUS_TEXT":"<text>"}`.
pub fn parse_status_line(line: &Vec<u8>) -> (r: Option<Status>)
    ensures
        r is Some <==> spec_parse_status(line@) is Some,
        r matches Some(st) ==> spec_parse_status(line@) == Some(
            (st.status_code, st.status_text@),
        ),
{
    let pre = status_pre_vec();
    let mid = status_mid_vec();
    match parse_reply(line, &pre, &mid) {
        Some((code, text)) => Some(Status { status_code: code, status_text: text }),
        None => None,
    }
}

/// Parses `{"C":<code>,"D":"<base64 frame>"}`.
pub fn parse_payload_line(line: &Vec<u8>) -> (r: Option<JSONPayload>)
    ensures
        r is Some <==> spec_parse_payload(line@) is Some,
        r matches Some(pl) ==> spec_parse_payload(line@) == Some((pl.code, pl.data@)),
{
    let pre = payload_pre_vec();
    let mid = payload_mid_vec();
    match parse_reply(line, &pre, &mid) {
        Some((code, data)) => Some(JSONPayload { code, data }),
        None => None,
    }
}

// ---------------------------------------------------------------------------
// End-of-line trimming
// ---------------------------------------------------------------------------

/// The line with any trailing carriage returns and newlines removed.
pub open spec fn spec_trim_eol(s: Seq<u8>) -> Seq<u8>
    decreases s.len(),
{
    if s.len() > 0 && (s.last() == 10 || s.last() == 13) {
        spec_trim_eol(s.drop_last())
    } else {
        s
    }
}

/// Removes trailing `\r` and `\n` bytes in place.
pub fn trim_eol(line: &mut Vec<u8>)
    ensures
        final(line)@ == spec_trim_eol(old(line)@),
{
    loop
        invariant
            spec_trim_eol(line@) == spec_trim_eol(old(line)@),
        decreases line@.len(),
    {
        let n = line.len();
        if n == 0 {
            return;
        }
        let b = line[n - 1];
        if b == 10u8 || b == 13u8 {
            line.pop();
        } else {
            return;
        }
    }
}

} // verus!
