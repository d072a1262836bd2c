//! ASCII decimal text: what a run of digit bytes denotes, how a number is
//! rendered, and the executable conversions in both directions.

use vstd::prelude::*;

verus! {

/// The byte `+`.
pub const PLUS: u8 = 0x2b;

/// The byte `-`.
pub const MINUS: u8 = 0x2d;

/// The byte `0`.
pub const ZERO: u8 = 0x30;

/// Whether `b` is one of the bytes `0` to `9`.
pub open spec fn is_digit(b: u8) -> bool {
    0x30 <= b <= 0x39
}

/// Whether every byte of `s` is a decimal digit.
pub open spec fn all_digits(s: Seq<u8>) -> bool {
    forall|i: int| 0 <= i < s.len() ==> is_digit(#[trigger] s[i])
}

/// The number that the digit bytes `s` denote, most significant digit first.
pub open spec fn digits_value(s: Seq<u8>) -> nat
    decreases s.len(),
{
    if s.len() == 0 {
        0
    } else {
        (digits_value(s.drop_last()) * 10 + (s.last() - 0x30)) as nat
    }
}

/// The digit bytes of `n`, without leading zeros; `0` is the single digit `0`.
pub open spec fn decimal_digits(n: nat) -> Seq<u8>
    decreases n,
{
    if n < 10 {
        seq![(0x30 + n) as u8]
    } else {
        decimal_digits(n / 10).push((0x30 + n % 10) as u8)
    }
}

/// The text of an unsigned number.
pub open spec fn render_u32(v: u32) -> Seq<u8> {
    decimal_digits(v as nat)
}

/// The text of a signed number: a `-` before the digits of a negative one.
pub open spec fn render_i32(v: i32) -> Seq<u8> {
    if v < 0 {
        seq![0x2du8] + decimal_digits((-v) as nat)
    } else {
        decimal_digits(v as nat)
    }
}

/// The number that `s` denotes as an unsigned 32-bit value: an optional `+`,
/// then one or more digits, the whole no greater than `u32::MAX`.
pub open spec fn parse_u32(s: Seq<u8>) -> Option<u32> {
    let body = if s.len() > 0 && s[0] == 0x2b {
        s.skip(1)
    } else {
        s
    };
    if body.len() > 0 && all_digits(body) && digits_value(body) <= u32::MAX {
        Some(digits_value(body) as u32)
    } else {
        None
    }
}

/// The number that `s` denotes as a signed 32-bit value: an optional `+` or
/// `-`, then one or more digits, the whole within the range of `i32`.
pub open spec fn parse_i32(s: Seq<u8>) -> Option<i32> {
    let negative = s.len() > 0 && s[0] == 0x2d;
    let body = if s.len() > 0 && (s[0] == 0x2b || s[0] == 0x2d) {
        s.skip(1)
    } else {
        s
    };
    if body.len() > 0 && all_digits(body) {
        let magnitude = digits_value(body);
        if negative && magnitude <= 0x8000_0000 {
            Some((-magnitude) as i32)
        } else if !negative && magnitude <= 0x7fff_ffff {
            Some(magnitude as i32)
        } else {
            None
        }
    } else {
        None
    }
}

/// A run of digits denotes at least what any of its prefixes denotes.
pub proof fn lemma_prefix_value(s: Seq<u8>, k: int)
    requires
        all_digits(s),
        0 <= k <= s.len(),
    ensures
        digits_value(s.take(k)) <= digits_value(s),
    decreases s.len() - k,
{
    if k == s.len() {
        assert(s.take(k) =~= s);
    } else {
        lemma_prefix_value(s, k + 1);
        assert(s.take(k + 1).drop_last() =~= s.take(k));
    }
}

/// Rendering a number gives at least one digit, only digits, no leading zero
/// but for `0` itself, and digits that denote the number.
pub proof fn lemma_decimal_digits(n: nat)
    ensures
        decimal_digits(n).len() >= 1,
        all_digits(decimal_digits(n)),
        digits_value(decimal_digits(n)) == n,
        n > 0 ==> decimal_digits(n)[0] != 0x30,
    decreases n,
{
    let d = decimal_digits(n);
    if n < 10 {
        assert(digits_value(d.drop_last()) == 0);
    } else {
        lemma_decimal_digits(n / 10);
        assert(d.drop_last() =~= decimal_digits(n / 10));
    }
}

/// Reading back the text of an unsigned number gives the number.
pub proof fn lemma_parse_render_u32(v: u32)
    ensures
        parse_u32(render_u32(v)) == Some(v),
{
    lemma_decimal_digits(v as nat);
}

/// Reading back the text of a signed number gives the number.
pub proof fn lemma_parse_render_i32(v: i32)
    ensures
        parse_i32(render_i32(v)) == Some(v),
{
    if v < 0 {
        let d = decimal_digits((-v) as nat);
        lemma_decimal_digits((-v) as nat);
        assert(render_i32(v).skip(1) =~= d);
    } else {
        lemma_decimal_digits(v as nat);
    }
}

/// Appends the digits of `n` to `out`.
fn push_digits(n: u32, out: &mut Vec<u8>)
    ensures
        final(out)@ == old(out)@ + decimal_digits(n as nat),
    decreases n,
{
    if n >= 10 {
        push_digits(n / 10, out);
    }
    let digit: u8 = (n % 10) as u8;
    out.push(ZERO + digit);
}

/// Renders an unsigned number as decimal text.
pub fn u32_to_decimal(v: u32) -> (text: Vec<u8>)
    ensures
        text@ == render_u32(v),
{
    let mut text: Vec<u8> = Vec::new();
    push_digits(v, &mut text);
    text
}

/// Renders a signed number as decimal text.
pub fn i32_to_decimal(v: i32) -> (text: Vec<u8>)
    ensures
        text@ == render_i32(v),
{
    let mut text: Vec<u8> = Vec::new();
    if v < 0 {
        text.push(MINUS);
        let magnitude: u32 = (-(v as i64)) as u32;
        push_digits(magnitude, &mut text);
    } else {
        push_digits(v as u32, &mut text);
    }
    text
}

/// Reads the digits `s[from..]` as a number no greater than `limit`; `None`
/// where there is no digit, a byte is no digit, or the number is greater.
fn digits_to_u64(s: &[u8], from: usize, limit: u64) -> (r: Option<u64>)
    requires
        from <= s@.len(),
        limit <= 0xffff_ffff,
    ensures
        r is Some <==> s@.skip(from as int).len() > 0 && all_digits(s@.skip(from as int))
            && digits_value(s@.skip(from as int)) <= limit,
        r is Some ==> r->Some_0 == digits_value(s@.skip(from as int)),
{
    let ghost body = s@.skip(from as int);
    if from == s.len() {
        return None;
    }
    let mut acc: u64 = 0;
    let mut i: usize = from;
    while i < s.len()
        invariant
            from <= i <= s@.len(),
            body == s@.skip(from as int),
            limit <= 0xffff_ffff,
            all_digits(body.take(i - from)),
            acc == digits_value(body.take(i - from)),
            acc <= limit,
        decreases s@.len() - i,
    {
        let b: u8 = s[i];
        let ghost k = i - from;
        if b < 0x30 || b > 0x39 {
            assert(!is_digit(body[k]));
            return None;
        }
        let next: u64 = acc * 10 + (b - ZERO) as u64;
        proof {
            assert(body.take(k + 1).drop_last() =~= body.take(k));
        }
        if next > limit {
            proof {
                if all_digits(body) {
                    lemma_prefix_value(body, k + 1);
                }
            }
            return None;
        }
        acc = next;
        i = i + 1;
    }
    assert(body.take(i - from) =~= body);
    Some(acc)
}

/// Reads decimal text as an unsigned 32-bit number.
pub fn decimal_to_u32(s: &[u8]) -> (r: Option<u32>)
    ensures
        r == parse_u32(s@),
{
    let from: usize = if s.len() > 0 && s[0] == PLUS {
        1
    } else {
        0
    };
    assert(from == 0 ==> s@.skip(0) =~= s@);
    match digits_to_u64(s, from, 0xffff_ffff) {
        Some(v) => Some(v as u32),
        None => None,
    }
}

/// Reads decimal text as a signed 32-bit number.
pub fn decimal_to_i32(s: &[u8]) -> (r: Option<i32>)
    ensures
        r == parse_i32(s@),
{
    let negative = s.len() > 0 && s[0] == MINUS;
    let from: usize = if s.len() > 0 && (s[0] == PLUS || s[0] == MINUS) {
        1
    } else {
        0
    };
    assert(from == 0 ==> s@.skip(0) =~= s@);
    let limit: u64 = if negative {
        0x8000_0000
    } else {
        0x7fff_ffff
    };
    match digits_to_u64(s, from, limit) {
        Some(v) => if negative {
            Some((-(v as i64)) as i32)
        } else {
            Some(v as i32)
        },
        None => None,
    }
}

} // verus!
