//! The integer side of the type system: the grammar and value of signed
//! decimal integer literals, their classification against a width's range,
//! and the fixed-width big-endian two's-complement byte codec.

use vstd::prelude::*;

verus! {

use crate::ConstraintError;
use vstd::arithmetic::div_mod::{
    lemma_div_denominator, lemma_fundamental_div_mod, lemma_mod_add_multiples_vanish,
    lemma_div_basics, lemma_multiply_divide_lt, lemma_small_mod,
};
use vstd::pervasive::unreached;

// ---------------------------------------------------------------------------
// Decimal integer literals
// ---------------------------------------------------------------------------

/// An ASCII decimal digit.
pub open spec fn is_dec_digit(c: char) -> bool {
    48 <= c as u32 && c as u32 <= 57
}

/// Numeric value of an ASCII decimal digit.
pub open spec fn digit_val(c: char) -> int {
    c as u32 - 48
}

pub open spec fn all_dec_digits(s: Seq<char>) -> bool {
    forall|i: int| 0 <= i < s.len() ==> is_dec_digit(s[i])
}

pub open spec fn is_negative_literal(s: Seq<char>) -> bool {
    s.len() > 0 && s[0] == '-'
}

/// The digit characters of a literal, after the optional leading minus sign.
pub open spec fn digits_of(s: Seq<char>) -> Seq<char> {
    if is_negative_literal(s) {
        s.subrange(1, s.len() as int)
    } else {
        s
    }
}

/// A well-formed signed decimal integer literal: an optional leading `-`,
/// then one or more ASCII digits, and nothing else. A leading `+`, any
/// whitespace, and a decimal point are all rejected.
pub open spec fn int_literal_wf(s: Seq<char>) -> bool {
    digits_of(s).len() > 0 && all_dec_digits(digits_of(s))
}

/// Value of a digit sequence, most significant digit first.
pub open spec fn digits_val(s: Seq<char>) -> int
    decreases s.len(),
{
    if s.len() == 0 {
        0
    } else {
        digits_val(s.drop_last()) * 10 + digit_val(s.last())
    }
}

/// Value of a well-formed signed decimal integer literal.
pub open spec fn int_literal_val(s: Seq<char>) -> int {
    if is_negative_literal(s) {
        -digits_val(digits_of(s))
    } else {
        digits_val(s)
    }
}

/// Classification of a textual input against an integer range: a
/// malformed literal is `NotAnInt`, a well-formed one whose value lies
/// outside `[lo, hi]` is `OutOfRange`, anything else is accepted.
pub open spec fn int_classify(s: Seq<char>, lo: int, hi: int) -> Result<(), ConstraintError> {
    if !int_literal_wf(s) {
        Err(ConstraintError::NotAnInt)
    } else if int_literal_val(s) < lo || hi < int_literal_val(s) {
        Err(ConstraintError::OutOfRange)
    } else {
        Ok(())
    }
}

pub proof fn lemma_digits_val_nonneg(s: Seq<char>)
    requires
        all_dec_digits(s),
    ensures
        digits_val(s) >= 0,
    decreases s.len(),
{
    if s.len() > 0 {
        assert(all_dec_digits(s.drop_last()));
        lemma_digits_val_nonneg(s.drop_last());
    }
}

// ---------------------------------------------------------------------------
// Scanning textual input
// ---------------------------------------------------------------------------

/// Outcome of scanning a textual input as a signed decimal literal: either
/// some character other than a digit was found after the optional leading
/// minus sign (or there were no digits at all), or the sign and the digit
/// magnitude, with `overflow` set when the magnitude exceeds `u64::MAX`.
enum DecScan {
    NotAnInt,
    Num { neg: bool, overflow: bool, mag: u64 },
}

fn scan_decimal(s: &str) -> (r: DecScan)
    ensures
        r is NotAnInt <==> !int_literal_wf(s@),
        r matches DecScan::Num { neg, overflow, mag } ==> {
            &&& neg == is_negative_literal(s@)
            &&& (overflow ==> digits_val(digits_of(s@)) > u64::MAX)
            &&& (!overflow ==> mag == digits_val(digits_of(s@)))
        },
{
    let n = s.unicode_len();
    let start: usize = if n > 0 && s.get_char(0) == '-' {
        1
    } else {
        0
    };
    proof {
        assert(digits_of(s@) =~= s@.subrange(start as int, n as int));
    }
    if start == n {
        // empty input, or a lone minus sign
        return DecScan::NotAnInt;
    }
    let mut i = start;
    while i < n
        invariant
            start <= i <= n,
            n == s@.len(),
            digits_of(s@) == s@.subrange(start as int, n as int),
            forall|j: int| start <= j < i ==> is_dec_digit(s@[j]),
        decreases n - i,
    {
        let c = s.get_char(i);
        let u = c as u32;
        if u < 48 || 57 < u {
            proof {
                assert(digits_of(s@)[i - start] == s@[i as int]);
                assert(!all_dec_digits(digits_of(s@)));
            }
            return DecScan::NotAnInt;
        }
        i += 1;
    }
    proof {
        assert(forall|k: int| 0 <= k < digits_of(s@).len() ==> digits_of(s@)[k] == s@[start + k]);
        assert(all_dec_digits(digits_of(s@)));
    }
    let mut mag: u64 = 0;
    let mut overflow = false;
    let mut i = start;
    while i < n
        invariant
            start <= i <= n,
            n == s@.len(),
            digits_of(s@) == s@.subrange(start as int, n as int),
            forall|j: int| start <= j < n ==> is_dec_digit(s@[j]),
            !overflow ==> mag == digits_val(s@.subrange(start as int, i as int)),
            overflow ==> digits_val(s@.subrange(start as int, i as int)) > u64::MAX,
        decreases n - i,
    {
        let c = s.get_char(i);
        let u = c as u32;
        let d: u64 = (u - 48) as u64;
        let ghost prefix = s@.subrange(start as int, i as int);
        let ghost prefix1 = s@.subrange(start as int, i as int + 1);
        proof {
            assert(prefix1.drop_last() =~= prefix);
            assert(prefix1.last() == s@[i as int]);
            assert(digits_val(prefix1) == digits_val(prefix) * 10 + d);
        }
        if overflow {
            // once the magnitude has left u64 range, more digits keep it out
            proof {
                assert(digits_val(prefix) * 10 > u64::MAX);
            }
        } else {
            match mag.checked_mul(10) {
                Some(m10) => match m10.checked_add(d) {
                    Some(m) => {
                        mag = m;
                    },
                    None => {
                        overflow = true;
                    },
                },
                None => {
                    overflow = true;
                },
            }
        }
        i += 1;
    }
    DecScan::Num { neg: start == 1, overflow, mag }
}

/// Classification of a textual input against the integer range
/// `[-neg_bound, pos_bound]`, per the table of outcomes in `int_classify`.
pub(crate) fn validate_int_range(s: &str, neg_bound: u64, pos_bound: u64) -> (r: Result<
    (),
    ConstraintError,
>)
    requires
        pos_bound <= neg_bound,
    ensures
        r == int_classify(s@, -(neg_bound as int), pos_bound as int),
{
    match scan_decimal(s) {
        DecScan::NotAnInt => Err(ConstraintError::NotAnInt),
        DecScan::Num { neg, overflow, mag } => {
            proof {
                lemma_digits_val_nonneg(digits_of(s@));
            }
            if overflow {
                Err(ConstraintError::OutOfRange)
            } else if neg {
                if mag > neg_bound {
                    Err(ConstraintError::OutOfRange)
                } else {
                    Ok(())
                }
            } else {
                if mag > pos_bound {
                    Err(ConstraintError::OutOfRange)
                } else {
                    Ok(())
                }
            }
        },
    }
}

/// Parse a textual input already known to lie in `[-neg_bound, pos_bound]`.
pub(crate) fn parse_int_range(s: &str, neg_bound: u64, pos_bound: u64) -> (v: i64)
    requires
        pos_bound <= neg_bound,
        neg_bound <= 0x8000000000000000,
        pos_bound < 0x8000000000000000,
        int_classify(s@, -(neg_bound as int), pos_bound as int) == Ok::<(), ConstraintError>(()),
    ensures
        v as int == int_literal_val(s@),
{
    match scan_decimal(s) {
        DecScan::NotAnInt => unreached(),
        DecScan::Num { neg, overflow, mag } => {
            proof {
                lemma_digits_val_nonneg(digits_of(s@));
            }
            if overflow {
                unreached()
            } else if neg {
                if mag >= 0x8000000000000000 {
                    i64::MIN
                } else {
                    -(mag as i64)
                }
            } else {
                mag as i64
            }
        },
    }
}

// ---------------------------------------------------------------------------
// Fixed-width big-endian two's-complement bytes
// ---------------------------------------------------------------------------

/// 256 to the power `k`.
pub open spec fn pow256(k: nat) -> nat
    decreases k,
{
    if k == 0 {
        1
    } else {
        256 * pow256((k - 1) as nat)
    }
}

pub proof fn lemma_pow256_values()
    ensures
        pow256(0) == 1,
        pow256(1) == 0x100,
        pow256(2) == 0x10000,
        pow256(3) == 0x1000000,
        pow256(4) == 0x100000000,
        pow256(5) == 0x10000000000,
        pow256(6) == 0x1000000000000,
        pow256(7) == 0x100000000000000,
        pow256(8) == 0x10000000000000000,
{
    assert(pow256(0) == 1);
    assert(pow256(1) == 0x100);
    assert(pow256(2) == 0x10000);
    assert(pow256(3) == 0x1000000);
    assert(pow256(4) == 0x100000000);
    assert(pow256(5) == 0x10000000000);
    assert(pow256(6) == 0x1000000000000);
    assert(pow256(7) == 0x100000000000000);
    assert(pow256(8) == 0x10000000000000000);
}

/// The `w` big-endian bytes of the unsigned value `u`.
pub open spec fn be_bytes(u: int, w: nat) -> Seq<u8> {
    Seq::new(w, |i: int| ((u / pow256((w - 1 - i) as nat) as int) % 256) as u8)
}

/// Unsigned value of a big-endian byte sequence.
pub open spec fn be_val(b: Seq<u8>) -> int
    decreases b.len(),
{
    if b.len() == 0 {
        0
    } else {
        be_val(b.drop_last()) * 256 + b.last()
    }
}

/// Two's-complement reading of an unsigned `w`-byte value.
pub open spec fn twos_complement(u: int, w: nat) -> int {
    if u < pow256(w) / 2 {
        u
    } else {
        u - pow256(w)
    }
}

/// The `w`-byte two's-complement big-endian encoding of `v`.
pub open spec fn int_be_bytes(v: int, w: nat) -> Seq<u8> {
    be_bytes(v % (pow256(w) as int), w)
}

fn encode_be(u: u64, w: usize) -> (r: Vec<u8>)
    requires
        1 <= w <= 8,
        (u as int) < pow256(w as nat),
    ensures
        r@ == be_bytes(u as int, w as nat),
{
    let mut rev: Vec<u8> = Vec::new();
    let mut x = u;
    let mut k: usize = 0;
    proof {
        assert(pow256(0) == 1);
        lemma_div_basics(u as int);
    }
    while k < w
        invariant
            0 <= k <= w <= 8,
            x as int == (u as int) / pow256(k as nat) as int,
            rev@.len() == k,
            forall|j: int|
                0 <= j < k ==> rev@[j] == (((u as int) / pow256(j as nat) as int) % 256) as u8,
        decreases w - k,
    {
        let b = (x % 256) as u8;
        rev.push(b);
        x = x / 256;
        proof {
            lemma_pow256_pos(k as nat);
            lemma_div_denominator(u as int, pow256(k as nat) as int, 256);
            assert(pow256((k + 1) as nat) == pow256(k as nat) * 256);
        }
        k += 1;
    }
    let mut out: Vec<u8> = Vec::new();
    let mut i: usize = 0;
    while i < w
        invariant
            0 <= i <= w,
            rev@.len() == w,
            forall|j: int|
                0 <= j < w ==> rev@[j] == (((u as int) / pow256(j as nat) as int) % 256) as u8,
            out@.len() == i,
            forall|j: int|
                0 <= j < i ==> out@[j] == (((u as int) / pow256((w - 1 - j) as nat) as int)
                    % 256) as u8,
        decreases w - i,
    {
        let b = rev[w - 1 - i];
        out.push(b);
        i += 1;
    }
    proof {
        assert(out@ =~= be_bytes(u as int, w as nat));
    }
    out
}

pub proof fn lemma_pow256_pos(k: nat)
    ensures
        pow256(k) >= 1,
    decreases k,
{
    if k > 0 {
        lemma_pow256_pos((k - 1) as nat);
    }
}

pub proof fn lemma_pow256_mono(a: nat, b: nat)
    requires
        a <= b,
    ensures
        pow256(a) <= pow256(b),
    decreases b,
{
    if a < b {
        lemma_pow256_mono(a, (b - 1) as nat);
        lemma_pow256_pos((b - 1) as nat);
    }
}

fn decode_be(b: &[u8], w: usize) -> (u: u64)
    requires
        1 <= w <= 8,
        w <= b@.len(),
    ensures
        u as int == be_val(b@.take(w as int)),
        (u as int) < pow256(w as nat),
{
    let mut u: u64 = 0;
    let mut i: usize = 0;
    while i < w
        invariant
            0 <= i <= w <= 8,
            w <= b@.len(),
            u as int == be_val(b@.take(i as int)),
            (u as int) < pow256(i as nat),
        decreases w - i,
    {
        proof {
            lemma_pow256_mono(i as nat, 7);
            lemma_pow256_values();
        }
        let d = b[i] as u64;
        u = u * 256 + d;
        proof {
            assert(b@.take(i as int + 1).drop_last() =~= b@.take(i as int));
            assert(b@.take(i as int + 1).last() == b@[i as int]);
            assert(pow256((i + 1) as nat) == 256 * pow256(i as nat));
        }
        i += 1;
    }
    u
}

fn pow256_u128(w: usize) -> (m: u128)
    requires
        w <= 8,
    ensures
        m as int == pow256(w as nat),
{
    proof {
        lemma_pow256_values();
    }
    match w {
        0 => 1,
        1 => 0x100,
        2 => 0x10000,
        3 => 0x1000000,
        4 => 0x100000000,
        5 => 0x10000000000,
        6 => 0x1000000000000,
        7 => 0x100000000000000,
        _ => 0x10000000000000000,
    }
}

/// Encode `v` as its `w`-byte big-endian two's-complement byte sequence.
pub(crate) fn encode_int_be(v: i64, w: usize) -> (r: Vec<u8>)
    requires
        1 <= w <= 8,
        -(pow256(w as nat) as int / 2) <= v as int,
        (v as int) < pow256(w as nat) as int / 2,
    ensures
        r@ == int_be_bytes(v as int, w as nat),
        r@.len() == w,
{
    let ghost m: int = pow256(w as nat) as int;
    let mw = pow256_u128(w);
    let u: u64 = if v >= 0 {
        proof {
            lemma_small_mod(v as nat, pow256(w as nat));
        }
        v as u64
    } else {
        proof {
            lemma_mod_add_multiples_vanish(v as int, m);
            lemma_small_mod((v as int + m) as nat, pow256(w as nat));
            lemma_pow256_mono(w as nat, 8);
            lemma_pow256_values();
        }
        ((v as i128) + (mw as i128)) as u64
    };
    proof {
        assert(u as int == (v as int) % m);
    }
    encode_be(u, w)
}

/// Decode the first `w` bytes of `b` as a big-endian two's-complement value.
pub(crate) fn decode_int_be(b: &[u8], w: usize) -> (v: i64)
    requires
        1 <= w <= 8,
        w <= b@.len(),
    ensures
        v as int == twos_complement(be_val(b@.take(w as int)), w as nat),
{
    let u = decode_be(b, w);
    let mw = pow256_u128(w);
    proof {
        lemma_pow256_mono(w as nat, 8);
        lemma_pow256_values();
        lemma_be_val_nonneg(b@.take(w as int));
    }
    if (u as u128) < mw / 2 {
        u as i64
    } else {
        ((u as i128) - (mw as i128)) as i64
    }
}

pub proof fn lemma_be_val_nonneg(b: Seq<u8>)
    ensures
        be_val(b) >= 0,
    decreases b.len(),
{
    if b.len() > 0 {
        lemma_be_val_nonneg(b.drop_last());
    }
}

/// Round trip at the byte level: reading back the big-endian bytes of an
/// in-range unsigned value yields that value.
pub proof fn lemma_be_bytes_val(u: int, w: nat)
    requires
        0 <= u < pow256(w),
    ensures
        be_val(be_bytes(u, w)) == u,
    decreases w,
{
    if w == 0 {
        assert(be_bytes(u, w) =~= Seq::<u8>::empty());
    } else {
        let bb = be_bytes(u, w);
        let inner = be_bytes(u / 256, (w - 1) as nat);
        assert forall|i: int| 0 <= i < w - 1 implies bb[i] == inner[i] by {
            lemma_pow256_pos((w - 2 - i) as nat);
            lemma_div_denominator(u, 256, pow256((w - 2 - i) as nat) as int);
            assert(pow256((w - 1 - i) as nat) == 256 * pow256((w - 2 - i) as nat));
        }
        assert(bb.drop_last() =~= inner);
        assert(pow256(w) == 256 * pow256((w - 1) as nat));
        assert(u / 256 < pow256((w - 1) as nat)) by {
            lemma_multiply_divide_lt(u, 256, pow256((w - 1) as nat) as int);
        }
        lemma_be_bytes_val(u / 256, (w - 1) as nat);
        assert(bb.last() == (u / pow256(0) as int % 256) as u8);
        assert(u / 1 == u);
        lemma_fundamental_div_mod(u, 256);
        assert(be_val(bb) == be_val(bb.drop_last()) * 256 + bb.last());
    }
}

/// Round trip at the value level: the two's-complement reading of the
/// `w`-byte encoding of an in-range signed value yields that value.
pub proof fn lemma_twos_complement_round_trip(v: int, w: nat)
    requires
        1 <= w,
        -(pow256(w) as int / 2) <= v < pow256(w) / 2,
    ensures
        twos_complement(be_val(int_be_bytes(v, w)), w) == v,
{
    let m = pow256(w) as int;
    lemma_pow256_pos(w);
    let u = v % m;
    if v >= 0 {
        lemma_small_mod(v as nat, pow256(w));
    } else {
        lemma_mod_add_multiples_vanish(v, m);
        lemma_small_mod((v + m) as nat, pow256(w));
    }
    lemma_be_bytes_val(u, w);
}

// ---------------------------------------------------------------------------
// Decimal formatting
// ---------------------------------------------------------------------------

/// The ASCII character of a decimal digit value.
pub open spec fn dec_digit_char(d: int) -> char {
    if d == 0 {
        '0'
    } else if d == 1 {
        '1'
    } else if d == 2 {
        '2'
    } else if d == 3 {
        '3'
    } else if d == 4 {
        '4'
    } else if d == 5 {
        '5'
    } else if d == 6 {
        '6'
    } else if d == 7 {
        '7'
    } else if d == 8 {
        '8'
    } else {
        '9'
    }
}

/// Decimal rendering of a non-negative value: no leading zeros, no sign.
pub open spec fn u_dec_chars(n: nat) -> Seq<char>
    decreases n,
{
    if n < 10 {
        seq![dec_digit_char(n as int)]
    } else {
        u_dec_chars(n / 10) + seq![dec_digit_char((n % 10) as int)]
    }
}

/// Decimal rendering of a signed value: a minus sign only for negatives,
/// no leading zeros.
pub open spec fn int_dec_chars(v: int) -> Seq<char> {
    if v < 0 {
        seq!['-'] + u_dec_chars((-v) as nat)
    } else {
        u_dec_chars(v as nat)
    }
}

fn digit_str(d: u64) -> (r: &'static str)
    requires
        d < 10,
    ensures
        r@ == seq![dec_digit_char(d as int)],
{
    proof {
        reveal_strlit("0");
        reveal_strlit("1");
        reveal_strlit("2");
        reveal_strlit("3");
        reveal_strlit("4");
        reveal_strlit("5");
        reveal_strlit("6");
        reveal_strlit("7");
        reveal_strlit("8");
        reveal_strlit("9");
    }
    match d {
        0 => "0",
        1 => "1",
        2 => "2",
        3 => "3",
        4 => "4",
        5 => "5",
        6 => "6",
        7 => "7",
        8 => "8",
        _ => "9",
    }
}

fn u64_to_dec_string(n: u64) -> (r: String)
    ensures
        r@ == u_dec_chars(n as nat),
    decreases n,
{
    if n < 10 {
        String::from_str(digit_str(n))
    } else {
        let mut s = u64_to_dec_string(n / 10);
        s.append(digit_str(n % 10));
        s
    }
}

/// Format a signed value as its canonical decimal string.
pub(crate) fn i64_to_dec_string(v: i64) -> (r: String)
    ensures
        r@ == int_dec_chars(v as int),
{
    if v >= 0 {
        u64_to_dec_string(v as u64)
    } else {
        let mag: u64 = (-(v as i128)) as u64;
        let mut s = String::from_str("-");
        proof {
            reveal_strlit("-");
        }
        let ds = u64_to_dec_string(mag);
        s.append(ds.as_str());
        s
    }
}

// ---------------------------------------------------------------------------
// Canonical form of integer literals
// ---------------------------------------------------------------------------

/// Drop the leading zeros of a digit sequence, keeping at least one character.
pub open spec fn strip_leading_zeros(d: Seq<char>) -> Seq<char>
    decreases d.len(),
{
    if d.len() > 1 && d[0] == '0' {
        strip_leading_zeros(d.drop_first())
    } else {
        d
    }
}

/// Canonical form of a well-formed integer literal: leading zeros dropped,
/// the minus sign kept only when the value is nonzero. (A leading plus sign
/// never occurs: the grammar rejects it.)
pub open spec fn canonical_int(s: Seq<char>) -> Seq<char> {
    let d = strip_leading_zeros(digits_of(s));
    if is_negative_literal(s) && digits_val(digits_of(s)) != 0 {
        seq!['-'] + d
    } else {
        d
    }
}

pub proof fn lemma_digit_char_of_val(c: char)
    requires
        is_dec_digit(c),
    ensures
        dec_digit_char(digit_val(c)) == c,
{
    let u = c as u32;
    vstd::utf8::char_u32_cast(c, u);
    if u == 48 {
        vstd::utf8::char_u32_cast('0', 48);
    } else if u == 49 {
        vstd::utf8::char_u32_cast('1', 49);
    } else if u == 50 {
        vstd::utf8::char_u32_cast('2', 50);
    } else if u == 51 {
        vstd::utf8::char_u32_cast('3', 51);
    } else if u == 52 {
        vstd::utf8::char_u32_cast('4', 52);
    } else if u == 53 {
        vstd::utf8::char_u32_cast('5', 53);
    } else if u == 54 {
        vstd::utf8::char_u32_cast('6', 54);
    } else if u == 55 {
        vstd::utf8::char_u32_cast('7', 55);
    } else {
        vstd::utf8::char_u32_cast('8', 56);
        vstd::utf8::char_u32_cast('9', 57);
    }
}

proof fn lemma_leading_zero_val(d: Seq<char>)
    requires
        d.len() >= 1,
        d[0] == '0',
    ensures
        digits_val(d) == digits_val(d.drop_first()),
    decreases d.len(),
{
    if d.len() == 1 {
        assert(d.drop_last() =~= Seq::<char>::empty());
        assert(d.drop_first() =~= Seq::<char>::empty());
    } else {
        let dl = d.drop_last();
        lemma_leading_zero_val(dl);
        assert(d.drop_first().drop_last() =~= dl.drop_first());
        assert(d.drop_first().last() == d.last());
    }
}

proof fn lemma_strip_zeros(d: Seq<char>)
    requires
        all_dec_digits(d),
        d.len() >= 1,
    ensures
        digits_val(strip_leading_zeros(d)) == digits_val(d),
        strip_leading_zeros(d).len() >= 1,
        all_dec_digits(strip_leading_zeros(d)),
        strip_leading_zeros(d).len() > 1 ==> strip_leading_zeros(d)[0] != '0',
    decreases d.len(),
{
    if d.len() > 1 && d[0] == '0' {
        assert(all_dec_digits(d.drop_first()));
        lemma_leading_zero_val(d);
        lemma_strip_zeros(d.drop_first());
    }
}

proof fn lemma_digits_val_pos(d: Seq<char>)
    requires
        all_dec_digits(d),
        d.len() >= 1,
        d[0] != '0',
    ensures
        digits_val(d) >= 1,
        d.len() >= 2 ==> digits_val(d) >= 10,
    decreases d.len(),
{
    if d.len() == 1 {
        let c = d[0];
        vstd::utf8::char_u32_cast(c, c as u32);
        vstd::utf8::char_u32_cast('0', 48);
        assert(c as u32 != 48);
        assert(digit_val(c) >= 1);
        assert(d.drop_last() =~= Seq::<char>::empty());
        assert(digits_val(Seq::<char>::empty()) == 0);
        assert(d.last() == c);
    } else {
        let dl = d.drop_last();
        assert(all_dec_digits(dl));
        lemma_digits_val_pos(dl);
    }
}

proof fn lemma_print_digits(d: Seq<char>)
    requires
        all_dec_digits(d),
        d.len() >= 1,
        d[0] != '0' || d.len() == 1,
    ensures
        u_dec_chars(digits_val(d) as nat) == d,
    decreases d.len(),
{
    lemma_digits_val_nonneg(d);
    if d.len() == 1 {
        assert(d.drop_last() =~= Seq::<char>::empty());
        assert(digits_val(Seq::<char>::empty()) == 0);
        assert(d.last() == d[0]);
        assert(digits_val(d) == digit_val(d[0]));
        assert(0 <= digits_val(d) < 10);
        lemma_digit_char_of_val(d[0]);
        assert(u_dec_chars(digits_val(d) as nat) =~= d);
    } else {
        let dl = d.drop_last();
        assert(all_dec_digits(dl));
        lemma_digits_val_pos(dl);
        lemma_digits_val_nonneg(dl);
        let v = digits_val(d);
        vstd::arithmetic::div_mod::lemma_fundamental_div_mod_converse(
            v,
            10,
            digits_val(dl),
            digit_val(d.last()),
        );
        lemma_print_digits(dl);
        lemma_digit_char_of_val(d.last());
        assert(u_dec_chars(v as nat) =~= d);
    }
}

/// Formatting the value of a well-formed integer literal yields exactly its
/// canonical form.
pub proof fn lemma_print_parse(s: Seq<char>)
    requires
        int_literal_wf(s),
    ensures
        int_dec_chars(int_literal_val(s)) == canonical_int(s),
{
    let d = digits_of(s);
    lemma_digits_val_nonneg(d);
    lemma_strip_zeros(d);
    let sd = strip_leading_zeros(d);
    if sd.len() >= 2 {
        lemma_digits_val_pos(sd);
    }
    lemma_print_digits(sd);
}

// ---------------------------------------------------------------------------
// Classification of malformed inputs
// ---------------------------------------------------------------------------

/// Any input containing a character that is neither a decimal digit nor a
/// leading minus sign is classified `NotAnInt`, whatever range it is
/// checked against.
pub proof fn lemma_int_classification(s: Seq<char>, lo: int, hi: int, i: int)
    requires
        0 <= i < s.len(),
        !is_dec_digit(s[i]),
        !(i == 0 && s[i] == '-'),
    ensures
        int_classify(s, lo, hi) == Err::<(), ConstraintError>(ConstraintError::NotAnInt),
{
    if int_literal_wf(s) {
        if is_negative_literal(s) {
            assert(digits_of(s)[i - 1] == s[i]);
        } else {
            assert(digits_of(s)[i] == s[i]);
        }
    }
}

/// In particular, an input containing a decimal point is `NotAnInt`.
pub proof fn lemma_decimal_point_not_an_int(s: Seq<char>, lo: int, hi: int, i: int)
    requires
        0 <= i < s.len(),
        s[i] == '.',
    ensures
        int_classify(s, lo, hi) == Err::<(), ConstraintError>(ConstraintError::NotAnInt),
{
    vstd::utf8::char_u32_cast('.', 46);
    vstd::utf8::char_u32_cast('-', 45);
    lemma_int_classification(s, lo, hi, i);
}

} // verus!
