//! The string side of the type system: trailing-ASCII-whitespace trimming,
//! the byte-length constraint of `Char` and `VarChar` columns, and the
//! raw-UTF-8 string codec.

use vstd::prelude::*;

verus! {

use crate::ConstraintError;
use vstd::pervasive::unreached;
use vstd::string::StrSliceExecFns;
use vstd::utf8::{decode_utf8, encode_utf8, valid_utf8};

/// ASCII whitespace: space, tab, line feed, form feed, carriage return.
pub open spec fn is_ascii_whitespace(c: char) -> bool {
    c == ' ' || c == '\t' || c == '\n' || c == '\x0C' || c == '\r'
}

/// `s` with its trailing ASCII whitespace removed.
pub open spec fn trim_end_spec(s: Seq<char>) -> Seq<char>
    decreases s.len(),
{
    if s.len() > 0 && is_ascii_whitespace(s.last()) {
        trim_end_spec(s.drop_last())
    } else {
        s
    }
}

/// The length constraint of `Char(length)` and `VarChar(length)`: an input
/// is too long exactly when the byte length of its trimmed form exceeds the
/// declared length. The check compares bytes against a declared character
/// count; that is the established behavior and is kept for compatibility.
pub open spec fn str_classify(s: Seq<char>, length: nat) -> Result<(), ConstraintError> {
    if encode_utf8(trim_end_spec(s)).len() > length {
        Err(ConstraintError::ValueTooLong)
    } else {
        Ok(())
    }
}

fn is_ws_char(c: char) -> (r: bool)
    ensures
        r == is_ascii_whitespace(c),
{
    c == ' ' || c == '\t' || c == '\n' || c == '\x0C' || c == '\r'
}

/// The input without its trailing ASCII whitespace.
pub(crate) fn trim_end(s: &str) -> (r: &str)
    ensures
        r@ == trim_end_spec(s@),
{
    let n = s.unicode_len();
    proof {
        assert(s@.subrange(0, n as int) =~= s@);
    }
    let mut end = n;
    while end > 0 && is_ws_char(s.get_char(end - 1))
        invariant
            end <= n,
            n == s@.len(),
            trim_end_spec(s@) == trim_end_spec(s@.subrange(0, end as int)),
        decreases end,
    {
        proof {
            assert(s@.subrange(0, end as int).drop_last() =~= s@.subrange(0, end - 1));
            assert(s@.subrange(0, end as int).last() == s@[end - 1]);
        }
        end = end - 1;
    }
    proof {
        if end > 0 {
            assert(s@.subrange(0, end as int).last() == s@[end as int - 1]);
        }
        assert(trim_end_spec(s@.subrange(0, end as int)) =~= s@.subrange(0, end as int));
    }
    s.substring_char(0, end)
}

/// Classification of a textual input against a declared column length.
pub(crate) fn validate_str_len(s: &str, length: u64) -> (r: Result<(), ConstraintError>)
    ensures
        r == str_classify(s@, length as nat),
{
    let t = trim_end(s);
    let b = t.as_bytes_vec();
    if (b.len() as u64) > length {
        Err(ConstraintError::ValueTooLong)
    } else {
        Ok(())
    }
}

/// Encode: the raw UTF-8 bytes of the trimmed input, with no padding, no
/// length prefix, and no framing.
pub(crate) fn encode_string(s: &str) -> (r: Vec<u8>)
    ensures
        r@ == encode_utf8(trim_end_spec(s@)),
{
    let t = trim_end(s);
    t.as_bytes_vec()
}

/// Relies on std::str::from_utf8: it returns `Ok` exactly on well-formed
/// UTF-8, and then the string's characters are the decoding of the bytes.
#[verifier::external_body]
fn utf8_to_string(bytes: &[u8]) -> (r: Option<String>)
    ensures
        match r {
            Some(s) => valid_utf8(bytes@) && s@ == decode_utf8(bytes@),
            None => !valid_utf8(bytes@),
        },
{
    match std::str::from_utf8(bytes) {
        Ok(s) => Some(s.to_owned()),
        Err(_) => None,
    }
}

/// Decode: interpret the incoming bytes as a UTF-8 string. The storage
/// layer never returns bytes that were not produced by `encode`, so the
/// caller owes well-formed UTF-8.
pub(crate) fn decode_string(bytes: &[u8]) -> (r: String)
    requires
        valid_utf8(bytes@),
    ensures
        r@ == decode_utf8(bytes@),
{
    match utf8_to_string(bytes) {
        Some(s) => s,
        None => unreached(),
    }
}

/// String round trip: decoding the encoding of any input yields the input
/// with its trailing ASCII whitespace removed.
pub proof fn lemma_string_round_trip(s: Seq<char>)
    ensures
        valid_utf8(encode_utf8(trim_end_spec(s))),
        decode_utf8(encode_utf8(trim_end_spec(s))) == trim_end_spec(s),
{
    vstd::utf8::encode_utf8_valid_utf8(trim_end_spec(s));
    vstd::utf8::encode_utf8_decode_utf8(trim_end_spec(s));
}

} // verus!
