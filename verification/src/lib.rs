//! SQL column types: the static wire-type catalog, per-type value
//! constraints on textual input, and byte-exact codecs used when tuples
//! are written to and read from the storage layer, together with the
//! pure decision logic of the schema and update commands.

use vstd::prelude::*;

pub mod ast;
pub mod commands;
pub mod numeric;
pub mod text;

verus! {

use crate::numeric::{
    canonical_int, encode_int_be, decode_int_be, i64_to_dec_string, int_be_bytes, int_classify,
    int_dec_chars, int_literal_val, is_dec_digit, lemma_pow256_values, parse_int_range,
    twos_complement, be_val, validate_int_range,
};
use crate::text::{
    decode_string, encode_string, str_classify, trim_end_spec, validate_str_len,
};
use vstd::utf8::{decode_utf8, encode_utf8, valid_utf8};

/// A column's declared SQL type. `Char` and `VarChar` carry the declared
/// column width in characters.
#[derive(PartialEq, Eq, Structural, Debug, Copy, Clone)]
pub enum SqlType {
    Bool,
    Char(u64),
    VarChar(u64),
    Decimal,
    SmallInt,
    Integer,
    BigInt,
    Real,
    DoublePrecision,
    Time,
    TimeWithTimeZone,
    Timestamp,
    TimestampWithTimeZone,
    Date,
    Interval,
}

/// The type identifier sent over the client wire protocol: one variant per
/// `SqlType` variant, with the declared lengths dropped.
#[derive(PartialEq, Eq, Structural, Debug, Copy, Clone)]
pub enum PostgreSqlType {
    Bool,
    Char,
    VarChar,
    Decimal,
    SmallInt,
    Integer,
    BigInt,
    Real,
    DoublePrecision,
    Time,
    TimeWithTimeZone,
    Timestamp,
    TimestampWithTimeZone,
    Date,
    Interval,
}

/// The ways a textual input can fail validation against a column type.
#[derive(PartialEq, Eq, Structural, Debug, Hash)]
pub enum ConstraintError {
    OutOfRange,
    NotAnInt,
    ValueTooLong,
}

/// Signal that a `SqlType` variant has no constraint or serializer defined
/// yet; it carries the offending variant. This is a programmer-visible
/// condition, never surfaced to SQL clients as a normal error.
#[derive(PartialEq, Eq, Structural, Debug, Copy, Clone)]
pub struct UnsupportedType(pub SqlType);

impl SqlType {
    /// The wire-protocol identifier of this type: a pure structural
    /// mapping, one arm per variant, lengths dropped.
    pub open spec fn to_pg_types_spec(self) -> PostgreSqlType {
        match self {
            SqlType::Bool => PostgreSqlType::Bool,
            SqlType::Char(_) => PostgreSqlType::Char,
            SqlType::VarChar(_) => PostgreSqlType::VarChar,
            SqlType::Decimal => PostgreSqlType::Decimal,
            SqlType::SmallInt => PostgreSqlType::SmallInt,
            SqlType::Integer => PostgreSqlType::Integer,
            SqlType::BigInt => PostgreSqlType::BigInt,
            SqlType::Real => PostgreSqlType::Real,
            SqlType::DoublePrecision => PostgreSqlType::DoublePrecision,
            SqlType::Time => PostgreSqlType::Time,
            SqlType::TimeWithTimeZone => PostgreSqlType::TimeWithTimeZone,
            SqlType::Timestamp => PostgreSqlType::Timestamp,
            SqlType::TimestampWithTimeZone => PostgreSqlType::TimestampWithTimeZone,
            SqlType::Date => PostgreSqlType::Date,
            SqlType::Interval => PostgreSqlType::Interval,
        }
    }

    /// Total mapping from a SQL type to its wire-protocol identifier.
    pub fn to_pg_types(&self) -> (r: PostgreSqlType)
        ensures
            r == self.to_pg_types_spec(),
    {
        match *self {
            SqlType::Bool => PostgreSqlType::Bool,
            SqlType::Char(_) => PostgreSqlType::Char,
            SqlType::VarChar(_) => PostgreSqlType::VarChar,
            SqlType::Decimal => PostgreSqlType::Decimal,
            SqlType::SmallInt => PostgreSqlType::SmallInt,
            SqlType::Integer => PostgreSqlType::Integer,
            SqlType::BigInt => PostgreSqlType::BigInt,
            SqlType::Real => PostgreSqlType::Real,
            SqlType::DoublePrecision => PostgreSqlType::DoublePrecision,
            SqlType::Time => PostgreSqlType::Time,
            SqlType::TimeWithTimeZone => PostgreSqlType::TimeWithTimeZone,
            SqlType::Timestamp => PostgreSqlType::Timestamp,
            SqlType::TimestampWithTimeZone => PostgreSqlType::TimestampWithTimeZone,
            SqlType::Date => PostgreSqlType::Date,
            SqlType::Interval => PostgreSqlType::Interval,
        }
    }

    /// The constraint of this type, or the `UnsupportedType` signal for a
    /// variant whose constraint is not yet defined.
    pub open spec fn constraint_spec(self) -> Result<SqlTypeConstraint, UnsupportedType> {
        match self {
            SqlType::Char(length) => Ok(SqlTypeConstraint::Char(length)),
            SqlType::VarChar(length) => Ok(SqlTypeConstraint::VarChar(length)),
            SqlType::SmallInt => Ok(SqlTypeConstraint::SmallInt),
            SqlType::Integer => Ok(SqlTypeConstraint::Integer),
            SqlType::BigInt => Ok(SqlTypeConstraint::BigInt),
            _ => Err(UnsupportedType(self)),
        }
    }

    /// Construct the validator for this type, if one is defined.
    pub fn constraint(&self) -> (r: Result<SqlTypeConstraint, UnsupportedType>)
        ensures
            r == self.constraint_spec(),
    {
        match *self {
            SqlType::Char(length) => Ok(SqlTypeConstraint::Char(length)),
            SqlType::VarChar(length) => Ok(SqlTypeConstraint::VarChar(length)),
            SqlType::SmallInt => Ok(SqlTypeConstraint::SmallInt),
            SqlType::Integer => Ok(SqlTypeConstraint::Integer),
            SqlType::BigInt => Ok(SqlTypeConstraint::BigInt),
            sql_type => Err(UnsupportedType(sql_type)),
        }
    }

    /// The serializer of this type, or the `UnsupportedType` signal for a
    /// variant whose codec is not yet defined.
    pub open spec fn serializer_spec(self) -> Result<SqlTypeSerializer, UnsupportedType> {
        match self {
            SqlType::Char(_) => Ok(SqlTypeSerializer::Char),
            SqlType::VarChar(_) => Ok(SqlTypeSerializer::VarChar),
            SqlType::SmallInt => Ok(SqlTypeSerializer::SmallInt),
            SqlType::Integer => Ok(SqlTypeSerializer::Integer),
            SqlType::BigInt => Ok(SqlTypeSerializer::BigInt),
            _ => Err(UnsupportedType(self)),
        }
    }

    /// Construct the codec for this type, if one is defined.
    pub fn serializer(&self) -> (r: Result<SqlTypeSerializer, UnsupportedType>)
        ensures
            r == self.serializer_spec(),
    {
        match *self {
            SqlType::Char(_) => Ok(SqlTypeSerializer::Char),
            SqlType::VarChar(_) => Ok(SqlTypeSerializer::VarChar),
            SqlType::SmallInt => Ok(SqlTypeSerializer::SmallInt),
            SqlType::Integer => Ok(SqlTypeSerializer::Integer),
            SqlType::BigInt => Ok(SqlTypeSerializer::BigInt),
            sql_type => Err(UnsupportedType(sql_type)),
        }
    }
}

/// A per-type validator of textual input.
pub trait Constraint {
    /// What `validate` returns, as a function of the input's characters.
    spec fn validate_spec(&self, s: Seq<char>) -> Result<(), ConstraintError>;

    /// Classify a textual input as acceptable or as a constraint violation.
    fn validate(&self, in_value: &str) -> (r: Result<(), ConstraintError>)
        ensures
            r == self.validate_spec(in_value@),
    ;
}

/// A per-type codec between textual input and the stored byte sequence.
/// Encoding is defined only on input the matching constraint accepted;
/// decoding only on byte sequences of the codec's own making (long enough
/// for the integer widths, well-formed UTF-8 for the string types).
pub trait Serializer {
    /// The inputs `ser` may be called on.
    spec fn ser_ok(&self, s: Seq<char>) -> bool;

    /// The bytes `ser` produces.
    spec fn ser_spec(&self, s: Seq<char>) -> Seq<u8>;

    /// The byte sequences `des` may be called on.
    spec fn des_ok(&self, b: Seq<u8>) -> bool;

    /// The text `des` yields.
    spec fn des_spec(&self, b: Seq<u8>) -> Seq<char>;

    /// Serialize a validated textual input to its storage bytes.
    fn ser(&self, in_value: &str) -> (r: Vec<u8>)
        requires
            self.ser_ok(in_value@),
        ensures
            r@ == self.ser_spec(in_value@),
    ;

    /// Deserialize storage bytes back to their textual form.
    fn des(&self, out_value: &[u8]) -> (r: String)
        requires
            self.des_ok(out_value@),
        ensures
            r@ == self.des_spec(out_value@),
    ;
}

/// The validator of a supported type; the string validators carry the
/// declared column length.
#[derive(PartialEq, Eq, Structural, Debug, Copy, Clone)]
pub enum SqlTypeConstraint {
    SmallInt,
    Integer,
    BigInt,
    Char(u64),
    VarChar(u64),
}

impl Constraint for SqlTypeConstraint {
    open spec fn validate_spec(&self, s: Seq<char>) -> Result<(), ConstraintError> {
        match *self {
            SqlTypeConstraint::SmallInt => int_classify(s, -32768, 32767),
            SqlTypeConstraint::Integer => int_classify(s, -2147483648, 2147483647),
            SqlTypeConstraint::BigInt => int_classify(
                s,
                -9223372036854775808,
                9223372036854775807,
            ),
            SqlTypeConstraint::Char(length) => str_classify(s, length as nat),
            SqlTypeConstraint::VarChar(length) => str_classify(s, length as nat),
        }
    }

    fn validate(&self, in_value: &str) -> (r: Result<(), ConstraintError>) {
        match *self {
            SqlTypeConstraint::SmallInt => validate_int_range(in_value, 32768, 32767),
            SqlTypeConstraint::Integer => validate_int_range(in_value, 2147483648, 2147483647),
            SqlTypeConstraint::BigInt => validate_int_range(
                in_value,
                9223372036854775808,
                9223372036854775807,
            ),
            SqlTypeConstraint::Char(length) => validate_str_len(in_value, length),
            SqlTypeConstraint::VarChar(length) => validate_str_len(in_value, length),
        }
    }
}

/// The codec of a supported type. The string codecs need no length: they
/// neither pad nor cut.
#[derive(PartialEq, Eq, Structural, Debug, Copy, Clone)]
pub enum SqlTypeSerializer {
    SmallInt,
    Integer,
    BigInt,
    Char,
    VarChar,
}

impl Serializer for SqlTypeSerializer {
    open spec fn ser_ok(&self, s: Seq<char>) -> bool {
        match *self {
            SqlTypeSerializer::SmallInt => int_classify(s, -32768, 32767) is Ok,
            SqlTypeSerializer::Integer => int_classify(s, -2147483648, 2147483647) is Ok,
            SqlTypeSerializer::BigInt => int_classify(
                s,
                -9223372036854775808,
                9223372036854775807,
            ) is Ok,
            SqlTypeSerializer::Char => true,
            SqlTypeSerializer::VarChar => true,
        }
    }

    open spec fn ser_spec(&self, s: Seq<char>) -> Seq<u8> {
        match *self {
            SqlTypeSerializer::SmallInt => int_be_bytes(int_literal_val(s), 2),
            SqlTypeSerializer::Integer => int_be_bytes(int_literal_val(s), 4),
            SqlTypeSerializer::BigInt => int_be_bytes(int_literal_val(s), 8),
            SqlTypeSerializer::Char => encode_utf8(trim_end_spec(s)),
            SqlTypeSerializer::VarChar => encode_utf8(trim_end_spec(s)),
        }
    }

    open spec fn des_ok(&self, b: Seq<u8>) -> bool {
        match *self {
            SqlTypeSerializer::SmallInt => b.len() >= 2,
            SqlTypeSerializer::Integer => b.len() >= 4,
            SqlTypeSerializer::BigInt => b.len() >= 8,
            SqlTypeSerializer::Char => valid_utf8(b),
            SqlTypeSerializer::VarChar => valid_utf8(b),
        }
    }

    open spec fn des_spec(&self, b: Seq<u8>) -> Seq<char> {
        match *self {
            SqlTypeSerializer::SmallInt => int_dec_chars(twos_complement(be_val(b.take(2)), 2)),
            SqlTypeSerializer::Integer => int_dec_chars(twos_complement(be_val(b.take(4)), 4)),
            SqlTypeSerializer::BigInt => int_dec_chars(twos_complement(be_val(b.take(8)), 8)),
            SqlTypeSerializer::Char => decode_utf8(b),
            SqlTypeSerializer::VarChar => decode_utf8(b),
        }
    }

    fn ser(&self, in_value: &str) -> (r: Vec<u8>) {
        proof {
            lemma_pow256_values();
        }
        match *self {
            SqlTypeSerializer::SmallInt => {
                let v = parse_int_range(in_value, 32768, 32767);
                encode_int_be(v, 2)
            },
            SqlTypeSerializer::Integer => {
                let v = parse_int_range(in_value, 2147483648, 2147483647);
                encode_int_be(v, 4)
            },
            SqlTypeSerializer::BigInt => {
                let v = parse_int_range(in_value, 9223372036854775808, 9223372036854775807);
                encode_int_be(v, 8)
            },
            SqlTypeSerializer::Char => encode_string(in_value),
            SqlTypeSerializer::VarChar => encode_string(in_value),
        }
    }

    fn des(&self, out_value: &[u8]) -> (r: String) {
        match *self {
            SqlTypeSerializer::SmallInt => i64_to_dec_string(decode_int_be(out_value, 2)),
            SqlTypeSerializer::Integer => i64_to_dec_string(decode_int_be(out_value, 4)),
            SqlTypeSerializer::BigInt => i64_to_dec_string(decode_int_be(out_value, 8)),
            SqlTypeSerializer::Char => decode_string(out_value),
            SqlTypeSerializer::VarChar => decode_string(out_value),
        }
    }
}

// ---------------------------------------------------------------------------
// Laws of the type catalog
// ---------------------------------------------------------------------------

/// Every `SqlType` that has a constraint also has a serializer, and vice
/// versa; a variant that lacks them fails with the `UnsupportedType` signal
/// carrying that variant.
pub proof fn lemma_constraint_iff_serializer(t: SqlType)
    ensures
        t.constraint_spec() is Ok <==> t.serializer_spec() is Ok,
        t.constraint_spec() is Err ==> t.constraint_spec() == Err::<
            SqlTypeConstraint,
            UnsupportedType,
        >(UnsupportedType(t)),
        t.serializer_spec() is Err ==> t.serializer_spec() == Err::<
            SqlTypeSerializer,
            UnsupportedType,
        >(UnsupportedType(t)),
{
}

/// Integer width: the integer codecs emit exactly 2, 4, and 8 bytes.
pub proof fn lemma_integer_width(s: Seq<char>)
    ensures
        SqlTypeSerializer::SmallInt.ser_spec(s).len() == 2,
        SqlTypeSerializer::Integer.ser_spec(s).len() == 4,
        SqlTypeSerializer::BigInt.ser_spec(s).len() == 8,
{
}

/// Integer round trip: for every supported integer type and every input its
/// constraint accepts, decoding the encoding yields the canonical form of
/// the input — leading zeros dropped and `-0` collapsed to `0` (a leading
/// `+` never reaches the codec: the constraint rejects it).
pub proof fn lemma_integer_round_trip(t: SqlType, s: Seq<char>)
    requires
        t == SqlType::SmallInt || t == SqlType::Integer || t == SqlType::BigInt,
        t.constraint_spec() matches Ok(c) && c.validate_spec(s) == Ok::<(), ConstraintError>(()),
    ensures
        t.serializer_spec() matches Ok(sz) && {
            &&& sz.ser_ok(s)
            &&& sz.des_ok(sz.ser_spec(s))
            &&& sz.des_spec(sz.ser_spec(s)) == canonical_int(s)
        },
{
    lemma_pow256_values();
    let w: nat = if t == SqlType::SmallInt {
        2
    } else if t == SqlType::Integer {
        4
    } else {
        8
    };
    let v = int_literal_val(s);
    let bytes = int_be_bytes(v, w);
    assert(bytes.take(w as int) =~= bytes);
    crate::numeric::lemma_twos_complement_round_trip(v, w);
    crate::numeric::lemma_print_parse(s);
}

/// Integer classification: an input with a character that is neither a
/// decimal digit nor a leading minus sign — a decimal point in particular —
/// is `NotAnInt` for every integer constraint.
pub proof fn lemma_integer_classification(c: SqlTypeConstraint, s: Seq<char>, i: int)
    requires
        c == SqlTypeConstraint::SmallInt || c == SqlTypeConstraint::Integer || c
            == SqlTypeConstraint::BigInt,
        0 <= i < s.len(),
        (!is_dec_digit(s[i]) && !(i == 0 && s[i] == '-')) || s[i] == '.',
    ensures
        c.validate_spec(s) == Err::<(), ConstraintError>(ConstraintError::NotAnInt),
{
    let (lo, hi): (int, int) = if c == SqlTypeConstraint::SmallInt {
        (-32768, 32767)
    } else if c == SqlTypeConstraint::Integer {
        (-2147483648, 2147483647)
    } else {
        (-9223372036854775808, 9223372036854775807)
    };
    if s[i] == '.' {
        crate::numeric::lemma_decimal_point_not_an_int(s, lo, hi, i);
    } else {
        crate::numeric::lemma_int_classification(s, lo, hi, i);
    }
}

/// Integer range boundaries: for each integer type the two endpoints of its
/// range validate `Ok`, and the values one beyond each endpoint validate
/// `OutOfRange`.
#[verifier::rlimit(100)]
pub proof fn lemma_integer_range_boundaries()
    ensures
        SqlTypeConstraint::SmallInt.validate_spec("32767"@) == Ok::<(), ConstraintError>(()),
        SqlTypeConstraint::SmallInt.validate_spec("-32768"@) == Ok::<(), ConstraintError>(()),
        SqlTypeConstraint::SmallInt.validate_spec("32768"@) == Err::<(), ConstraintError>(
            ConstraintError::OutOfRange,
        ),
        SqlTypeConstraint::SmallInt.validate_spec("-32769"@) == Err::<(), ConstraintError>(
            ConstraintError::OutOfRange,
        ),
        SqlTypeConstraint::Integer.validate_spec("2147483647"@) == Ok::<(), ConstraintError>(()),
        SqlTypeConstraint::Integer.validate_spec("-2147483648"@) == Ok::<(), ConstraintError>(()),
        SqlTypeConstraint::Integer.validate_spec("2147483648"@) == Err::<(), ConstraintError>(
            ConstraintError::OutOfRange,
        ),
        SqlTypeConstraint::Integer.validate_spec("-2147483649"@) == Err::<(), ConstraintError>(
            ConstraintError::OutOfRange,
        ),
        SqlTypeConstraint::BigInt.validate_spec("9223372036854775807"@) == Ok::<
            (),
            ConstraintError,
        >(()),
        SqlTypeConstraint::BigInt.validate_spec("-9223372036854775808"@) == Ok::<
            (),
            ConstraintError,
        >(()),
        SqlTypeConstraint::BigInt.validate_spec("9223372036854775808"@) == Err::<
            (),
            ConstraintError,
        >(ConstraintError::OutOfRange),
        SqlTypeConstraint::BigInt.validate_spec("-9223372036854775809"@) == Err::<
            (),
            ConstraintError,
        >(ConstraintError::OutOfRange),
{
    reveal_strlit("32767");
    reveal_strlit("-32768");
    reveal_strlit("32768");
    reveal_strlit("-32769");
    reveal_strlit("2147483647");
    reveal_strlit("-2147483648");
    reveal_strlit("2147483648");
    reveal_strlit("-2147483649");
    reveal_strlit("9223372036854775807");
    reveal_strlit("-9223372036854775808");
    reveal_strlit("9223372036854775808");
    reveal_strlit("-9223372036854775809");
    reveal_with_fuel(crate::numeric::digits_val, 21);
}

/// String length: an input validates `Ok` exactly when the byte length of
/// its trimmed form is at most the declared length, and `ValueTooLong`
/// otherwise; `Char` and `VarChar` agree.
pub proof fn lemma_string_length(length: u64, s: Seq<char>)
    ensures
        SqlTypeConstraint::Char(length).validate_spec(s) == SqlTypeConstraint::VarChar(
            length,
        ).validate_spec(s),
        (SqlTypeConstraint::Char(length).validate_spec(s) == Ok::<(), ConstraintError>(()))
            <==> encode_utf8(trim_end_spec(s)).len() <= length,
        (SqlTypeConstraint::Char(length).validate_spec(s) == Err::<(), ConstraintError>(
            ConstraintError::ValueTooLong,
        )) <==> encode_utf8(trim_end_spec(s)).len() > length,
{
}

/// String round trip: for `Char` and `VarChar` alike, decoding the encoding
/// of any input yields the input with trailing ASCII whitespace removed.
pub proof fn lemma_string_round_trip(sz: SqlTypeSerializer, s: Seq<char>)
    requires
        sz == SqlTypeSerializer::Char || sz == SqlTypeSerializer::VarChar,
    ensures
        sz.ser_ok(s),
        sz.des_ok(sz.ser_spec(s)),
        sz.des_spec(sz.ser_spec(s)) == trim_end_spec(s),
{
    crate::text::lemma_string_round_trip(s);
}

} // verus!
