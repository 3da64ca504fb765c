use sql_types::{Constraint, ConstraintError, SqlType, SqlTypeConstraint, UnsupportedType};

#[test]
fn small_int_in_range() {
    let constraint = SqlType::SmallInt.constraint().unwrap();
    assert_eq!(constraint.validate("1"), Ok(()));
    assert_eq!(constraint.validate("32767"), Ok(()));
    assert_eq!(constraint.validate("-32768"), Ok(()));
}

#[test]
fn small_int_out_of_range() {
    let constraint = SqlType::SmallInt.constraint().unwrap();
    assert_eq!(constraint.validate("32768"), Err(ConstraintError::OutOfRange));
    assert_eq!(constraint.validate("32769"), Err(ConstraintError::OutOfRange));
    assert_eq!(constraint.validate("-32769"), Err(ConstraintError::OutOfRange));
}

#[test]
fn small_int_a_float_number() {
    let constraint = SqlType::SmallInt.constraint().unwrap();
    assert_eq!(constraint.validate("-3276.9"), Err(ConstraintError::NotAnInt));
}

#[test]
fn small_int_a_string() {
    let constraint = SqlType::SmallInt.constraint().unwrap();
    assert_eq!(constraint.validate("str"), Err(ConstraintError::NotAnInt));
}

#[test]
fn small_int_malformed_literals() {
    let constraint = SqlType::SmallInt.constraint().unwrap();
    assert_eq!(constraint.validate(""), Err(ConstraintError::NotAnInt));
    assert_eq!(constraint.validate("-"), Err(ConstraintError::NotAnInt));
    assert_eq!(constraint.validate("+5"), Err(ConstraintError::NotAnInt));
    assert_eq!(constraint.validate(" 5"), Err(ConstraintError::NotAnInt));
    assert_eq!(constraint.validate("1e3"), Err(ConstraintError::NotAnInt));
}

#[test]
fn integer_in_range() {
    let constraint = SqlType::Integer.constraint().unwrap();
    assert_eq!(constraint.validate("1"), Ok(()));
    assert_eq!(constraint.validate("-2147483648"), Ok(()));
    assert_eq!(constraint.validate("2147483647"), Ok(()));
}

#[test]
fn integer_out_of_range() {
    let constraint = SqlType::Integer.constraint().unwrap();
    assert_eq!(constraint.validate("2147483648"), Err(ConstraintError::OutOfRange));
    assert_eq!(constraint.validate("2147483649"), Err(ConstraintError::OutOfRange));
    assert_eq!(constraint.validate("-2147483649"), Err(ConstraintError::OutOfRange));
}

#[test]
fn integer_a_float_number() {
    let constraint = SqlType::Integer.constraint().unwrap();
    assert_eq!(constraint.validate("-214748.3649"), Err(ConstraintError::NotAnInt));
}

#[test]
fn integer_a_string() {
    let constraint = SqlType::Integer.constraint().unwrap();
    assert_eq!(constraint.validate("str"), Err(ConstraintError::NotAnInt));
}

#[test]
fn big_int_in_range() {
    let constraint = SqlType::BigInt.constraint().unwrap();
    assert_eq!(constraint.validate("1"), Ok(()));
    assert_eq!(constraint.validate("-9223372036854775808"), Ok(()));
    assert_eq!(constraint.validate("9223372036854775807"), Ok(()));
}

#[test]
fn big_int_out_of_range() {
    let constraint = SqlType::BigInt.constraint().unwrap();
    assert_eq!(
        constraint.validate("9223372036854775808"),
        Err(ConstraintError::OutOfRange)
    );
    assert_eq!(
        constraint.validate("9223372036854775809"),
        Err(ConstraintError::OutOfRange)
    );
    assert_eq!(
        constraint.validate("-9223372036854775809"),
        Err(ConstraintError::OutOfRange)
    );
    assert_eq!(
        constraint.validate("99999999999999999999999999999"),
        Err(ConstraintError::OutOfRange)
    );
}

#[test]
fn big_int_a_float_number() {
    let constraint = SqlType::BigInt.constraint().unwrap();
    assert_eq!(constraint.validate("-3276.9"), Err(ConstraintError::NotAnInt));
}

#[test]
fn big_int_a_string() {
    let constraint = SqlType::BigInt.constraint().unwrap();
    assert_eq!(constraint.validate("str"), Err(ConstraintError::NotAnInt));
}

#[test]
fn char_in_length() {
    let constraint = SqlType::Char(10).constraint().unwrap();
    assert_eq!(constraint.validate("1"), Ok(()));
}

#[test]
fn char_too_long() {
    let constraint = SqlType::Char(10).constraint().unwrap();
    assert_eq!(
        constraint.validate("1".repeat(20).as_str()),
        Err(ConstraintError::ValueTooLong)
    );
}

#[test]
fn char_length_boundary() {
    let constraint = SqlType::Char(3).constraint().unwrap();
    assert_eq!(constraint.validate("abc"), Ok(()));
    assert_eq!(constraint.validate("abcd"), Err(ConstraintError::ValueTooLong));
    // trailing ASCII whitespace is trimmed before the length check
    assert_eq!(constraint.validate("abc   \t\n"), Ok(()));
    assert_eq!(constraint.validate(""), Ok(()));
}

#[test]
fn char_length_counts_bytes() {
    // the check compares the byte length of the trimmed input against the
    // declared character count
    let constraint = SqlType::Char(3).constraint().unwrap();
    assert_eq!(constraint.validate("é"), Ok(()));
    assert_eq!(constraint.validate("éé"), Err(ConstraintError::ValueTooLong));
}

#[test]
fn var_char_in_length() {
    let constraint = SqlType::VarChar(10).constraint().unwrap();
    assert_eq!(constraint.validate("1"), Ok(()));
}

#[test]
fn var_char_too_long() {
    let constraint = SqlType::VarChar(10).constraint().unwrap();
    assert_eq!(
        constraint.validate("1".repeat(20).as_str()),
        Err(ConstraintError::ValueTooLong)
    );
}

#[test]
fn unsupported_types_have_no_constraint() {
    assert_eq!(
        SqlType::Bool.constraint(),
        Err(UnsupportedType(SqlType::Bool))
    );
    assert_eq!(
        SqlType::Decimal.constraint(),
        Err(UnsupportedType(SqlType::Decimal))
    );
    assert_eq!(
        SqlType::Real.constraint(),
        Err(UnsupportedType(SqlType::Real))
    );
    assert_eq!(
        SqlType::Date.constraint(),
        Err(UnsupportedType(SqlType::Date))
    );
    assert!(SqlType::SmallInt.constraint().is_ok());
    assert_eq!(
        SqlType::Char(5).constraint(),
        Ok(SqlTypeConstraint::Char(5))
    );
}
