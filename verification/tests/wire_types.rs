use sql_types::{PostgreSqlType, SqlType};

#[test]
fn boolean() {
    assert_eq!(SqlType::Bool.to_pg_types(), PostgreSqlType::Bool);
}

#[test]
fn small_int() {
    assert_eq!(SqlType::SmallInt.to_pg_types(), PostgreSqlType::SmallInt);
}

#[test]
fn integer() {
    assert_eq!(SqlType::Integer.to_pg_types(), PostgreSqlType::Integer);
}

#[test]
fn big_int() {
    assert_eq!(SqlType::BigInt.to_pg_types(), PostgreSqlType::BigInt);
}

#[test]
fn char() {
    assert_eq!(SqlType::Char(0).to_pg_types(), PostgreSqlType::Char);
    assert_eq!(SqlType::Char(10).to_pg_types(), PostgreSqlType::Char);
    assert_eq!(SqlType::Char(100).to_pg_types(), PostgreSqlType::Char);
}

#[test]
fn var_char() {
    assert_eq!(SqlType::VarChar(0).to_pg_types(), PostgreSqlType::VarChar);
    assert_eq!(SqlType::VarChar(10).to_pg_types(), PostgreSqlType::VarChar);
    assert_eq!(SqlType::VarChar(100).to_pg_types(), PostgreSqlType::VarChar);
}

#[test]
fn decimal() {
    assert_eq!(SqlType::Decimal.to_pg_types(), PostgreSqlType::Decimal);
}

#[test]
fn real_type() {
    assert_eq!(SqlType::Real.to_pg_types(), PostgreSqlType::Real);
}

#[test]
fn double_precision() {
    assert_eq!(
        SqlType::DoublePrecision.to_pg_types(),
        PostgreSqlType::DoublePrecision
    );
}

#[test]
fn time() {
    assert_eq!(SqlType::Time.to_pg_types(), PostgreSqlType::Time);
}

#[test]
fn time_with_time_zone() {
    assert_eq!(
        SqlType::TimeWithTimeZone.to_pg_types(),
        PostgreSqlType::TimeWithTimeZone
    );
}

#[test]
fn timestamp() {
    assert_eq!(SqlType::Timestamp.to_pg_types(), PostgreSqlType::Timestamp);
}

#[test]
fn timestamp_with_timezone() {
    assert_eq!(
        SqlType::TimestampWithTimeZone.to_pg_types(),
        PostgreSqlType::TimestampWithTimeZone
    );
}

#[test]
fn date() {
    assert_eq!(SqlType::Date.to_pg_types(), PostgreSqlType::Date);
}

#[test]
fn interval() {
    assert_eq!(SqlType::Interval.to_pg_types(), PostgreSqlType::Interval);
}
