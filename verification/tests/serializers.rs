use sql_types::{Serializer, SqlType, SqlTypeSerializer, UnsupportedType};

#[test]
fn small_int_serialize() {
    let serializer = SqlType::SmallInt.serializer().unwrap();
    assert_eq!(serializer.ser("1"), vec![0, 1]);
}

#[test]
fn small_int_deserialize() {
    let serializer = SqlType::SmallInt.serializer().unwrap();
    assert_eq!(serializer.des(&[0, 1]), "1".to_owned());
}

#[test]
fn small_int_width_and_boundaries() {
    let serializer = SqlType::SmallInt.serializer().unwrap();
    assert_eq!(serializer.ser("32767"), vec![0x7f, 0xff]);
    assert_eq!(serializer.ser("-32768"), vec![0x80, 0x00]);
    assert_eq!(serializer.ser("-1"), vec![0xff, 0xff]);
    assert_eq!(serializer.ser("0"), vec![0, 0]);
    assert_eq!(serializer.ser("300").len(), 2);
    assert_eq!(serializer.des(&[0x7f, 0xff]), "32767".to_owned());
    assert_eq!(serializer.des(&[0x80, 0x00]), "-32768".to_owned());
    assert_eq!(serializer.des(&[0xff, 0xff]), "-1".to_owned());
}

#[test]
fn integer_serialize() {
    let serializer = SqlType::Integer.serializer().unwrap();
    assert_eq!(serializer.ser("1"), vec![0, 0, 0, 1]);
}

#[test]
fn integer_deserialize() {
    let serializer = SqlType::Integer.serializer().unwrap();
    assert_eq!(serializer.des(&[0, 0, 0, 1]), "1".to_owned());
}

#[test]
fn integer_width_and_boundaries() {
    let serializer = SqlType::Integer.serializer().unwrap();
    assert_eq!(serializer.ser("2147483647"), vec![0x7f, 0xff, 0xff, 0xff]);
    assert_eq!(serializer.ser("-2147483648"), vec![0x80, 0, 0, 0]);
    assert_eq!(serializer.ser("-1"), vec![0xff, 0xff, 0xff, 0xff]);
    assert_eq!(serializer.ser("5").len(), 4);
    assert_eq!(serializer.des(&[0x7f, 0xff, 0xff, 0xff]), "2147483647".to_owned());
    assert_eq!(serializer.des(&[0x80, 0, 0, 0]), "-2147483648".to_owned());
}

#[test]
fn big_int_serialize() {
    let serializer = SqlType::BigInt.serializer().unwrap();
    assert_eq!(serializer.ser("1"), vec![0, 0, 0, 0, 0, 0, 0, 1]);
}

#[test]
fn big_int_deserialize() {
    let serializer = SqlType::BigInt.serializer().unwrap();
    assert_eq!(serializer.des(&[0, 0, 0, 0, 0, 0, 0, 1]), "1".to_owned());
}

#[test]
fn big_int_width_and_boundaries() {
    let serializer = SqlType::BigInt.serializer().unwrap();
    assert_eq!(
        serializer.ser("9223372036854775807"),
        vec![0x7f, 0xff, 0xff, 0xff, 0xff, 0xff, 0xff, 0xff]
    );
    assert_eq!(
        serializer.ser("-9223372036854775808"),
        vec![0x80, 0, 0, 0, 0, 0, 0, 0]
    );
    assert_eq!(serializer.ser("12").len(), 8);
    assert_eq!(
        serializer.des(&[0x80, 0, 0, 0, 0, 0, 0, 0]),
        "-9223372036854775808".to_owned()
    );
}

#[test]
fn integer_round_trips_canonicalize() {
    let serializer = SqlType::SmallInt.serializer().unwrap();
    assert_eq!(serializer.des(&serializer.ser("007")), "7".to_owned());
    assert_eq!(serializer.des(&serializer.ser("-0")), "0".to_owned());
    assert_eq!(serializer.des(&serializer.ser("-042")), "-42".to_owned());
    assert_eq!(serializer.des(&serializer.ser("000")), "0".to_owned());
}

#[test]
fn integer_deserialize_ignores_extra_bytes() {
    let serializer = SqlType::SmallInt.serializer().unwrap();
    assert_eq!(serializer.des(&[0, 2, 99, 99]), "2".to_owned());
}

#[test]
fn char_serialize() {
    let serializer = SqlType::Char(10).serializer().unwrap();
    assert_eq!(serializer.ser("str"), vec![115, 116, 114]);
}

#[test]
fn char_deserialize() {
    let serializer = SqlType::Char(10).serializer().unwrap();
    assert_eq!(serializer.des(&[115, 116, 114]), "str".to_owned());
}

#[test]
fn char_serialize_trims_trailing_whitespace() {
    let serializer = SqlType::Char(10).serializer().unwrap();
    assert_eq!(serializer.ser("str   "), vec![115, 116, 114]);
    assert_eq!(serializer.ser("str\t\r\n"), vec![115, 116, 114]);
    // leading whitespace stays; no padding is added
    assert_eq!(serializer.ser(" a"), vec![32, 97]);
    assert_eq!(serializer.ser(""), Vec::<u8>::new());
}

#[test]
fn var_char_serialize() {
    let serializer = SqlType::VarChar(10).serializer().unwrap();
    assert_eq!(serializer.ser("str"), vec![115, 116, 114]);
}

#[test]
fn var_char_deserialize() {
    let serializer = SqlType::VarChar(10).serializer().unwrap();
    assert_eq!(serializer.des(&[115, 116, 114]), "str".to_owned());
}

#[test]
fn string_round_trip_multibyte() {
    let serializer = SqlType::VarChar(10).serializer().unwrap();
    let bytes = serializer.ser("héllo ");
    assert_eq!(serializer.des(&bytes), "héllo".to_owned());
}

#[test]
fn unsupported_types_have_no_serializer() {
    assert_eq!(
        SqlType::Bool.serializer(),
        Err(UnsupportedType(SqlType::Bool))
    );
    assert_eq!(
        SqlType::Timestamp.serializer(),
        Err(UnsupportedType(SqlType::Timestamp))
    );
    assert_eq!(
        SqlType::Interval.serializer(),
        Err(UnsupportedType(SqlType::Interval))
    );
    assert_eq!(SqlType::Char(7).serializer(), Ok(SqlTypeSerializer::Char));
    assert_eq!(
        SqlType::VarChar(7).serializer(),
        Ok(SqlTypeSerializer::VarChar)
    );
}
