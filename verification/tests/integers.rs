use poem_openapi::error::ParseError;
use poem_openapi::text::integer_text;
use poem_openapi::json::{JsonNumber, JsonValue};
use poem_openapi::registry::{MetaSchema, MetaSchemaRef, Registry};
use poem_openapi::types::{
    parse_parameter, ParseFromJSON, ParseFromMultipartField, ParseFromParameter, ToJSON, Type,
};
use poem_openapi::ParseRequestError;

fn signed(n: i64) -> JsonValue {
    JsonValue::Number(JsonNumber::from_i64(n))
}

fn unsigned(n: u64) -> JsonValue {
    JsonValue::Number(JsonNumber::from_u64(n))
}

fn custom(message: &str) -> ParseError {
    ParseError::Custom(message.to_string())
}

#[test]
fn i32_parameter_above_max_is_out_of_range() {
    let r = <i32 as ParseFromParameter>::parse_from_parameter(Some("2147483648"));
    assert_eq!(r, Err(ParseError::OutOfRange { min: -2147483648, max: 2147483647 }));
}

#[test]
fn i32_parameter_below_min_is_out_of_range() {
    let r = <i32 as ParseFromParameter>::parse_from_parameter(Some("-2147483649"));
    assert_eq!(r, Err(ParseError::OutOfRange { min: -2147483648, max: 2147483647 }));
}

#[test]
fn i32_parameter_at_the_bounds() {
    assert_eq!(i32::parse_from_parameter(Some("2147483647")), Ok(2147483647));
    assert_eq!(i32::parse_from_parameter(Some("-2147483648")), Ok(-2147483648));
}

#[test]
fn parameter_missing_is_expected_input() {
    assert_eq!(i8::parse_from_parameter(None), Err(ParseError::ExpectedInput));
    assert_eq!(i16::parse_from_parameter(None), Err(ParseError::ExpectedInput));
    assert_eq!(i32::parse_from_parameter(None), Err(ParseError::ExpectedInput));
    assert_eq!(i64::parse_from_parameter(None), Err(ParseError::ExpectedInput));
    assert_eq!(u8::parse_from_parameter(None), Err(ParseError::ExpectedInput));
    assert_eq!(u16::parse_from_parameter(None), Err(ParseError::ExpectedInput));
    assert_eq!(u32::parse_from_parameter(None), Err(ParseError::ExpectedInput));
    assert_eq!(u64::parse_from_parameter(None), Err(ParseError::ExpectedInput));
}

#[test]
fn parameter_with_a_sign() {
    assert_eq!(i8::parse_from_parameter(Some("+5")), Ok(5));
    assert_eq!(i8::parse_from_parameter(Some("-5")), Ok(-5));
    assert_eq!(u8::parse_from_parameter(Some("+5")), Ok(5));
    assert_eq!(i8::parse_from_parameter(Some("-0")), Ok(0));
    assert_eq!(i16::parse_from_parameter(Some("007")), Ok(7));
}

#[test]
fn parameter_minus_is_malformed_for_unsigned() {
    assert_eq!(u8::parse_from_parameter(Some("-5")), Err(custom("invalid digit found in string")));
    assert_eq!(u64::parse_from_parameter(Some("-0")), Err(custom("invalid digit found in string")));
}

#[test]
fn parameter_malformed_text() {
    let invalid = custom("invalid digit found in string");
    assert_eq!(i32::parse_from_parameter(Some("abc")), Err(custom("invalid digit found in string")));
    assert_eq!(i32::parse_from_parameter(Some("12a")), Err(custom("invalid digit found in string")));
    assert_eq!(i32::parse_from_parameter(Some(" 12")), Err(custom("invalid digit found in string")));
    assert_eq!(i32::parse_from_parameter(Some("1_000")), Err(custom("invalid digit found in string")));
    assert_eq!(i32::parse_from_parameter(Some("+")), Err(custom("invalid digit found in string")));
    assert_eq!(i32::parse_from_parameter(Some("-")), Err(custom("invalid digit found in string")));
    assert_eq!(i32::parse_from_parameter(Some("+-1")), Err(custom("invalid digit found in string")));
    assert_eq!(i32::parse_from_parameter(Some("1.5")), Err(custom("invalid digit found in string")));
    assert_eq!(i32::parse_from_parameter(Some("\u{664}\u{662}")), Err(invalid));
    assert_eq!(
        i32::parse_from_parameter(Some("99999999999999999999999999999999999999999999x")),
        Err(custom("invalid digit found in string"))
    );
}

#[test]
fn parameter_empty_text() {
    assert_eq!(
        u16::parse_from_parameter(Some("")),
        Err(custom("cannot parse integer from empty string"))
    );
}

#[test]
fn parameter_far_out_of_range() {
    let huge = "340282366920938463463374607431768211456340282366920938463463374607431768211456";
    assert_eq!(
        u64::parse_from_parameter(Some(huge)),
        Err(ParseError::OutOfRange { min: 0, max: 18446744073709551615 })
    );
    let tiny = "-340282366920938463463374607431768211456340282366920938463463374607431768211456";
    assert_eq!(
        i64::parse_from_parameter(Some(tiny)),
        Err(ParseError::OutOfRange { min: -9223372036854775808, max: 9223372036854775807 })
    );
    assert_eq!(
        u64::parse_from_parameter(Some("18446744073709551616")),
        Err(ParseError::OutOfRange { min: 0, max: 18446744073709551615 })
    );
    assert_eq!(u64::parse_from_parameter(Some("18446744073709551615")), Ok(u64::MAX));
    assert_eq!(
        i64::parse_from_parameter(Some("-18446744073709551615")),
        Err(ParseError::OutOfRange { min: -9223372036854775808, max: 9223372036854775807 })
    );
    assert_eq!(i64::parse_from_parameter(Some("-9223372036854775808")), Ok(i64::MIN));
    assert_eq!(
        i64::parse_from_parameter(Some("9223372036854775808")),
        Err(ParseError::OutOfRange { min: -9223372036854775808, max: 9223372036854775807 })
    );
}

#[test]
fn parameter_bounds_of_the_small_types() {
    assert_eq!(i8::parse_from_parameter(Some("127")), Ok(127));
    assert_eq!(i8::parse_from_parameter(Some("-128")), Ok(-128));
    assert_eq!(
        i8::parse_from_parameter(Some("128")),
        Err(ParseError::OutOfRange { min: -128, max: 127 })
    );
    assert_eq!(
        i8::parse_from_parameter(Some("-129")),
        Err(ParseError::OutOfRange { min: -128, max: 127 })
    );
    assert_eq!(u8::parse_from_parameter(Some("255")), Ok(255));
    assert_eq!(u8::parse_from_parameter(Some("256")), Err(ParseError::OutOfRange { min: 0, max: 255 }));
    assert_eq!(u16::parse_from_parameter(Some("65535")), Ok(65535));
    assert_eq!(
        u16::parse_from_parameter(Some("65536")),
        Err(ParseError::OutOfRange { min: 0, max: 65535 })
    );
    assert_eq!(
        i16::parse_from_parameter(Some("-32769")),
        Err(ParseError::OutOfRange { min: -32768, max: 32767 })
    );
    assert_eq!(u32::parse_from_parameter(Some("4294967295")), Ok(4294967295));
    assert_eq!(
        u32::parse_from_parameter(Some("4294967296")),
        Err(ParseError::OutOfRange { min: 0, max: 4294967295 })
    );
}

#[test]
fn json_accepts_the_closed_range_i8() {
    assert_eq!(i8::parse_from_json(signed(-128)), Ok(-128));
    assert_eq!(i8::parse_from_json(signed(127)), Ok(127));
    assert_eq!(i8::parse_from_json(signed(-129)), Err(ParseError::OutOfRange { min: -128, max: 127 }));
    assert_eq!(i8::parse_from_json(signed(128)), Err(ParseError::OutOfRange { min: -128, max: 127 }));
}

#[test]
fn json_accepts_the_closed_range_i16() {
    assert_eq!(i16::parse_from_json(signed(-32768)), Ok(-32768));
    assert_eq!(i16::parse_from_json(signed(32767)), Ok(32767));
    assert_eq!(
        i16::parse_from_json(signed(-32769)),
        Err(ParseError::OutOfRange { min: -32768, max: 32767 })
    );
    assert_eq!(
        i16::parse_from_json(signed(32768)),
        Err(ParseError::OutOfRange { min: -32768, max: 32767 })
    );
}

#[test]
fn json_accepts_the_closed_range_i32() {
    assert_eq!(i32::parse_from_json(signed(-2147483648)), Ok(-2147483648));
    assert_eq!(i32::parse_from_json(signed(2147483647)), Ok(2147483647));
    assert_eq!(
        i32::parse_from_json(signed(-2147483649)),
        Err(ParseError::OutOfRange { min: -2147483648, max: 2147483647 })
    );
    assert_eq!(
        i32::parse_from_json(signed(2147483648)),
        Err(ParseError::OutOfRange { min: -2147483648, max: 2147483647 })
    );
}

#[test]
fn json_accepts_the_closed_range_i64() {
    assert_eq!(i64::parse_from_json(signed(i64::MIN)), Ok(i64::MIN));
    assert_eq!(i64::parse_from_json(signed(i64::MAX)), Ok(i64::MAX));
    assert_eq!(
        i64::parse_from_json(unsigned(9223372036854775808)),
        Err(ParseError::OutOfRange { min: -9223372036854775808, max: 9223372036854775807 })
    );
}

#[test]
fn json_accepts_the_closed_range_unsigned() {
    assert_eq!(u8::parse_from_json(unsigned(0)), Ok(0));
    assert_eq!(u8::parse_from_json(unsigned(255)), Ok(255));
    assert_eq!(u8::parse_from_json(unsigned(256)), Err(ParseError::OutOfRange { min: 0, max: 255 }));
    assert_eq!(u8::parse_from_json(signed(-1)), Err(ParseError::OutOfRange { min: 0, max: 255 }));
    assert_eq!(u16::parse_from_json(unsigned(65535)), Ok(65535));
    assert_eq!(u16::parse_from_json(unsigned(65536)), Err(ParseError::OutOfRange { min: 0, max: 65535 }));
    assert_eq!(u16::parse_from_json(signed(-1)), Err(ParseError::OutOfRange { min: 0, max: 65535 }));
    assert_eq!(u32::parse_from_json(unsigned(4294967295)), Ok(4294967295));
    assert_eq!(
        u32::parse_from_json(unsigned(4294967296)),
        Err(ParseError::OutOfRange { min: 0, max: 4294967295 })
    );
    assert_eq!(u64::parse_from_json(unsigned(u64::MAX)), Ok(u64::MAX));
    assert_eq!(
        u64::parse_from_json(signed(-1)),
        Err(ParseError::OutOfRange { min: 0, max: 18446744073709551615 })
    );
}

#[test]
fn json_of_another_kind_is_the_wrong_type() {
    assert_eq!(
        i32::parse_from_json(JsonValue::String("12".to_string())),
        Err(ParseError::ExpectedType { actual: JsonValue::String("12".to_string()) })
    );
    assert_eq!(
        u8::parse_from_json(JsonValue::Null),
        Err(ParseError::ExpectedType { actual: JsonValue::Null })
    );
    assert_eq!(
        i64::parse_from_json(JsonValue::Bool(true)),
        Err(ParseError::ExpectedType { actual: JsonValue::Bool(true) })
    );
    assert_eq!(
        u64::parse_from_json(JsonValue::Array(vec![signed(1)])),
        Err(ParseError::ExpectedType { actual: JsonValue::Array(vec![signed(1)]) })
    );
    assert_eq!(
        i16::parse_from_json(JsonValue::Object(vec![("a".to_string(), signed(1))])),
        Err(ParseError::ExpectedType {
            actual: JsonValue::Object(vec![("a".to_string(), signed(1))])
        })
    );
}

#[test]
fn json_number_that_is_no_integer_is_invalid() {
    let one_and_a_half = JsonValue::Number(JsonNumber::Float(1.5f64.to_bits()));
    assert_eq!(i32::parse_from_json(one_and_a_half), Err(custom("invalid integer")));
    let two = JsonValue::Number(JsonNumber::Float(2.0f64.to_bits()));
    assert_eq!(u32::parse_from_json(two), Err(custom("invalid integer")));
}

#[test]
fn json_round_trip() {
    for v in [i8::MIN, -1, 0, 1, i8::MAX] {
        assert_eq!(i8::parse_from_json(v.to_json()), Ok(v));
    }
    for v in [i16::MIN, -1, 0, 1, i16::MAX] {
        assert_eq!(i16::parse_from_json(v.to_json()), Ok(v));
    }
    for v in [i32::MIN, -1, 0, 1, i32::MAX] {
        assert_eq!(i32::parse_from_json(v.to_json()), Ok(v));
    }
    for v in [i64::MIN, -1, 0, 1, i64::MAX] {
        assert_eq!(i64::parse_from_json(v.to_json()), Ok(v));
    }
    for v in [0, 1, u8::MAX] {
        assert_eq!(u8::parse_from_json(v.to_json()), Ok(v));
    }
    for v in [0, 1, u16::MAX] {
        assert_eq!(u16::parse_from_json(v.to_json()), Ok(v));
    }
    for v in [0, 1, u32::MAX] {
        assert_eq!(u32::parse_from_json(v.to_json()), Ok(v));
    }
    for v in [0, 1, u64::MAX] {
        assert_eq!(u64::parse_from_json(v.to_json()), Ok(v));
    }
}

#[test]
fn to_json_writes_a_number() {
    assert_eq!(5i32.to_json(), JsonValue::Number(JsonNumber::PosInt(5)));
    assert_eq!((-5i32).to_json(), JsonValue::Number(JsonNumber::NegInt(-5)));
    assert_eq!(0i64.to_json(), JsonValue::Number(JsonNumber::PosInt(0)));
    assert_eq!(7u8.to_json(), JsonValue::Number(JsonNumber::PosInt(7)));
    assert_eq!(u64::MAX.to_json(), JsonValue::Number(JsonNumber::PosInt(u64::MAX)));
}

#[test]
fn names_have_the_kind_and_the_format() {
    assert_eq!(i8::name(), "integer(int8)");
    assert_eq!(i16::name(), "integer(int16)");
    assert_eq!(i32::name(), "integer(int32)");
    assert_eq!(i64::name(), "integer(int64)");
    assert_eq!(u8::name(), "integer(uint8)");
    assert_eq!(u16::name(), "integer(uint16)");
    assert_eq!(u32::name(), "integer(uint32)");
    assert_eq!(u64::name(), "integer(uint64)");
    assert_eq!(String::name(), "string");
}

#[test]
fn schema_ref_is_inline_and_the_same_at_every_call() {
    let expected = MetaSchemaRef::Inline(Box::new(MetaSchema {
        ty: "integer",
        format: Some("int32"),
    }));
    assert_eq!(i32::schema_ref(), expected);
    assert_eq!(i32::schema_ref(), i32::schema_ref());
    assert_eq!(
        u64::schema_ref(),
        MetaSchemaRef::Inline(Box::new(MetaSchema::new_with_format("integer", "uint64")))
    );
    assert_eq!(String::schema_ref(), MetaSchemaRef::Inline(Box::new(MetaSchema::new("string"))));
    assert_eq!(String::schema_ref(), String::schema_ref());
}

#[test]
fn registering_an_integer_twice_changes_nothing() {
    let mut registry = Registry::new();
    registry.create_schema("Pet", MetaSchema::new("object"));
    i32::register(&mut registry);
    assert_eq!(registry.len(), 1);
    i32::register(&mut registry);
    assert_eq!(registry.len(), 1);
    assert_eq!(registry.resolve("Pet"), &MetaSchema::new("object"));
}

#[test]
fn multipart_field() {
    assert_eq!(i32::parse_from_multipart(None), Err(ParseError::ExpectedInput));
    assert_eq!(i32::parse_from_multipart(Some(Ok("42".to_string()))), Ok(42));
    assert_eq!(
        i32::parse_from_multipart(Some(Err("connection reset".to_string()))),
        Err(custom("connection reset"))
    );
    assert_eq!(
        u8::parse_from_multipart(Some(Ok("256".to_string()))),
        Err(ParseError::OutOfRange { min: 0, max: 255 })
    );
    assert_eq!(
        u8::parse_from_multipart(Some(Ok("x".to_string()))),
        Err(custom("invalid digit found in string"))
    );
}

#[test]
fn parameter_of_a_request() {
    assert_eq!(parse_parameter::<u8>("limit", Some("20")), Ok(20));
    assert_eq!(
        parse_parameter::<u8>("limit", Some("300")),
        Err(ParseRequestError::ParseParam {
            name: "limit".to_string(),
            error: ParseError::OutOfRange { min: 0, max: 255 },
        })
    );
    assert_eq!(
        parse_parameter::<i64>("offset", None),
        Err(ParseRequestError::ParseParam {
            name: "offset".to_string(),
            error: ParseError::ExpectedInput,
        })
    );
}

#[test]
fn integers_as_text() {
    assert_eq!(integer_text(0), "0");
    assert_eq!(integer_text(7), "7");
    assert_eq!(integer_text(10), "10");
    assert_eq!(integer_text(-1), "-1");
    assert_eq!(integer_text(1234567890), "1234567890");
    assert_eq!(integer_text(-2147483648), "-2147483648");
    assert_eq!(integer_text(18446744073709551615), "18446744073709551615");
    assert_eq!(integer_text(i128::MAX), "170141183460469231731687303715884105727");
    assert_eq!(integer_text(i128::MIN), "-170141183460469231731687303715884105728");
    for n in [0i128, 9, 10, 99, 100, 101, -9, -10, -100, 4096, -65535] {
        assert_eq!(integer_text(n), n.to_string());
    }
}

#[test]
fn messages_of_the_errors() {
    assert_eq!(
        i32::parse_from_parameter(Some("2147483648")).unwrap_err().message(),
        "Only integers from -2147483648 to 2147483647 are accepted."
    );
    assert_eq!(
        u8::parse_from_json(signed(-1)).unwrap_err().message(),
        "Only integers from 0 to 255 are accepted."
    );
    assert_eq!(
        u64::parse_from_json(signed(-1)).unwrap_err().message(),
        "Only integers from 0 to 18446744073709551615 are accepted."
    );
    assert_eq!(
        i64::parse_from_json(unsigned(u64::MAX)).unwrap_err().message(),
        "Only integers from -9223372036854775808 to 9223372036854775807 are accepted."
    );
    assert_eq!(ParseError::ExpectedInput.message(), "Expected an input value.");
    assert_eq!(custom("invalid integer").message(), "invalid integer");
    assert_eq!(
        ParseError::ExpectedType { actual: JsonValue::Null }.message(),
        "Expected another input type, found null."
    );
    assert_eq!(
        ParseError::ExpectedType { actual: JsonValue::Bool(false) }.message(),
        "Expected another input type, found a boolean."
    );
    assert_eq!(
        ParseError::ExpectedType { actual: signed(1) }.message(),
        "Expected another input type, found a number."
    );
    assert_eq!(
        i32::parse_from_json(JsonValue::String("12".to_string())).unwrap_err().message(),
        "Expected another input type, found a string."
    );
    assert_eq!(
        ParseError::ExpectedType { actual: JsonValue::Array(vec![]) }.message(),
        "Expected another input type, found an array."
    );
    assert_eq!(
        ParseError::ExpectedType { actual: JsonValue::Object(vec![]) }.message(),
        "Expected another input type, found an object."
    );
}
