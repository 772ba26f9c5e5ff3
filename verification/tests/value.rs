use jnat::error::passed_on;
use jnat::value::{
    are_representable, decode_boolean, decode_char, encode_boolean, encode_char, fits_code_unit,
};
use jnat::{BridgeError, Value};
use jni::objects::{JObject, JValueGen};

#[test]
fn boolean_goes_as_one_or_zero() {
    assert_eq!(encode_boolean(true), 1);
    assert_eq!(encode_boolean(false), 0);
}

#[test]
fn any_byte_but_zero_is_true() {
    assert!(!decode_boolean(0));
    assert!(decode_boolean(1));
    assert!(decode_boolean(2));
    assert!(decode_boolean(255));
}

#[test]
fn boolean_round_trip() {
    assert!(decode_boolean(encode_boolean(true)));
    assert!(!decode_boolean(encode_boolean(false)));
}

#[test]
fn char_goes_as_its_code_unit() {
    assert_eq!(encode_char('a'), 0x61);
    assert_eq!(encode_char('\0'), 0);
    assert_eq!(encode_char('\u{20AC}'), 0x20AC);
    assert_eq!(encode_char('\u{FFFF}'), 0xFFFF);
    assert_eq!(encode_char('\u{D7FF}'), 0xD7FF);
    assert_eq!(encode_char('\u{E000}'), 0xE000);
}

#[test]
fn code_unit_comes_back_as_its_char() {
    assert_eq!(decode_char(0x61), 'a');
    assert_eq!(decode_char(0), '\0');
    assert_eq!(decode_char(0xE9), '\u{E9}');
    assert_eq!(decode_char(0x20AC), '\u{20AC}');
    assert_eq!(decode_char(0xFFFF), '\u{FFFF}');
    assert_eq!(decode_char(0xD7FF), '\u{D7FF}');
    assert_eq!(decode_char(0xE000), '\u{E000}');
}

#[test]
fn surrogate_comes_back_as_its_low_byte() {
    assert_eq!(decode_char(0xD800), '\0');
    assert_eq!(decode_char(0xDBFF), '\u{FF}');
    assert_eq!(decode_char(0xDC41), 'A');
    assert_eq!(decode_char(0xDFFF), '\u{FF}');
}

#[test]
fn char_round_trip() {
    for c in ['\0', 'a', 'Z', '\u{E9}', '\u{20AC}', '\u{D7FF}', '\u{E000}', '\u{FFFF}'] {
        assert!(fits_code_unit(c));
        assert_eq!(decode_char(encode_char(c)), c);
    }
}

#[test]
fn code_unit_round_trip() {
    for code in [0u16, 1, 0x7F, 0x80, 0xFF, 0x100, 0x20AC, 0xD7FF, 0xE000, 0xFFFF] {
        assert_eq!(encode_char(decode_char(code)), code);
    }
}

#[test]
fn chars_beyond_the_basic_plane_do_not_fit() {
    assert!(fits_code_unit('\u{FFFF}'));
    assert!(!fits_code_unit('\u{10000}'));
    assert!(!fits_code_unit('\u{1F600}'));
    assert!(!fits_code_unit('\u{10FFFF}'));
    assert!(!Value::Char('\u{10000}').is_representable());
    assert!(Value::Char('\u{FFFF}').is_representable());
    assert!(Value::Int(7).is_representable());
    assert!(Value::Void.is_representable());
}

#[test]
fn primitives_keep_their_tag_and_value_on_the_wire() {
    assert!(matches!(Value::Boolean(true).to_wire(), JValueGen::Bool(1)));
    assert!(matches!(Value::Boolean(false).to_wire(), JValueGen::Bool(0)));
    assert!(matches!(Value::Byte(-128).to_wire(), JValueGen::Byte(-128)));
    assert!(matches!(Value::Char('a').to_wire(), JValueGen::Char(0x61)));
    assert!(matches!(Value::Char('\u{20AC}').to_wire(), JValueGen::Char(0x20AC)));
    assert!(matches!(Value::Short(-32768).to_wire(), JValueGen::Short(-32768)));
    assert!(matches!(Value::Int(i32::MIN).to_wire(), JValueGen::Int(i32::MIN)));
    assert!(matches!(Value::Long(i64::MAX).to_wire(), JValueGen::Long(i64::MAX)));
    assert!(matches!(Value::Void.to_wire(), JValueGen::Void));
}

#[test]
fn callback_arguments_on_the_wire() {
    assert!(matches!(Value::Int(0).to_wire(), JValueGen::Int(0)));
}

#[test]
fn float_goes_by_its_bits() {
    match Value::Float(0.1f32.to_bits()).to_wire() {
        JValueGen::Float(f) => assert_eq!(f, 0.1f32),
        _ => panic!("not a float"),
    }
    match Value::Float(0).to_wire() {
        JValueGen::Float(f) => assert_eq!(f.to_bits(), 0),
        _ => panic!("not a float"),
    }
    match Value::Float(0x7FC0_0001).to_wire() {
        JValueGen::Float(f) => {
            assert!(f.is_nan());
            assert_eq!(f.to_bits(), 0x7FC0_0001);
        }
        _ => panic!("not a float"),
    }
    match Value::Float(0x8000_0000).to_wire() {
        JValueGen::Float(f) => {
            assert_eq!(f, 0.0);
            assert!(f.is_sign_negative());
        }
        _ => panic!("not a float"),
    }
}

#[test]
fn double_goes_by_its_bits() {
    match Value::Double(0.1f64.to_bits()).to_wire() {
        JValueGen::Double(d) => assert_eq!(d, 0.1f64),
        _ => panic!("not a double"),
    }
    match Value::Double((-2.5f64).to_bits()).to_wire() {
        JValueGen::Double(d) => assert_eq!(d, -2.5),
        _ => panic!("not a double"),
    }
    match Value::Double(0x7FF0_0000_0000_0000).to_wire() {
        JValueGen::Double(d) => assert_eq!(d, f64::INFINITY),
        _ => panic!("not a double"),
    }
}

#[test]
fn values_that_all_have_a_wire_form() {
    assert!(are_representable(&[]));
    assert!(are_representable(&[Value::Int(0), Value::Char('a'), Value::Void]));
    assert!(!are_representable(&[Value::Int(0), Value::Char('\u{1F600}')]));
    assert!(!are_representable(&[Value::Char('\u{10000}'), Value::Int(0)]));
    assert!(are_representable(&[Value::Char('\u{FFFF}')]));
}

#[test]
fn a_result_of_the_runtime_is_passed_on_as_it_came() {
    let answer: Result<i32, jni::errors::Error> = Ok(7);
    assert!(matches!(passed_on(answer), Ok(7)));
    let answer: Result<(), jni::errors::Error> = Ok(());
    assert!(matches!(passed_on(answer), Ok(())));
}

#[test]
fn an_error_of_the_runtime_is_passed_on_inside() {
    let answer: Result<i32, jni::errors::Error> = Err(jni::errors::Error::JavaException);
    assert!(matches!(
        passed_on(answer),
        Err(BridgeError::Runtime(jni::errors::Error::JavaException))
    ));
    let answer: Result<i32, jni::errors::Error> = Err(jni::errors::Error::InvalidCtorReturn);
    assert!(matches!(
        passed_on(answer),
        Err(BridgeError::Runtime(jni::errors::Error::InvalidCtorReturn))
    ));
    let answer: Result<i32, jni::errors::Error> = Err(jni::errors::Error::NullPtr("array"));
    match passed_on(answer) {
        Err(BridgeError::Runtime(jni::errors::Error::NullPtr(what))) => assert_eq!(what, "array"),
        _ => panic!("not passed on"),
    }
}

#[test]
fn primitives_come_back_from_the_wire() {
    assert!(matches!(Value::primitive(JValueGen::Bool(0)), Ok(Value::Boolean(false))));
    assert!(matches!(Value::primitive(JValueGen::Bool(1)), Ok(Value::Boolean(true))));
    assert!(matches!(Value::primitive(JValueGen::Bool(7)), Ok(Value::Boolean(true))));
    assert!(matches!(Value::primitive(JValueGen::Byte(-1)), Ok(Value::Byte(-1))));
    assert!(matches!(Value::primitive(JValueGen::Char(0x61)), Ok(Value::Char('a'))));
    assert!(matches!(Value::primitive(JValueGen::Char(0x20AC)), Ok(Value::Char('\u{20AC}'))));
    assert!(matches!(Value::primitive(JValueGen::Short(-2)), Ok(Value::Short(-2))));
    assert!(matches!(Value::primitive(JValueGen::Int(42)), Ok(Value::Int(42))));
    assert!(matches!(Value::primitive(JValueGen::Long(-42)), Ok(Value::Long(-42))));
    assert!(matches!(Value::primitive(JValueGen::Void), Ok(Value::Void)));
}

#[test]
fn float_comes_back_as_its_bits() {
    match Value::primitive(JValueGen::Float(0.1f32)) {
        Ok(Value::Float(bits)) => assert_eq!(bits, 0.1f32.to_bits()),
        _ => panic!("not a float"),
    }
    match Value::primitive(JValueGen::Float(-0.0f32)) {
        Ok(Value::Float(bits)) => assert_eq!(bits, 0x8000_0000),
        _ => panic!("not a float"),
    }
    match Value::primitive(JValueGen::Float(1.0f32)) {
        Ok(Value::Float(bits)) => assert_eq!(bits, 0x3F80_0000),
        _ => panic!("not a float"),
    }
}

#[test]
fn double_comes_back_as_its_bits() {
    match Value::primitive(JValueGen::Double(0.1f64)) {
        Ok(Value::Double(bits)) => assert_eq!(bits, 0.1f64.to_bits()),
        _ => panic!("not a double"),
    }
    match Value::primitive(JValueGen::Double(1.0f64)) {
        Ok(Value::Double(bits)) => assert_eq!(bits, 0x3FF0_0000_0000_0000),
        _ => panic!("not a double"),
    }
}

#[test]
fn float_round_trip_by_bits() {
    for bits in [0u32, 1, 0x3F80_0000, 0x7F80_0000, 0x7FC0_0000, 0x8000_0000, 0xFF80_0000] {
        let back = match Value::Float(bits).to_wire() {
            JValueGen::Float(f) => Value::primitive(JValueGen::Float(f)),
            _ => panic!("not a float"),
        };
        assert!(matches!(back, Ok(Value::Float(b)) if b == bits));
    }
}

#[test]
fn an_object_reference_comes_back_itself() {
    match Value::primitive(JValueGen::Object(JObject::null())) {
        Err(reference) => assert!(reference.as_raw().is_null()),
        Ok(_) => panic!("not a reference"),
    }
}
