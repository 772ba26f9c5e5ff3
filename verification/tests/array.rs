use jnat::array::{
    copied, from_jsize, read_boolean, read_char, read_double, read_float, read_length, to_jsize,
    universal_class, MAX_SIZE,
};
use jnat::BridgeError;

#[test]
fn sizes_up_to_the_limit_are_kept() {
    assert_eq!(to_jsize(0), Some(0));
    assert_eq!(to_jsize(1), Some(1));
    assert_eq!(to_jsize(10), Some(10));
    assert_eq!(to_jsize(0x7fff_fffe), Some(0x7fff_fffe));
    assert_eq!(to_jsize(0x7fff_ffff), Some(i32::MAX));
    assert_eq!(MAX_SIZE, 0x7fff_ffff);
}

#[test]
fn sizes_above_the_limit_have_no_form() {
    assert_eq!(to_jsize(0x8000_0000), None);
    assert_eq!(to_jsize(0xffff_ffff), None);
    assert_eq!(to_jsize(usize::MAX), None);
}

#[test]
fn a_size_that_would_wrap_to_a_valid_index_has_no_form() {
    if usize::BITS > 32 {
        let wrapping = (1usize << 32).wrapping_add(3);
        assert_eq!(to_jsize(wrapping), None);
    }
}

#[test]
fn reported_lengths() {
    assert_eq!(from_jsize(0), Some(0));
    assert_eq!(from_jsize(10), Some(10));
    assert_eq!(from_jsize(i32::MAX), Some(0x7fff_ffff));
    assert_eq!(from_jsize(-1), None);
    assert_eq!(from_jsize(i32::MIN), None);
}

#[test]
fn size_round_trip() {
    for n in [0usize, 1, 2, 255, 65536, 0x7fff_ffff] {
        let size = to_jsize(n).unwrap();
        assert_eq!(from_jsize(size), Some(n));
    }
    for size in [0i32, 1, 77, i32::MAX] {
        let n = from_jsize(size).unwrap();
        assert_eq!(to_jsize(n), Some(size));
    }
}

#[test]
fn a_reported_length_is_read_as_it_is() {
    assert!(matches!(read_length(Ok(0)), Ok(0)));
    assert!(matches!(read_length(Ok(10)), Ok(10)));
    assert!(matches!(read_length(Ok(i32::MAX)), Ok(0x7fff_ffff)));
}

#[test]
fn a_negative_length_is_an_error() {
    assert!(matches!(read_length(Ok(-1)), Err(BridgeError::Size)));
    assert!(matches!(read_length(Ok(i32::MIN)), Err(BridgeError::Size)));
}

#[test]
fn a_failed_query_is_passed_on() {
    assert!(matches!(
        read_length(Err(jni::errors::Error::NullPtr("array"))),
        Err(BridgeError::Runtime(jni::errors::Error::NullPtr("array")))
    ));
    assert!(matches!(
        read_boolean(Err(jni::errors::Error::JavaException)),
        Err(BridgeError::Runtime(jni::errors::Error::JavaException))
    ));
    assert!(matches!(
        read_char(Err(jni::errors::Error::JavaException)),
        Err(BridgeError::Runtime(jni::errors::Error::JavaException))
    ));
}

#[test]
fn a_boolean_element_is_read_from_its_byte() {
    assert!(matches!(read_boolean(Ok(0)), Ok(false)));
    assert!(matches!(read_boolean(Ok(1)), Ok(true)));
    assert!(matches!(read_boolean(Ok(200)), Ok(true)));
}

#[test]
fn a_char_element_is_read_from_its_code_unit() {
    assert!(matches!(read_char(Ok(0)), Ok('\0')));
    assert!(matches!(read_char(Ok(0x61)), Ok('a')));
    assert!(matches!(read_char(Ok(0x20AC)), Ok('\u{20AC}')));
    assert!(matches!(read_char(Ok(0xD83D)), Ok('\u{3D}')));
}

#[test]
fn a_new_array_reads_as_zeros() {
    assert!(matches!(read_boolean(Ok(0)), Ok(false)));
    assert!(matches!(read_char(Ok(0)), Ok('\0')));
}

#[test]
fn the_universal_class_is_object() {
    assert_eq!(universal_class(), "java/lang/Object");
}

#[test]
fn a_copied_element_is_the_one_in_the_buffer() {
    assert!(matches!(copied(Ok(()), &[7u8]), Ok(7)));
    assert!(matches!(copied(Ok(()), &[-3i64]), Ok(-3)));
    assert!(matches!(copied(Ok(()), &[0x20ACu16]), Ok(0x20AC)));
    assert!(matches!(read_boolean(copied(Ok(()), &[1u8])), Ok(true)));
    assert!(matches!(read_char(copied(Ok(()), &[0x61u16])), Ok('a')));
}

#[test]
fn a_failed_copy_gives_the_error_and_not_the_buffer() {
    assert!(matches!(
        copied(Err(jni::errors::Error::JavaException), &[7u8]),
        Err(jni::errors::Error::JavaException)
    ));
    assert!(matches!(
        read_boolean(copied(Err(jni::errors::Error::JavaException), &[1u8])),
        Err(BridgeError::Runtime(jni::errors::Error::JavaException))
    ));
}

#[test]
fn a_float_element_is_read_as_its_bits() {
    assert!(matches!(read_float(Ok(0.0f32)), Ok(0)));
    assert!(matches!(read_float(Ok(1.0f32)), Ok(0x3F80_0000)));
    assert!(matches!(read_float(Ok(-0.0f32)), Ok(0x8000_0000)));
    match read_float(copied(Ok(()), &[0.1f32])) {
        Ok(bits) => assert_eq!(f32::from_bits(bits), 0.1f32),
        Err(_) => panic!("not read"),
    }
    assert!(matches!(
        read_float(Err(jni::errors::Error::JavaException)),
        Err(BridgeError::Runtime(jni::errors::Error::JavaException))
    ));
}

#[test]
fn a_double_element_is_read_as_its_bits() {
    assert!(matches!(read_double(Ok(0.0f64)), Ok(0)));
    assert!(matches!(read_double(Ok(1.0f64)), Ok(0x3FF0_0000_0000_0000)));
    match read_double(copied(Ok(()), &[0.1f64])) {
        Ok(bits) => assert_eq!(f64::from_bits(bits), 0.1f64),
        Err(_) => panic!("not read"),
    }
    assert!(matches!(
        read_double(Err(jni::errors::Error::JavaException)),
        Err(BridgeError::Runtime(jni::errors::Error::JavaException))
    ));
}
