//! The boundary to the `jni` crate: the outside types that pass through this
//! library, and one thin function around each JNI operation that it uses.
//! A few functions of std and the decoder of the `cesu8` crate stand here
//! too.
//!
//! Nothing here is proved. What a function claims of the outside code stands
//! in its contract and is described in its doc comment; where it claims
//! nothing, the runtime decides what comes back.
//!
//! The operations take the environment as the exclusive access that
//! [`access`] hands out. The references that they return are local
//! references of the native call: they live as long as `'a`.

#[allow(unused_imports)]
use crate::descriptor::{method_descriptor, MethodType};
use core::cell::{RefCell, RefMut};
use jni::objects::{
    JBooleanArray, JByteArray, JCharArray, JClass, JDoubleArray, JFloatArray, JIntArray,
    JLongArray, JObject, JObjectArray, JShortArray, JStaticFieldID, JString, JValueGen,
};
use jni::sys::{jdouble, jfloat};
use jni::JNIEnv;
#[allow(unused_imports)]
use vstd::float::FloatBitsProperties;
use vstd::prelude::*;

verus! {

/// `jni::JNIEnv`, the per-call environment of the runtime. Opaque.
#[verifier::external_type_specification]
#[verifier::external_body]
pub struct ExJNIEnv<'local>(JNIEnv<'local>);

/// `jni::errors::Error`. Opaque.
#[verifier::external_type_specification]
#[verifier::external_body]
pub struct ExJniError(jni::errors::Error);

/// `jni::sys::_jobject`, the target of the raw references below. Opaque.
#[verifier::external_type_specification]
#[verifier::external_body]
pub struct ExRawObject(jni::sys::_jobject);

/// `jni::objects::JObject`, a reference to a managed object. Opaque.
#[verifier::external_type_specification]
#[verifier::external_body]
pub struct ExJObject<'local>(JObject<'local>);

/// `jni::objects::JClass`, a reference to a managed class. Opaque.
#[verifier::external_type_specification]
#[verifier::external_body]
pub struct ExJClass<'local>(JClass<'local>);

/// `jni::objects::JString`, a reference to a managed string. Opaque.
#[verifier::external_type_specification]
#[verifier::external_body]
pub struct ExJString<'local>(JString<'local>);

/// `jni::objects::JStaticFieldID`, the identity of a static field. Opaque.
#[verifier::external_type_specification]
#[verifier::external_body]
pub struct ExJStaticFieldID(JStaticFieldID);

/// `jni::objects::JValueGen`, the tagged value of the JNI. Its variants are
/// public and hold plain numbers or the reference `O`. It is declared with
/// them, so that verified code builds and matches it directly and no
/// conversion has to be trusted.
#[verifier::external_type_specification]
pub struct ExJValueGen<O>(JValueGen<O>);

/// `core::cell::RefCell`, which holds the environment so that the handles can
/// share it. Opaque.
#[verifier::external_type_specification]
#[verifier::external_body]
#[verifier::reject_recursive_types(T)]
pub struct ExRefCell<T: ?Sized>(RefCell<T>);

/// `core::cell::RefMut`, the exclusive access to what a `RefCell` holds.
/// Opaque.
#[verifier::external_type_specification]
#[verifier::external_body]
#[verifier::reject_recursive_types(T)]
pub struct ExRefMut<'b, T: ?Sized + 'b>(RefMut<'b, T>);

/// `RefCell::new` of std: a cell that holds the environment.
#[verifier::external_body]
pub(crate) fn share<'a>(jni_env: JNIEnv<'a>) -> RefCell<JNIEnv<'a>> {
    RefCell::new(jni_env)
}

/// `RefCell::try_borrow_mut` of std: exclusive access to the environment, or
/// nothing while another access is still held. It does not panic.
#[verifier::external_body]
pub(crate) fn access<'e, 'a>(cell: &'e RefCell<JNIEnv<'a>>) -> Option<RefMut<'e, JNIEnv<'a>>> {
    cell.try_borrow_mut().ok()
}

/// `f32::from_bits` of std: the float with the given IEEE 754 bit pattern.
#[verifier::external_body]
pub(crate) fn float_from_bits(bits: u32) -> (value: jfloat)
    ensures
        value.to_bits_spec() == bits,
{
    jfloat::from_bits(bits)
}

/// `f32::to_bits` of std: the IEEE 754 bit pattern of the float.
#[verifier::external_body]
pub(crate) fn float_to_bits(value: jfloat) -> (bits: u32)
    ensures
        bits == value.to_bits_spec(),
{
    value.to_bits()
}

/// `f64::from_bits` of std: the double with the given IEEE 754 bit pattern.
#[verifier::external_body]
pub(crate) fn double_from_bits(bits: u64) -> (value: jdouble)
    ensures
        value.to_bits_spec() == bits,
{
    jdouble::from_bits(bits)
}

/// `f64::to_bits` of std: the IEEE 754 bit pattern of the double.
#[verifier::external_body]
pub(crate) fn double_to_bits(value: jdouble) -> (bits: u64)
    ensures
        bits == value.to_bits_spec(),
{
    value.to_bits()
}

/// `char::from_u32` of std: the character with the given code point, if the
/// code point is a Unicode scalar value (not a surrogate, at most `10FFFF`).
pub assume_specification[ char::from_u32 ](i: u32) -> (character: Option<char>)
    ensures
        i <= 0xD7FF || 0xE000 <= i <= 0x10FFFF ==> character == Some(i as char),
        !(i <= 0xD7FF || 0xE000 <= i <= 0x10FFFF) ==> character is None,
;

/// The text that bytes in Java's modified UTF-8 stand for, as
/// `cesu8::from_java_cesu8` decodes them; nothing where it reports an error.
pub uninterp spec fn modified_utf8_text(bytes: Seq<u8>) -> Option<Seq<char>>;

/// `cesu8::from_java_cesu8`: decodes modified UTF-8. The result is a function
/// of the bytes alone.
#[verifier::external_body]
pub(crate) fn from_java_cesu8(bytes: &[u8]) -> (text: Option<String>)
    ensures
        text is Some <==> modified_utf8_text(bytes@) is Some,
        text matches Some(t) ==> modified_utf8_text(bytes@) == Some(t@),
{
    match cesu8::from_java_cesu8(bytes) {
        Ok(text) => Some(text.into_owned()),
        Err(_) => None,
    }
}

/// The descriptor is that of a method none of whose parameter types holds a
/// `;` inside a class name.
///
/// The JNI layer panics where it reads a method type among the parameters of
/// a descriptor, and it reads one only where a parameter begins with `(`. It
/// reads parameter after parameter: a letter for a primitive; `[` and a
/// type; or `L`, a name that runs up to the next `;`, and that `;`. In a
/// descriptor of this kind it so reads every parameter as it was written, or
/// stops with an error at a name that is empty, and none begins with `(`: a
/// `(` inside a class name is part of the name.
pub open spec fn framed(descriptor: Seq<char>) -> bool {
    exists|m: MethodType| #[trigger] method_descriptor(m) == descriptor && m.framed()
}

/// The tagged value is of the kind that the descriptor of a field names. The
/// JNI layer reads the kind off the first character of the descriptor: one of
/// eight letters for a primitive, `L` or `[` for a reference. No value is of
/// the kind that `V` or any other character names.
pub open spec fn field_kind(descriptor: Seq<char>, jvalue: JValueGen<JObject<'_>>) -> bool {
    &&& descriptor.len() > 0
    &&& match jvalue {
        JValueGen::Bool(_) => descriptor[0] == 'Z',
        JValueGen::Byte(_) => descriptor[0] == 'B',
        JValueGen::Char(_) => descriptor[0] == 'C',
        JValueGen::Short(_) => descriptor[0] == 'S',
        JValueGen::Int(_) => descriptor[0] == 'I',
        JValueGen::Long(_) => descriptor[0] == 'J',
        JValueGen::Float(_) => descriptor[0] == 'F',
        JValueGen::Double(_) => descriptor[0] == 'D',
        JValueGen::Object(_) => descriptor[0] == 'L' || descriptor[0] == '[',
        JValueGen::Void => false,
    }
}

/// `JNIEnv::find_class`. Nothing is claimed of the result: the runtime
/// decides.
#[verifier::external_body]
pub(crate) fn find_class<'a>(
    env: &mut RefMut<'_, JNIEnv<'a>>,
    name: &str,
) -> Result<JClass<'a>, jni::errors::Error> {
    env.find_class(name)
}

/// `JNIEnv::new_string`, the new string as a plain object reference. Nothing
/// is claimed of the result.
#[verifier::external_body]
pub(crate) fn new_string<'a>(
    env: &mut RefMut<'_, JNIEnv<'a>>,
    text: &str,
) -> Result<JObject<'a>, jni::errors::Error> {
    Ok(JObject::from(env.new_string(text)?))
}

/// `JNIEnv::get_string`, and of what it returns the bytes, which are in
/// modified UTF-8. Nothing is claimed of the result.
#[verifier::external_body]
pub(crate) fn get_string<'a>(
    env: &mut RefMut<'_, JNIEnv<'a>>,
    string: &JString<'a>,
) -> Result<Vec<u8>, jni::errors::Error> {
    Ok(env.get_string(string)?.to_bytes().to_vec())
}

/// `JNIEnv::get_object_class`. Nothing is claimed of the result.
#[verifier::external_body]
pub(crate) fn get_object_class<'a>(
    env: &mut RefMut<'_, JNIEnv<'a>>,
    object: &JObject<'a>,
) -> Result<JClass<'a>, jni::errors::Error> {
    env.get_object_class(object)
}

/// `JNIEnv::call_static_method`. It panics where it reads a method type among
/// the parameters of the descriptor, which it does not in a framed one: only
/// such a descriptor is accepted. Nothing is claimed of the result.
#[verifier::external_body]
pub(crate) fn call_static_method<'a>(
    env: &mut RefMut<'_, JNIEnv<'a>>,
    class: &JClass<'a>,
    name: &str,
    descriptor: &str,
    args: &Vec<JValueGen<&JObject<'a>>>,
) -> Result<JValueGen<JObject<'a>>, jni::errors::Error>
    requires
        framed(descriptor@),
{
    env.call_static_method(class, name, descriptor, args.as_slice())
}

/// `JNIEnv::call_method`. It panics on the same descriptors as
/// `call_static_method`: only a framed one is accepted. Nothing is claimed of
/// the result.
#[verifier::external_body]
pub(crate) fn call_method<'a>(
    env: &mut RefMut<'_, JNIEnv<'a>>,
    object: &JObject<'a>,
    name: &str,
    descriptor: &str,
    args: &Vec<JValueGen<&JObject<'a>>>,
) -> Result<JValueGen<JObject<'a>>, jni::errors::Error>
    requires
        framed(descriptor@),
{
    env.call_method(object, name, descriptor, args.as_slice())
}

/// `JNIEnv::new_object`. It panics on the same descriptors as
/// `call_static_method`: only a framed one is accepted. Nothing is claimed of
/// the result.
#[verifier::external_body]
pub(crate) fn new_object<'a>(
    env: &mut RefMut<'_, JNIEnv<'a>>,
    class: &JClass<'a>,
    descriptor: &str,
    args: &Vec<JValueGen<&JObject<'a>>>,
) -> Result<JObject<'a>, jni::errors::Error>
    requires
        framed(descriptor@),
{
    env.new_object(class, descriptor, args.as_slice())
}

/// `JNIEnv::get_field`. Where it succeeds, the value is of the kind that the
/// descriptor names: it reads the type off the descriptor and asks the
/// runtime with the getter of that type, and it fails for `void`. Nothing
/// else is claimed of the result.
#[verifier::external_body]
pub(crate) fn get_field<'a>(
    env: &mut RefMut<'_, JNIEnv<'a>>,
    object: &JObject<'a>,
    name: &str,
    descriptor: &str,
) -> (answer: Result<JValueGen<JObject<'a>>, jni::errors::Error>)
    ensures
        answer matches Ok(jvalue) ==> field_kind(descriptor@, jvalue),
{
    env.get_field(object, name, descriptor)
}

/// `JNIEnv::set_field`. It panics where the descriptor reads as a method
/// type, which takes a `(` as the first character: such a descriptor is left
/// out. Nothing is claimed of the result.
#[verifier::external_body]
pub(crate) fn set_field<'a>(
    env: &mut RefMut<'_, JNIEnv<'a>>,
    object: &JObject<'a>,
    name: &str,
    descriptor: &str,
    value: JValueGen<&JObject<'a>>,
) -> Result<(), jni::errors::Error>
    requires
        descriptor@.len() > 0 ==> descriptor@[0] != '(',
{
    env.set_field(object, name, descriptor, value)
}

/// `JNIEnv::get_static_field`. Where it succeeds, the value is of the kind
/// that the descriptor names: it reads the type off the descriptor and asks
/// the runtime with the getter of that type, and it fails for `void`.
/// Nothing else is claimed of the result.
#[verifier::external_body]
pub(crate) fn get_static_field<'a>(
    env: &mut RefMut<'_, JNIEnv<'a>>,
    class: &JClass<'a>,
    name: &str,
    descriptor: &str,
) -> (answer: Result<JValueGen<JObject<'a>>, jni::errors::Error>)
    ensures
        answer matches Ok(jvalue) ==> field_kind(descriptor@, jvalue),
{
    env.get_static_field(class, name, descriptor)
}

/// `JNIEnv::get_static_field_id`. Nothing is claimed of the result.
#[verifier::external_body]
pub(crate) fn get_static_field_id<'a>(
    env: &mut RefMut<'_, JNIEnv<'a>>,
    class: &JClass<'a>,
    name: &str,
    descriptor: &str,
) -> Result<JStaticFieldID, jni::errors::Error> {
    env.get_static_field_id(class, name, descriptor)
}

/// `JNIEnv::set_static_field`. Nothing is claimed of the result.
#[verifier::external_body]
pub(crate) fn set_static_field<'a>(
    env: &mut RefMut<'_, JNIEnv<'a>>,
    class: &JClass<'a>,
    field: JStaticFieldID,
    value: JValueGen<&JObject<'a>>,
) -> Result<(), jni::errors::Error> {
    env.set_static_field(class, field, value)
}

/// `JNIEnv::get_array_length`, for an array of any element kind. Nothing is
/// claimed of the result.
#[verifier::external_body]
pub(crate) fn get_array_length<'a>(
    env: &mut RefMut<'_, JNIEnv<'a>>,
    array: &JObject<'a>,
) -> Result<i32, jni::errors::Error> {
    env.get_array_length(<&JObjectArray>::from(array))
}

/// `JObject::null`: the null reference.
#[verifier::external_body]
pub(crate) fn null() -> JObject<'static> {
    JObject::null()
}

/// `JNIEnv::new_object_array`, with every slot set to `initial` at first;
/// the new array as a plain object reference. Nothing is claimed of the
/// result.
#[verifier::external_body]
pub(crate) fn new_object_array<'a>(
    env: &mut RefMut<'_, JNIEnv<'a>>,
    length: i32,
    class: &str,
    initial: &JObject<'_>,
) -> Result<JObject<'a>, jni::errors::Error> {
    Ok(JObject::from(env.new_object_array(length, class, initial)?))
}

/// `JNIEnv::get_object_array_element`. Nothing is claimed of the result.
#[verifier::external_body]
pub(crate) fn get_object_array_element<'a>(
    env: &mut RefMut<'_, JNIEnv<'a>>,
    array: &JObject<'a>,
    index: i32,
) -> Result<JObject<'a>, jni::errors::Error> {
    env.get_object_array_element(<&JObjectArray>::from(array), index)
}

/// `JNIEnv::set_object_array_element`. Nothing is claimed of the result.
#[verifier::external_body]
pub(crate) fn set_object_array_element<'a>(
    env: &mut RefMut<'_, JNIEnv<'a>>,
    array: &JObject<'a>,
    index: i32,
    value: JObject<'a>,
) -> Result<(), jni::errors::Error> {
    env.set_object_array_element(<&JObjectArray>::from(array), index, value)
}

/// `JNIEnv::new_boolean_array`, the new array as a plain object reference.
/// Nothing is claimed of the result.
#[verifier::external_body]
pub(crate) fn new_boolean_array<'a>(
    env: &mut RefMut<'_, JNIEnv<'a>>,
    length: i32,
) -> Result<JObject<'a>, jni::errors::Error> {
    Ok(JObject::from(env.new_boolean_array(length)?))
}

/// `JNIEnv::get_boolean_array_region`: copies the elements from `start` on into
/// the buffer, as many as the buffer holds. Nothing is claimed of the result
/// nor of what the buffer holds afterwards.
#[verifier::external_body]
pub(crate) fn get_boolean_array_region<'a>(
    env: &mut RefMut<'_, JNIEnv<'a>>,
    array: &JObject<'a>,
    start: i32,
    buffer: &mut [u8; 1],
) -> Result<(), jni::errors::Error> {
    env.get_boolean_array_region(<&JBooleanArray>::from(array), start, buffer)
}

/// `JNIEnv::set_boolean_array_region`: copies the elements of the buffer into the
/// array from `start` on. Nothing is claimed of the result.
#[verifier::external_body]
pub(crate) fn set_boolean_array_region<'a>(
    env: &mut RefMut<'_, JNIEnv<'a>>,
    array: &JObject<'a>,
    start: i32,
    buffer: &[u8; 1],
) -> Result<(), jni::errors::Error> {
    env.set_boolean_array_region(<&JBooleanArray>::from(array), start, buffer)
}

/// `JNIEnv::new_byte_array`, the new array as a plain object reference.
/// Nothing is claimed of the result.
#[verifier::external_body]
pub(crate) fn new_byte_array<'a>(
    env: &mut RefMut<'_, JNIEnv<'a>>,
    length: i32,
) -> Result<JObject<'a>, jni::errors::Error> {
    Ok(JObject::from(env.new_byte_array(length)?))
}

/// `JNIEnv::get_byte_array_region`: copies the elements from `start` on into
/// the buffer, as many as the buffer holds. Nothing is claimed of the result
/// nor of what the buffer holds afterwards.
#[verifier::external_body]
pub(crate) fn get_byte_array_region<'a>(
    env: &mut RefMut<'_, JNIEnv<'a>>,
    array: &JObject<'a>,
    start: i32,
    buffer: &mut [i8; 1],
) -> Result<(), jni::errors::Error> {
    env.get_byte_array_region(<&JByteArray>::from(array), start, buffer)
}

/// `JNIEnv::set_byte_array_region`: copies the elements of the buffer into the
/// array from `start` on. Nothing is claimed of the result.
#[verifier::external_body]
pub(crate) fn set_byte_array_region<'a>(
    env: &mut RefMut<'_, JNIEnv<'a>>,
    array: &JObject<'a>,
    start: i32,
    buffer: &[i8; 1],
) -> Result<(), jni::errors::Error> {
    env.set_byte_array_region(<&JByteArray>::from(array), start, buffer)
}

/// `JNIEnv::new_char_array`, the new array as a plain object reference.
/// Nothing is claimed of the result.
#[verifier::external_body]
pub(crate) fn new_char_array<'a>(
    env: &mut RefMut<'_, JNIEnv<'a>>,
    length: i32,
) -> Result<JObject<'a>, jni::errors::Error> {
    Ok(JObject::from(env.new_char_array(length)?))
}

/// `JNIEnv::get_char_array_region`: copies the elements from `start` on into
/// the buffer, as many as the buffer holds. Nothing is claimed of the result
/// nor of what the buffer holds afterwards.
#[verifier::external_body]
pub(crate) fn get_char_array_region<'a>(
    env: &mut RefMut<'_, JNIEnv<'a>>,
    array: &JObject<'a>,
    start: i32,
    buffer: &mut [u16; 1],
) -> Result<(), jni::errors::Error> {
    env.get_char_array_region(<&JCharArray>::from(array), start, buffer)
}

/// `JNIEnv::set_char_array_region`: copies the elements of the buffer into the
/// array from `start` on. Nothing is claimed of the result.
#[verifier::external_body]
pub(crate) fn set_char_array_region<'a>(
    env: &mut RefMut<'_, JNIEnv<'a>>,
    array: &JObject<'a>,
    start: i32,
    buffer: &[u16; 1],
) -> Result<(), jni::errors::Error> {
    env.set_char_array_region(<&JCharArray>::from(array), start, buffer)
}

/// `JNIEnv::new_short_array`, the new array as a plain object reference.
/// Nothing is claimed of the result.
#[verifier::external_body]
pub(crate) fn new_short_array<'a>(
    env: &mut RefMut<'_, JNIEnv<'a>>,
    length: i32,
) -> Result<JObject<'a>, jni::errors::Error> {
    Ok(JObject::from(env.new_short_array(length)?))
}

/// `JNIEnv::get_short_array_region`: copies the elements from `start` on into
/// the buffer, as many as the buffer holds. Nothing is claimed of the result
/// nor of what the buffer holds afterwards.
#[verifier::external_body]
pub(crate) fn get_short_array_region<'a>(
    env: &mut RefMut<'_, JNIEnv<'a>>,
    array: &JObject<'a>,
    start: i32,
    buffer: &mut [i16; 1],
) -> Result<(), jni::errors::Error> {
    env.get_short_array_region(<&JShortArray>::from(array), start, buffer)
}

/// `JNIEnv::set_short_array_region`: copies the elements of the buffer into the
/// array from `start` on. Nothing is claimed of the result.
#[verifier::external_body]
pub(crate) fn set_short_array_region<'a>(
    env: &mut RefMut<'_, JNIEnv<'a>>,
    array: &JObject<'a>,
    start: i32,
    buffer: &[i16; 1],
) -> Result<(), jni::errors::Error> {
    env.set_short_array_region(<&JShortArray>::from(array), start, buffer)
}

/// `JNIEnv::new_int_array`, the new array as a plain object reference.
/// Nothing is claimed of the result.
#[verifier::external_body]
pub(crate) fn new_int_array<'a>(
    env: &mut RefMut<'_, JNIEnv<'a>>,
    length: i32,
) -> Result<JObject<'a>, jni::errors::Error> {
    Ok(JObject::from(env.new_int_array(length)?))
}

/// `JNIEnv::get_int_array_region`: copies the elements from `start` on into
/// the buffer, as many as the buffer holds. Nothing is claimed of the result
/// nor of what the buffer holds afterwards.
#[verifier::external_body]
pub(crate) fn get_int_array_region<'a>(
    env: &mut RefMut<'_, JNIEnv<'a>>,
    array: &JObject<'a>,
    start: i32,
    buffer: &mut [i32; 1],
) -> Result<(), jni::errors::Error> {
    env.get_int_array_region(<&JIntArray>::from(array), start, buffer)
}

/// `JNIEnv::set_int_array_region`: copies the elements of the buffer into the
/// array from `start` on. Nothing is claimed of the result.
#[verifier::external_body]
pub(crate) fn set_int_array_region<'a>(
    env: &mut RefMut<'_, JNIEnv<'a>>,
    array: &JObject<'a>,
    start: i32,
    buffer: &[i32; 1],
) -> Result<(), jni::errors::Error> {
    env.set_int_array_region(<&JIntArray>::from(array), start, buffer)
}

/// `JNIEnv::new_long_array`, the new array as a plain object reference.
/// Nothing is claimed of the result.
#[verifier::external_body]
pub(crate) fn new_long_array<'a>(
    env: &mut RefMut<'_, JNIEnv<'a>>,
    length: i32,
) -> Result<JObject<'a>, jni::errors::Error> {
    Ok(JObject::from(env.new_long_array(length)?))
}

/// `JNIEnv::get_long_array_region`: copies the elements from `start` on into
/// the buffer, as many as the buffer holds. Nothing is claimed of the result
/// nor of what the buffer holds afterwards.
#[verifier::external_body]
pub(crate) fn get_long_array_region<'a>(
    env: &mut RefMut<'_, JNIEnv<'a>>,
    array: &JObject<'a>,
    start: i32,
    buffer: &mut [i64; 1],
) -> Result<(), jni::errors::Error> {
    env.get_long_array_region(<&JLongArray>::from(array), start, buffer)
}

/// `JNIEnv::set_long_array_region`: copies the elements of the buffer into the
/// array from `start` on. Nothing is claimed of the result.
#[verifier::external_body]
pub(crate) fn set_long_array_region<'a>(
    env: &mut RefMut<'_, JNIEnv<'a>>,
    array: &JObject<'a>,
    start: i32,
    buffer: &[i64; 1],
) -> Result<(), jni::errors::Error> {
    env.set_long_array_region(<&JLongArray>::from(array), start, buffer)
}

/// `JNIEnv::new_float_array`, the new array as a plain object reference.
/// Nothing is claimed of the result.
#[verifier::external_body]
pub(crate) fn new_float_array<'a>(
    env: &mut RefMut<'_, JNIEnv<'a>>,
    length: i32,
) -> Result<JObject<'a>, jni::errors::Error> {
    Ok(JObject::from(env.new_float_array(length)?))
}

/// `JNIEnv::get_float_array_region`: copies the elements from `start` on into
/// the buffer, as many as the buffer holds. Nothing is claimed of the result
/// nor of what the buffer holds afterwards.
#[verifier::external_body]
pub(crate) fn get_float_array_region<'a>(
    env: &mut RefMut<'_, JNIEnv<'a>>,
    array: &JObject<'a>,
    start: i32,
    buffer: &mut [jfloat; 1],
) -> Result<(), jni::errors::Error> {
    env.get_float_array_region(<&JFloatArray>::from(array), start, buffer)
}

/// `JNIEnv::set_float_array_region`: copies the elements of the buffer into the
/// array from `start` on. Nothing is claimed of the result.
#[verifier::external_body]
pub(crate) fn set_float_array_region<'a>(
    env: &mut RefMut<'_, JNIEnv<'a>>,
    array: &JObject<'a>,
    start: i32,
    buffer: &[jfloat; 1],
) -> Result<(), jni::errors::Error> {
    env.set_float_array_region(<&JFloatArray>::from(array), start, buffer)
}

/// `JNIEnv::new_double_array`, the new array as a plain object reference.
/// Nothing is claimed of the result.
#[verifier::external_body]
pub(crate) fn new_double_array<'a>(
    env: &mut RefMut<'_, JNIEnv<'a>>,
    length: i32,
) -> Result<JObject<'a>, jni::errors::Error> {
    Ok(JObject::from(env.new_double_array(length)?))
}

/// `JNIEnv::get_double_array_region`: copies the elements from `start` on into
/// the buffer, as many as the buffer holds. Nothing is claimed of the result
/// nor of what the buffer holds afterwards.
#[verifier::external_body]
pub(crate) fn get_double_array_region<'a>(
    env: &mut RefMut<'_, JNIEnv<'a>>,
    array: &JObject<'a>,
    start: i32,
    buffer: &mut [jdouble; 1],
) -> Result<(), jni::errors::Error> {
    env.get_double_array_region(<&JDoubleArray>::from(array), start, buffer)
}

/// `JNIEnv::set_double_array_region`: copies the elements of the buffer into the
/// array from `start` on. Nothing is claimed of the result.
#[verifier::external_body]
pub(crate) fn set_double_array_region<'a>(
    env: &mut RefMut<'_, JNIEnv<'a>>,
    array: &JObject<'a>,
    start: i32,
    buffer: &[jdouble; 1],
) -> Result<(), jni::errors::Error> {
    env.set_double_array_region(<&JDoubleArray>::from(array), start, buffer)
}

} // verus!
