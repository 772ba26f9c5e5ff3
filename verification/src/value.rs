//! Java values on the native side and on the wire.
//!
//! A [`Value`] is what native code holds: a primitive of one of the eight
//! kinds, nothing (`Void`), or a handle on a managed object. On the wire, in
//! the tagged value of the JNI, a boolean is a byte and a char is one 16-bit
//! code unit. [`Wire`] is the mathematical reading of that tagged value, and
//! [`wire_form`] and [`value_form`] say what the conversions between the two
//! do.
//!
//! A value that the runtime returns holds its object reference itself; a
//! value that is passed to the runtime lends it for the call.
//!
//! Floats and doubles are held by their IEEE 754 bit patterns on this side:
//! they pass through unchanged, bit for bit.

#[allow(unused_imports)]
use crate::descriptor::JavaType;
use crate::env::Env;
use crate::error::BridgeError;
use crate::object::Object;
use crate::runtime::{double_from_bits, double_to_bits, float_from_bits, float_to_bits};
use jni::objects::{JObject, JValueGen};
#[allow(unused_imports)]
use vstd::float::FloatBitsProperties;
use vstd::prelude::*;

verus! {

/// A Java value as native code holds it.
pub enum Value<'e, 'a> {
    /// A `boolean`.
    Boolean(bool),
    /// A `byte`.
    Byte(i8),
    /// A `char`.
    Char(char),
    /// A `short`.
    Short(i16),
    /// An `int`.
    Int(i32),
    /// A `long`.
    Long(i64),
    /// A `float`, by its IEEE 754 bit pattern.
    Float(u32),
    /// A `double`, by its IEEE 754 bit pattern.
    Double(u64),
    /// No value: the result of a `void` method.
    Void,
    /// A reference to a managed object.
    Object(Object<'e, 'a>),
}

/// What a tagged value of the JNI holds, with floats and doubles by their bit
/// patterns.
pub enum Wire<'a> {
    Object(JObject<'a>),
    Byte(i8),
    Char(u16),
    Short(i16),
    Int(i32),
    Long(i64),
    Bool(u8),
    Float(u32),
    Double(u64),
    Void,
}

/// The reading of a tagged value that holds its object reference itself, as
/// the runtime returns it.
pub open spec fn owned_wire<'a>(jvalue: JValueGen<JObject<'a>>) -> Wire<'a> {
    match jvalue {
        JValueGen::Object(o) => Wire::Object(o),
        JValueGen::Byte(b) => Wire::Byte(b),
        JValueGen::Char(c) => Wire::Char(c),
        JValueGen::Short(s) => Wire::Short(s),
        JValueGen::Int(i) => Wire::Int(i),
        JValueGen::Long(l) => Wire::Long(l),
        JValueGen::Bool(b) => Wire::Bool(b),
        JValueGen::Float(f) => Wire::Float(f.to_bits_spec()),
        JValueGen::Double(d) => Wire::Double(d.to_bits_spec()),
        JValueGen::Void => Wire::Void,
    }
}

/// The reading of a tagged value that borrows its object reference, as it is
/// passed to the runtime.
pub open spec fn lent_wire<'v, 'a>(jvalue: JValueGen<&'v JObject<'a>>) -> Wire<'a> {
    match jvalue {
        JValueGen::Object(o) => Wire::Object(*o),
        JValueGen::Byte(b) => Wire::Byte(b),
        JValueGen::Char(c) => Wire::Char(c),
        JValueGen::Short(s) => Wire::Short(s),
        JValueGen::Int(i) => Wire::Int(i),
        JValueGen::Long(l) => Wire::Long(l),
        JValueGen::Bool(b) => Wire::Bool(b),
        JValueGen::Float(f) => Wire::Float(f.to_bits_spec()),
        JValueGen::Double(d) => Wire::Double(d.to_bits_spec()),
        JValueGen::Void => Wire::Void,
    }
}

/// The byte that stands for a boolean: 1 for true, 0 for false.
pub open spec fn boolean_code(b: bool) -> u8 {
    if b {
        1
    } else {
        0
    }
}

/// The boolean that a byte stands for: any byte but 0 is true.
pub open spec fn boolean_of(code: u8) -> bool {
    code != 0
}

/// The code unit of a character of the Basic Multilingual Plane.
pub open spec fn char_code(c: char) -> u16
    recommends
        c as u32 <= 0xFFFF,
{
    c as u16
}

/// A code unit that is a character by itself: any but the surrogates
/// `D800` to `DFFF`.
pub open spec fn is_scalar(code: u16) -> bool {
    code < 0xD800 || code > 0xDFFF
}

/// The character that a code unit stands for. A surrogate has none; for it
/// the result is the character of the unit's low byte.
pub open spec fn char_of(code: u16) -> char {
    if is_scalar(code) {
        code as char
    } else {
        ((code % 256) as u8) as char
    }
}

/// The byte that stands for a boolean on the wire.
pub fn encode_boolean(b: bool) -> (code: u8)
    ensures
        code == boolean_code(b),
{
    if b {
        1
    } else {
        0
    }
}

/// The boolean that a byte from the wire stands for.
pub fn decode_boolean(code: u8) -> (b: bool)
    ensures
        b == boolean_of(code),
{
    code != 0
}

/// Whether a character fits the wire: it lies in the Basic Multilingual
/// Plane, at or below `U+FFFF`.
pub fn fits_code_unit(c: char) -> (fits: bool)
    ensures
        fits == (c as u32 <= 0xFFFF),
{
    c as u32 <= 0xFFFF
}

/// The code unit that stands for a character on the wire. A character above
/// `U+FFFF` has none, and is not accepted: nothing is masked.
pub fn encode_char(c: char) -> (code: u16)
    requires
        c as u32 <= 0xFFFF,
    ensures
        code == char_code(c),
        code as u32 == c as u32,
{
    c as u16
}

/// The character that a code unit from the wire stands for.
pub fn decode_char(code: u16) -> (c: char)
    ensures
        c == char_of(code),
{
    match char::from_u32(code as u32) {
        Some(c) => c,
        None => ((code % 256) as u8) as char,
    }
}

impl<'e, 'a> Value<'e, 'a> {
    /// The value has a wire form: it is not a character above `U+FFFF`.
    pub open spec fn representable(self) -> bool {
        self matches Value::Char(c) ==> c as u32 <= 0xFFFF
    }

    /// Whether the value has a wire form.
    pub fn is_representable(&self) -> (fits: bool)
        ensures
            fits == self.representable(),
    {
        match self {
            Value::Char(c) => fits_code_unit(*c),
            _ => true,
        }
    }

    /// The value is of the kind that a field of the given type holds: a
    /// primitive of that primitive type, or an object reference for a class
    /// or an array. No field is of the type `void`, so no value is held by
    /// one.
    pub open spec fn held_by(self, field_type: JavaType) -> bool {
        match field_type {
            JavaType::Boolean => self is Boolean,
            JavaType::Byte => self is Byte,
            JavaType::Char => self is Char,
            JavaType::Short => self is Short,
            JavaType::Int => self is Int,
            JavaType::Long => self is Long,
            JavaType::Float => self is Float,
            JavaType::Double => self is Double,
            JavaType::Void => false,
            JavaType::Object(_) => self is Object,
            JavaType::Array(_) => self is Object,
        }
    }

    /// The object reference of the value, if it holds one, belongs to the
    /// environment `env`.
    pub open spec fn within(self, env: &Env<'a>) -> bool {
        self matches Value::Object(handle) ==> handle.env == env
    }

    /// The JNI form of the value, as it is passed to the runtime in a call.
    /// An object handle lends its reference; the referent is not copied.
    ///
    /// A `char` above `U+FFFF` has no 16-bit code unit: what would be passed
    /// for it is undefined, so such a value is not accepted.
    pub fn to_wire<'v>(&'v self) -> (jvalue: JValueGen<&'v JObject<'a>>)
        requires
            self.representable(),
        ensures
            lent_wire(jvalue) == wire_form(*self),
    {
        match self {
            Value::Boolean(b) => JValueGen::Bool(encode_boolean(*b)),
            Value::Byte(b) => JValueGen::Byte(*b),
            Value::Char(c) => JValueGen::Char(encode_char(*c)),
            Value::Short(s) => JValueGen::Short(*s),
            Value::Int(i) => JValueGen::Int(*i),
            Value::Long(l) => JValueGen::Long(*l),
            Value::Float(bits) => JValueGen::Float(float_from_bits(*bits)),
            Value::Double(bits) => JValueGen::Double(double_from_bits(*bits)),
            Value::Void => JValueGen::Void,
            Value::Object(handle) => JValueGen::Object(handle.get_object()),
        }
    }

    /// The value that a JNI value stands for, where it needs no environment:
    /// a primitive or nothing. For an object reference, the reference itself
    /// comes back, to be wrapped.
    pub fn primitive(jvalue: JValueGen<JObject<'a>>) -> (value: Result<Value<'e, 'a>, JObject<'a>>)
        ensures
            match owned_wire(jvalue) {
                Wire::Object(object) => value == Err::<Value<'e, 'a>, JObject<'a>>(object),
                w => value is Ok && forall|env: &'e Env<'a>|
                    value->Ok_0 == #[trigger] value_form(env, w),
            },
    {
        match jvalue {
            JValueGen::Bool(b) => Ok(Value::Boolean(decode_boolean(b))),
            JValueGen::Byte(b) => Ok(Value::Byte(b)),
            JValueGen::Char(c) => Ok(Value::Char(decode_char(c))),
            JValueGen::Short(s) => Ok(Value::Short(s)),
            JValueGen::Int(i) => Ok(Value::Int(i)),
            JValueGen::Long(l) => Ok(Value::Long(l)),
            JValueGen::Float(f) => Ok(Value::Float(float_to_bits(f))),
            JValueGen::Double(d) => Ok(Value::Double(double_to_bits(d))),
            JValueGen::Object(o) => Err(o),
            JValueGen::Void => Ok(Value::Void),
        }
    }

    /// The value that a JNI value stands for, as the runtime returns it. An
    /// object reference is wrapped together with the environment `env`; the
    /// referent is not copied.
    pub fn from_wire(env: &'e Env<'a>, jvalue: JValueGen<JObject<'a>>) -> (value: Value<'e, 'a>)
        ensures
            value == value_form(env, owned_wire(jvalue)),
    {
        match Value::primitive(jvalue) {
            Ok(value) => value,
            Err(object) => Value::Object(Object::new(env, object)),
        }
    }
}

/// All of the values have a wire form.
pub open spec fn all_representable(values: Seq<Value<'_, '_>>) -> bool {
    forall|i: int| 0 <= i < values.len() ==> (#[trigger] values[i]).representable()
}

/// Whether all of the values have a wire form.
pub fn are_representable(values: &[Value<'_, '_>]) -> (fit: bool)
    ensures
        fit == all_representable(values@),
{
    let mut i: usize = 0;
    while i < values.len()
        invariant
            i <= values@.len(),
            forall|j: int| 0 <= j < i ==> (#[trigger] values@[j]).representable(),
        decreases values@.len() - i,
    {
        if !values[i].is_representable() {
            return false;
        }
        i += 1;
    }
    true
}

/// What the runtime answered to a call that returns a value, as this
/// library passes it on: the value that the returned JNI value stands for,
/// with an object reference wrapped together with the environment `env`; or
/// the error, as [`BridgeError::Runtime`] with the error inside.
pub fn returned_value<'e, 'a>(
    env: &'e Env<'a>,
    answer: Result<JValueGen<JObject<'a>>, jni::errors::Error>,
) -> (outcome: Result<Value<'e, 'a>, BridgeError>)
    ensures
        outcome == match answer {
            Ok(jvalue) => Ok::<Value<'e, 'a>, BridgeError>(value_form(env, owned_wire(jvalue))),
            Err(error) => Err(BridgeError::Runtime(error)),
        },
{
    match answer {
        Ok(jvalue) => Ok(Value::from_wire(env, jvalue)),
        Err(error) => Err(BridgeError::Runtime(error)),
    }
}

/// The wire form of a value. An object handle gives its reference; the
/// referent is not copied.
pub open spec fn wire_form<'e, 'a>(value: Value<'e, 'a>) -> Wire<'a> {
    match value {
        Value::Boolean(b) => Wire::Bool(boolean_code(b)),
        Value::Byte(b) => Wire::Byte(b),
        Value::Char(c) => Wire::Char(char_code(c)),
        Value::Short(s) => Wire::Short(s),
        Value::Int(i) => Wire::Int(i),
        Value::Long(l) => Wire::Long(l),
        Value::Float(bits) => Wire::Float(bits),
        Value::Double(bits) => Wire::Double(bits),
        Value::Void => Wire::Void,
        Value::Object(handle) => Wire::Object(handle.object),
    }
}

/// The value that a wire form stands for. An object reference is wrapped
/// together with the environment `env`.
pub open spec fn value_form<'e, 'a>(env: &'e Env<'a>, w: Wire<'a>) -> Value<'e, 'a> {
    match w {
        Wire::Bool(code) => Value::Boolean(boolean_of(code)),
        Wire::Byte(b) => Value::Byte(b),
        Wire::Char(code) => Value::Char(char_of(code)),
        Wire::Short(s) => Value::Short(s),
        Wire::Int(i) => Value::Int(i),
        Wire::Long(l) => Value::Long(l),
        Wire::Float(bits) => Value::Float(bits),
        Wire::Double(bits) => Value::Double(bits),
        Wire::Void => Value::Void,
        Wire::Object(object) => Value::Object(Object { env, object }),
    }
}

/// A wire form that holds a boolean as 0 or 1 and a char as a code unit that
/// is a character by itself. The wire forms of values are of this kind.
pub open spec fn canonical(w: Wire<'_>) -> bool {
    match w {
        Wire::Bool(code) => code <= 1,
        Wire::Char(code) => is_scalar(code),
        _ => true,
    }
}

/// Nothing is lost on the way to the wire and back: a value that has a wire
/// form comes back as it went, an object reference in a handle of the
/// environment that it came back through.
pub proof fn lemma_value_survives_wire<'e, 'a>(env: &'e Env<'a>, value: Value<'e, 'a>)
    requires
        value.representable(),
        value.within(env),
    ensures
        canonical(wire_form(value)),
        value_form(env, wire_form(value)) == value,
{
}

/// Nothing is lost on the way from the wire and back: what is made of a
/// canonical wire form has that wire form. It always has one, and an object
/// reference in it belongs to the environment that wrapped it.
pub proof fn lemma_wire_survives_value<'e, 'a>(env: &'e Env<'a>, w: Wire<'a>)
    ensures
        value_form(env, w).representable(),
        value_form(env, w).within(env),
        canonical(w) ==> wire_form(value_form(env, w)) == w,
{
}

} // verus!
