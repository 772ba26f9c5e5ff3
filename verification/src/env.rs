//! The environment handle.

#[allow(unused_imports)]
use crate::array::MAX_SIZE;
use crate::array::{
    Array, BooleanArray, ByteArray, CharArray, DoubleArray, FloatArray, IntArray, LongArray,
    ObjectArray, ShortArray,
};
use crate::class::Class;
use crate::error::{passed_on, BridgeError};
use crate::runtime;
#[allow(unused_imports)]
use crate::runtime::modified_utf8_text;
use crate::runtime::{access, share};
use crate::value::Value;
#[allow(unused_imports)]
use crate::value::{lent_wire, owned_wire, value_form, wire_form};
use core::cell::{RefCell, RefMut};
use jni::objects::{JObject, JString, JValueGen};
use jni::JNIEnv;
use vstd::prelude::*;

verus! {

/// A handle on the environment that the runtime passes into a native call.
///
/// The handles on classes, objects and arrays borrow it, and every operation
/// that crosses into the runtime goes through it. It holds no resource of its
/// own: the runtime owns the environment, which is valid for the duration of
/// the native call and no longer.
pub struct Env<'a> {
    jni_env: RefCell<JNIEnv<'a>>,
}

impl<'a> Env<'a> {
    /// A handle on the given environment.
    pub fn new(jni_env: JNIEnv<'a>) -> (env: Env<'a>) {
        Env { jni_env: share(jni_env) }
    }

    /// Exclusive access to the environment of the JNI layer, for what this
    /// library does not offer; or nothing while an earlier access is still
    /// held. As long as the access is held, the operations that go through
    /// this handle fail with [`BridgeError::Busy`].
    pub fn get_jni_env(&self) -> Option<RefMut<'_, JNIEnv<'a>>> {
        access(&self.jni_env)
    }

    /// A handle on the class of the given name, which is in the runtime's
    /// internal form (`java/lang/String`).
    ///
    /// Fails where the runtime does not find the class, cannot load or
    /// initialise it, or the name is malformed.
    pub fn get_class<'e>(&'e self, name: &str) -> (class: Result<Class<'e, 'a>, BridgeError>)
        ensures
            class matches Ok(c) ==> c.env == self,
            class matches Err(e) ==> e is Busy || e is Runtime,
    {
        let mut access = match self.get_jni_env() {
            Some(access) => access,
            None => return Err(BridgeError::Busy),
        };
        match runtime::find_class(&mut access, name) {
            Ok(class) => Ok(Class::new(self, class)),
            Err(e) => Err(BridgeError::Runtime(e)),
        }
    }

    /// A new managed string with the given text, as an object reference.
    pub fn new_string(&self, string: &str) -> (created: Result<JObject<'a>, BridgeError>)
        ensures
            created matches Err(e) ==> e is Busy || e is Runtime,
    {
        let mut access = match self.get_jni_env() {
            Some(access) => access,
            None => return Err(BridgeError::Busy),
        };
        passed_on(runtime::new_string(&mut access, string))
    }

    /// The text of a managed string.
    ///
    /// The runtime hands the text over in modified UTF-8. Where those bytes
    /// do not decode, this fails with [`BridgeError::Decoding`]: no
    /// placeholder stands in for what could not be read.
    pub fn get_string(&self, string: JString<'a>) -> (text: Result<String, BridgeError>)
        ensures
            text matches Ok(t) ==> exists|bytes: Seq<u8>| modified_utf8_text(bytes) == Some(t@),
            text matches Err(BridgeError::Decoding) ==> exists|bytes: Seq<u8>|
                modified_utf8_text(bytes) is None,
            text matches Err(e) ==> e is Busy || e is Runtime || e is Decoding,
    {
        let mut access = match self.get_jni_env() {
            Some(access) => access,
            None => return Err(BridgeError::Busy),
        };
        match runtime::get_string(&mut access, &string) {
            Ok(bytes) => decode_string(bytes.as_slice()),
            Err(e) => Err(BridgeError::Runtime(e)),
        }
    }

    /// The JNI forms of the given values, in the same order.
    pub fn new_values<'v>(&self, values: &'v [Value<'_, 'a>]) -> (jvalues: Vec<
        JValueGen<&'v JObject<'a>>,
    >)
        requires
            forall|i: int| 0 <= i < values@.len() ==> (#[trigger] values@[i]).representable(),
        ensures
            jvalues@.len() == values@.len(),
            forall|i: int|
                0 <= i < values@.len() ==> lent_wire(#[trigger] jvalues@[i]) == wire_form(
                    values@[i],
                ),
    {
        let mut jvalues: Vec<JValueGen<&'v JObject<'a>>> = Vec::new();
        let mut i: usize = 0;
        while i < values.len()
            invariant
                i <= values@.len(),
                jvalues@.len() == i,
                forall|j: int| 0 <= j < values@.len() ==> (#[trigger] values@[j]).representable(),
                forall|j: int|
                    0 <= j < i ==> lent_wire(#[trigger] jvalues@[j]) == wire_form(values@[j]),
            decreases values@.len() - i,
        {
            jvalues.push(values[i].to_wire());
            i += 1;
        }
        jvalues
    }

    /// The JNI form of a value: [`Value::to_wire`].
    pub fn new_value<'v>(&self, value: &'v Value<'_, 'a>) -> (jvalue: JValueGen<&'v JObject<'a>>)
        requires
            value.representable(),
        ensures
            lent_wire(jvalue) == wire_form(*value),
    {
        value.to_wire()
    }

    /// The value that a JNI value stands for, with an object reference
    /// wrapped together with this environment: [`Value::from_wire`].
    pub fn get_value<'e>(&'e self, jvalue: JValueGen<JObject<'a>>) -> (value: Value<'e, 'a>)
        ensures
            value == value_form(self, owned_wire(jvalue)),
    {
        Value::from_wire(self, jvalue)
    }

    /// A handle on a new array of `boolean` of the given length.
    pub fn new_boolean_array<'e>(&'e self, length: usize) -> (array: Result<
        BooleanArray<'e, 'a>,
        BridgeError,
    >)
        ensures
            array matches Err(BridgeError::Size) <==> length > MAX_SIZE,
            array matches Err(e) ==> e is Size || e is Busy || e is Runtime,
            array matches Ok(h) ==> h.env == self,
    {
        BooleanArray::new(self, length)
    }

    /// A handle on a new array of `byte` of the given length.
    pub fn new_byte_array<'e>(&'e self, length: usize) -> (array: Result<
        ByteArray<'e, 'a>,
        BridgeError,
    >)
        ensures
            array matches Err(BridgeError::Size) <==> length > MAX_SIZE,
            array matches Err(e) ==> e is Size || e is Busy || e is Runtime,
            array matches Ok(h) ==> h.env == self,
    {
        ByteArray::new(self, length)
    }

    /// A handle on a new array of `char` of the given length.
    pub fn new_char_array<'e>(&'e self, length: usize) -> (array: Result<
        CharArray<'e, 'a>,
        BridgeError,
    >)
        ensures
            array matches Err(BridgeError::Size) <==> length > MAX_SIZE,
            array matches Err(e) ==> e is Size || e is Busy || e is Runtime,
            array matches Ok(h) ==> h.env == self,
    {
        CharArray::new(self, length)
    }

    /// A handle on a new array of `double` of the given length.
    pub fn new_double_array<'e>(&'e self, length: usize) -> (array: Result<
        DoubleArray<'e, 'a>,
        BridgeError,
    >)
        ensures
            array matches Err(BridgeError::Size) <==> length > MAX_SIZE,
            array matches Err(e) ==> e is Size || e is Busy || e is Runtime,
            array matches Ok(h) ==> h.env == self,
    {
        DoubleArray::new(self, length)
    }

    /// A handle on a new array of `float` of the given length.
    pub fn new_float_array<'e>(&'e self, length: usize) -> (array: Result<
        FloatArray<'e, 'a>,
        BridgeError,
    >)
        ensures
            array matches Err(BridgeError::Size) <==> length > MAX_SIZE,
            array matches Err(e) ==> e is Size || e is Busy || e is Runtime,
            array matches Ok(h) ==> h.env == self,
    {
        FloatArray::new(self, length)
    }

    /// A handle on a new array of `int` of the given length.
    pub fn new_int_array<'e>(&'e self, length: usize) -> (array: Result<
        IntArray<'e, 'a>,
        BridgeError,
    >)
        ensures
            array matches Err(BridgeError::Size) <==> length > MAX_SIZE,
            array matches Err(e) ==> e is Size || e is Busy || e is Runtime,
            array matches Ok(h) ==> h.env == self,
    {
        IntArray::new(self, length)
    }

    /// A handle on a new array of `long` of the given length.
    pub fn new_long_array<'e>(&'e self, length: usize) -> (array: Result<
        LongArray<'e, 'a>,
        BridgeError,
    >)
        ensures
            array matches Err(BridgeError::Size) <==> length > MAX_SIZE,
            array matches Err(e) ==> e is Size || e is Busy || e is Runtime,
            array matches Ok(h) ==> h.env == self,
    {
        LongArray::new(self, length)
    }

    /// A handle on a new array of `short` of the given length.
    pub fn new_short_array<'e>(&'e self, length: usize) -> (array: Result<
        ShortArray<'e, 'a>,
        BridgeError,
    >)
        ensures
            array matches Err(BridgeError::Size) <==> length > MAX_SIZE,
            array matches Err(e) ==> e is Size || e is Busy || e is Runtime,
            array matches Ok(h) ==> h.env == self,
    {
        ShortArray::new(self, length)
    }

    /// A handle on a new array of the given length, whose elements are of
    /// the class with the given name and are null at first.
    pub fn new_object_array<'e>(&'e self, length: usize, class: &str) -> (array: Result<
        ObjectArray<'e, 'a>,
        BridgeError,
    >)
        ensures
            array matches Err(BridgeError::Size) <==> length > MAX_SIZE,
            array matches Err(e) ==> e is Size || e is Busy || e is Runtime,
            array matches Ok(h) ==> h.env == self,
    {
        ObjectArray::new_with(self, length, class)
    }
}

/// The text that bytes in Java's modified UTF-8 stand for.
///
/// Fails with [`BridgeError::Decoding`] exactly where the bytes do not
/// decode.
pub fn decode_string(bytes: &[u8]) -> (text: Result<String, BridgeError>)
    ensures
        match modified_utf8_text(bytes@) {
            Some(decoded) => text matches Ok(t) && t@ == decoded,
            None => text matches Err(BridgeError::Decoding),
        },
{
    match runtime::from_java_cesu8(bytes) {
        Some(text) => Ok(text),
        None => Err(BridgeError::Decoding),
    }
}

} // verus!
