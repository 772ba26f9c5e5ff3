//! Handles on the arrays of the runtime, one kind for each primitive element
//! type and one for objects.
//!
//! All of them offer the same operations, gathered in the trait [`Array`]:
//! allocate, wrap, length, and get and set by index. An element is read and
//! written by copying a region of one element, so an access costs the same
//! whatever the length of the array, and no copy of the whole array is kept.
//! The runtime checks the bounds. What is decided on this side is only
//! whether a length or an index can be handed to the runtime at all: its
//! sizes are signed 32-bit numbers.
//!
//! The elements of a float or double array are held by their IEEE 754 bit
//! patterns on this side.

use crate::env::Env;
use crate::error::{passed_on, BridgeError};
use crate::runtime;
use crate::runtime::{double_from_bits, double_to_bits, float_from_bits, float_to_bits};
#[allow(unused_imports)]
use crate::value::{boolean_code, boolean_of, char_code, char_of};
use crate::value::{decode_boolean, decode_char, encode_boolean, encode_char, fits_code_unit};
use jni::objects::JObject;
use jni::sys::{jdouble, jfloat};
#[allow(unused_imports)]
use vstd::float::FloatBitsProperties;
use vstd::prelude::*;

verus! {

/// The largest length and the largest index that the runtime's sizes hold.
pub const MAX_SIZE: usize = 0x7fff_ffff;

/// The runtime's size for a native length or index, where it has one.
pub open spec fn jsize_of(n: usize) -> Option<i32> {
    if n <= MAX_SIZE {
        Some(n as i32)
    } else {
        None
    }
}

/// The native length for a size that the runtime reports, where it has one.
pub open spec fn length_of(size: i32) -> Option<usize> {
    if size >= 0 {
        Some(size as usize)
    } else {
        None
    }
}

/// The runtime's size for a native length or index: the same number, or
/// nothing where it is above [`MAX_SIZE`]. Nothing wraps around.
pub fn to_jsize(n: usize) -> (size: Option<i32>)
    ensures
        size == jsize_of(n),
{
    if n <= MAX_SIZE {
        Some(n as i32)
    } else {
        None
    }
}

/// The native length for a size that the runtime reports: the same number,
/// or nothing where it is negative.
pub fn from_jsize(size: i32) -> (n: Option<usize>)
    ensures
        n == length_of(size),
{
    if size >= 0 {
        Some(size as usize)
    } else {
        None
    }
}

/// A size and the length that it stands for are the same number, both ways.
pub proof fn lemma_size_round_trip(n: usize, size: i32)
    ensures
        jsize_of(n) matches Some(s) ==> length_of(s) == Some(n),
        length_of(size) matches Some(l) ==> jsize_of(l) == Some(size),
{
}

/// What the runtime answered when asked to copy one element of an array into
/// a buffer, together with what the buffer then holds: the element, or the
/// error.
pub fn copied<T: Copy>(answer: Result<(), jni::errors::Error>, buffer: &[T; 1]) -> (outcome: Result<
    T,
    jni::errors::Error,
>)
    ensures
        outcome == match answer {
            Ok(()) => Ok::<T, jni::errors::Error>(buffer[0]),
            Err(error) => Err(error),
        },
{
    match answer {
        Ok(()) => Ok(buffer[0]),
        Err(error) => Err(error),
    }
}

/// What is made of the runtime's answer to the question for a length: the
/// length; [`BridgeError::Size`] for a negative one; or the error, as
/// [`BridgeError::Runtime`] with the error inside.
pub open spec fn length_read(answer: Result<i32, jni::errors::Error>) -> Result<
    usize,
    BridgeError,
> {
    match answer {
        Ok(size) => match length_of(size) {
            Some(n) => Ok(n),
            None => Err(BridgeError::Size),
        },
        Err(error) => Err(BridgeError::Runtime(error)),
    }
}

/// What the runtime answered when asked for a length, as this library passes
/// it on.
pub fn read_length(answer: Result<i32, jni::errors::Error>) -> (outcome: Result<usize, BridgeError>)
    ensures
        outcome == length_read(answer),
{
    match answer {
        Ok(size) => match from_jsize(size) {
            Some(n) => Ok(n),
            None => Err(BridgeError::Size),
        },
        Err(error) => Err(BridgeError::Runtime(error)),
    }
}

/// Where the runtime reports the size that it was asked for, the length
/// that is read is the length that was asked for. Whether the runtime does
/// so is the runtime's part.
pub proof fn lemma_length_as_asked(n: usize)
    requires
        n <= MAX_SIZE,
    ensures
        jsize_of(n) matches Some(size) && length_read(Ok(size)) == Ok::<usize, BridgeError>(n),
{
}

/// What the runtime answered when asked for an element of an array of
/// `boolean`, as this library passes it on: the boolean that the byte stands
/// for; or the error, as [`BridgeError::Runtime`] with the error inside.
pub fn read_boolean(answer: Result<u8, jni::errors::Error>) -> (outcome: Result<bool, BridgeError>)
    ensures
        outcome == match answer {
            Ok(code) => Ok::<bool, BridgeError>(boolean_of(code)),
            Err(error) => Err(BridgeError::Runtime(error)),
        },
{
    match answer {
        Ok(code) => Ok(decode_boolean(code)),
        Err(error) => Err(BridgeError::Runtime(error)),
    }
}

/// What the runtime answered when asked for an element of an array of
/// `char`, as this library passes it on: the character that the code unit
/// stands for; or the error, as [`BridgeError::Runtime`] with the error
/// inside.
pub fn read_char(answer: Result<u16, jni::errors::Error>) -> (outcome: Result<char, BridgeError>)
    ensures
        outcome == match answer {
            Ok(code) => Ok::<char, BridgeError>(char_of(code)),
            Err(error) => Err(BridgeError::Runtime(error)),
        },
{
    match answer {
        Ok(code) => Ok(decode_char(code)),
        Err(error) => Err(BridgeError::Runtime(error)),
    }
}

/// What the runtime answered when asked for an element of an array of
/// `float`, as this library passes it on: the bit pattern of the float; or
/// the error, as [`BridgeError::Runtime`] with the error inside.
pub fn read_float(answer: Result<jfloat, jni::errors::Error>) -> (outcome: Result<u32, BridgeError>)
    ensures
        outcome == match answer {
            Ok(number) => Ok::<u32, BridgeError>(number.to_bits_spec()),
            Err(error) => Err(BridgeError::Runtime(error)),
        },
{
    match answer {
        Ok(number) => Ok(float_to_bits(number)),
        Err(error) => Err(BridgeError::Runtime(error)),
    }
}

/// What the runtime answered when asked for an element of an array of
/// `double`, as this library passes it on: the bit pattern of the double; or
/// the error, as [`BridgeError::Runtime`] with the error inside.
pub fn read_double(answer: Result<jdouble, jni::errors::Error>) -> (outcome: Result<
    u64,
    BridgeError,
>)
    ensures
        outcome == match answer {
            Ok(number) => Ok::<u64, BridgeError>(number.to_bits_spec()),
            Err(error) => Err(BridgeError::Runtime(error)),
        },
{
    match answer {
        Ok(number) => Ok(double_to_bits(number)),
        Err(error) => Err(BridgeError::Runtime(error)),
    }
}

/// What `set` hands to the runtime for an element, `get` reads back as that
/// element: where an element is converted on the way, as a boolean and a
/// char are, the two conversions undo each other. Whether the runtime keeps
/// what it was handed is the runtime's part.
pub proof fn lemma_element_reads_back(b: bool, c: char)
    requires
        c as u32 <= 0xFFFF,
    ensures
        boolean_of(boolean_code(b)) == b,
        char_of(char_code(c)) == c,
{
}

/// The zero that the runtime fills a new array with reads as the zero of the
/// element kind: `false` for a boolean, `U+0000` for a char.
pub proof fn lemma_zero_reads_as_zero()
    ensures
        boolean_of(0) == false,
        char_of(0) == 0 as char,
{
}

/// What every array handle offers. `T` is the element as native code holds
/// it.
pub trait Array<'e, 'a, T>: Sized {
    /// The element can be stored in an array of this kind. Every element
    /// can, but a character above `U+FFFF` in an array of `char`.
    spec fn storable(value: T) -> bool;

    /// The environment that the handle borrows.
    spec fn environment(&self) -> &'e Env<'a>;

    /// The reference that the handle wraps.
    spec fn reference(&self) -> JObject<'a>;

    /// A handle on a new array of the given length.
    ///
    /// Fails with [`BridgeError::Size`] exactly where the length is above
    /// [`MAX_SIZE`], in which case the runtime is not asked; any other
    /// failure is the runtime's, passed on as it came.
    fn new(env: &'e Env<'a>, length: usize) -> (handle: Result<Self, BridgeError>)
        ensures
            handle matches Err(BridgeError::Size) <==> length > MAX_SIZE,
            handle matches Err(e) ==> e is Size || e is Busy || e is Runtime,
            handle matches Ok(h) ==> h.environment() == env,
    ;

    /// A handle on an existing array. The element kind of the array is not
    /// checked: to wrap an array of another kind is the caller's error.
    fn from(env: &'e Env<'a>, array: JObject<'a>) -> (handle: Self)
        ensures
            handle.environment() == env,
            handle.reference() == array,
    ;

    /// The number of elements, asked of the runtime at every call.
    ///
    /// Fails with [`BridgeError::Size`] where the runtime reports a negative
    /// length.
    fn length(&self) -> (length: Result<usize, BridgeError>)
        ensures
            length matches Ok(n) ==> n <= MAX_SIZE,
            length matches Err(e) ==> e is Size || e is Busy || e is Runtime,
    ;

    /// The element at the given index. It is one that can be stored in an
    /// array of this kind.
    ///
    /// Fails with [`BridgeError::Size`] exactly where the index is above
    /// [`MAX_SIZE`], which is out of range for every array; below that the
    /// runtime checks the bounds.
    fn get(&self, index: usize) -> (element: Result<T, BridgeError>)
        ensures
            element matches Err(BridgeError::Size) <==> index > MAX_SIZE,
            element matches Err(e) ==> e is Size || e is Busy || e is Runtime,
            element matches Ok(v) ==> Self::storable(v),
    ;

    /// Stores the element at the given index.
    ///
    /// Fails with [`BridgeError::Size`] exactly where the index is above
    /// [`MAX_SIZE`], which is out of range for every array, and else with
    /// [`BridgeError::Character`] exactly where the element cannot be
    /// stored; in both cases the runtime is not asked. Below that the
    /// runtime checks the bounds.
    fn set(&self, index: usize, value: T) -> (stored: Result<(), BridgeError>)
        ensures
            stored matches Err(BridgeError::Size) <==> index > MAX_SIZE,
            stored matches Err(BridgeError::Character) <==> index <= MAX_SIZE && !Self::storable(
                value,
            ),
            stored matches Err(e) ==> e is Size || e is Character || e is Busy || e is Runtime,
    ;
}

/// The length of an array of any kind, as [`Array::length`] gives it: what
/// [`read_length`] makes of the runtime's answer, or [`BridgeError::Busy`].
pub fn array_length<'a>(env: &Env<'a>, array: &JObject<'a>) -> (length: Result<usize, BridgeError>)
    ensures
        length matches Ok(n) ==> n <= MAX_SIZE,
        length matches Err(e) ==> e is Size || e is Busy || e is Runtime,
{
    let mut access = match env.get_jni_env() {
        Some(access) => access,
        None => return Err(BridgeError::Busy),
    };
    read_length(runtime::get_array_length(&mut access, array))
}

/// A handle on an array of `boolean`.
pub struct BooleanArray<'e, 'a> {
    /// The environment that the array belongs to.
    pub env: &'e Env<'a>,
    /// The reference to the array.
    pub array: JObject<'a>,
}

impl<'e, 'a> Array<'e, 'a, bool> for BooleanArray<'e, 'a> {
    open spec fn storable(value: bool) -> bool {
        true
    }

    open spec fn environment(&self) -> &'e Env<'a> {
        self.env
    }

    open spec fn reference(&self) -> JObject<'a> {
        self.array
    }

    fn new(env: &'e Env<'a>, length: usize) -> (handle: Result<Self, BridgeError>) {
        let size = match to_jsize(length) {
            Some(size) => size,
            None => return Err(BridgeError::Size),
        };
        let mut access = match env.get_jni_env() {
            Some(access) => access,
            None => return Err(BridgeError::Busy),
        };
        match runtime::new_boolean_array(&mut access, size) {
            Ok(array) => Ok(BooleanArray { env, array }),
            Err(e) => Err(BridgeError::Runtime(e)),
        }
    }

    fn from(env: &'e Env<'a>, array: JObject<'a>) -> (handle: Self) {
        BooleanArray { env, array }
    }

    fn length(&self) -> (length: Result<usize, BridgeError>) {
        array_length(self.env, &self.array)
    }

    fn get(&self, index: usize) -> (element: Result<bool, BridgeError>) {
        let start = match to_jsize(index) {
            Some(start) => start,
            None => return Err(BridgeError::Size),
        };
        let mut access = match self.env.get_jni_env() {
            Some(access) => access,
            None => return Err(BridgeError::Busy),
        };
        let mut buffer: [u8; 1] = [0];
        let answer = runtime::get_boolean_array_region(&mut access, &self.array, start, &mut buffer);
        read_boolean(copied(answer, &buffer))
    }

    fn set(&self, index: usize, value: bool) -> (stored: Result<(), BridgeError>) {
        let start = match to_jsize(index) {
            Some(start) => start,
            None => return Err(BridgeError::Size),
        };
        let mut access = match self.env.get_jni_env() {
            Some(access) => access,
            None => return Err(BridgeError::Busy),
        };
        let buffer: [u8; 1] = [encode_boolean(value)];
        passed_on(runtime::set_boolean_array_region(&mut access, &self.array, start, &buffer))
    }
}

/// A handle on an array of `byte`.
pub struct ByteArray<'e, 'a> {
    /// The environment that the array belongs to.
    pub env: &'e Env<'a>,
    /// The reference to the array.
    pub array: JObject<'a>,
}

impl<'e, 'a> Array<'e, 'a, i8> for ByteArray<'e, 'a> {
    open spec fn storable(value: i8) -> bool {
        true
    }

    open spec fn environment(&self) -> &'e Env<'a> {
        self.env
    }

    open spec fn reference(&self) -> JObject<'a> {
        self.array
    }

    fn new(env: &'e Env<'a>, length: usize) -> (handle: Result<Self, BridgeError>) {
        let size = match to_jsize(length) {
            Some(size) => size,
            None => return Err(BridgeError::Size),
        };
        let mut access = match env.get_jni_env() {
            Some(access) => access,
            None => return Err(BridgeError::Busy),
        };
        match runtime::new_byte_array(&mut access, size) {
            Ok(array) => Ok(ByteArray { env, array }),
            Err(e) => Err(BridgeError::Runtime(e)),
        }
    }

    fn from(env: &'e Env<'a>, array: JObject<'a>) -> (handle: Self) {
        ByteArray { env, array }
    }

    fn length(&self) -> (length: Result<usize, BridgeError>) {
        array_length(self.env, &self.array)
    }

    fn get(&self, index: usize) -> (element: Result<i8, BridgeError>) {
        let start = match to_jsize(index) {
            Some(start) => start,
            None => return Err(BridgeError::Size),
        };
        let mut access = match self.env.get_jni_env() {
            Some(access) => access,
            None => return Err(BridgeError::Busy),
        };
        let mut buffer: [i8; 1] = [0];
        let answer = runtime::get_byte_array_region(&mut access, &self.array, start, &mut buffer);
        passed_on(copied(answer, &buffer))
    }

    fn set(&self, index: usize, value: i8) -> (stored: Result<(), BridgeError>) {
        let start = match to_jsize(index) {
            Some(start) => start,
            None => return Err(BridgeError::Size),
        };
        let mut access = match self.env.get_jni_env() {
            Some(access) => access,
            None => return Err(BridgeError::Busy),
        };
        let buffer: [i8; 1] = [value];
        passed_on(runtime::set_byte_array_region(&mut access, &self.array, start, &buffer))
    }
}

/// A handle on an array of `char`. An element is one 16-bit code unit: a character
/// above `U+FFFF` cannot be stored.
pub struct CharArray<'e, 'a> {
    /// The environment that the array belongs to.
    pub env: &'e Env<'a>,
    /// The reference to the array.
    pub array: JObject<'a>,
}

impl<'e, 'a> Array<'e, 'a, char> for CharArray<'e, 'a> {
    open spec fn storable(value: char) -> bool {
        value as u32 <= 0xFFFF
    }

    open spec fn environment(&self) -> &'e Env<'a> {
        self.env
    }

    open spec fn reference(&self) -> JObject<'a> {
        self.array
    }

    fn new(env: &'e Env<'a>, length: usize) -> (handle: Result<Self, BridgeError>) {
        let size = match to_jsize(length) {
            Some(size) => size,
            None => return Err(BridgeError::Size),
        };
        let mut access = match env.get_jni_env() {
            Some(access) => access,
            None => return Err(BridgeError::Busy),
        };
        match runtime::new_char_array(&mut access, size) {
            Ok(array) => Ok(CharArray { env, array }),
            Err(e) => Err(BridgeError::Runtime(e)),
        }
    }

    fn from(env: &'e Env<'a>, array: JObject<'a>) -> (handle: Self) {
        CharArray { env, array }
    }

    fn length(&self) -> (length: Result<usize, BridgeError>) {
        array_length(self.env, &self.array)
    }

    fn get(&self, index: usize) -> (element: Result<char, BridgeError>) {
        let start = match to_jsize(index) {
            Some(start) => start,
            None => return Err(BridgeError::Size),
        };
        let mut access = match self.env.get_jni_env() {
            Some(access) => access,
            None => return Err(BridgeError::Busy),
        };
        let mut buffer: [u16; 1] = [0];
        let answer = runtime::get_char_array_region(&mut access, &self.array, start, &mut buffer);
        read_char(copied(answer, &buffer))
    }

    fn set(&self, index: usize, value: char) -> (stored: Result<(), BridgeError>) {
        let start = match to_jsize(index) {
            Some(start) => start,
            None => return Err(BridgeError::Size),
        };
        if !fits_code_unit(value) {
            return Err(BridgeError::Character);
        }
        let mut access = match self.env.get_jni_env() {
            Some(access) => access,
            None => return Err(BridgeError::Busy),
        };
        let buffer: [u16; 1] = [encode_char(value)];
        passed_on(runtime::set_char_array_region(&mut access, &self.array, start, &buffer))
    }
}

/// A handle on an array of `double`, each element by its bit pattern.
pub struct DoubleArray<'e, 'a> {
    /// The environment that the array belongs to.
    pub env: &'e Env<'a>,
    /// The reference to the array.
    pub array: JObject<'a>,
}

impl<'e, 'a> Array<'e, 'a, u64> for DoubleArray<'e, 'a> {
    open spec fn storable(value: u64) -> bool {
        true
    }

    open spec fn environment(&self) -> &'e Env<'a> {
        self.env
    }

    open spec fn reference(&self) -> JObject<'a> {
        self.array
    }

    fn new(env: &'e Env<'a>, length: usize) -> (handle: Result<Self, BridgeError>) {
        let size = match to_jsize(length) {
            Some(size) => size,
            None => return Err(BridgeError::Size),
        };
        let mut access = match env.get_jni_env() {
            Some(access) => access,
            None => return Err(BridgeError::Busy),
        };
        match runtime::new_double_array(&mut access, size) {
            Ok(array) => Ok(DoubleArray { env, array }),
            Err(e) => Err(BridgeError::Runtime(e)),
        }
    }

    fn from(env: &'e Env<'a>, array: JObject<'a>) -> (handle: Self) {
        DoubleArray { env, array }
    }

    fn length(&self) -> (length: Result<usize, BridgeError>) {
        array_length(self.env, &self.array)
    }

    fn get(&self, index: usize) -> (element: Result<u64, BridgeError>) {
        let start = match to_jsize(index) {
            Some(start) => start,
            None => return Err(BridgeError::Size),
        };
        let mut access = match self.env.get_jni_env() {
            Some(access) => access,
            None => return Err(BridgeError::Busy),
        };
        let mut buffer: [jdouble; 1] = [double_from_bits(0)];
        let answer = runtime::get_double_array_region(&mut access, &self.array, start, &mut buffer);
        read_double(copied(answer, &buffer))
    }

    fn set(&self, index: usize, value: u64) -> (stored: Result<(), BridgeError>) {
        let start = match to_jsize(index) {
            Some(start) => start,
            None => return Err(BridgeError::Size),
        };
        let mut access = match self.env.get_jni_env() {
            Some(access) => access,
            None => return Err(BridgeError::Busy),
        };
        let buffer: [jdouble; 1] = [double_from_bits(value)];
        passed_on(runtime::set_double_array_region(&mut access, &self.array, start, &buffer))
    }
}

/// A handle on an array of `float`, each element by its bit pattern.
pub struct FloatArray<'e, 'a> {
    /// The environment that the array belongs to.
    pub env: &'e Env<'a>,
    /// The reference to the array.
    pub array: JObject<'a>,
}

impl<'e, 'a> Array<'e, 'a, u32> for FloatArray<'e, 'a> {
    open spec fn storable(value: u32) -> bool {
        true
    }

    open spec fn environment(&self) -> &'e Env<'a> {
        self.env
    }

    open spec fn reference(&self) -> JObject<'a> {
        self.array
    }

    fn new(env: &'e Env<'a>, length: usize) -> (handle: Result<Self, BridgeError>) {
        let size = match to_jsize(length) {
            Some(size) => size,
            None => return Err(BridgeError::Size),
        };
        let mut access = match env.get_jni_env() {
            Some(access) => access,
            None => return Err(BridgeError::Busy),
        };
        match runtime::new_float_array(&mut access, size) {
            Ok(array) => Ok(FloatArray { env, array }),
            Err(e) => Err(BridgeError::Runtime(e)),
        }
    }

    fn from(env: &'e Env<'a>, array: JObject<'a>) -> (handle: Self) {
        FloatArray { env, array }
    }

    fn length(&self) -> (length: Result<usize, BridgeError>) {
        array_length(self.env, &self.array)
    }

    fn get(&self, index: usize) -> (element: Result<u32, BridgeError>) {
        let start = match to_jsize(index) {
            Some(start) => start,
            None => return Err(BridgeError::Size),
        };
        let mut access = match self.env.get_jni_env() {
            Some(access) => access,
            None => return Err(BridgeError::Busy),
        };
        let mut buffer: [jfloat; 1] = [float_from_bits(0)];
        let answer = runtime::get_float_array_region(&mut access, &self.array, start, &mut buffer);
        read_float(copied(answer, &buffer))
    }

    fn set(&self, index: usize, value: u32) -> (stored: Result<(), BridgeError>) {
        let start = match to_jsize(index) {
            Some(start) => start,
            None => return Err(BridgeError::Size),
        };
        let mut access = match self.env.get_jni_env() {
            Some(access) => access,
            None => return Err(BridgeError::Busy),
        };
        let buffer: [jfloat; 1] = [float_from_bits(value)];
        passed_on(runtime::set_float_array_region(&mut access, &self.array, start, &buffer))
    }
}

/// A handle on an array of `int`.
pub struct IntArray<'e, 'a> {
    /// The environment that the array belongs to.
    pub env: &'e Env<'a>,
    /// The reference to the array.
    pub array: JObject<'a>,
}

impl<'e, 'a> Array<'e, 'a, i32> for IntArray<'e, 'a> {
    open spec fn storable(value: i32) -> bool {
        true
    }

    open spec fn environment(&self) -> &'e Env<'a> {
        self.env
    }

    open spec fn reference(&self) -> JObject<'a> {
        self.array
    }

    fn new(env: &'e Env<'a>, length: usize) -> (handle: Result<Self, BridgeError>) {
        let size = match to_jsize(length) {
            Some(size) => size,
            None => return Err(BridgeError::Size),
        };
        let mut access = match env.get_jni_env() {
            Some(access) => access,
            None => return Err(BridgeError::Busy),
        };
        match runtime::new_int_array(&mut access, size) {
            Ok(array) => Ok(IntArray { env, array }),
            Err(e) => Err(BridgeError::Runtime(e)),
        }
    }

    fn from(env: &'e Env<'a>, array: JObject<'a>) -> (handle: Self) {
        IntArray { env, array }
    }

    fn length(&self) -> (length: Result<usize, BridgeError>) {
        array_length(self.env, &self.array)
    }

    fn get(&self, index: usize) -> (element: Result<i32, BridgeError>) {
        let start = match to_jsize(index) {
            Some(start) => start,
            None => return Err(BridgeError::Size),
        };
        let mut access = match self.env.get_jni_env() {
            Some(access) => access,
            None => return Err(BridgeError::Busy),
        };
        let mut buffer: [i32; 1] = [0];
        let answer = runtime::get_int_array_region(&mut access, &self.array, start, &mut buffer);
        passed_on(copied(answer, &buffer))
    }

    fn set(&self, index: usize, value: i32) -> (stored: Result<(), BridgeError>) {
        let start = match to_jsize(index) {
            Some(start) => start,
            None => return Err(BridgeError::Size),
        };
        let mut access = match self.env.get_jni_env() {
            Some(access) => access,
            None => return Err(BridgeError::Busy),
        };
        let buffer: [i32; 1] = [value];
        passed_on(runtime::set_int_array_region(&mut access, &self.array, start, &buffer))
    }
}

/// A handle on an array of `long`.
pub struct LongArray<'e, 'a> {
    /// The environment that the array belongs to.
    pub env: &'e Env<'a>,
    /// The reference to the array.
    pub array: JObject<'a>,
}

impl<'e, 'a> Array<'e, 'a, i64> for LongArray<'e, 'a> {
    open spec fn storable(value: i64) -> bool {
        true
    }

    open spec fn environment(&self) -> &'e Env<'a> {
        self.env
    }

    open spec fn reference(&self) -> JObject<'a> {
        self.array
    }

    fn new(env: &'e Env<'a>, length: usize) -> (handle: Result<Self, BridgeError>) {
        let size = match to_jsize(length) {
            Some(size) => size,
            None => return Err(BridgeError::Size),
        };
        let mut access = match env.get_jni_env() {
            Some(access) => access,
            None => return Err(BridgeError::Busy),
        };
        match runtime::new_long_array(&mut access, size) {
            Ok(array) => Ok(LongArray { env, array }),
            Err(e) => Err(BridgeError::Runtime(e)),
        }
    }

    fn from(env: &'e Env<'a>, array: JObject<'a>) -> (handle: Self) {
        LongArray { env, array }
    }

    fn length(&self) -> (length: Result<usize, BridgeError>) {
        array_length(self.env, &self.array)
    }

    fn get(&self, index: usize) -> (element: Result<i64, BridgeError>) {
        let start = match to_jsize(index) {
            Some(start) => start,
            None => return Err(BridgeError::Size),
        };
        let mut access = match self.env.get_jni_env() {
            Some(access) => access,
            None => return Err(BridgeError::Busy),
        };
        let mut buffer: [i64; 1] = [0];
        let answer = runtime::get_long_array_region(&mut access, &self.array, start, &mut buffer);
        passed_on(copied(answer, &buffer))
    }

    fn set(&self, index: usize, value: i64) -> (stored: Result<(), BridgeError>) {
        let start = match to_jsize(index) {
            Some(start) => start,
            None => return Err(BridgeError::Size),
        };
        let mut access = match self.env.get_jni_env() {
            Some(access) => access,
            None => return Err(BridgeError::Busy),
        };
        let buffer: [i64; 1] = [value];
        passed_on(runtime::set_long_array_region(&mut access, &self.array, start, &buffer))
    }
}

/// A handle on an array of `short`.
pub struct ShortArray<'e, 'a> {
    /// The environment that the array belongs to.
    pub env: &'e Env<'a>,
    /// The reference to the array.
    pub array: JObject<'a>,
}

impl<'e, 'a> Array<'e, 'a, i16> for ShortArray<'e, 'a> {
    open spec fn storable(value: i16) -> bool {
        true
    }

    open spec fn environment(&self) -> &'e Env<'a> {
        self.env
    }

    open spec fn reference(&self) -> JObject<'a> {
        self.array
    }

    fn new(env: &'e Env<'a>, length: usize) -> (handle: Result<Self, BridgeError>) {
        let size = match to_jsize(length) {
            Some(size) => size,
            None => return Err(BridgeError::Size),
        };
        let mut access = match env.get_jni_env() {
            Some(access) => access,
            None => return Err(BridgeError::Busy),
        };
        match runtime::new_short_array(&mut access, size) {
            Ok(array) => Ok(ShortArray { env, array }),
            Err(e) => Err(BridgeError::Runtime(e)),
        }
    }

    fn from(env: &'e Env<'a>, array: JObject<'a>) -> (handle: Self) {
        ShortArray { env, array }
    }

    fn length(&self) -> (length: Result<usize, BridgeError>) {
        array_length(self.env, &self.array)
    }

    fn get(&self, index: usize) -> (element: Result<i16, BridgeError>) {
        let start = match to_jsize(index) {
            Some(start) => start,
            None => return Err(BridgeError::Size),
        };
        let mut access = match self.env.get_jni_env() {
            Some(access) => access,
            None => return Err(BridgeError::Busy),
        };
        let mut buffer: [i16; 1] = [0];
        let answer = runtime::get_short_array_region(&mut access, &self.array, start, &mut buffer);
        passed_on(copied(answer, &buffer))
    }

    fn set(&self, index: usize, value: i16) -> (stored: Result<(), BridgeError>) {
        let start = match to_jsize(index) {
            Some(start) => start,
            None => return Err(BridgeError::Size),
        };
        let mut access = match self.env.get_jni_env() {
            Some(access) => access,
            None => return Err(BridgeError::Busy),
        };
        let buffer: [i16; 1] = [value];
        passed_on(runtime::set_short_array_region(&mut access, &self.array, start, &buffer))
    }
}

/// The name of the class that every object is an instance of,
/// `java/lang/Object`: the element class of an array of objects that is made
/// without one.
pub fn universal_class() -> (name: &'static str)
    ensures
        name@ == "java/lang/Object"@,
{
    "java/lang/Object"
}

/// A handle on an array of object references.
pub struct ObjectArray<'e, 'a> {
    /// The environment that the array belongs to.
    pub env: &'e Env<'a>,
    /// The reference to the array.
    pub array: JObject<'a>,
}

impl<'e, 'a> ObjectArray<'e, 'a> {
    /// A handle on a new array of the given length, whose elements are of
    /// the class with the given name and are null at first.
    ///
    /// Fails with [`BridgeError::Size`] exactly where the length is above
    /// [`MAX_SIZE`], in which case the runtime is not asked; any other
    /// failure is the runtime's, passed on as it came.
    pub fn new_with(env: &'e Env<'a>, length: usize, class: &str) -> (handle: Result<
        Self,
        BridgeError,
    >)
        ensures
            handle matches Err(BridgeError::Size) <==> length > MAX_SIZE,
            handle matches Err(e) ==> e is Size || e is Busy || e is Runtime,
            handle matches Ok(h) ==> h.env == env,
    {
        let size = match to_jsize(length) {
            Some(size) => size,
            None => return Err(BridgeError::Size),
        };
        let mut access = match env.get_jni_env() {
            Some(access) => access,
            None => return Err(BridgeError::Busy),
        };
        let initial = runtime::null();
        match runtime::new_object_array(&mut access, size, class, &initial) {
            Ok(array) => Ok(ObjectArray { env, array }),
            Err(e) => Err(BridgeError::Runtime(e)),
        }
    }
}

impl<'e, 'a> Array<'e, 'a, JObject<'a>> for ObjectArray<'e, 'a> {
    open spec fn storable(value: JObject<'a>) -> bool {
        true
    }

    open spec fn environment(&self) -> &'e Env<'a> {
        self.env
    }

    open spec fn reference(&self) -> JObject<'a> {
        self.array
    }

    /// An array whose elements are of the class [`universal_class`] and are
    /// null at first: what [`ObjectArray::new_with`] makes with that name.
    fn new(env: &'e Env<'a>, length: usize) -> (handle: Result<Self, BridgeError>) {
        ObjectArray::new_with(env, length, universal_class())
    }

    fn from(env: &'e Env<'a>, array: JObject<'a>) -> (handle: Self) {
        ObjectArray { env, array }
    }

    fn length(&self) -> (length: Result<usize, BridgeError>) {
        array_length(self.env, &self.array)
    }

    fn get(&self, index: usize) -> (element: Result<JObject<'a>, BridgeError>) {
        let index = match to_jsize(index) {
            Some(index) => index,
            None => return Err(BridgeError::Size),
        };
        let mut access = match self.env.get_jni_env() {
            Some(access) => access,
            None => return Err(BridgeError::Busy),
        };
        passed_on(runtime::get_object_array_element(&mut access, &self.array, index))
    }

    fn set(&self, index: usize, value: JObject<'a>) -> (stored: Result<(), BridgeError>) {
        let index = match to_jsize(index) {
            Some(index) => index,
            None => return Err(BridgeError::Size),
        };
        let mut access = match self.env.get_jni_env() {
            Some(access) => access,
            None => return Err(BridgeError::Busy),
        };
        passed_on(runtime::set_object_array_element(&mut access, &self.array, index, value))
    }
}

} // verus!
