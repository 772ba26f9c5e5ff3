//! Typed marshalling between native functions and the Java runtime, over the
//! Java Native Interface.
//!
//! Native code that is called from Java, or calls into it, deals in
//! descriptor strings, tagged values and mangled symbol names. This library
//! writes them:
//!
//! - [`descriptor`] encodes a [`Type`] or a [`Signature`] into the
//!   descriptor by which the runtime finds a field or a method.
//! - [`value`] converts a [`Value`] to the tagged value of the JNI and back.
//! - [`env`], [`class`], [`object`] and [`array`] are handles on the
//!   environment of a native call and on the classes, objects and arrays
//!   that are reached through it. Every operation on them that crosses into
//!   the runtime returns a `Result`, with a [`BridgeError`] where it fails.
//!   [`call`] decides what can be handed over at all.
//! - [`export`] names the symbol under which a native function is exported
//!   and lays out the function that forwards to it.
//! - [`runtime`] is the boundary to the `jni` crate, which does the
//!   crossing.
//!
//! Everything but that boundary is verified: no operation panics, and each
//! states in its contract what it returns as far as this side decides it.
//! What the runtime makes of a call is the runtime's part.

pub mod array;
pub mod call;
pub mod class;
pub mod descriptor;
pub mod env;
pub mod error;
pub mod export;
pub mod object;
pub mod runtime;
pub mod value;

pub use array::{
    Array, BooleanArray, ByteArray, CharArray, DoubleArray, FloatArray, IntArray, LongArray,
    ObjectArray, ShortArray,
};
pub use class::Class;
pub use descriptor::{Signature, Type};
pub use env::Env;
pub use error::BridgeError;
pub use object::Object;
pub use value::Value;
