//! The errors of the marshalling layer.

use vstd::prelude::*;

verus! {

/// Why an operation that crosses into the Java runtime failed.
///
/// The first five are decided on this side, before or after the crossing. The
/// last carries whatever the JNI layer reported, be it a lookup that failed, a
/// descriptor that did not match or an exception that the managed side
/// raised; these are not told apart here.
#[derive(Debug)]
pub enum BridgeError {
    /// A length or an index that the runtime's signed 32-bit sizes cannot
    /// hold, or a negative length reported by the runtime.
    Size,
    /// A character above `U+FFFF`, which has no 16-bit code unit of its own
    /// and so no place in an argument, a field or an array of `char`.
    Character,
    /// A managed string whose bytes are not valid modified UTF-8.
    Decoding,
    /// A parameter type with a `;` inside a class name. No class has such a
    /// name, and in a method descriptor the `;` would end the name early:
    /// what follows it would be read as further parameters.
    Descriptor,
    /// The environment is in use: an access to it that was handed out is
    /// still held.
    Busy,
    /// An error reported by the JNI layer.
    Runtime(jni::errors::Error),
}

/// What the runtime answered, as this library passes it on: a result as it
/// came, an error as [`BridgeError::Runtime`] with the error inside.
pub fn passed_on<T>(answer: Result<T, jni::errors::Error>) -> (outcome: Result<T, BridgeError>)
    ensures
        outcome == match answer {
            Ok(result) => Ok::<T, BridgeError>(result),
            Err(error) => Err(BridgeError::Runtime(error)),
        },
{
    match answer {
        Ok(result) => Ok(result),
        Err(error) => Err(BridgeError::Runtime(error)),
    }
}

} // verus!
