//! What is decided on this side before an operation crosses into the
//! runtime: whether the signature and the values can be handed over at all.

use crate::descriptor::Signature;
use crate::error::BridgeError;
#[allow(unused_imports)]
use crate::value::all_representable;
use crate::value::{are_representable, Value};
use vstd::prelude::*;

verus! {

/// Whether a call with the given signature and arguments can be handed to
/// the runtime.
///
/// It cannot, with [`BridgeError::Descriptor`], exactly where a class name
/// inside a parameter type holds a `;`; and else, with
/// [`BridgeError::Character`],
/// exactly where an argument is a character above `U+FFFF`. Whether each
/// argument is of the type that the signature names at its position is not
/// looked at.
pub fn check_call(signature: &Signature, args: &[Value<'_, '_>]) -> (admitted: Result<
    (),
    BridgeError,
>)
    ensures
        admitted == if !signature@.framed() {
            Err::<(), BridgeError>(BridgeError::Descriptor)
        } else if !all_representable(args@) {
            Err(BridgeError::Character)
        } else {
            Ok(())
        },
{
    if !signature.is_framed() {
        Err(BridgeError::Descriptor)
    } else if !are_representable(args) {
        Err(BridgeError::Character)
    } else {
        Ok(())
    }
}

/// Whether the given value can be handed to the runtime, to be stored in a
/// field.
///
/// It cannot, with [`BridgeError::Character`], exactly where it is a
/// character above `U+FFFF`.
pub fn check_value(value: &Value<'_, '_>) -> (admitted: Result<(), BridgeError>)
    ensures
        admitted == if value.representable() {
            Ok::<(), BridgeError>(())
        } else {
            Err(BridgeError::Character)
        },
{
    if value.is_representable() {
        Ok(())
    } else {
        Err(BridgeError::Character)
    }
}

} // verus!
