//! The object handle.

use crate::call::{check_call, check_value};
use crate::class::Class;
#[allow(unused_imports)]
use crate::descriptor::{lemma_descriptor_head, method_descriptor};
use crate::descriptor::{Signature, Type};
use crate::env::Env;
use crate::error::{passed_on, BridgeError};
use crate::runtime;
#[allow(unused_imports)]
use crate::value::all_representable;
use crate::value::{returned_value, Value};
use jni::objects::JObject;
use vstd::prelude::*;

verus! {

/// A handle on a managed object: the environment together with the
/// reference to the object. The handle does not own the referent: the runtime
/// does, and reclaims it when the native call that the reference belongs to
/// has returned.
pub struct Object<'e, 'a> {
    /// The environment that the reference belongs to.
    pub env: &'e Env<'a>,
    /// The reference to the managed object.
    pub object: JObject<'a>,
}

impl<'e, 'a> Object<'e, 'a> {
    /// A handle on the given reference.
    pub fn new(env: &'e Env<'a>, object: JObject<'a>) -> (handle: Object<'e, 'a>)
        ensures
            handle.env == env,
            handle.object == object,
    {
        Object { env, object }
    }

    /// Calls the method of the given name and signature on the object with
    /// the given arguments, and returns what the method returned.
    ///
    /// The method is found by its name and the descriptor of the signature;
    /// the arguments are handed over in their wire forms, in the given
    /// order. Whether each argument is of the type that the signature names
    /// at its position is not checked on this side.
    ///
    /// Fails with [`BridgeError::Descriptor`] exactly where a class name
    /// inside a parameter type holds a `;`, and else with
    /// [`BridgeError::Character`] exactly where an argument is a character
    /// above `U+FFFF`; in both cases the runtime is not asked. Any other failure is
    /// [`BridgeError::Busy`] or comes from the runtime: no such method, or an
    /// error raised by the managed side.
    pub fn call_method(&self, name: &str, signature: Signature, args: &[Value<'_, 'a>]) -> (returned:
        Result<Value<'e, 'a>, BridgeError>)
        ensures
            returned matches Err(BridgeError::Descriptor) <==> !signature@.framed(),
            returned matches Err(BridgeError::Character) <==> signature@.framed()
                && !all_representable(args@),
            returned matches Err(e) ==> e is Descriptor || e is Character || e is Busy
                || e is Runtime,
            returned matches Ok(value) ==> value.representable() && value.within(self.env),
    {
        match check_call(&signature, args) {
            Ok(()) => {},
            Err(e) => return Err(e),
        }
        let ghost method = signature@;
        let descriptor: String = signature.into();
        assert(method_descriptor(method) == descriptor@ && method.framed());
        let jargs = self.env.new_values(args);
        let mut access = match self.env.get_jni_env() {
            Some(access) => access,
            None => return Err(BridgeError::Busy),
        };
        returned_value(
            self.env,
            runtime::call_method(&mut access, &self.object, name, descriptor.as_str(), &jargs),
        )
    }

    /// The value of the field of the given name and type.
    ///
    /// The field is found by its name and the descriptor of the type. The
    /// value that comes back is of the kind that the type names, with an
    /// object reference wrapped together with the environment of this
    /// handle; for the type `void`, which no field has, nothing comes back
    /// but an error. Every failure is [`BridgeError::Busy`] or comes from the
    /// runtime: no such field, or an error raised by the managed side.
    pub fn get_field(&self, name: &str, field_type: Type) -> (value: Result<
        Value<'e, 'a>,
        BridgeError,
    >)
        ensures
            value matches Err(e) ==> e is Busy || e is Runtime,
            value matches Ok(v) ==> v.held_by(field_type@) && v.representable() && v.within(
                self.env,
            ),
    {
        let descriptor: String = field_type.into();
        let mut access = match self.env.get_jni_env() {
            Some(access) => access,
            None => return Err(BridgeError::Busy),
        };
        returned_value(
            self.env,
            runtime::get_field(&mut access, &self.object, name, descriptor.as_str()),
        )
    }

    /// Sets the field of the given name and type to the given value.
    ///
    /// Fails with [`BridgeError::Character`] exactly where the value is a
    /// character above `U+FFFF`, in which case the runtime is not asked.
    pub fn set_field(&self, name: &str, field_type: Type, value: Value<'_, 'a>) -> (stored: Result<
        (),
        BridgeError,
    >)
        ensures
            stored matches Err(BridgeError::Character) <==> !value.representable(),
            stored matches Err(e) ==> e is Character || e is Busy || e is Runtime,
    {
        match check_value(&value) {
            Ok(()) => {},
            Err(e) => return Err(e),
        }
        proof {
            lemma_descriptor_head(field_type@);
        }
        let descriptor: String = field_type.into();
        let jvalue = value.to_wire();
        let mut access = match self.env.get_jni_env() {
            Some(access) => access,
            None => return Err(BridgeError::Busy),
        };
        passed_on(runtime::set_field(&mut access, &self.object, name, descriptor.as_str(), jvalue))
    }

    /// A handle on the class of the object, as the runtime reports it: the
    /// class that the object was created with, which may be a subclass of
    /// the one that the reference was declared with.
    pub fn get_class(&self) -> (class: Result<Class<'e, 'a>, BridgeError>)
        ensures
            class matches Ok(c) ==> c.env == self.env,
            class matches Err(e) ==> e is Busy || e is Runtime,
    {
        let mut access = match self.env.get_jni_env() {
            Some(access) => access,
            None => return Err(BridgeError::Busy),
        };
        match runtime::get_object_class(&mut access, &self.object) {
            Ok(class) => Ok(Class::new(self.env, class)),
            Err(e) => Err(BridgeError::Runtime(e)),
        }
    }

    /// The wrapped reference.
    pub fn get_object(&self) -> (object: &JObject<'a>)
        ensures
            *object == self.object,
    {
        &self.object
    }
}

} // verus!
