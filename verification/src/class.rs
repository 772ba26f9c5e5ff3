//! The class handle.

use crate::call::{check_call, check_value};
#[allow(unused_imports)]
use crate::descriptor::method_descriptor;
use crate::descriptor::{Signature, Type};
use crate::env::Env;
use crate::error::{passed_on, BridgeError};
use crate::runtime;
#[allow(unused_imports)]
use crate::value::all_representable;
use crate::value::{returned_value, Value};
use jni::objects::{JClass, JObject, JStaticFieldID};
use vstd::prelude::*;

verus! {

/// A non-owning handle on a managed class: the environment together with the
/// reference to the class.
pub struct Class<'e, 'a> {
    /// The environment that the reference belongs to.
    pub env: &'e Env<'a>,
    /// The reference to the class.
    pub class: JClass<'a>,
}

impl<'e, 'a> Class<'e, 'a> {
    /// A handle on the given class.
    pub fn new(env: &'e Env<'a>, class: JClass<'a>) -> (handle: Class<'e, 'a>)
        ensures
            handle.env == env,
            handle.class == class,
    {
        Class { env, class }
    }

    /// Calls the static method of the given name and signature with the
    /// given arguments, and returns what the method returned.
    ///
    /// The method is found by its name and the descriptor of the signature;
    /// the arguments are handed over in their wire forms, in the given
    /// order. Whether each argument is of the type that the signature names
    /// at its position is not checked on this side.
    ///
    /// Fails with [`BridgeError::Descriptor`] exactly where a class name
    /// inside a parameter type holds a `;`, and else with
    /// [`BridgeError::Character`] exactly where an argument is a character
    /// above `U+FFFF`; in both cases the runtime is not asked. Any other failure is
    /// [`BridgeError::Busy`] or comes from the runtime: no such method, or an
    /// error raised by the managed side.
    pub fn call_static_method(
        &self,
        name: &str,
        signature: Signature,
        args: &[Value<'_, 'a>],
    ) -> (returned: Result<Value<'e, 'a>, BridgeError>)
        ensures
            returned matches Err(BridgeError::Descriptor) <==> !signature@.framed(),
            returned matches Err(BridgeError::Character) <==> signature@.framed()
                && !all_representable(args@),
            returned matches Err(e) ==> e is Descriptor || e is Character || e is Busy
                || e is Runtime,
            returned matches Ok(value) ==> value.representable() && value.within(self.env),
    {
        match check_call(&signature, args) {
            Ok(()) => {},
            Err(e) => return Err(e),
        }
        let ghost method = signature@;
        let descriptor: String = signature.into();
        assert(method_descriptor(method) == descriptor@ && method.framed());
        let jargs = self.env.new_values(args);
        let mut access = match self.env.get_jni_env() {
            Some(access) => access,
            None => return Err(BridgeError::Busy),
        };
        returned_value(
            self.env,
            runtime::call_static_method(
                &mut access,
                &self.class,
                name,
                descriptor.as_str(),
                &jargs,
            ),
        )
    }

    /// Creates an instance of the class with the constructor of the given
    /// signature, and returns the reference to it.
    ///
    /// The descriptor of the signature is handed over as it is. The return
    /// type of a constructor is `void` by convention: the JNI layer refuses
    /// any other.
    ///
    /// Fails with [`BridgeError::Descriptor`] exactly where a class name
    /// inside a parameter type holds a `;`, and else with
    /// [`BridgeError::Character`] exactly where an argument is a character
    /// above `U+FFFF`; in both cases the runtime is not asked.
    pub fn create(&self, signature: Signature, args: &[Value<'_, 'a>]) -> (created: Result<
        JObject<'a>,
        BridgeError,
    >)
        ensures
            created matches Err(BridgeError::Descriptor) <==> !signature@.framed(),
            created matches Err(BridgeError::Character) <==> signature@.framed()
                && !all_representable(args@),
            created matches Err(e) ==> e is Descriptor || e is Character || e is Busy
                || e is Runtime,
    {
        match check_call(&signature, args) {
            Ok(()) => {},
            Err(e) => return Err(e),
        }
        let ghost method = signature@;
        let descriptor: String = signature.into();
        assert(method_descriptor(method) == descriptor@ && method.framed());
        let jargs = self.env.new_values(args);
        let mut access = match self.env.get_jni_env() {
            Some(access) => access,
            None => return Err(BridgeError::Busy),
        };
        passed_on(runtime::new_object(&mut access, &self.class, descriptor.as_str(), &jargs))
    }

    /// The value of the static field of the given name and type.
    ///
    /// The field is found by its name and the descriptor of the type. The
    /// value that comes back is of the kind that the type names, with an
    /// object reference wrapped together with the environment of this
    /// handle; for the type `void`, which no field has, nothing comes back
    /// but an error. Every failure is [`BridgeError::Busy`] or comes from the
    /// runtime: no such field, or an error raised by the managed side.
    pub fn get_static_field(&self, name: &str, field_type: Type) -> (value: Result<
        Value<'e, 'a>,
        BridgeError,
    >)
        ensures
            value matches Err(e) ==> e is Busy || e is Runtime,
            value matches Ok(v) ==> v.held_by(field_type@) && v.representable() && v.within(
                self.env,
            ),
    {
        let descriptor: String = field_type.into();
        let mut access = match self.env.get_jni_env() {
            Some(access) => access,
            None => return Err(BridgeError::Busy),
        };
        returned_value(
            self.env,
            runtime::get_static_field(&mut access, &self.class, name, descriptor.as_str()),
        )
    }

    /// Sets the static field of the given name and type to the given value.
    ///
    /// Fails with [`BridgeError::Character`] exactly where the value is a
    /// character above `U+FFFF`, in which case the runtime is not asked.
    pub fn set_static_field(&self, name: &str, field_type: Type, value: Value<'_, 'a>) -> (stored:
        Result<(), BridgeError>)
        ensures
            stored matches Err(BridgeError::Character) <==> !value.representable(),
            stored matches Err(e) ==> e is Character || e is Busy || e is Runtime,
    {
        match check_value(&value) {
            Ok(()) => {},
            Err(e) => return Err(e),
        }
        let jvalue = value.to_wire();
        let field = match self.get_static_field_id(name, field_type) {
            Ok(field) => field,
            Err(e) => return Err(e),
        };
        let mut access = match self.env.get_jni_env() {
            Some(access) => access,
            None => return Err(BridgeError::Busy),
        };
        passed_on(runtime::set_static_field(&mut access, &self.class, field, jvalue))
    }

    /// The identity of the static field of the given name and type.
    pub fn get_static_field_id(&self, name: &str, field_type: Type) -> (field: Result<
        JStaticFieldID,
        BridgeError,
    >)
        ensures
            field matches Err(e) ==> e is Busy || e is Runtime,
    {
        let descriptor: String = field_type.into();
        let mut access = match self.env.get_jni_env() {
            Some(access) => access,
            None => return Err(BridgeError::Busy),
        };
        passed_on(runtime::get_static_field_id(&mut access, &self.class, name, descriptor.as_str()))
    }

    /// The wrapped reference.
    pub fn get_class(self) -> (class: JClass<'a>)
        ensures
            class == self.class,
    {
        self.class
    }
}

} // verus!
