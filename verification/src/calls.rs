//! Foreign calls with the exception discipline built in: each function makes
//! one call into the runtime, consults the translator right after it, and
//! hands back either the result or an error of the host's own model.

use vstd::prelude::*;
use crate::errors::ExtractError;
use crate::foreign::{
    call_method, failure_kind, find_class, foreign_value, get_byte_array_region, get_string,
    new_byte_array, new_object, new_string, ForeignBytes,
};
use crate::setters::flat_signature;
use crate::translator::{settle, translate_exception};
use crate::value::ForeignValue;

verus! {

/// Signature of a constructor without parameters.
pub const DEFAULT_CONSTRUCTOR: &'static str = "()V";

/// A foreign method, as a call names it: by name and signature.
#[derive(Debug, Clone, Copy, PartialEq, Eq)]
pub struct Method {
    pub name: &'static str,
    pub signature: &'static str,
}

/// Mathematical value of a [`Method`].
pub struct MethodView {
    pub name: Seq<char>,
    pub signature: Seq<char>,
}

impl View for Method {
    type V = MethodView;

    open spec fn view(&self) -> MethodView {
        MethodView { name: self.name@, signature: self.signature@ }
    }
}

/// The method with the given name and signature.
pub open spec fn method(name: &str, signature: &str) -> MethodView {
    MethodView { name: name@, signature: signature@ }
}

/// Concludes a foreign call that has just returned with `outcome`: consults
/// the translator and settles what the call amounts to. An exception that
/// foreign code threw during the call is a bridge call error.
///
/// The value of a call that went through is handed on as it is, or given up
/// for an error where the translator found something pending; a call that
/// failed never comes out as a success.
fn conclude<T>(env: &mut jni::JNIEnv<'_>, outcome: Result<T, jni::errors::Error>) -> (r: Result<
    T,
    ExtractError,
>)
    ensures
        r matches Ok(value) ==> outcome == Ok::<T, jni::errors::Error>(value),
        outcome is Err ==> r is Err,
        r matches Err(e) ==> e.is_bridge_level(),
{
    let outcome = match outcome {
        Ok(value) => Ok(value),
        Err(e) => Err(failure_kind(&e)),
    };
    let pending = translate_exception(env);
    settle(pending, outcome, ExtractError::BridgeCallError)
}

/// Calls the method `name` with signature `sig` on `obj` and hands back
/// what it returned.
pub(crate) fn invoke<'local>(
    env: &mut jni::JNIEnv<'local>,
    obj: &jni::objects::JObject<'_>,
    name: &str,
    sig: &str,
    args: &[jni::objects::JValue<'_, '_>],
) -> (r: Result<ForeignValue<'local>, ExtractError>)
    requires
        flat_signature(sig@),
    ensures
        r matches Err(e) ==> e.is_bridge_level(),
{
    let outcome = call_method(env, obj, name, sig, args);
    match conclude(env, outcome) {
        Ok(value) => Ok(foreign_value(value)),
        Err(e) => Err(e),
    }
}

/// Locates the foreign class with the given fully-qualified name. Whatever
/// goes wrong, the class is not available: a setup error.
pub fn locate_class<'local>(env: &mut jni::JNIEnv<'local>, name: &str) -> (r: Result<
    jni::objects::JClass<'local>,
    ExtractError,
>)
    ensures
        r matches Err(e) ==> e == ExtractError::SetupError,
{
    let outcome = find_class(env, name);
    match conclude(env, outcome) {
        Ok(class) => Ok(class),
        Err(_) => Err(ExtractError::SetupError),
    }
}

/// Constructs a fresh object of `class` through its constructor without
/// parameters.
pub fn construct<'local>(env: &mut jni::JNIEnv<'local>, class: &jni::objects::JClass<'_>) -> (r:
    Result<jni::objects::JObject<'local>, ExtractError>)
    ensures
        r matches Err(e) ==> e.is_bridge_level(),
{
    proof {
        reveal_strlit("()V");
    }
    let args: [jni::objects::JValue<'_, '_>; 0] = [];
    let outcome = new_object(env, class, DEFAULT_CONSTRUCTOR, &args);
    conclude(env, outcome)
}

/// Creates a foreign string that holds `text`.
pub fn foreign_text<'local>(env: &mut jni::JNIEnv<'local>, text: &str) -> (r: Result<
    jni::objects::JObject<'local>,
    ExtractError,
>)
    ensures
        r matches Err(e) ==> e.is_bridge_level(),
{
    let outcome = new_string(env, text);
    conclude(env, outcome)
}

/// Reads the foreign string `obj` into a host string. An object that is
/// null or no string is a bridge call error.
pub fn host_text(env: &mut jni::JNIEnv<'_>, obj: jni::objects::JObject<'_>) -> (r: Result<
    String,
    ExtractError,
>)
    ensures
        r matches Err(e) ==> e.is_bridge_level(),
{
    let outcome = get_string(env, obj);
    conclude(env, outcome)
}

/// Allocates a foreign byte array of `length` elements.
pub(crate) fn foreign_buffer<'local>(env: &mut jni::JNIEnv<'local>, length: i32) -> (r: Result<
    ForeignBytes<'local>,
    ExtractError,
>)
    ensures
        r matches Err(e) ==> e.is_bridge_level(),
{
    let outcome = new_byte_array(env, length);
    conclude(env, outcome)
}

/// Copies the foreign byte array `bytes` over `buf`, element for element
/// from the first on. The buffer keeps its length.
pub(crate) fn copy_bytes(env: &mut jni::JNIEnv<'_>, bytes: &ForeignBytes<'_>, buf: &mut [i8]) -> (r:
    Result<(), ExtractError>)
    ensures
        final(buf)@.len() == old(buf)@.len(),
        r matches Err(e) ==> e.is_bridge_level(),
{
    let outcome = get_byte_array_region(env, bytes, 0, buf);
    conclude(env, outcome)
}

} // verus!
