//! The trusted layer: every call into the Java runtime and into the byte
//! reinterpretation helper goes through one of the functions below. Their
//! contracts are taken on trust from the sources of the crates they call.

use vstd::prelude::*;
use crate::errors::ForeignFailure;
use crate::setters::flat_signature;
use crate::value::ForeignValue;

verus! {

#[verifier::external_type_specification]
#[verifier::external_body]
pub struct ExRawObject(jni::sys::_jobject);

#[verifier::external_type_specification]
#[verifier::external_body]
pub struct ExJavaVM(jni::JavaVM);

#[verifier::external_type_specification]
#[verifier::external_body]
pub struct ExAttachGuard<'local>(jni::AttachGuard<'local>);

#[verifier::external_type_specification]
#[verifier::external_body]
pub struct ExJNIEnv<'local>(jni::JNIEnv<'local>);

#[verifier::external_type_specification]
#[verifier::external_body]
pub struct ExJObject<'local>(jni::objects::JObject<'local>);

#[verifier::external_type_specification]
#[verifier::external_body]
pub struct ExJClass<'local>(jni::objects::JClass<'local>);

#[verifier::external_type_specification]
#[verifier::external_body]
#[verifier::reject_recursive_types(O)]
pub struct ExJValueGen<O>(jni::objects::JValueGen<O>);

#[verifier::external_type_specification]
#[verifier::external_body]
pub struct ExJniError(jni::errors::Error);

/// A byte array of the foreign runtime. The handle is kept apart from plain
/// object references so that only a byte array can be asked for its bytes.
#[verifier::external_body]
pub struct ForeignBytes<'local> {
    array: jni::objects::JByteArray<'local>,
}

/// The signed byte with the same bit pattern as `b`.
pub open spec fn signed_byte(b: u8) -> int {
    if b < 128 {
        b as int
    } else {
        b - 256
    }
}

/// `JavaVM::attach_current_thread`: attaches the calling thread to the
/// runtime. Nothing is claimed about the outcome.
#[verifier::external_body]
pub(crate) fn attach_current_thread<'vm>(vm: &'vm jni::JavaVM) -> (r: Result<
    jni::AttachGuard<'vm>,
    jni::errors::Error,
>) {
    vm.attach_current_thread()
}

/// `DerefMut` of `AttachGuard`: the environment of the attached thread.
#[verifier::external_body]
pub(crate) fn attached_env<'a, 'local>(guard: &'a mut jni::AttachGuard<'local>) -> (env:
    &'a mut jni::JNIEnv<'local>) {
    &mut *guard
}

/// `JNIEnv::find_class`: looks a class up by its fully-qualified name.
/// Nothing is claimed about the outcome.
#[verifier::external_body]
pub(crate) fn find_class<'local>(env: &mut jni::JNIEnv<'local>, name: &str) -> (r: Result<
    jni::objects::JClass<'local>,
    jni::errors::Error,
>) {
    env.find_class(name)
}

/// `JNIEnv::new_object`: constructs an object of `class` through the
/// constructor with signature `ctor_sig`. The signature must be flat, or
/// the argument check of the call may abort. Nothing is claimed about the
/// outcome.
#[verifier::external_body]
pub(crate) fn new_object<'local>(
    env: &mut jni::JNIEnv<'local>,
    class: &jni::objects::JClass<'_>,
    ctor_sig: &str,
    args: &[jni::objects::JValue<'_, '_>],
) -> (r: Result<jni::objects::JObject<'local>, jni::errors::Error>)
    requires
        flat_signature(ctor_sig@),
{
    env.new_object(class, ctor_sig, args)
}

/// `JNIEnv::call_method`: calls the method `name` with signature `sig` on
/// `obj`. The signature must be flat, or the argument check of the call may
/// abort. Nothing is claimed about the outcome.
#[verifier::external_body]
pub(crate) fn call_method<'local>(
    env: &mut jni::JNIEnv<'local>,
    obj: &jni::objects::JObject<'_>,
    name: &str,
    sig: &str,
    args: &[jni::objects::JValue<'_, '_>],
) -> (r: Result<jni::objects::JValueOwned<'local>, jni::errors::Error>)
    requires
        flat_signature(sig@),
{
    env.call_method(obj, name, sig, args)
}

/// `JNIEnv::new_string`: creates a foreign string from host text, handed
/// back as a plain object reference. Nothing is claimed about the outcome.
#[verifier::external_body]
pub(crate) fn new_string<'local>(env: &mut jni::JNIEnv<'local>, text: &str) -> (r: Result<
    jni::objects::JObject<'local>,
    jni::errors::Error,
>) {
    env.new_string(text).map(jni::objects::JObject::from)
}

/// `JNIEnv::get_string`: reads a foreign string into host text; fails if
/// the object is null or no string. Nothing is claimed about the outcome.
#[verifier::external_body]
pub(crate) fn get_string(env: &mut jni::JNIEnv<'_>, obj: jni::objects::JObject<'_>) -> (r: Result<
    String,
    jni::errors::Error,
>) {
    let text = jni::objects::JString::from(obj);
    env.get_string(&text).map(String::from)
}

/// `JNIEnv::new_byte_array`: allocates a foreign byte array of the given
/// length. Nothing is claimed about the outcome.
#[verifier::external_body]
pub(crate) fn new_byte_array<'local>(env: &mut jni::JNIEnv<'local>, length: i32) -> (r: Result<
    ForeignBytes<'local>,
    jni::errors::Error,
>) {
    env.new_byte_array(length).map(|array| ForeignBytes { array })
}

/// `JNIEnv::get_byte_array_region`: copies `buf.len()` elements of
/// `bytes`, from index `start` on, into `buf`. The buffer keeps its length;
/// nothing is claimed about what it holds afterwards or about the outcome.
#[verifier::external_body]
pub(crate) fn get_byte_array_region(
    env: &mut jni::JNIEnv<'_>,
    bytes: &ForeignBytes<'_>,
    start: i32,
    buf: &mut [i8],
) -> (r: Result<(), jni::errors::Error>)
    ensures
        final(buf)@.len() == old(buf)@.len(),
{
    env.get_byte_array_region(&bytes.array, start, buf)
}

/// `JNIEnv::exception_check`: whether a foreign exception is pending.
#[verifier::external_body]
pub(crate) fn exception_check(env: &mut jni::JNIEnv<'_>) -> (r: Result<bool, jni::errors::Error>) {
    env.exception_check()
}

/// `JNIEnv::exception_occurred`: the pending exception, handed back as a
/// plain object reference (a null one if none is pending).
#[verifier::external_body]
pub(crate) fn exception_occurred<'local>(env: &mut jni::JNIEnv<'local>) -> (r: Result<
    jni::objects::JObject<'local>,
    jni::errors::Error,
>) {
    env.exception_occurred().map(jni::objects::JObject::from)
}

/// `JNIEnv::is_instance_of`: whether `obj` can be cast to the class named
/// `class_name`. Nothing is claimed about the outcome.
#[verifier::external_body]
pub(crate) fn is_instance_of(
    env: &mut jni::JNIEnv<'_>,
    obj: &jni::objects::JObject<'_>,
    class_name: &str,
) -> (r: Result<bool, jni::errors::Error>) {
    env.is_instance_of(obj, class_name)
}

/// `JNIEnv::exception_describe`: has the runtime print the pending exception.
#[verifier::external_body]
pub(crate) fn exception_describe(env: &mut jni::JNIEnv<'_>) -> (r: Result<(), jni::errors::Error>) {
    env.exception_describe()
}

/// `JNIEnv::exception_clear`: clears the pending exception.
#[verifier::external_body]
pub(crate) fn exception_clear(env: &mut jni::JNIEnv<'_>) -> (r: Result<(), jni::errors::Error>) {
    env.exception_clear()
}

/// `From<bool>` of `JValueGen`: a boolean call argument.
#[verifier::external_body]
pub(crate) fn bool_argument<'l, 'r>(value: bool) -> (v: jni::objects::JValue<'l, 'r>) {
    jni::objects::JValue::from(value)
}

/// `From<jint>` of `JValueGen`: an integer call argument.
#[verifier::external_body]
pub(crate) fn int_argument<'l, 'r>(value: i32) -> (v: jni::objects::JValue<'l, 'r>) {
    jni::objects::JValue::from(value)
}

/// `From<&T>` of `JValue`, at `JObject`: an object call argument.
#[verifier::external_body]
pub(crate) fn object_argument<'l, 'r>(obj: &'r jni::objects::JObject<'l>) -> (v:
    jni::objects::JValue<'l, 'r>) {
    jni::objects::JValue::from(obj)
}

/// `From<&T>` of `JValue`, at `JByteArray`: a byte array call argument.
#[verifier::external_body]
pub(crate) fn bytes_argument<'l, 'r>(bytes: &'r ForeignBytes<'l>) -> (v: jni::objects::JValue<
    'l,
    'r,
>) {
    jni::objects::JValue::from(&bytes.array)
}

/// Tells the variants of `JValueGen` apart and moves the payload of each
/// into the matching variant of [`ForeignValue`]; floating-point payloads
/// are dropped.
#[verifier::external_body]
pub(crate) fn foreign_value<'local>(value: jni::objects::JValueOwned<'local>) -> (v: ForeignValue<
    'local,
>) {
    match value {
        jni::objects::JValueGen::Object(o) => ForeignValue::Object(o),
        jni::objects::JValueGen::Byte(b) => ForeignValue::Byte(b),
        jni::objects::JValueGen::Char(c) => ForeignValue::Char(c),
        jni::objects::JValueGen::Short(s) => ForeignValue::Short(s),
        jni::objects::JValueGen::Int(i) => ForeignValue::Int(i),
        jni::objects::JValueGen::Long(j) => ForeignValue::Long(j),
        jni::objects::JValueGen::Bool(z) => ForeignValue::Bool(z),
        jni::objects::JValueGen::Float(_) => ForeignValue::Float,
        jni::objects::JValueGen::Double(_) => ForeignValue::Double,
        jni::objects::JValueGen::Void => ForeignValue::Void,
    }
}

/// Tells the variants of `jni::errors::Error` apart as far as the bridge
/// cares: a missing method, a pending exception, or anything else.
#[verifier::external_body]
pub(crate) fn failure_kind(error: &jni::errors::Error) -> (f: ForeignFailure) {
    match error {
        jni::errors::Error::MethodNotFound { .. } => ForeignFailure::MethodNotFound,
        jni::errors::Error::JavaException => ForeignFailure::Exception,
        _ => ForeignFailure::Other,
    }
}

/// `bytemuck::cast_slice_mut` from `u8` to `i8`: the same bytes seen as
/// signed. The result has the length of the buffer and the bit pattern of
/// each byte, and whatever is written through it shows in the buffer with
/// the same bit pattern.
#[verifier::external_body]
pub(crate) fn as_signed_mut<'a>(buf: &'a mut [u8]) -> (signed: &'a mut [i8])
    ensures
        signed@.len() == old(buf)@.len(),
        forall|i: int|
            0 <= i < signed@.len() ==> signed@[i] == signed_byte(#[trigger] old(buf)@[i]),
        final(buf)@.len() == final(signed)@.len(),
        forall|i: int|
            0 <= i < final(buf)@.len() ==> #[trigger] final(signed)@[i] == signed_byte(
                final(buf)@[i],
            ),
{
    bytemuck::cast_slice_mut(buf)
}

} // verus!
