//! The result unwrappers: they read the envelope in which the foreign side
//! hands back either a payload or a reported error.

use vstd::prelude::*;
use crate::calls::{host_text, invoke, method, Method, MethodView};
use crate::errors::{status_error, ExtractError, ExtractResult};
use crate::setters::flat_signature;
use crate::stream::JReaderInputStream;

verus! {

/// A result envelope of the foreign side, read into host values: either the
/// payload, or the status code and message of a reported error.
#[derive(Debug)]
pub enum Envelope<T> {
    Success(T),
    Failure { status: i8, message: String },
}

impl<T> Envelope<T> {
    /// The host result that the envelope stands for: the payload on
    /// success; on failure the error named by the status code, with the
    /// foreign message unchanged.
    pub open spec fn spec_into_result(self) -> Result<T, ExtractError> {
        match self {
            Envelope::Success(payload) => Ok(payload),
            Envelope::Failure { status, message } => Err(status_error(status, message)),
        }
    }

    /// Turns the envelope into a host result: the payload on success; on
    /// failure an I/O error for status 1, a parse error for status 2 and an
    /// unknown error for any other status, each with the foreign message
    /// unchanged.
    pub fn into_result(self) -> (r: Result<T, ExtractError>)
        ensures
            r == self.spec_into_result(),
            r matches Err(e) ==> e.is_content_level(),
    {
        match self {
            Envelope::Success(payload) => Ok(payload),
            Envelope::Failure { status, message } => Err(ExtractError::from_status(status, message)),
        }
    }
}

/// Which payload an envelope bears.
#[derive(Debug, Clone, Copy, PartialEq, Eq)]
pub enum Payload {
    /// The extracted text, as a foreign string.
    Text,
    /// A foreign reader over the extracted text.
    Reader,
}

/// The getter that every envelope is asked first: whether it reports an
/// error.
pub open spec fn error_flag() -> MethodView {
    method("isError", "()Z")
}

/// The getters to call on an envelope once its error flag is known, in
/// order: status code and message of an envelope that reports an error,
/// else the one getter of the payload it bears.
pub open spec fn getters_after(is_error: bool, payload: Payload) -> Seq<MethodView> {
    if is_error {
        seq![method("getStatus", "()B"), method("getErrorMessage", "()Ljava/lang/String;")]
    } else {
        match payload {
            Payload::Text => seq![method("getContent", "()Ljava/lang/String;")],
            Payload::Reader => seq![
                method("getReader", "()Lorg/apache/commons/io/input/ReaderInputStream;"),
            ],
        }
    }
}

/// The getter that every envelope is asked first.
pub fn error_flag_getter() -> (getter: Method)
    ensures
        getter@ == error_flag(),
        flat_signature(getter@.signature),
{
    proof {
        reveal_strlit("()Z");
    }
    Method { name: "isError", signature: "()Z" }
}

/// The getters to call on an envelope once its error flag is known, in
/// order. Nothing of the payload is asked of an envelope that reports an
/// error, and nothing of the error of one that does not.
pub fn envelope_getters(is_error: bool, payload: Payload) -> (plan: Vec<Method>)
    ensures
        plan@.map_values(|m: Method| m@) == getters_after(is_error, payload),
        plan@.len() == getters_after(is_error, payload).len(),
        plan@.len() == (if is_error { 2int } else { 1int }),
        forall|i: int|
            0 <= i < plan@.len() ==> (#[trigger] plan@[i])@ == getters_after(is_error, payload)[i],
        forall|i: int| 0 <= i < plan@.len() ==> flat_signature((#[trigger] plan@[i])@.signature),
{
    proof {
        reveal_strlit("()B");
        reveal_strlit("()Ljava/lang/String;");
        reveal_strlit("()Lorg/apache/commons/io/input/ReaderInputStream;");
    }
    let mut plan: Vec<Method> = Vec::new();
    if is_error {
        plan.push(Method { name: "getStatus", signature: "()B" });
        plan.push(Method { name: "getErrorMessage", signature: "()Ljava/lang/String;" });
    } else {
        match payload {
            Payload::Text => {
                plan.push(Method { name: "getContent", signature: "()Ljava/lang/String;" });
            },
            Payload::Reader => {
                plan.push(
                    Method {
                        name: "getReader",
                        signature: "()Lorg/apache/commons/io/input/ReaderInputStream;",
                    },
                );
            },
        }
    }
    assert(plan@.map_values(|m: Method| m@) =~= getters_after(is_error, payload));
    plan
}

/// Reads the envelope `obj`: asks for the error flag first; then calls the
/// getters that [`envelope_getters`] lists for that flag, and reads the
/// status code and message of a reported error, or else the payload object.
fn read_envelope<'local>(
    env: &mut jni::JNIEnv<'local>,
    obj: &jni::objects::JObject<'_>,
    payload: Payload,
) -> (r: Result<Envelope<jni::objects::JObject<'local>>, ExtractError>)
    ensures
        r matches Err(e) ==> e.is_bridge_level(),
{
    let none: [jni::objects::JValue<'_, '_>; 0] = [];
    let flag = error_flag_getter();
    let is_error = match invoke(env, obj, flag.name, flag.signature, &none) {
        Ok(value) => match value.into_bool() {
            Ok(is_error) => is_error,
            Err(e) => {
                return Err(e);
            },
        },
        Err(e) => {
            return Err(e);
        },
    };
    let plan = envelope_getters(is_error, payload);
    let first = plan[0];
    if is_error {
        let status = match invoke(env, obj, first.name, first.signature, &none) {
            Ok(value) => match value.into_byte() {
                Ok(status) => status,
                Err(e) => {
                    return Err(e);
                },
            },
            Err(e) => {
                return Err(e);
            },
        };
        let second = plan[1];
        let text = match invoke(env, obj, second.name, second.signature, &none) {
            Ok(value) => match value.into_object() {
                Ok(text) => text,
                Err(e) => {
                    return Err(e);
                },
            },
            Err(e) => {
                return Err(e);
            },
        };
        match host_text(env, text) {
            Ok(message) => Ok(Envelope::Failure { status, message }),
            Err(e) => Err(e),
        }
    } else {
        match invoke(env, obj, first.name, first.signature, &none) {
            Ok(value) => match value.into_object() {
                Ok(payload) => Ok(Envelope::Success(payload)),
                Err(e) => Err(e),
            },
            Err(e) => Err(e),
        }
    }
}

/// Reads the string-bearing envelope `obj` into host values: the extracted
/// text on success, the status code and message of the reported error
/// otherwise.
///
/// Whatever goes wrong while reading is a bridge-level error, never to be
/// mistaken for an error that the envelope reports.
pub fn read_string_envelope(env: &mut jni::JNIEnv<'_>, obj: &jni::objects::JObject<'_>) -> (r:
    Result<Envelope<String>, ExtractError>)
    ensures
        r matches Err(e) ==> e.is_bridge_level(),
{
    match read_envelope(env, obj, Payload::Text) {
        Ok(Envelope::Success(text)) => match host_text(env, text) {
            Ok(content) => Ok(Envelope::Success(content)),
            Err(e) => Err(e),
        },
        Ok(Envelope::Failure { status, message }) => Ok(Envelope::Failure { status, message }),
        Err(e) => Err(e),
    }
}

/// Reads the reader-bearing envelope `obj` into host values: the foreign
/// reader object on success, the status code and message of the reported
/// error otherwise.
///
/// Whatever goes wrong while reading is a bridge-level error, never to be
/// mistaken for an error that the envelope reports.
pub fn read_reader_envelope<'local>(
    env: &mut jni::JNIEnv<'local>,
    obj: &jni::objects::JObject<'_>,
) -> (r: Result<Envelope<jni::objects::JObject<'local>>, ExtractError>)
    ensures
        r matches Err(e) ==> e.is_bridge_level(),
{
    read_envelope(env, obj, Payload::Reader)
}

/// The string-bearing result of the foreign side, unwrapped: the extracted
/// text as a host string.
#[derive(Debug)]
pub struct JStringResult {
    pub content: String,
}

impl JStringResult {
    /// What a string-bearing envelope unwraps to: its text on success, the
    /// error that its status code names otherwise.
    pub open spec fn unwrapped(envelope: Envelope<String>) -> ExtractResult<Self> {
        match envelope {
            Envelope::Success(text) => Ok(JStringResult { content: text }),
            Envelope::Failure { status, message } => Err(status_error(status, message)),
        }
    }

    /// The rule by which an unwrapper makes its result `r` from what
    /// reading the envelope gave: a failed reading, which is bridge-level,
    /// is handed on, and an envelope that was read is unwrapped.
    pub open spec fn made_from(
        read: Result<Envelope<String>, ExtractError>,
        r: ExtractResult<Self>,
    ) -> bool {
        &&& read matches Err(e) ==> e.is_bridge_level()
        &&& r == match read {
            Ok(envelope) => Self::unwrapped(envelope),
            Err(e) => Err(e),
        }
    }

    /// Unwraps a string-bearing envelope that has been read into host
    /// values: the text on success, the reported error otherwise.
    pub fn from_envelope(envelope: Envelope<String>) -> (r: ExtractResult<Self>)
        ensures
            r == Self::unwrapped(envelope),
    {
        match envelope.into_result() {
            Ok(content) => Ok(Self { content }),
            Err(e) => Err(e),
        }
    }

    /// Unwraps the string-bearing envelope `obj`. An envelope that reports
    /// an error gives the content-level error it names, with its message;
    /// anything that goes wrong while reading gives a bridge-level error.
    ///
    /// The contract records the rule by which the result is made from the
    /// reading; what the reading gives is for the foreign side to decide.
    pub fn new<'local>(env: &mut jni::JNIEnv<'local>, obj: jni::objects::JObject<'local>) -> (r:
        ExtractResult<Self>)
        ensures
            exists|read: Result<Envelope<String>, ExtractError>| #[trigger] Self::made_from(read, r),
    {
        let read = read_string_envelope(env, &obj);
        let ghost reading = read;
        let r = match read {
            Ok(envelope) => Self::from_envelope(envelope),
            Err(e) => Err(e),
        };
        assert(Self::made_from(reading, r));
        r
    }
}

/// The reader-bearing result of the foreign side, unwrapped: the foreign
/// reader object, ready to be wrapped in a stream.
#[derive(Debug)]
pub struct JReaderResult<'local> {
    pub java_reader: jni::objects::JObject<'local>,
}

impl<'local> JReaderResult<'local> {
    /// What a reader-bearing envelope unwraps to: its reader on success,
    /// the error that its status code names otherwise.
    pub open spec fn unwrapped(envelope: Envelope<jni::objects::JObject<'local>>) -> ExtractResult<
        Self,
    > {
        match envelope {
            Envelope::Success(reader) => Ok(JReaderResult { java_reader: reader }),
            Envelope::Failure { status, message } => Err(status_error(status, message)),
        }
    }

    /// The rule by which an unwrapper makes its result `r` from what
    /// reading the envelope gave: a failed reading, which is bridge-level,
    /// is handed on, and an envelope that was read is unwrapped.
    pub open spec fn made_from(
        read: Result<Envelope<jni::objects::JObject<'local>>, ExtractError>,
        r: ExtractResult<Self>,
    ) -> bool {
        &&& read matches Err(e) ==> e.is_bridge_level()
        &&& r == match read {
            Ok(envelope) => Self::unwrapped(envelope),
            Err(e) => Err(e),
        }
    }

    /// Unwraps a reader-bearing envelope that has been read into host
    /// values: the foreign reader on success, the reported error otherwise.
    pub fn from_envelope(envelope: Envelope<jni::objects::JObject<'local>>) -> (r: ExtractResult<
        Self,
    >)
        ensures
            r == Self::unwrapped(envelope),
    {
        match envelope.into_result() {
            Ok(java_reader) => Ok(Self { java_reader }),
            Err(e) => Err(e),
        }
    }

    /// Unwraps the reader-bearing envelope `obj`. An envelope that reports
    /// an error gives the content-level error it names, with its message;
    /// anything that goes wrong while reading gives a bridge-level error.
    ///
    /// The contract records the rule by which the result is made from the
    /// reading; what the reading gives is for the foreign side to decide.
    pub fn new(env: &mut jni::JNIEnv<'local>, obj: jni::objects::JObject<'local>) -> (r:
        ExtractResult<Self>)
        ensures
            exists|read: Result<Envelope<jni::objects::JObject<'local>>, ExtractError>|
                #[trigger] Self::made_from(read, r),
    {
        let read = read_reader_envelope(env, &obj);
        let ghost reading = read;
        let r = match read {
            Ok(envelope) => Self::from_envelope(envelope),
            Err(e) => Err(e),
        };
        assert(Self::made_from(reading, r));
        r
    }

    /// Wraps the foreign reader in a streaming adapter, which owns it from
    /// then on.
    pub fn into_stream(self) -> (s: JReaderInputStream<'local>)
        ensures
            s.reader() == self.java_reader,
    {
        JReaderInputStream::new(self.java_reader)
    }
}

} // verus!
