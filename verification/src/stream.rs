//! The streaming adapter: a foreign reader seen as a pull-based byte source.

use vstd::prelude::*;
use crate::calls::{copy_bytes, foreign_buffer, invoke, method, Method};
use crate::errors::{failure_error, ExtractError, ForeignFailure};
use crate::foreign::{
    as_signed_mut, attach_current_thread, attached_env, bytes_argument, call_method, failure_kind,
    foreign_value, int_argument,
};
use crate::setters::flat_signature;
use crate::translator::{settle, translate_exception, Pending};
use crate::value::ForeignValue;

verus! {

/// What the foreign reader reports in place of a count once its stream has
/// come to an end.
pub const END_OF_STREAM: i32 = -1;

/// The longest read that can be asked of the foreign reader in one call.
pub const MAX_REQUEST: usize = 0x7fff_ffff;

/// The offset in the foreign buffer at which the foreign reader is asked to
/// start writing.
pub const READ_OFFSET: i32 = 0;

/// Message of the I/O error that stands for an exception thrown by the
/// foreign reader.
pub const READ_FAILED: &'static str = "the foreign reader threw an exception";

/// The length to ask of the foreign reader for a buffer of `capacity`
/// bytes: the capacity itself, as long as a foreign array can be that long.
pub open spec fn spec_request_length(capacity: usize) -> Option<i32> {
    if capacity <= MAX_REQUEST {
        Some(capacity as i32)
    } else {
        None
    }
}

/// The number of bytes written that a read reports to its caller, given
/// what the foreign reader reported for a request of `capacity` bytes: none
/// at the end of the stream, else the reported count. A report that is
/// neither the end-of-stream sentinel nor a count within the request breaks
/// the reader's protocol and is a bridge call error.
pub open spec fn spec_bytes_written(reported: i32, capacity: usize) -> Result<usize, ExtractError> {
    if reported == END_OF_STREAM {
        Ok(0usize)
    } else if 0 <= reported <= capacity {
        Ok(reported as usize)
    } else {
        Err(ExtractError::BridgeCallError)
    }
}

/// True of the I/O error that stands for an exception of the foreign reader.
pub open spec fn is_read_failure(e: ExtractError) -> bool {
    e matches ExtractError::IoError(m) && m@ == READ_FAILED@
}

/// The end of the stream is signalled on every read that meets it, never
/// as an error: whatever the buffer, the sentinel gives zero bytes written.
/// Any other report within the request is handed on as it is.
pub proof fn lemma_end_of_stream_is_zero(reported: i32, capacity: usize)
    ensures
        reported == END_OF_STREAM ==> spec_bytes_written(reported, capacity) == Ok::<
            usize,
            ExtractError,
        >(0usize),
        0 <= reported <= capacity ==> spec_bytes_written(reported, capacity) == Ok::<
            usize,
            ExtractError,
        >(reported as usize),
        spec_bytes_written(reported, capacity) matches Ok(n) ==> n <= capacity,
        spec_bytes_written(reported, capacity) is Err <==> reported < END_OF_STREAM || reported
            > capacity,
{
}

/// The method of the foreign reader that a read calls: `read`, which takes
/// a byte buffer, an offset and a length and reports a count.
pub fn read_method() -> (m: Method)
    ensures
        m@ == method("read", "([BII)I"),
        flat_signature(m@.signature),
{
    proof {
        reveal_strlit("([BII)I");
    }
    Method { name: "read", signature: "([BII)I" }
}

/// The method of the foreign reader that teardown calls: `close`, which
/// takes nothing and returns nothing.
pub fn close_method() -> (m: Method)
    ensures
        m@ == method("close", "()V"),
        flat_signature(m@.signature),
{
    proof {
        reveal_strlit("()V");
    }
    Method { name: "close", signature: "()V" }
}

/// The length to ask of the foreign reader for a buffer of `capacity` bytes.
pub fn request_length(capacity: usize) -> (r: Option<i32>)
    ensures
        r == spec_request_length(capacity),
{
    if capacity <= MAX_REQUEST {
        Some(capacity as i32)
    } else {
        None
    }
}

/// The number of bytes written that a read reports to its caller: zero when
/// the foreign reader reported the end of its stream, which is how a byte
/// source signals that end, and the reported count otherwise.
pub fn bytes_written(reported: i32, capacity: usize) -> (r: Result<usize, ExtractError>)
    ensures
        r == spec_bytes_written(reported, capacity),
        r matches Ok(n) ==> n <= capacity,
{
    if reported == END_OF_STREAM {
        Ok(0)
    } else if reported >= 0 && reported as usize <= capacity {
        Ok(reported as usize)
    } else {
        Err(ExtractError::BridgeCallError)
    }
}

/// What the call of the foreign `read` method amounts to, given what the
/// translator found pending after it and how the call itself ended.
///
/// An exception of the foreign reader surfaces as an I/O error; a call that
/// went through must have handed back an integer, the reported count.
pub fn reported_count(
    pending: Result<Pending, ExtractError>,
    outcome: Result<ForeignValue<'_>, ForeignFailure>,
) -> (r: Result<i32, ExtractError>)
    ensures
        pending matches Err(e) ==> r == Err::<i32, ExtractError>(e),
        pending == Ok::<Pending, ExtractError>(Pending::MissingMethod) ==> r == Err::<
            i32,
            ExtractError,
        >(ExtractError::SetupError),
        pending == Ok::<Pending, ExtractError>(Pending::Thrown) ==> (r matches Err(e)
            && is_read_failure(e)),
        pending == Ok::<Pending, ExtractError>(Pending::Nothing) ==> match outcome {
            Err(f) => r == Err::<i32, ExtractError>(failure_error(f)),
            Ok(ForeignValue::Int(n)) => r == Ok::<i32, ExtractError>(n),
            Ok(_) => r == Err::<i32, ExtractError>(ExtractError::BridgeCallError),
        },
        (pending matches Err(e) ==> e.is_bridge_level()) ==> (r matches Err(e)
            ==> e.is_bridge_level() || is_read_failure(e)),
{
    let thrown = ExtractError::IoError(READ_FAILED.to_owned());
    match settle(pending, outcome, thrown) {
        Ok(value) => value.into_int(),
        Err(e) => Err(e),
    }
}

/// A foreign reader object, readable from the host as a stream of bytes.
///
/// Reads must come from one consumer at a time; the exclusive borrow that
/// [`JReaderInputStream::read`] takes sees to that.
#[derive(Debug)]
pub struct JReaderInputStream<'a> {
    internal: jni::objects::JObject<'a>,
}

impl<'a> JReaderInputStream<'a> {
    /// The foreign reader object that the stream reads from.
    pub closed spec fn reader(self) -> jni::objects::JObject<'a> {
        self.internal
    }

    /// Wraps the foreign reader object `obj`, which the stream then owns.
    pub fn new(obj: jni::objects::JObject<'a>) -> (s: Self)
        ensures
            s.reader() == obj,
    {
        Self { internal: obj }
    }

    /// Asks the foreign reader for the next bytes of the stream and
    /// returns the count to report to the caller, which the reader's own
    /// report decides as [`bytes_written`] says; zero signals the end of
    /// the stream (or an empty buffer).
    ///
    /// Each call attaches the calling thread to the runtime `vm`, calls
    /// [`read_method`] on the reader with a fresh foreign buffer as long as
    /// `buf`, and has the runtime copy that buffer over `buf`, seen as
    /// signed bytes. The call blocks until the foreign reader answers.
    ///
    /// What `buf` holds after a read is what the runtime copied there. The
    /// contract speaks of the count, of the kinds of error and of the
    /// length of `buf`; it says nothing of the bytes, except that a buffer
    /// too long to be asked for is left as it was.
    ///
    /// An exception of the foreign reader is an I/O error; a buffer longer
    /// than a foreign array can be is a bridge call error.
    pub fn read(&mut self, vm: &jni::JavaVM, buf: &mut [u8]) -> (r: Result<usize, ExtractError>)
        ensures
            final(self).reader() == old(self).reader(),
            final(buf)@.len() == old(buf)@.len(),
            r matches Ok(n) ==> n <= old(buf)@.len(),
            old(buf)@.len() > MAX_REQUEST ==> r == Err::<usize, ExtractError>(
                ExtractError::BridgeCallError,
            ),
            old(buf)@.len() > MAX_REQUEST ==> final(buf)@ == old(buf)@,
            r matches Err(e) ==> e.is_bridge_level() || is_read_failure(e),
    {
        let capacity = buf.len();
        let length = match request_length(capacity) {
            Some(length) => length,
            None => {
                return Err(ExtractError::BridgeCallError);
            },
        };
        let mut guard = match attach_current_thread(vm) {
            Ok(guard) => guard,
            Err(e) => {
                return Err(ExtractError::from_failure(failure_kind(&e)));
            },
        };
        let env = attached_env(&mut guard);
        let array = match foreign_buffer(env, length) {
            Ok(array) => array,
            Err(e) => {
                return Err(e);
            },
        };
        let reader_read = read_method();
        let args = [bytes_argument(&array), int_argument(READ_OFFSET), int_argument(length)];
        let outcome = match call_method(
            env,
            &self.internal,
            reader_read.name,
            reader_read.signature,
            &args,
        ) {
            Ok(value) => Ok(foreign_value(value)),
            Err(e) => Err(failure_kind(&e)),
        };
        let pending = translate_exception(env);
        let reported = match reported_count(pending, outcome) {
            Ok(reported) => reported,
            Err(e) => {
                return Err(e);
            },
        };
        let signed = as_signed_mut(buf);
        match copy_bytes(env, &array, signed) {
            Ok(()) => bytes_written(reported, capacity),
            Err(e) => Err(e),
        }
    }

    /// Closes the foreign reader, as far as that can be done: the calling
    /// thread is attached to `vm` and [`close_method`] is called on the
    /// reader, once and without arguments. A thread that cannot be
    /// attached, a call that fails and an exception that `close` throws are
    /// all swallowed; a pending exception is cleared on the way.
    pub fn close(&mut self, vm: &jni::JavaVM)
        ensures
            final(self).reader() == old(self).reader(),
    {
        match attach_current_thread(vm) {
            Ok(mut guard) => {
                let env = attached_env(&mut guard);
                let reader_close = close_method();
                let none: [jni::objects::JValue<'_, '_>; 0] = [];
                let _ = invoke(
                    env,
                    &self.internal,
                    reader_close.name,
                    reader_close.signature,
                    &none,
                );
            },
            Err(_) => {},
        }
    }
}

} // verus!
