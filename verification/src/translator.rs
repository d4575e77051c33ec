//! The exception translator: after a foreign call, finds out whether the
//! runtime has an exception pending, has it described, clears it, and turns
//! what happened into the host's error model.

use vstd::prelude::*;
use crate::errors::{ExtractError, ForeignFailure, failure_error};
use crate::foreign::{
    exception_check, exception_clear, exception_describe, exception_occurred, failure_kind,
    is_instance_of,
};

verus! {

/// Foreign class of the exception that a failed method lookup raises.
pub const MISSING_METHOD_CLASS: &'static str = "java/lang/NoSuchMethodError";

/// What the translator found pending after a foreign call.
#[derive(Debug, Clone, Copy, PartialEq, Eq)]
pub enum Pending {
    /// No exception was pending.
    Nothing,
    /// The runtime could not find the method that was called.
    MissingMethod,
    /// The foreign code threw some other exception.
    Thrown,
}

/// What a foreign call amounts to, given what the translator found pending
/// after it, how the call itself ended, and the error `thrown` to use where
/// foreign code threw.
///
/// A failing translator wins over everything; then a pending exception wins
/// over the outcome of the call; with nothing pending the outcome stands,
/// a failure as the bridge-level error it maps to.
pub open spec fn settled<T>(
    pending: Result<Pending, ExtractError>,
    outcome: Result<T, ForeignFailure>,
    thrown: ExtractError,
) -> Result<T, ExtractError> {
    match pending {
        Err(e) => Err(e),
        Ok(Pending::MissingMethod) => Err(ExtractError::SetupError),
        Ok(Pending::Thrown) => Err(thrown),
        Ok(Pending::Nothing) => match outcome {
            Ok(v) => Ok(v),
            Err(f) => Err(failure_error(f)),
        },
    }
}

/// Decides what a foreign call amounts to: see [`settled`].
pub fn settle<T>(
    pending: Result<Pending, ExtractError>,
    outcome: Result<T, ForeignFailure>,
    thrown: ExtractError,
) -> (r: Result<T, ExtractError>)
    ensures
        r == settled(pending, outcome, thrown),
{
    match pending {
        Err(e) => Err(e),
        Ok(Pending::MissingMethod) => Err(ExtractError::SetupError),
        Ok(Pending::Thrown) => Err(thrown),
        Ok(Pending::Nothing) => match outcome {
            Ok(v) => Ok(v),
            Err(f) => Err(ExtractError::from_failure(f)),
        },
    }
}

/// What a pending exception is, given the answer to the question whether
/// it is the exception of a failed method lookup: a missing method if the
/// answer is yes, and a thrown exception if it is no or could not be had.
pub fn pending_kind(missing_method: Result<bool, ForeignFailure>) -> (p: Pending)
    ensures
        missing_method == Ok::<bool, ForeignFailure>(true) ==> p == Pending::MissingMethod,
        missing_method != Ok::<bool, ForeignFailure>(true) ==> p == Pending::Thrown,
{
    match missing_method {
        Ok(true) => Pending::MissingMethod,
        Ok(false) => Pending::Thrown,
        Err(_) => Pending::Thrown,
    }
}

/// Consults the runtime after a foreign call. If an exception is pending,
/// the runtime is asked to describe it for diagnostics and the exception is
/// cleared, so that the environment stays usable; the result tells the
/// caller what was pending, and the caller decides what to make of it.
///
/// Fails only with a bridge-level error, when the runtime cannot even be
/// asked.
pub fn translate_exception(env: &mut jni::JNIEnv<'_>) -> (r: Result<Pending, ExtractError>)
    ensures
        r matches Err(e) ==> e.is_bridge_level(),
{
    match exception_check(env) {
        Err(e) => Err(ExtractError::from_failure(failure_kind(&e))),
        Ok(false) => Ok(Pending::Nothing),
        Ok(true) => {
            let exception = exception_occurred(env);
            let _ = exception_describe(env);
            let _ = exception_clear(env);
            let missing_method = match exception {
                Ok(exception) => match is_instance_of(env, &exception, MISSING_METHOD_CLASS) {
                    Ok(answer) => Ok(answer),
                    Err(e) => {
                        let failure = failure_kind(&e);
                        let _ = exception_clear(env);
                        Err(failure)
                    },
                },
                Err(e) => Err(failure_kind(&e)),
            };
            Ok(pending_kind(missing_method))
        },
    }
}

} // verus!
