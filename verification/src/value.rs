//! What a foreign method call hands back.

use vstd::prelude::*;
use crate::errors::ExtractError;

verus! {

/// The value of the foreign boolean `true`.
pub const FOREIGN_TRUE: u8 = 1;

/// The value a foreign method returned, by kind. Floating-point kinds are
/// told apart but carry no payload: nothing on the bridge reads one.
#[derive(Debug)]
pub enum ForeignValue<'local> {
    Object(jni::objects::JObject<'local>),
    Byte(i8),
    Char(u16),
    Short(i16),
    Int(i32),
    Long(i64),
    Bool(u8),
    Float,
    Double,
    Void,
}

impl<'local> ForeignValue<'local> {
    /// The boolean that the value holds: a foreign boolean is true exactly
    /// when it equals the foreign `true`. A value of another kind is a
    /// bridge call error.
    pub fn into_bool(self) -> (r: Result<bool, ExtractError>)
        ensures
            self matches ForeignValue::Bool(z) ==> r == Ok::<bool, ExtractError>(z == FOREIGN_TRUE),
            !(self is Bool) ==> r == Err::<bool, ExtractError>(ExtractError::BridgeCallError),
    {
        match self {
            ForeignValue::Bool(z) => Ok(z == FOREIGN_TRUE),
            _ => Err(ExtractError::BridgeCallError),
        }
    }

    /// The byte that the value holds; a value of another kind is a bridge
    /// call error.
    pub fn into_byte(self) -> (r: Result<i8, ExtractError>)
        ensures
            self matches ForeignValue::Byte(b) ==> r == Ok::<i8, ExtractError>(b),
            !(self is Byte) ==> r == Err::<i8, ExtractError>(ExtractError::BridgeCallError),
    {
        match self {
            ForeignValue::Byte(b) => Ok(b),
            _ => Err(ExtractError::BridgeCallError),
        }
    }

    /// The 32-bit integer that the value holds; a value of another kind is
    /// a bridge call error.
    pub fn into_int(self) -> (r: Result<i32, ExtractError>)
        ensures
            self matches ForeignValue::Int(i) ==> r == Ok::<i32, ExtractError>(i),
            !(self is Int) ==> r == Err::<i32, ExtractError>(ExtractError::BridgeCallError),
    {
        match self {
            ForeignValue::Int(i) => Ok(i),
            _ => Err(ExtractError::BridgeCallError),
        }
    }

    /// The object reference that the value holds; a value of another kind
    /// is a bridge call error.
    pub fn into_object(self) -> (r: Result<jni::objects::JObject<'local>, ExtractError>)
        ensures
            self matches ForeignValue::Object(o) ==> r == Ok::<jni::objects::JObject<'local>, ExtractError>(o),
            !(self is Object) ==> r == Err::<jni::objects::JObject<'local>, ExtractError>(
                ExtractError::BridgeCallError,
            ),
    {
        match self {
            ForeignValue::Object(o) => Ok(o),
            _ => Err(ExtractError::BridgeCallError),
        }
    }
}

} // verus!
