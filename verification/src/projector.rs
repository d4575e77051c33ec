//! The config projectors: each builds a fresh foreign configuration object
//! from a host configuration value.

use vstd::prelude::*;
use crate::calls::{construct, foreign_text, invoke, locate_class};
use crate::config::{OfficeParserConfig, PdfParserConfig, TesseractOcrConfig};
use crate::errors::{ExtractError, ExtractResult};
use crate::foreign::{bool_argument, int_argument, object_argument};
use crate::setters::{
    office_setters, ocr_setters, pdf_setters, SetterArg, SetterCall, OCR_CONFIG_CLASS,
    OFFICE_CONFIG_CLASS, PDF_CONFIG_CLASS,
};

verus! {

/// Carries out one setter call on `obj`: translates the argument to its
/// foreign kind and invokes the setter with the signature of that kind.
pub fn apply_setter(
    env: &mut jni::JNIEnv<'_>,
    obj: &jni::objects::JObject<'_>,
    call: &SetterCall,
) -> (r: Result<(), ExtractError>)
    ensures
        r matches Err(e) ==> e.is_bridge_level(),
{
    let sig = call.arg.signature();
    let done = match &call.arg {
        SetterArg::Bool(value) => {
            let args = [bool_argument(*value)];
            invoke(env, obj, call.name, sig, &args)
        },
        SetterArg::Int(value) => {
            let args = [int_argument(*value)];
            invoke(env, obj, call.name, sig, &args)
        },
        SetterArg::Text(value) => {
            match foreign_text(env, value.as_str()) {
                Ok(text) => {
                    let args = [object_argument(&text)];
                    invoke(env, obj, call.name, sig, &args)
                },
                Err(e) => Err(e),
            }
        },
    };
    match done {
        Ok(_) => Ok(()),
        Err(e) => Err(e),
    }
}

/// What a projection does next, after one setter call.
#[derive(Debug, Clone, PartialEq, Eq)]
pub enum Step {
    /// Go on with the setter call at this index.
    Next(usize),
    /// Every setter call went through: the projection is complete.
    Done,
    /// A setter call failed: the projection fails with its error, and no
    /// further setter is called.
    Failed(ExtractError),
}

/// What a projection of `len` setter calls does after the call at index `i`
/// ended with `outcome`: a failed call fails the projection with its error;
/// a call that went through leads on to the next one, or completes the
/// projection if it was the last.
pub open spec fn spec_after_setter(i: usize, len: usize, outcome: Result<(), ExtractError>) -> Step {
    match outcome {
        Err(e) => Step::Failed(e),
        Ok(()) => if i + 1 < len {
            Step::Next((i + 1) as usize)
        } else {
            Step::Done
        },
    }
}

/// Decides what a projection does after one setter call: see
/// [`spec_after_setter`]. No projection is applied in part: the first
/// failure ends it.
pub fn after_setter(i: usize, len: usize, outcome: Result<(), ExtractError>) -> (s: Step)
    ensures
        s == spec_after_setter(i, len, outcome),
{
    match outcome {
        Err(e) => Step::Failed(e),
        Ok(()) => if i < len && i + 1 < len {
            Step::Next(i + 1)
        } else {
            Step::Done
        },
    }
}

/// Builds a fresh object of the foreign class `class_name` and carries out
/// the calls of `plan` on it, in order; [`after_setter`] decides after each
/// call how to go on. The first call that fails ends the projection with
/// its error, and the half-configured object is dropped.
///
/// A class that cannot be located is a setup error, and so is a setter that
/// the class does not have.
pub fn project<'local>(
    env: &mut jni::JNIEnv<'local>,
    class_name: &str,
    plan: &Vec<SetterCall>,
) -> (r: Result<jni::objects::JObject<'local>, ExtractError>)
    ensures
        r matches Err(e) ==> e.is_bridge_level(),
{
    let class = match locate_class(env, class_name) {
        Ok(class) => class,
        Err(e) => {
            return Err(e);
        },
    };
    let obj = match construct(env, &class) {
        Ok(obj) => obj,
        Err(e) => {
            return Err(e);
        },
    };
    if plan.len() == 0 {
        return Ok(obj);
    }
    let mut i: usize = 0;
    loop
        invariant
            i < plan.len(),
        decreases plan.len() - i,
    {
        let outcome = apply_setter(env, &obj, &plan[i]);
        match after_setter(i, plan.len(), outcome) {
            Step::Next(next) => {
                i = next;
            },
            Step::Done => {
                return Ok(obj);
            },
            Step::Failed(e) => {
                return Err(e);
            },
        }
    }
}

/// The foreign PDF parser configuration object.
#[derive(Debug)]
pub struct JPDFParserConfig<'local> {
    pub internal: jni::objects::JObject<'local>,
}

impl<'local> JPDFParserConfig<'local> {
    /// Creates the foreign counterpart of `config`: a fresh foreign object
    /// on which every setter of the PDF setter table has been called.
    pub fn new(env: &mut jni::JNIEnv<'local>, config: &PdfParserConfig) -> (r: ExtractResult<Self>)
        ensures
            r matches Err(e) ==> e.is_bridge_level(),
    {
        let plan = pdf_setters(config);
        match project(env, PDF_CONFIG_CLASS, &plan) {
            Ok(internal) => Ok(Self { internal }),
            Err(e) => Err(e),
        }
    }
}

/// The foreign office parser configuration object.
#[derive(Debug)]
pub struct JOfficeParserConfig<'local> {
    pub internal: jni::objects::JObject<'local>,
}

impl<'local> JOfficeParserConfig<'local> {
    /// Creates the foreign counterpart of `config`: a fresh foreign object
    /// on which every setter of the office setter table has been called.
    pub fn new(env: &mut jni::JNIEnv<'local>, config: &OfficeParserConfig) -> (r: ExtractResult<
        Self,
    >)
        ensures
            r matches Err(e) ==> e.is_bridge_level(),
    {
        let plan = office_setters(config);
        match project(env, OFFICE_CONFIG_CLASS, &plan) {
            Ok(internal) => Ok(Self { internal }),
            Err(e) => Err(e),
        }
    }
}

/// The foreign OCR configuration object.
#[derive(Debug)]
pub struct JTesseractOcrConfig<'local> {
    pub internal: jni::objects::JObject<'local>,
}

impl<'local> JTesseractOcrConfig<'local> {
    /// Creates the foreign counterpart of `config`: a fresh foreign object
    /// on which every setter of the OCR setter table has been called.
    pub fn new(env: &mut jni::JNIEnv<'local>, config: &TesseractOcrConfig) -> (r: ExtractResult<
        Self,
    >)
        ensures
            r matches Err(e) ==> e.is_bridge_level(),
    {
        let plan = ocr_setters(config);
        match project(env, OCR_CONFIG_CLASS, &plan) {
            Ok(internal) => Ok(Self { internal }),
            Err(e) => Err(e),
        }
    }
}

} // verus!
