//! The setter tables of the foreign configuration classes.
//!
//! A projection is planned before it is carried out: each configuration value
//! is turned into the list of setter calls that build its foreign counterpart,
//! one call per field, in a fixed order.

use vstd::prelude::*;
use crate::config::{OfficeParserConfig, PdfParserConfig, TesseractOcrConfig};

verus! {

/// Fully-qualified name of the foreign PDF parser configuration class.
pub const PDF_CONFIG_CLASS: &'static str = "org/apache/tika/parser/pdf/PDFParserConfig";

/// Fully-qualified name of the foreign office parser configuration class.
pub const OFFICE_CONFIG_CLASS: &'static str = "org/apache/tika/parser/microsoft/OfficeParserConfig";

/// Fully-qualified name of the foreign OCR configuration class.
pub const OCR_CONFIG_CLASS: &'static str = "org/apache/tika/parser/ocr/TesseractOCRConfig";

/// The argument of a setter call, already translated to a foreign primitive
/// kind: a boolean, a 32-bit integer or a string.
#[derive(Debug, Clone, PartialEq, Eq)]
pub enum SetterArg {
    Bool(bool),
    Int(i32),
    Text(String),
}

/// Mathematical value of a [`SetterArg`].
pub enum SetterArgView {
    Bool(bool),
    Int(int),
    Text(Seq<char>),
}

/// One call of a one-argument setter of a foreign object.
#[derive(Debug, Clone, PartialEq, Eq)]
pub struct SetterCall {
    pub name: &'static str,
    pub arg: SetterArg,
}

/// Mathematical value of a [`SetterCall`].
pub struct SetterCallView {
    pub name: Seq<char>,
    pub arg: SetterArgView,
}

impl View for SetterArg {
    type V = SetterArgView;

    open spec fn view(&self) -> SetterArgView {
        match *self {
            SetterArg::Bool(b) => SetterArgView::Bool(b),
            SetterArg::Int(i) => SetterArgView::Int(i as int),
            SetterArg::Text(s) => SetterArgView::Text(s@),
        }
    }
}

impl View for SetterCall {
    type V = SetterCallView;

    open spec fn view(&self) -> SetterCallView {
        SetterCallView { name: self.name@, arg: self.arg@ }
    }
}

/// A method signature without a nested parameter list: no opening
/// parenthesis after the first character.
pub open spec fn flat_signature(sig: Seq<char>) -> bool {
    forall|i: int| 1 <= i < sig.len() ==> sig[i] != '('
}

impl SetterArgView {
    /// The foreign method signature of a setter that takes this argument.
    pub open spec fn signature(self) -> Seq<char> {
        match self {
            SetterArgView::Bool(_) => "(Z)V"@,
            SetterArgView::Int(_) => "(I)V"@,
            SetterArgView::Text(_) => "(Ljava/lang/String;)V"@,
        }
    }
}

impl SetterArg {
    /// The foreign method signature of a setter that takes this argument:
    /// one parameter of the argument's kind, no return value.
    pub fn signature(&self) -> (sig: &'static str)
        ensures
            sig@ == self@.signature(),
            flat_signature(sig@),
    {
        proof {
            reveal_strlit("(Z)V");
            reveal_strlit("(I)V");
            reveal_strlit("(Ljava/lang/String;)V");
        }
        match self {
            SetterArg::Bool(_) => "(Z)V",
            SetterArg::Int(_) => "(I)V",
            SetterArg::Text(_) => "(Ljava/lang/String;)V",
        }
    }
}

/// The views of the calls of a plan, in order.
pub open spec fn plan_view(plan: Seq<SetterCall>) -> Seq<SetterCallView> {
    plan.map_values(|c: SetterCall| c@)
}

/// A call of the boolean setter `name`.
pub open spec fn bool_call(name: &str, value: bool) -> SetterCallView {
    SetterCallView { name: name@, arg: SetterArgView::Bool(value) }
}

/// A call of the integer setter `name`.
pub open spec fn int_call(name: &str, value: i32) -> SetterCallView {
    SetterCallView { name: name@, arg: SetterArgView::Int(value as int) }
}

/// A call of the string setter `name`.
pub open spec fn text_call(name: &str, value: Seq<char>) -> SetterCallView {
    SetterCallView { name: name@, arg: SetterArgView::Text(value) }
}

/// The setter calls that project a PDF parser configuration.
pub open spec fn pdf_plan(config: PdfParserConfig) -> Seq<SetterCallView> {
    seq![
        bool_call("setExtractInlineImages", config.extract_inline_images),
        bool_call("setExtractUniqueInlineImagesOnly", config.extract_unique_inline_images_only),
        bool_call("setExtractMarkedContent", config.extract_marked_content),
        bool_call("setExtractAnnotationText", config.extract_annotation_text),
        text_call("setOcrStrategy", config.ocr_strategy.spec_name()),
    ]
}

/// The setter calls that project an office parser configuration.
pub open spec fn office_plan(config: OfficeParserConfig) -> Seq<SetterCallView> {
    seq![
        bool_call("setExtractMacros", config.extract_macros),
        bool_call("setIncludeDeletedContent", config.include_deleted_content),
        bool_call("setIncludeMoveFromContent", config.include_move_from_content),
        bool_call("setIncludeShapeBasedContent", config.include_shape_based_content),
        bool_call("setIncludeHeadersAndFooters", config.include_headers_and_footers),
        bool_call("setIncludeMissingRows", config.include_missing_rows),
        bool_call("setIncludeSlideNotes", config.include_slide_notes),
        bool_call("setIncludeSlideMasterContent", config.include_slide_master_content),
        bool_call("setConcatenatePhoneticRuns", config.concatenate_phonetic_runs),
        bool_call("setExtractAllAlternativesFromMSG", config.extract_all_alternatives_from_msg),
    ]
}

/// The setter calls that project an OCR configuration.
pub open spec fn ocr_plan(config: TesseractOcrConfig) -> Seq<SetterCallView> {
    seq![
        int_call("setDensity", config.density),
        int_call("setDepth", config.depth),
        int_call("setTimeoutSeconds", config.timeout_seconds),
        bool_call("setEnableImagePreprocessing", config.enable_image_preprocessing),
        bool_call("setApplyRotation", config.apply_rotation),
        text_call("setLanguage", config.language@),
    ]
}

/// The canonical names of two different OCR strategies differ.
pub proof fn lemma_strategy_names_differ(a: crate::config::PdfOcrStrategy, b: crate::config::PdfOcrStrategy)
    ensures
        a.spec_name() == b.spec_name() <==> a == b,
{
    reveal_strlit("NO_OCR");
    reveal_strlit("OCR_ONLY");
    reveal_strlit("OCR_AND_TEXT_EXTRACTION");
    reveal_strlit("AUTO");
    assert(a.spec_name() == b.spec_name() ==> a.spec_name().len() == b.spec_name().len());
}

/// A PDF projection carries every field: the plan hands each field's value
/// to the setter of that field, so two configurations with the same plan
/// are the same configuration.
pub proof fn lemma_pdf_plan_carries_fields(a: PdfParserConfig, b: PdfParserConfig)
    ensures
        pdf_plan(a).len() == 5,
        pdf_plan(a)[0].arg == SetterArgView::Bool(a.extract_inline_images),
        pdf_plan(a)[1].arg == SetterArgView::Bool(a.extract_unique_inline_images_only),
        pdf_plan(a)[2].arg == SetterArgView::Bool(a.extract_marked_content),
        pdf_plan(a)[3].arg == SetterArgView::Bool(a.extract_annotation_text),
        pdf_plan(a)[4].arg == SetterArgView::Text(a.ocr_strategy.spec_name()),
        pdf_plan(a) == pdf_plan(b) <==> a == b,
{
    lemma_strategy_names_differ(a.ocr_strategy, b.ocr_strategy);
    if pdf_plan(a) == pdf_plan(b) {
        assert(pdf_plan(a)[0] == pdf_plan(b)[0]);
        assert(pdf_plan(a)[1] == pdf_plan(b)[1]);
        assert(pdf_plan(a)[2] == pdf_plan(b)[2]);
        assert(pdf_plan(a)[3] == pdf_plan(b)[3]);
        assert(pdf_plan(a)[4] == pdf_plan(b)[4]);
    }
}

/// An office projection carries every field: the plan hands each field's
/// value to the setter of that field, so two configurations with the same
/// plan are the same configuration.
pub proof fn lemma_office_plan_carries_fields(a: OfficeParserConfig, b: OfficeParserConfig)
    ensures
        office_plan(a).len() == 10,
        office_plan(a)[0].arg == SetterArgView::Bool(a.extract_macros),
        office_plan(a)[1].arg == SetterArgView::Bool(a.include_deleted_content),
        office_plan(a)[2].arg == SetterArgView::Bool(a.include_move_from_content),
        office_plan(a)[3].arg == SetterArgView::Bool(a.include_shape_based_content),
        office_plan(a)[4].arg == SetterArgView::Bool(a.include_headers_and_footers),
        office_plan(a)[5].arg == SetterArgView::Bool(a.include_missing_rows),
        office_plan(a)[6].arg == SetterArgView::Bool(a.include_slide_notes),
        office_plan(a)[7].arg == SetterArgView::Bool(a.include_slide_master_content),
        office_plan(a)[8].arg == SetterArgView::Bool(a.concatenate_phonetic_runs),
        office_plan(a)[9].arg == SetterArgView::Bool(a.extract_all_alternatives_from_msg),
        office_plan(a) == office_plan(b) <==> a == b,
{
    if office_plan(a) == office_plan(b) {
        assert(office_plan(a)[0] == office_plan(b)[0]);
        assert(office_plan(a)[1] == office_plan(b)[1]);
        assert(office_plan(a)[2] == office_plan(b)[2]);
        assert(office_plan(a)[3] == office_plan(b)[3]);
        assert(office_plan(a)[4] == office_plan(b)[4]);
        assert(office_plan(a)[5] == office_plan(b)[5]);
        assert(office_plan(a)[6] == office_plan(b)[6]);
        assert(office_plan(a)[7] == office_plan(b)[7]);
        assert(office_plan(a)[8] == office_plan(b)[8]);
        assert(office_plan(a)[9] == office_plan(b)[9]);
    }
}

/// An OCR projection carries every field: the plan hands each field's value
/// to the setter of that field, so two configurations with the same plan
/// agree in every field (the languages as text).
pub proof fn lemma_ocr_plan_carries_fields(a: TesseractOcrConfig, b: TesseractOcrConfig)
    ensures
        ocr_plan(a).len() == 6,
        ocr_plan(a)[0].arg == SetterArgView::Int(a.density as int),
        ocr_plan(a)[1].arg == SetterArgView::Int(a.depth as int),
        ocr_plan(a)[2].arg == SetterArgView::Int(a.timeout_seconds as int),
        ocr_plan(a)[3].arg == SetterArgView::Bool(a.enable_image_preprocessing),
        ocr_plan(a)[4].arg == SetterArgView::Bool(a.apply_rotation),
        ocr_plan(a)[5].arg == SetterArgView::Text(a.language@),
        ocr_plan(a) == ocr_plan(b) <==> {
            &&& a.density == b.density
            &&& a.depth == b.depth
            &&& a.timeout_seconds == b.timeout_seconds
            &&& a.enable_image_preprocessing == b.enable_image_preprocessing
            &&& a.apply_rotation == b.apply_rotation
            &&& a.language@ == b.language@
        },
{
    if ocr_plan(a) == ocr_plan(b) {
        assert(ocr_plan(a)[0] == ocr_plan(b)[0]);
        assert(ocr_plan(a)[1] == ocr_plan(b)[1]);
        assert(ocr_plan(a)[2] == ocr_plan(b)[2]);
        assert(ocr_plan(a)[3] == ocr_plan(b)[3]);
        assert(ocr_plan(a)[4] == ocr_plan(b)[4]);
        assert(ocr_plan(a)[5] == ocr_plan(b)[5]);
    }
}

fn bool_setter(name: &'static str, value: bool) -> (call: SetterCall)
    ensures
        call@ == bool_call(name, value),
{
    SetterCall { name, arg: SetterArg::Bool(value) }
}

fn int_setter(name: &'static str, value: i32) -> (call: SetterCall)
    ensures
        call@ == int_call(name, value),
{
    SetterCall { name, arg: SetterArg::Int(value) }
}

fn text_setter(name: &'static str, value: String) -> (call: SetterCall)
    ensures
        call@ == text_call(name, value@),
{
    SetterCall { name, arg: SetterArg::Text(value) }
}

/// Plans the projection of a PDF parser configuration: one setter call per
/// field, the OCR strategy last and handed over by its canonical name.
pub fn pdf_setters(config: &PdfParserConfig) -> (plan: Vec<SetterCall>)
    ensures
        plan_view(plan@) == pdf_plan(*config),
        plan@.len() == pdf_plan(*config).len(),
        forall|i: int| 0 <= i < plan@.len() ==> (#[trigger] plan@[i])@ == pdf_plan(*config)[i],
{
    let mut plan: Vec<SetterCall> = Vec::new();
    plan.push(bool_setter("setExtractInlineImages", config.extract_inline_images));
    plan.push(
        bool_setter("setExtractUniqueInlineImagesOnly", config.extract_unique_inline_images_only),
    );
    plan.push(bool_setter("setExtractMarkedContent", config.extract_marked_content));
    plan.push(bool_setter("setExtractAnnotationText", config.extract_annotation_text));
    plan.push(text_setter("setOcrStrategy", config.ocr_strategy.to_string()));
    assert(plan_view(plan@) =~= pdf_plan(*config));
    plan
}

/// Plans the projection of an office parser configuration: one boolean
/// setter call per field.
pub fn office_setters(config: &OfficeParserConfig) -> (plan: Vec<SetterCall>)
    ensures
        plan_view(plan@) == office_plan(*config),
        plan@.len() == office_plan(*config).len(),
        forall|i: int| 0 <= i < plan@.len() ==> (#[trigger] plan@[i])@ == office_plan(*config)[i],
{
    let mut plan: Vec<SetterCall> = Vec::new();
    plan.push(bool_setter("setExtractMacros", config.extract_macros));
    plan.push(bool_setter("setIncludeDeletedContent", config.include_deleted_content));
    plan.push(bool_setter("setIncludeMoveFromContent", config.include_move_from_content));
    plan.push(bool_setter("setIncludeShapeBasedContent", config.include_shape_based_content));
    plan.push(bool_setter("setIncludeHeadersAndFooters", config.include_headers_and_footers));
    plan.push(bool_setter("setIncludeMissingRows", config.include_missing_rows));
    plan.push(bool_setter("setIncludeSlideNotes", config.include_slide_notes));
    plan.push(bool_setter("setIncludeSlideMasterContent", config.include_slide_master_content));
    plan.push(bool_setter("setConcatenatePhoneticRuns", config.concatenate_phonetic_runs));
    plan.push(
        bool_setter("setExtractAllAlternativesFromMSG", config.extract_all_alternatives_from_msg),
    );
    assert(plan_view(plan@) =~= office_plan(*config));
    plan
}

/// Plans the projection of an OCR configuration: one setter call per field,
/// the language last.
pub fn ocr_setters(config: &TesseractOcrConfig) -> (plan: Vec<SetterCall>)
    ensures
        plan_view(plan@) == ocr_plan(*config),
        plan@.len() == ocr_plan(*config).len(),
        forall|i: int| 0 <= i < plan@.len() ==> (#[trigger] plan@[i])@ == ocr_plan(*config)[i],
{
    let mut plan: Vec<SetterCall> = Vec::new();
    plan.push(int_setter("setDensity", config.density));
    plan.push(int_setter("setDepth", config.depth));
    plan.push(int_setter("setTimeoutSeconds", config.timeout_seconds));
    plan.push(bool_setter("setEnableImagePreprocessing", config.enable_image_preprocessing));
    plan.push(bool_setter("setApplyRotation", config.apply_rotation));
    plan.push(text_setter("setLanguage", config.language.clone()));
    assert(plan_view(plan@) =~= ocr_plan(*config));
    plan
}

} // verus!
