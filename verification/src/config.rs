//! Host-native configuration values.

use vstd::prelude::*;

verus! {

/// How the foreign PDF parser combines text extraction and OCR.
///
/// The variants are spelled exactly as the constants of the foreign
/// enumeration, because the projection hands the name over as text.
#[allow(non_camel_case_types)]
#[derive(Debug, Clone, Copy, PartialEq, Eq, Hash)]
pub enum PdfOcrStrategy {
    NO_OCR,
    OCR_ONLY,
    OCR_AND_TEXT_EXTRACTION,
    AUTO,
}

impl PdfOcrStrategy {
    /// The canonical name of the strategy.
    pub open spec fn spec_name(self) -> Seq<char> {
        match self {
            PdfOcrStrategy::NO_OCR => "NO_OCR"@,
            PdfOcrStrategy::OCR_ONLY => "OCR_ONLY"@,
            PdfOcrStrategy::OCR_AND_TEXT_EXTRACTION => "OCR_AND_TEXT_EXTRACTION"@,
            PdfOcrStrategy::AUTO => "AUTO"@,
        }
    }

    /// The canonical name of the strategy: the spelling of its variant.
    pub fn name(&self) -> (s: &'static str)
        ensures
            s@ == self.spec_name(),
    {
        match self {
            PdfOcrStrategy::NO_OCR => "NO_OCR",
            PdfOcrStrategy::OCR_ONLY => "OCR_ONLY",
            PdfOcrStrategy::OCR_AND_TEXT_EXTRACTION => "OCR_AND_TEXT_EXTRACTION",
            PdfOcrStrategy::AUTO => "AUTO",
        }
    }

    /// The canonical name of the strategy as an owned string.
    pub fn to_string(&self) -> (s: String)
        ensures
            s@ == self.spec_name(),
    {
        self.name().to_owned()
    }
}

/// Configuration of the foreign PDF parser.
#[derive(Debug, Clone, PartialEq, Eq)]
pub struct PdfParserConfig {
    pub ocr_strategy: PdfOcrStrategy,
    pub extract_inline_images: bool,
    pub extract_unique_inline_images_only: bool,
    pub extract_marked_content: bool,
    pub extract_annotation_text: bool,
}

/// Configuration of the foreign parser for office documents.
#[derive(Debug, Clone, PartialEq, Eq)]
pub struct OfficeParserConfig {
    pub extract_macros: bool,
    pub include_deleted_content: bool,
    pub include_move_from_content: bool,
    pub include_shape_based_content: bool,
    pub include_headers_and_footers: bool,
    pub include_missing_rows: bool,
    pub include_slide_notes: bool,
    pub include_slide_master_content: bool,
    pub concatenate_phonetic_runs: bool,
    pub extract_all_alternatives_from_msg: bool,
}

/// Configuration of the foreign OCR engine.
#[derive(Debug, Clone, PartialEq, Eq)]
pub struct TesseractOcrConfig {
    pub density: i32,
    pub depth: i32,
    pub timeout_seconds: i32,
    pub enable_image_preprocessing: bool,
    pub apply_rotation: bool,
    pub language: String,
}

} // verus!
