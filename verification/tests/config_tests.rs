use extract_core::config::{
    OfficeParserConfig, PdfOcrStrategy, PdfParserConfig, TesseractOcrConfig,
};
use extract_core::setters::{
    office_setters, ocr_setters, pdf_setters, SetterArg, SetterCall, OCR_CONFIG_CLASS,
    OFFICE_CONFIG_CLASS, PDF_CONFIG_CLASS,
};

fn bool_call(name: &'static str, value: bool) -> SetterCall {
    SetterCall { name, arg: SetterArg::Bool(value) }
}

fn int_call(name: &'static str, value: i32) -> SetterCall {
    SetterCall { name, arg: SetterArg::Int(value) }
}

fn text_call(name: &'static str, value: &str) -> SetterCall {
    SetterCall { name, arg: SetterArg::Text(value.to_string()) }
}

#[test]
fn strategy_names_are_the_variant_spellings() {
    assert_eq!(PdfOcrStrategy::NO_OCR.name(), "NO_OCR");
    assert_eq!(PdfOcrStrategy::OCR_ONLY.name(), "OCR_ONLY");
    assert_eq!(PdfOcrStrategy::OCR_AND_TEXT_EXTRACTION.name(), "OCR_AND_TEXT_EXTRACTION");
    assert_eq!(PdfOcrStrategy::AUTO.name(), "AUTO");
}

#[test]
fn strategy_to_string_matches_its_debug_spelling() {
    for strategy in [
        PdfOcrStrategy::NO_OCR,
        PdfOcrStrategy::OCR_ONLY,
        PdfOcrStrategy::OCR_AND_TEXT_EXTRACTION,
        PdfOcrStrategy::AUTO,
    ] {
        assert_eq!(strategy.to_string(), format!("{:?}", strategy));
        assert_eq!(strategy.to_string(), strategy.name());
    }
}

#[test]
fn class_names_are_the_foreign_ones() {
    assert_eq!(PDF_CONFIG_CLASS, "org/apache/tika/parser/pdf/PDFParserConfig");
    assert_eq!(OFFICE_CONFIG_CLASS, "org/apache/tika/parser/microsoft/OfficeParserConfig");
    assert_eq!(OCR_CONFIG_CLASS, "org/apache/tika/parser/ocr/TesseractOCRConfig");
}

#[test]
fn signatures_follow_the_kind_of_argument() {
    assert_eq!(SetterArg::Bool(true).signature(), "(Z)V");
    assert_eq!(SetterArg::Bool(false).signature(), "(Z)V");
    assert_eq!(SetterArg::Int(-7).signature(), "(I)V");
    assert_eq!(SetterArg::Text("x".to_string()).signature(), "(Ljava/lang/String;)V");
}

#[test]
fn pdf_plan_calls_each_setter_in_order() {
    let config = PdfParserConfig {
        ocr_strategy: PdfOcrStrategy::OCR_AND_TEXT_EXTRACTION,
        extract_inline_images: true,
        extract_unique_inline_images_only: false,
        extract_marked_content: true,
        extract_annotation_text: false,
    };
    assert_eq!(
        pdf_setters(&config),
        vec![
            bool_call("setExtractInlineImages", true),
            bool_call("setExtractUniqueInlineImagesOnly", false),
            bool_call("setExtractMarkedContent", true),
            bool_call("setExtractAnnotationText", false),
            text_call("setOcrStrategy", "OCR_AND_TEXT_EXTRACTION"),
        ]
    );
}

#[test]
fn pdf_plan_follows_each_field_alone() {
    let base = PdfParserConfig {
        ocr_strategy: PdfOcrStrategy::NO_OCR,
        extract_inline_images: false,
        extract_unique_inline_images_only: false,
        extract_marked_content: false,
        extract_annotation_text: false,
    };
    let plan = pdf_setters(&base);
    let changed = [
        PdfParserConfig { extract_inline_images: true, ..base.clone() },
        PdfParserConfig { extract_unique_inline_images_only: true, ..base.clone() },
        PdfParserConfig { extract_marked_content: true, ..base.clone() },
        PdfParserConfig { extract_annotation_text: true, ..base.clone() },
        PdfParserConfig { ocr_strategy: PdfOcrStrategy::AUTO, ..base.clone() },
    ];
    for (field, config) in changed.iter().enumerate() {
        let other = pdf_setters(config);
        assert_eq!(other.len(), 5);
        for i in 0..5 {
            assert_eq!(other[i].name, plan[i].name);
            assert_eq!(other[i] == plan[i], i != field, "call {} after changing field {}", i, field);
        }
    }
}

#[test]
fn office_plan_calls_each_setter_in_order() {
    let config = OfficeParserConfig {
        extract_macros: true,
        include_deleted_content: false,
        include_move_from_content: true,
        include_shape_based_content: false,
        include_headers_and_footers: true,
        include_missing_rows: false,
        include_slide_notes: true,
        include_slide_master_content: false,
        concatenate_phonetic_runs: true,
        extract_all_alternatives_from_msg: false,
    };
    assert_eq!(
        office_setters(&config),
        vec![
            bool_call("setExtractMacros", true),
            bool_call("setIncludeDeletedContent", false),
            bool_call("setIncludeMoveFromContent", true),
            bool_call("setIncludeShapeBasedContent", false),
            bool_call("setIncludeHeadersAndFooters", true),
            bool_call("setIncludeMissingRows", false),
            bool_call("setIncludeSlideNotes", true),
            bool_call("setIncludeSlideMasterContent", false),
            bool_call("setConcatenatePhoneticRuns", true),
            bool_call("setExtractAllAlternativesFromMSG", false),
        ]
    );
}

#[test]
fn office_plan_follows_each_field_alone() {
    for field in 0..10usize {
        let on = |i: usize| i == field;
        let config = OfficeParserConfig {
            extract_macros: on(0),
            include_deleted_content: on(1),
            include_move_from_content: on(2),
            include_shape_based_content: on(3),
            include_headers_and_footers: on(4),
            include_missing_rows: on(5),
            include_slide_notes: on(6),
            include_slide_master_content: on(7),
            concatenate_phonetic_runs: on(8),
            extract_all_alternatives_from_msg: on(9),
        };
        let plan = office_setters(&config);
        assert_eq!(plan.len(), 10);
        for (i, call) in plan.iter().enumerate() {
            assert_eq!(call.arg, SetterArg::Bool(on(i)));
        }
    }
}

#[test]
fn ocr_plan_calls_each_setter_in_order() {
    let config = TesseractOcrConfig {
        density: 300,
        depth: 4,
        timeout_seconds: 130,
        enable_image_preprocessing: false,
        apply_rotation: true,
        language: "eng".to_string(),
    };
    assert_eq!(
        ocr_setters(&config),
        vec![
            int_call("setDensity", 300),
            int_call("setDepth", 4),
            int_call("setTimeoutSeconds", 130),
            bool_call("setEnableImagePreprocessing", false),
            bool_call("setApplyRotation", true),
            text_call("setLanguage", "eng"),
        ]
    );
}

#[test]
fn ocr_plan_keeps_extreme_values() {
    let config = TesseractOcrConfig {
        density: i32::MIN,
        depth: i32::MAX,
        timeout_seconds: 0,
        enable_image_preprocessing: true,
        apply_rotation: false,
        language: String::new(),
    };
    let plan = ocr_setters(&config);
    assert_eq!(plan[0].arg, SetterArg::Int(i32::MIN));
    assert_eq!(plan[1].arg, SetterArg::Int(i32::MAX));
    assert_eq!(plan[2].arg, SetterArg::Int(0));
    assert_eq!(plan[5].arg, SetterArg::Text(String::new()));
}

#[test]
fn planning_leaves_the_configuration_alone() {
    let config = TesseractOcrConfig {
        density: 72,
        depth: 1,
        timeout_seconds: 5,
        enable_image_preprocessing: true,
        apply_rotation: true,
        language: "jpn".to_string(),
    };
    let copy = config.clone();
    let _ = ocr_setters(&config);
    assert_eq!(config, copy);
}
