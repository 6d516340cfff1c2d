//! The verified pieces on concrete values.

use anydoc_pdf::error::ConvertError;
use anydoc_pdf::format::Format as DocumentFormat;
use anydoc_pdf::has_pdf_signature;
use anydoc_pdf::inspector::{Detection, Extraction, InspectorError};
use anydoc_pdf::node::{Format, PdfType as NodePdfType};
use anydoc_pdf::pdf::{
    extraction_warnings, finish_markdown, inspection_from_outcome, map_error, markdown_from_outcome,
    PdfInspection, PdfType,
};
use anydoc_pdf::python::pdf_type_name;
use anydoc_pdf::text::{ends_with_newline, is_blank_text, is_whitespace, push_decimal};

fn pdf_type(code: u8) -> PdfType {
    [PdfType::TextBased, PdfType::Scanned, PdfType::ImageBased, PdfType::Mixed][code as usize]
}

fn extraction(markdown: Option<&str>, code: u8, page_count: u32) -> Extraction {
    Extraction {
        markdown: markdown.map(|m| m.to_string()),
        pdf_type: pdf_type(code),
        page_count,
        pages_needing_ocr: Vec::new(),
        has_encoding_issues: false,
    }
}

#[test]
fn markdown_gets_a_final_line_feed() {
    assert_eq!(finish_markdown(extraction(Some("# Title"), 0, 1)).unwrap(), "# Title\n");
}

#[test]
fn markdown_with_a_final_line_feed_is_unchanged() {
    assert_eq!(finish_markdown(extraction(Some("a\n\nb\n"), 3, 2)).unwrap(), "a\n\nb\n");
}

#[test]
fn finishing_markdown_twice_changes_nothing() {
    let once = finish_markdown(extraction(Some("  text  "), 0, 1)).unwrap();
    let twice = finish_markdown(extraction(Some(&once), 0, 1)).unwrap();
    assert_eq!(once, "  text  \n");
    assert_eq!(twice, once);
}

#[test]
fn whitespace_only_markdown_is_unsupported() {
    match finish_markdown(extraction(Some(" \n\t\u{3000}\u{a0}"), 1, 12)) {
        Err(ConvertError::Unsupported(m)) => {
            assert_eq!(m, "PDF has no extractable text (Scanned, 12 pages): OCR is required")
        }
        other => panic!("{other:?}"),
    }
}

#[test]
fn missing_markdown_is_unsupported() {
    let error = finish_markdown(extraction(None, 2, 0)).unwrap_err();
    assert_eq!(error.code(), "unsupported");
    match error {
        ConvertError::Unsupported(m) => {
            assert_eq!(m, "PDF has no extractable text (ImageBased, 0 pages): OCR is required")
        }
        other => panic!("{other:?}"),
    }
}

#[test]
fn unsupported_message_names_large_page_counts_and_mixed() {
    match finish_markdown(extraction(Some(""), 3, u32::MAX)) {
        Err(ConvertError::Unsupported(m)) => assert_eq!(
            m,
            "PDF has no extractable text (Mixed, 4294967295 pages): OCR is required"
        ),
        other => panic!("{other:?}"),
    }
    match finish_markdown(extraction(Some("\u{2028}"), 0, 107)) {
        Err(ConvertError::Unsupported(m)) => assert_eq!(
            m,
            "PDF has no extractable text (TextBased, 107 pages): OCR is required"
        ),
        other => panic!("{other:?}"),
    }
}

#[test]
fn decimal_rendering() {
    let mut s = String::from("n=");
    push_decimal(&mut s, 0);
    push_decimal(&mut s, 9);
    push_decimal(&mut s, 10);
    push_decimal(&mut s, 2024);
    assert_eq!(s, "n=09102024");
}

#[test]
fn whitespace_matches_std() {
    for c in ['\t', '\n', '\u{b}', '\u{c}', '\r', ' ', '\u{85}', '\u{a0}', '\u{1680}', '\u{2000}',
        '\u{200a}', '\u{2028}', '\u{2029}', '\u{202f}', '\u{205f}', '\u{3000}', 'a', '0', '\u{200b}',
        '\u{feff}', '\u{1f}', '\u{2060}', 'é']
    {
        assert_eq!(is_whitespace(c), c.is_whitespace(), "{c:?}");
    }
    assert!(is_blank_text(""));
    assert!(is_blank_text(" \u{3000}\n"));
    assert!(!is_blank_text(" x "));
    assert!(ends_with_newline("a\n"));
    assert!(!ends_with_newline("a"));
    assert!(!ends_with_newline(""));
}

#[test]
fn errors_map_to_codes() {
    let e = map_error(InspectorError::Encrypted);
    assert!(matches!(e, ConvertError::Encrypted));
    assert_eq!(e.code(), "encrypted");

    let e = map_error(InspectorError::Io(std::io::Error::other("disk")));
    assert_eq!(e.code(), "io");

    match map_error(InspectorError::NotAPdf("looks like plain text".to_string())) {
        ConvertError::Malformed(m) => assert_eq!(m, "not a PDF: looks like plain text"),
        other => panic!("{other:?}"),
    }
    match map_error(InspectorError::InvalidStructure) {
        ConvertError::Malformed(m) => assert_eq!(m, "invalid PDF structure"),
        other => panic!("{other:?}"),
    }
    match map_error(InspectorError::Parse("bad xref".to_string())) {
        ConvertError::Malformed(m) => assert_eq!(m, "bad xref"),
        other => panic!("{other:?}"),
    }
    assert_eq!(ConvertError::malformed("x".to_string()).code(), "malformed");
}

#[test]
fn detection_becomes_an_inspection_field_for_field() {
    let detection = Detection {
        ocr_recommended: true,
        pdf_type: PdfType::Mixed,
        page_count: 4,
        pages_needing_ocr: vec![2, 4],
        ocr_reasons_by_page: vec![
            (2, vec!["scanned".to_string()]),
            (4, vec!["vector_text".to_string(), "no_text".to_string()]),
        ],
        confidence_bits: 0.75f32.to_bits(),
    };
    let inspection = PdfInspection::from_detection(detection);
    assert!(inspection.needs_ocr);
    assert_eq!(inspection.pdf_type, PdfType::Mixed);
    assert_eq!(inspection.page_count, 4);
    assert_eq!(inspection.pages_needing_ocr, vec![2, 4]);
    assert_eq!(inspection.ocr_reasons.len(), 2);
    assert_eq!(inspection.ocr_reasons[0].page, 2);
    assert_eq!(inspection.ocr_reasons[0].reasons, vec!["scanned".to_string()]);
    assert_eq!(inspection.ocr_reasons[1].page, 4);
    assert_eq!(inspection.ocr_reasons[1].reasons, vec!["vector_text".to_string(), "no_text".to_string()]);
    assert_eq!(f32::from_bits(inspection.confidence_bits), 0.75);
}

#[test]
fn pdf_type_debug_names() {
    for t in [PdfType::TextBased, PdfType::Scanned, PdfType::ImageBased, PdfType::Mixed] {
        assert_eq!(t.debug_name(), format!("{t:?}"));
    }
}

#[test]
fn warnings_name_ocr_pages_then_broken_encodings() {
    let mut x = extraction(Some("text"), 3, 9);
    assert!(extraction_warnings(&x).is_empty());
    x.pages_needing_ocr = vec![2, 5, 7];
    assert_eq!(extraction_warnings(&x), vec!["3 of 9 pages need OCR and were not extracted".to_string()]);
    x.has_encoding_issues = true;
    assert_eq!(
        extraction_warnings(&x),
        vec![
            "3 of 9 pages need OCR and were not extracted".to_string(),
            "broken font encodings detected; extracted text may be garbled".to_string(),
        ]
    );
    x.pages_needing_ocr.clear();
    assert_eq!(
        extraction_warnings(&x),
        vec!["broken font encodings detected; extracted text may be garbled".to_string()]
    );
}

#[test]
fn error_messages() {
    assert_eq!(ConvertError::Encrypted.message(), "document is encrypted");
    assert_eq!(ConvertError::Malformed("bad xref".to_string()).message(), "bad xref");
    assert_eq!(ConvertError::Unsupported("no text".to_string()).message(), "no text");
    let io = std::io::Error::other("disk gone");
    assert_eq!(ConvertError::Io(io).message(), "disk gone");
}

#[test]
fn io_refusals_keep_their_error() {
    let io = std::io::Error::new(std::io::ErrorKind::NotFound, "missing");
    match map_error(InspectorError::Io(io)) {
        ConvertError::Io(e) => {
            assert_eq!(e.kind(), std::io::ErrorKind::NotFound);
            assert_eq!(e.to_string(), "missing");
        }
        other => panic!("{other:?}"),
    }
}

#[test]
fn signature_is_the_pdf_header_at_the_start() {
    assert!(has_pdf_signature(b"%PDF-1.7\n"));
    assert!(has_pdf_signature(b"%PDF-"));
    assert!(!has_pdf_signature(b"%PDF"));
    assert!(!has_pdf_signature(b"\n%PDF-1.7"));
    assert!(!has_pdf_signature(b"%pdf-1.7"));
}

#[test]
fn node_formats_round_trip() {
    let all = [
        (Format::doc, DocumentFormat::Doc),
        (Format::docx, DocumentFormat::Docx),
        (Format::odt, DocumentFormat::Odt),
        (Format::pdf, DocumentFormat::Pdf),
        (Format::ppt, DocumentFormat::Ppt),
        (Format::pptx, DocumentFormat::Pptx),
        (Format::rtf, DocumentFormat::Rtf),
        (Format::epub, DocumentFormat::Epub),
        (Format::xlsx, DocumentFormat::Excel),
        (Format::ods, DocumentFormat::Ods),
        (Format::odp, DocumentFormat::Odp),
        (Format::csv, DocumentFormat::Csv),
    ];
    for (binding, library) in all {
        assert_eq!(DocumentFormat::from(binding), library);
        assert_eq!(Format::from(library), binding);
        let back: Format = DocumentFormat::from(binding).into();
        assert_eq!(back, binding);
    }
}

#[test]
fn node_pdf_types() {
    assert_eq!(NodePdfType::from(PdfType::TextBased), NodePdfType::textBased);
    assert_eq!(NodePdfType::from(PdfType::Scanned), NodePdfType::scanned);
    assert_eq!(NodePdfType::from(PdfType::ImageBased), NodePdfType::imageBased);
    assert_eq!(NodePdfType::from(PdfType::Mixed), NodePdfType::mixed);
}

#[test]
fn python_pdf_type_names() {
    assert_eq!(pdf_type_name(PdfType::TextBased), "textBased");
    assert_eq!(pdf_type_name(PdfType::Scanned), "scanned");
    assert_eq!(pdf_type_name(PdfType::ImageBased), "imageBased");
    assert_eq!(pdf_type_name(PdfType::Mixed), "mixed");
}

#[test]
fn text_based_inspection_lists_no_ocr_pages() {
    let detection = Detection {
        ocr_recommended: false,
        pdf_type: PdfType::TextBased,
        page_count: 3,
        pages_needing_ocr: vec![3],
        ocr_reasons_by_page: vec![(3, vec!["suspected_garbled_text".to_string()])],
        confidence_bits: 1.0f32.to_bits(),
    };
    let inspection = PdfInspection::from_detection(detection);
    assert!(!inspection.needs_ocr);
    assert!(inspection.pages_needing_ocr.is_empty());
    assert!(inspection.ocr_reasons.is_empty());
    assert_eq!(inspection.page_count, 3);

    let mixed = Detection {
        ocr_recommended: true,
        pdf_type: PdfType::Mixed,
        page_count: 3,
        pages_needing_ocr: vec![3],
        ocr_reasons_by_page: vec![(3, vec!["suspected_garbled_text".to_string()])],
        confidence_bits: 0.7f32.to_bits(),
    };
    let inspection = PdfInspection::from_detection(mixed);
    assert!(inspection.needs_ocr);
    assert_eq!(inspection.pages_needing_ocr, vec![3]);
}

#[test]
fn refused_detection_becomes_a_typed_error() {
    let r = inspection_from_outcome(Err(InspectorError::Encrypted));
    assert_eq!(r.unwrap_err().code(), "encrypted");
    let r = inspection_from_outcome(Err(InspectorError::InvalidStructure));
    assert_eq!(r.unwrap_err().code(), "malformed");
    let detection = Detection {
        ocr_recommended: true,
        pdf_type: PdfType::Scanned,
        page_count: 2,
        pages_needing_ocr: vec![1, 2],
        ocr_reasons_by_page: vec![(1, vec!["scanned".to_string()]), (2, vec!["scanned".to_string()])],
        confidence_bits: 0.95f32.to_bits(),
    };
    let i = inspection_from_outcome(Ok(detection)).unwrap().unwrap();
    assert_eq!(i.pdf_type, PdfType::Scanned);
    assert_eq!(i.pages_needing_ocr, vec![1, 2]);
}

#[test]
fn refused_extraction_has_no_warnings() {
    let c = markdown_from_outcome(Err(InspectorError::Parse("broken".to_string())));
    assert!(c.warnings.is_empty());
    match c.markdown {
        Err(ConvertError::Malformed(m)) => assert_eq!(m, "broken"),
        other => panic!("{other:?}"),
    }
    let mut x = extraction(Some("body"), 3, 4);
    x.pages_needing_ocr = vec![4];
    let c = markdown_from_outcome(Ok(x));
    assert_eq!(c.markdown.unwrap(), "body\n");
    assert_eq!(c.warnings, vec!["1 of 4 pages need OCR and were not extracted".to_string()]);
}
