//! Inspection and extraction of small PDFs written out in the test itself.

use anydoc_pdf::{inspect_pdf_bytes, to_markdown, ConvertError, PdfType};

/// A one-page PDF whose page shows `content`, with a correct cross-reference
/// table.
fn one_page_pdf(content: &str) -> Vec<u8> {
    let objects = [
        "<< /Type /Catalog /Pages 2 0 R >>".to_string(),
        "<< /Type /Pages /Kids [3 0 R] /Count 1 >>".to_string(),
        "<< /Type /Page /Parent 2 0 R /MediaBox [0 0 612 792] /Contents 4 0 R \
         /Resources << /Font << /F1 5 0 R >> >> >>"
            .to_string(),
        format!("<< /Length {} >>\nstream\n{}\nendstream", content.len(), content),
        "<< /Type /Font /Subtype /Type1 /BaseFont /Helvetica /Encoding /WinAnsiEncoding >>"
            .to_string(),
    ];
    let mut out = b"%PDF-1.4\n".to_vec();
    let mut offsets = Vec::new();
    for (i, body) in objects.iter().enumerate() {
        offsets.push(out.len());
        out.extend_from_slice(format!("{} 0 obj\n{}\nendobj\n", i + 1, body).as_bytes());
    }
    let xref = out.len();
    out.extend_from_slice(format!("xref\n0 {}\n0000000000 65535 f \n", objects.len() + 1).as_bytes());
    for offset in offsets {
        out.extend_from_slice(format!("{:010} 00000 n \n", offset).as_bytes());
    }
    out.extend_from_slice(
        format!(
            "trailer\n<< /Size {} /Root 1 0 R >>\nstartxref\n{}\n%%EOF\n",
            objects.len() + 1,
            xref
        )
        .as_bytes(),
    );
    out
}

fn text_page() -> Vec<u8> {
    one_page_pdf(
        "BT /F1 18 Tf 72 720 Td (Verified inspection of portable documents) Tj ET\n\
         BT /F1 12 Tf 72 690 Td (The quick brown fox jumps over the lazy dog.) Tj ET\n\
         BT /F1 12 Tf 72 670 Td (Pack my box with five dozen liquor jugs.) Tj ET\n\
         BT /F1 12 Tf 72 650 Td (Sphinx of black quartz, judge my vow.) Tj ET\n\
         BT /F1 12 Tf 72 630 Td (How vexingly quick daft zebras jump.) Tj ET",
    )
}

#[test]
fn text_page_is_inspected_as_text_based() {
    let inspection = inspect_pdf_bytes(&text_page()).unwrap().expect("a PDF");
    assert_eq!(inspection.pdf_type, PdfType::TextBased);
    assert_eq!(inspection.page_count, 1);
    assert!(inspection.pages_needing_ocr.is_empty());
    assert!(inspection.ocr_reasons.is_empty());
    assert!(inspection.confidence_bits <= 0x3f80_0000);
    let confidence = f32::from_bits(inspection.confidence_bits);
    assert!((0.0..=1.0).contains(&confidence));
}

#[test]
fn text_page_converts_to_markdown_ending_in_a_line_feed() {
    let conversion = to_markdown(&text_page());
    assert!(conversion.warnings.is_empty(), "{:?}", conversion.warnings);
    let markdown = conversion.markdown.unwrap();
    assert!(markdown.contains("quick brown fox"), "{markdown}");
    assert!(markdown.ends_with('\n'));
    assert!(!markdown.trim().is_empty());
}

#[test]
fn blank_page_has_no_extractable_text() {
    let bytes = one_page_pdf("");
    match to_markdown(&bytes).markdown {
        Err(ConvertError::Unsupported(message)) => {
            assert!(message.starts_with("PDF has no extractable text ("), "{message}");
            assert!(message.ends_with(", 1 pages): OCR is required"), "{message}");
        }
        other => panic!("expected an unsupported-document error, got {other:?}"),
    }
}

#[test]
fn blank_page_reasons_cover_exactly_the_ocr_pages() {
    let inspection = inspect_pdf_bytes(&one_page_pdf("")).unwrap().expect("a PDF");
    let pages: Vec<u32> = inspection.ocr_reasons.iter().map(|r| r.page).collect();
    assert_eq!(pages, inspection.pages_needing_ocr);
    assert!(inspection.ocr_reasons.iter().all(|r| !r.reasons.is_empty()));
    for page in &inspection.pages_needing_ocr {
        assert!((1..=inspection.page_count).contains(page));
    }
}

#[test]
fn plain_text_bytes_are_not_a_pdf() {
    assert!(inspect_pdf_bytes(b"hello, not a pdf").unwrap().is_none());
}

#[test]
fn zip_container_bytes_are_not_a_pdf() {
    let zip = b"PK\x03\x04\x14\x00\x06\x00\x08\x00\x00\x00!\x00[Content_Types].xml";
    assert!(inspect_pdf_bytes(zip).unwrap().is_none());
}

#[test]
fn header_after_leading_bytes_is_not_a_signature() {
    assert!(inspect_pdf_bytes(b" %PDF-1.4\n").unwrap().is_none());
    assert!(inspect_pdf_bytes(b"%PDF").unwrap().is_none());
    assert!(inspect_pdf_bytes(b"").unwrap().is_none());
}

#[test]
fn corrupt_pdf_conversion_is_malformed() {
    let conversion = to_markdown(b"%PDF-1.7\nthis is not a valid pdf body at all");
    assert!(conversion.warnings.is_empty());
    assert_eq!(conversion.markdown.unwrap_err().code(), "malformed");
}
