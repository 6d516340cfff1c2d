//! The calls into pdf-inspector, and the plain values their results are
//! converted into.
use vstd::prelude::*;

use crate::pdf::PdfType;
use pdf_inspector::PdfError;

verus! {

/// Why pdf-inspector refused a document: its `PdfError`, variant for
/// variant.
#[derive(Debug)]
pub enum InspectorError {
    Io(std::io::Error),
    Parse(String),
    Encrypted,
    InvalidStructure,
    NotAPdf(String),
}

/// What an `InspectorError` says, with the I/O error's detail left out.
pub enum InspectorErrorView {
    Io,
    Parse(Seq<char>),
    Encrypted,
    InvalidStructure,
    NotAPdf(Seq<char>),
}

impl View for InspectorError {
    type V = InspectorErrorView;

    open spec fn view(&self) -> InspectorErrorView {
        match self {
            InspectorError::Io(_) => InspectorErrorView::Io,
            InspectorError::Parse(d) => InspectorErrorView::Parse(d@),
            InspectorError::Encrypted => InspectorErrorView::Encrypted,
            InspectorError::InvalidStructure => InspectorErrorView::InvalidStructure,
            InspectorError::NotAPdf(d) => InspectorErrorView::NotAPdf(d@),
        }
    }
}

/// The strings of a list, each by its characters.
pub open spec fn strings_view(s: Seq<String>) -> Seq<Seq<char>> {
    s.map_values(|x: String| x@)
}

/// The parts of pdf-inspector's `PdfTypeResult` that this library reads;
/// `confidence_bits` holds the IEEE-754 bits of the `f32` confidence.
pub struct Detection {
    pub ocr_recommended: bool,
    pub pdf_type: PdfType,
    pub page_count: u32,
    pub pages_needing_ocr: Vec<u32>,
    pub ocr_reasons_by_page: Vec<(u32, Vec<String>)>,
    pub confidence_bits: u32,
}

pub struct DetectionView {
    pub ocr_recommended: bool,
    pub pdf_type: PdfType,
    pub page_count: u32,
    pub pages_needing_ocr: Seq<u32>,
    pub ocr_reasons_by_page: Seq<(u32, Seq<Seq<char>>)>,
    pub confidence_bits: u32,
}

impl View for Detection {
    type V = DetectionView;

    open spec fn view(&self) -> DetectionView {
        DetectionView {
            ocr_recommended: self.ocr_recommended,
            pdf_type: self.pdf_type,
            page_count: self.page_count,
            pages_needing_ocr: self.pages_needing_ocr@,
            ocr_reasons_by_page: self.ocr_reasons_by_page@.map_values(
                |e: (u32, Vec<String>)| (e.0, strings_view(e.1@)),
            ),
            confidence_bits: self.confidence_bits,
        }
    }
}

/// Page numbers in strictly increasing order (sorted, no repeats).
pub open spec fn strictly_increasing(pages: Seq<u32>) -> bool {
    forall|i: int, j: int| 0 <= i < j < pages.len() ==> pages[i] < pages[j]
}

/// Every page number lies in `1..=page_count`.
pub open spec fn pages_within(pages: Seq<u32>, page_count: u32) -> bool {
    forall|i: int| 0 <= i < pages.len() ==> 1 <= #[trigger] pages[i] <= page_count
}

/// The pages of a list of per-page reasons.
pub open spec fn reason_pages(reasons: Seq<(u32, Seq<Seq<char>>)>) -> Seq<u32> {
    reasons.map_values(|e: (u32, Seq<Seq<char>>)| e.0)
}

/// The reason codes pdf-inspector gives for a page that needs OCR.
pub open spec fn is_reason_code(code: Seq<char>) -> bool {
    ||| code == "scanned"@
    ||| code == "no_text"@
    ||| code == "vector_text"@
    ||| code == "invisible_text_layer"@
    ||| code == "suspected_garbled_text"@
}

/// Per-page reasons that name, in order, exactly the given pages, each with
/// at least one reason code from pdf-inspector's vocabulary.
pub open spec fn reasons_explain(reasons: Seq<(u32, Seq<Seq<char>>)>, pages: Seq<u32>) -> bool {
    &&& reason_pages(reasons) == pages
    &&& forall|i: int| 0 <= i < reasons.len() ==> (#[trigger] reasons[i]).1.len() > 0
    &&& forall|i: int, k: int|
        0 <= i < reasons.len() && 0 <= k < reasons[i].1.len() ==> is_reason_code(
            #[trigger] reasons[i].1[k],
        )
}

/// The bits of an `f32` that is a number from 0.0 to 1.0 (not negative, not
/// NaN): for non-negative floats the bits grow with the value, and 1.0 is
/// `0x3f80_0000`.
pub open spec fn unit_interval_bits(bits: u32) -> bool {
    bits <= 0x3f80_0000
}

/// Every page of a document with `page_count` pages, in order.
pub open spec fn all_pages(page_count: u32) -> Seq<u32> {
    Seq::new(page_count as nat, |i: int| (i + 1) as u32)
}

impl DetectionView {
    /// What pdf-inspector's source shows of every detection it returns: the
    /// document has at least one page; the OCR pages are sorted, distinct
    /// and within the page count, and every page for a scanned or
    /// image-based document; each of them, in that order, has a non-empty
    /// list of known reason codes and no other page has one; OCR is
    /// recommended for every type but text-based, and for a text-based one
    /// only when it has at least three pages; a text-based document flags
    /// only pages with the reason `suspected_garbled_text`; and the
    /// confidence lies in 0.0 to 1.0.
    pub open spec fn wf(self) -> bool {
        &&& self.page_count >= 1
        &&& (self.pdf_type is Scanned || self.pdf_type is ImageBased) ==> self.pages_needing_ocr
            == all_pages(self.page_count)
        &&& !(self.pdf_type is TextBased) ==> self.ocr_recommended
        &&& self.pdf_type is TextBased && self.ocr_recommended ==> self.page_count >= 3
        &&& self.pdf_type is TextBased ==> forall|i: int|
            0 <= i < self.ocr_reasons_by_page.len() ==> (#[trigger] self.ocr_reasons_by_page[i]).1.contains(
                "suspected_garbled_text"@,
            )
        &&& strictly_increasing(self.pages_needing_ocr)
        &&& pages_within(self.pages_needing_ocr, self.page_count)
        &&& reasons_explain(self.ocr_reasons_by_page, self.pages_needing_ocr)
        &&& unit_interval_bits(self.confidence_bits)
    }
}

/// The parts of pdf-inspector's `PdfProcessResult` that this library reads.
pub struct Extraction {
    pub markdown: Option<String>,
    pub pdf_type: PdfType,
    pub page_count: u32,
    pub pages_needing_ocr: Vec<u32>,
    pub has_encoding_issues: bool,
}

pub struct ExtractionView {
    pub markdown: Option<Seq<char>>,
    pub pdf_type: PdfType,
    pub page_count: u32,
    pub pages_needing_ocr: Seq<u32>,
    pub has_encoding_issues: bool,
}

impl View for Extraction {
    type V = ExtractionView;

    open spec fn view(&self) -> ExtractionView {
        ExtractionView {
            markdown: match self.markdown {
                Some(m) => Some(m@),
                None => None,
            },
            pdf_type: self.pdf_type,
            page_count: self.page_count,
            pages_needing_ocr: self.pages_needing_ocr@,
            has_encoding_issues: self.has_encoding_issues,
        }
    }
}

/// Whether pdf-inspector refuses a buffer before it looks at any page, and
/// why: its header check and its loader, which `detect_pdf_type_mem` and
/// `process_pdf_mem` share, read nothing but the bytes.
pub uninterp spec fn pdf_load_refusal(bytes: Seq<u8>) -> Option<InspectorErrorView>;

/// The number of pages pdf-inspector's loader finds in a buffer it accepts.
pub uninterp spec fn pdf_loaded_page_count(bytes: Seq<u8>) -> u32;

/// Calls `pdf_inspector::detect_pdf_type_mem`, which classifies a PDF held
/// in memory without extracting its text. Claimed, as the crate's source
/// shows: it fails exactly when its header check or loader refuses the bytes
/// (detection itself never fails), with that refusal; the page count is the
/// loader's. The classification also depends on the environment (a CMap
/// directory named by an environment variable), so only what holds of every
/// detection is claimed: the document has at least one page; the OCR pages
/// are sorted, deduplicated and within the page count (both come from the
/// same page tree), and all pages for a scanned or image-based type; there
/// is one non-empty list of known reason codes per OCR page (a `BTreeMap`
/// keyed by exactly those pages, walked in key order); every type but
/// text-based comes with an OCR recommendation, and a text-based one only
/// through the newspaper-layout check, which needs at least three sampled
/// pages; a text-based document flags only pages whose fonts cannot be
/// decoded, each with the reason `suspected_garbled_text`; and the
/// confidence lies from 0.0 to 1.0. The type is converted by its position
/// in pdf-inspector's declaration (`TextBased`, `Scanned`, `ImageBased`,
/// `Mixed`). What the
/// heuristics decide, and freedom from panics inside the crate, are not
/// stated.
#[verifier::external_body]
pub(crate) fn detect_pdf_type_mem(bytes: &[u8]) -> (res: Result<Detection, InspectorError>)
    ensures
        res is Ok <==> pdf_load_refusal(bytes@) is None,
        res matches Err(e) ==> pdf_load_refusal(bytes@) == Some(e@),
        res matches Ok(d) ==> d.page_count == pdf_loaded_page_count(bytes@) && d@.wf(),
{
    match pdf_inspector::detect_pdf_type_mem(bytes) {
        Ok(r) => Ok(Detection {
            ocr_recommended: r.ocr_recommended,
            pdf_type: [PdfType::TextBased, PdfType::Scanned, PdfType::ImageBased, PdfType::Mixed][r.pdf_type as usize],
            page_count: r.page_count,
            pages_needing_ocr: r.pages_needing_ocr,
            ocr_reasons_by_page: r.ocr_reasons_by_page.into_iter().collect(),
            confidence_bits: r.confidence.to_bits(),
        }),
        Err(PdfError::Io(e)) => Err(InspectorError::Io(e)),
        Err(PdfError::Parse(d)) => Err(InspectorError::Parse(d)),
        Err(PdfError::Encrypted) => Err(InspectorError::Encrypted),
        Err(PdfError::InvalidStructure) => Err(InspectorError::InvalidStructure),
        Err(PdfError::NotAPdf(d)) => Err(InspectorError::NotAPdf(d)),
    }
}

/// Calls `pdf_inspector::process_pdf_mem`, which classifies a PDF held in
/// memory and extracts its text as Markdown. Claimed, as the crate's source
/// shows: a buffer its header check or loader refuses is refused with that
/// refusal, and a successful extraction reports the loader's page count.
/// Extraction can also fail after loading, and its output depends on the
/// environment, so nothing more is claimed.
#[verifier::external_body]
pub(crate) fn process_pdf_mem(bytes: &[u8]) -> (res: Result<Extraction, InspectorError>)
    ensures
        pdf_load_refusal(bytes@) is Some ==> res is Err && pdf_load_refusal(bytes@) == Some(
            res->Err_0@,
        ),
        res matches Ok(x) ==> x.page_count == pdf_loaded_page_count(bytes@),
{
    match pdf_inspector::process_pdf_mem(bytes) {
        Ok(r) => Ok(Extraction {
            markdown: r.markdown,
            pdf_type: [PdfType::TextBased, PdfType::Scanned, PdfType::ImageBased, PdfType::Mixed][r.pdf_type as usize],
            page_count: r.page_count,
            pages_needing_ocr: r.pages_needing_ocr,
            has_encoding_issues: r.has_encoding_issues,
        }),
        Err(PdfError::Io(e)) => Err(InspectorError::Io(e)),
        Err(PdfError::Parse(d)) => Err(InspectorError::Parse(d)),
        Err(PdfError::Encrypted) => Err(InspectorError::Encrypted),
        Err(PdfError::InvalidStructure) => Err(InspectorError::InvalidStructure),
        Err(PdfError::NotAPdf(d)) => Err(InspectorError::NotAPdf(d)),
    }
}

} // verus!
