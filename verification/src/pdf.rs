//! PDF via pdf-inspector: classification plus direct Markdown extraction.
//!
//! pdf-inspector emits Markdown itself. Scanned and image-only PDFs need
//! OCR, which is out of scope here; they error as unsupported. Pages flagged
//! for OCR in an otherwise text-based document degrade with a warning, which
//! the conversion returns beside its result.
use vstd::prelude::*;

use crate::error::{ConvertError, ConvertErrorView};
use crate::inspector::{
    all_pages, detect_pdf_type_mem, pages_within, pdf_load_refusal, pdf_loaded_page_count,
    process_pdf_mem, reasons_explain, strictly_increasing, strings_view, unit_interval_bits,
    Detection, DetectionView, Extraction, ExtractionView, InspectorError, InspectorErrorView,
};
use crate::signature::{has_pdf_signature, spec_has_pdf_signature};
use crate::text::{decimal, ends_with_newline, is_blank, is_blank_text, push_decimal};

verus! {

/// How pdf-inspector classified the whole document before extraction.
#[derive(Debug, Clone, Copy, PartialEq, Eq, Structural)]
pub enum PdfType {
    /// Most sampled pages have extractable text; direct extraction works.
    TextBased,
    /// Images only, no text operators: a classic scan. Whole document needs OCR.
    Scanned,
    /// Mostly images with minimal or no text.
    ImageBased,
    /// A mix of text pages and image/scan pages; OCR is needed per page.
    Mixed,
}

/// The name of each type as pdf-inspector's `Debug` writes it.
pub open spec fn spec_debug_name(t: PdfType) -> Seq<char> {
    match t {
        PdfType::TextBased => "TextBased"@,
        PdfType::Scanned => "Scanned"@,
        PdfType::ImageBased => "ImageBased"@,
        PdfType::Mixed => "Mixed"@,
    }
}

impl PdfType {
    /// The variant's name, as pdf-inspector's `Debug` writes it.
    pub fn debug_name(&self) -> (name: &'static str)
        ensures
            name@ == spec_debug_name(*self),
    {
        match self {
            PdfType::TextBased => "TextBased",
            PdfType::Scanned => "Scanned",
            PdfType::ImageBased => "ImageBased",
            PdfType::Mixed => "Mixed",
        }
    }
}

/// One page that needs OCR, and why. The page number is 1-indexed, matching
/// the page count in errors and `PdfInspection::pages_needing_ocr`.
#[derive(Debug, Clone, PartialEq, Eq)]
pub struct PdfOcrPage {
    /// 1-indexed page number.
    pub page: u32,
    /// Machine-readable reason codes: `scanned`, `no_text`, `vector_text`,
    /// `invisible_text_layer` or `suspected_garbled_text`.
    pub reasons: Vec<String>,
}

impl View for PdfOcrPage {
    type V = (u32, Seq<Seq<char>>);

    open spec fn view(&self) -> (u32, Seq<Seq<char>>) {
        (self.page, strings_view(self.reasons@))
    }
}

/// Detection-only result for a PDF: whether OCR is recommended, which pages
/// need it, why, and how confident the classification is. Produced without
/// text extraction, so it is cheap enough to call before deciding how to
/// process a document.
#[derive(Debug, Clone, PartialEq)]
#[non_exhaustive]
pub struct PdfInspection {
    /// The routing signal: `true` when pdf-inspector recommends OCR. This is
    /// broader than `pages_needing_ocr`: whole-document heuristics
    /// (newspaper layouts, template images) can recommend OCR even when no
    /// individual page is flagged.
    pub needs_ocr: bool,
    /// The document-level classification.
    pub pdf_type: PdfType,
    /// Total number of pages in the document.
    pub page_count: u32,
    /// 1-indexed pages that need OCR: empty for text-based documents, every
    /// page for scanned/image-only ones, and a subset for mixed documents.
    pub pages_needing_ocr: Vec<u32>,
    /// Per-page reasons for every page in `pages_needing_ocr`.
    pub ocr_reasons: Vec<PdfOcrPage>,
    /// Detection confidence, 0.0 to 1.0, as the bits of an IEEE-754 `f32`
    /// (`f32::from_bits` gives the number).
    pub confidence_bits: u32,
}

pub struct PdfInspectionView {
    pub needs_ocr: bool,
    pub pdf_type: PdfType,
    pub page_count: u32,
    pub pages_needing_ocr: Seq<u32>,
    pub ocr_reasons: Seq<(u32, Seq<Seq<char>>)>,
    pub confidence_bits: u32,
}

impl View for PdfInspection {
    type V = PdfInspectionView;

    open spec fn view(&self) -> PdfInspectionView {
        PdfInspectionView {
            needs_ocr: self.needs_ocr,
            pdf_type: self.pdf_type,
            page_count: self.page_count,
            pages_needing_ocr: self.pages_needing_ocr@,
            ocr_reasons: self.ocr_reasons@.map_values(|p: PdfOcrPage| p@),
            confidence_bits: self.confidence_bits,
        }
    }
}

impl PdfInspectionView {
    /// The document has at least one page; the OCR pages are sorted,
    /// distinct and within the page count, none for a text-based document
    /// and all pages of a scanned or image-based one; OCR is recommended
    /// whenever a page is flagged, for a text-based document only when it
    /// has at least three pages,
    /// and for every type but text-based; the per-page reasons name exactly
    /// the OCR pages, in that order, each with at least one known reason
    /// code; the confidence lies in 0.0 to 1.0.
    pub open spec fn wf(self) -> bool {
        &&& self.page_count >= 1
        &&& (self.pdf_type is Scanned || self.pdf_type is ImageBased) ==> self.pages_needing_ocr
            == all_pages(self.page_count)
        &&& self.pdf_type is TextBased ==> self.pages_needing_ocr.len() == 0
        &&& self.pdf_type is TextBased && self.needs_ocr ==> self.page_count >= 3
        &&& self.pages_needing_ocr.len() > 0 ==> self.needs_ocr
        &&& !(self.pdf_type is TextBased) ==> self.needs_ocr
        &&& strictly_increasing(self.pages_needing_ocr)
        &&& pages_within(self.pages_needing_ocr, self.page_count)
        &&& reasons_explain(self.ocr_reasons, self.pages_needing_ocr)
        &&& unit_interval_bits(self.confidence_bits)
    }
}

/// The inspection a detection describes, field for field, except that a
/// text-based document lists no OCR pages and no reasons.
pub open spec fn inspection_of(d: DetectionView) -> PdfInspectionView {
    let text_based = d.pdf_type is TextBased;
    PdfInspectionView {
        needs_ocr: d.ocr_recommended,
        pdf_type: d.pdf_type,
        page_count: d.page_count,
        pages_needing_ocr: if text_based { Seq::empty() } else { d.pages_needing_ocr },
        ocr_reasons: if text_based { Seq::empty() } else { d.ocr_reasons_by_page },
        confidence_bits: d.confidence_bits,
    }
}

/// The error a refusal of pdf-inspector becomes.
pub open spec fn spec_map_error(e: InspectorErrorView) -> ConvertErrorView {
    match e {
        InspectorErrorView::Encrypted => ConvertErrorView::Encrypted,
        InspectorErrorView::Io => ConvertErrorView::Io,
        InspectorErrorView::NotAPdf(detail) => ConvertErrorView::Malformed("not a PDF: "@ + detail),
        InspectorErrorView::InvalidStructure => ConvertErrorView::Malformed(
            "invalid PDF structure"@,
        ),
        InspectorErrorView::Parse(detail) => ConvertErrorView::Malformed(detail),
    }
}

/// Maps a refusal of pdf-inspector to this library's error; an I/O error is
/// passed on as it is.
pub fn map_error(e: InspectorError) -> (r: ConvertError)
    ensures
        r@ == spec_map_error(e@),
        e matches InspectorError::Io(x) ==> r == ConvertError::Io(x),
{
    match e {
        InspectorError::Encrypted => ConvertError::Encrypted,
        InspectorError::Io(e) => ConvertError::Io(e),
        InspectorError::NotAPdf(detail) => {
            let mut message = String::from_str("not a PDF: ");
            message.append(detail.as_str());
            ConvertError::malformed(message)
        },
        InspectorError::InvalidStructure => ConvertError::malformed(
            String::from_str("invalid PDF structure"),
        ),
        InspectorError::Parse(detail) => ConvertError::malformed(detail),
    }
}

impl PdfInspection {
    /// The inspection a detection describes: its OCR recommendation, type,
    /// page count, OCR pages, per-page reasons and confidence; a text-based
    /// document lists no OCR pages and no reasons.
    pub fn from_detection(d: Detection) -> (r: PdfInspection)
        ensures
            r@ == inspection_of(d@),
            r.pdf_type == d.pdf_type,
            r.needs_ocr == d.ocr_recommended,
            r.page_count == d.page_count,
            r.confidence_bits == d.confidence_bits,
            d.pdf_type is TextBased ==> r.pages_needing_ocr@.len() == 0 && r.ocr_reasons@.len() == 0,
            !(d.pdf_type is TextBased) ==> r.pages_needing_ocr@ == d.pages_needing_ocr@ && r.ocr_reasons@.len()
                == d.ocr_reasons_by_page@.len() && forall|i: int|
                0 <= i < r.ocr_reasons@.len() ==> (#[trigger] r.ocr_reasons@[i]).page
                    == d.ocr_reasons_by_page@[i].0 && r.ocr_reasons@[i].reasons@ == d.ocr_reasons_by_page@[i].1@,
    {
        let ghost dv = d@;
        let ghost entries = d.ocr_reasons_by_page@;
        let Detection {
            ocr_recommended,
            pdf_type,
            page_count,
            pages_needing_ocr,
            ocr_reasons_by_page,
            confidence_bits,
        } = d;
        let mut ocr_reasons: Vec<PdfOcrPage> = Vec::new();
        for entry in it: ocr_reasons_by_page
            invariant
                ocr_reasons@.len() == it.index(),
                it.seq() == ocr_reasons_by_page@,
                forall|j: int|
                    0 <= j < it.index() ==> (#[trigger] ocr_reasons@[j])@ == (
                        it.seq()[j].0,
                        strings_view(it.seq()[j].1@),
                    ) && ocr_reasons@[j].page == it.seq()[j].0 && ocr_reasons@[j].reasons
                        == it.seq()[j].1,
        {
            let (page, reasons) = entry;
            ocr_reasons.push(PdfOcrPage { page, reasons });
        }
        assert(ocr_reasons@.map_values(|p: PdfOcrPage| p@) =~= dv.ocr_reasons_by_page);
        assert(forall|i: int|
            0 <= i < ocr_reasons@.len() ==> (#[trigger] ocr_reasons@[i]).page == entries[i].0
                && ocr_reasons@[i].reasons@ == entries[i].1@);
        let text_based = match pdf_type {
            PdfType::TextBased => true,
            _ => false,
        };
        let (pages_needing_ocr, ocr_reasons) = if text_based {
            (Vec::new(), Vec::new())
        } else {
            (pages_needing_ocr, ocr_reasons)
        };
        let r = PdfInspection {
            needs_ocr: ocr_recommended,
            pdf_type,
            page_count,
            pages_needing_ocr,
            ocr_reasons,
            confidence_bits,
        };
        assert(r@.ocr_reasons =~= inspection_of(dv).ocr_reasons);
        assert(r@.pages_needing_ocr =~= inspection_of(dv).pages_needing_ocr);
        r
    }
}

/// An inspection described by a well-formed detection is well formed: every
/// page marked for OCR lies in the document and carries its reasons, in page
/// order, and no other page does; the confidence lies in 0.0 to 1.0.
pub proof fn lemma_detection_explains_ocr_pages(d: DetectionView)
    requires
        d.wf(),
    ensures
        inspection_of(d).wf(),
{
    if d.pdf_type is TextBased {
        assert(crate::inspector::reason_pages(Seq::empty()) =~= Seq::<u32>::empty());
    }
}

pub open spec fn inspection_result_view(r: Result<Option<PdfInspection>, ConvertError>) -> Result<
    Option<PdfInspectionView>,
    ConvertErrorView,
> {
    match r {
        Ok(Some(i)) => Ok(Some(i@)),
        Ok(None) => Ok(None),
        Err(e) => Err(e@),
    }
}

pub open spec fn detection_outcome_view(o: Result<Detection, InspectorError>) -> Result<
    DetectionView,
    InspectorErrorView,
> {
    match o {
        Ok(d) => Ok(d@),
        Err(e) => Err(e@),
    }
}

/// A detection outcome pdf-inspector can return for `bytes`: the refusal
/// of its loader when it refuses them, otherwise a well-formed detection
/// with the loader's page count.
pub open spec fn detection_outcome_fits(o: Result<DetectionView, InspectorErrorView>, bytes: Seq<u8>) -> bool {
    match o {
        Ok(d) => d.wf() && pdf_load_refusal(bytes) is None && d.page_count == pdf_loaded_page_count(
            bytes,
        ),
        Err(e) => pdf_load_refusal(bytes) == Some(e),
    }
}

/// What inspecting a PDF returns for what pdf-inspector's detection gave.
pub open spec fn spec_inspection_of_outcome(o: Result<DetectionView, InspectorErrorView>) -> Result<
    Option<PdfInspectionView>,
    ConvertErrorView,
> {
    match o {
        Ok(d) => Ok(Some(inspection_of(d))),
        Err(e) => Err(spec_map_error(e)),
    }
}

/// The inspection of a PDF from pdf-inspector's detection: the inspection
/// the detection describes, or its refusal as this library's error (an I/O
/// error passed on as it is).
pub fn inspection_from_outcome(o: Result<Detection, InspectorError>) -> (r: Result<
    Option<PdfInspection>,
    ConvertError,
>)
    ensures
        inspection_result_view(r) == spec_inspection_of_outcome(detection_outcome_view(o)),
        o matches Err(InspectorError::Io(x)) ==> r matches Err(ConvertError::Io(y)) && y == x,
        o matches Ok(d) ==> (r matches Ok(Some(i)) && i.pdf_type == d.pdf_type && i.needs_ocr
            == d.ocr_recommended && i.page_count == d.page_count),
{
    match o {
        Ok(d) => Ok(Some(PdfInspection::from_detection(d))),
        Err(e) => Err(map_error(e)),
    }
}

/// Inspect an in-memory PDF without extracting text: returns `None` when the
/// bytes are not a PDF, the inspection when they are, and a typed error when
/// they are a PDF that cannot be parsed (malformed or encrypted). The bytes
/// are handed to pdf-inspector unchanged; what it returns also depends on
/// the environment, so the result is that of some outcome it can give.
pub fn inspect_pdf_bytes(bytes: &[u8]) -> (r: Result<Option<PdfInspection>, ConvertError>)
    ensures
        r matches Ok(None) <==> !spec_has_pdf_signature(bytes@),
        spec_has_pdf_signature(bytes@) ==> exists|o: Result<DetectionView, InspectorErrorView>|
            detection_outcome_fits(o, bytes@) && #[trigger] spec_inspection_of_outcome(o)
                == inspection_result_view(r),
        spec_has_pdf_signature(bytes@) && pdf_load_refusal(bytes@) is Some ==> (r matches Err(e)
            && e@ == spec_map_error(pdf_load_refusal(bytes@)->0)),
        spec_has_pdf_signature(bytes@) && pdf_load_refusal(bytes@) is None ==> (r matches Ok(Some(i))
            && i.page_count == pdf_loaded_page_count(bytes@)),
        r matches Ok(Some(i)) ==> i@.wf(),
{
    if !has_pdf_signature(bytes) {
        return Ok(None);
    }
    let outcome = detect_pdf_type_mem(bytes);
    let ghost ov = detection_outcome_view(outcome);
    proof {
        if ov is Ok {
            lemma_detection_explains_ocr_pages(ov->Ok_0);
        }
    }
    let r = inspection_from_outcome(outcome);
    assert(detection_outcome_fits(ov, bytes@) && spec_inspection_of_outcome(ov)
        == inspection_result_view(r));
    r
}

/// A PDF that pdf-inspector refuses is reported as unreadable, encrypted or
/// malformed, never as unsupported: that kind is kept for PDFs that parse
/// but have no text to extract.
pub proof fn lemma_refusals_are_never_unsupported(e: InspectorErrorView)
    ensures
        !(spec_map_error(e) is Unsupported),
        e is Encrypted <==> spec_map_error(e) is Encrypted,
        e is Io <==> spec_map_error(e) is Io,
{
}

/// The Markdown a document's extracted text is returned as: unchanged when
/// it already ends with a line feed, with one appended otherwise.
pub open spec fn finished_markdown(m: Seq<char>) -> Seq<char> {
    if m.len() > 0 && m.last() == '\n' {
        m
    } else {
        m.push('\n')
    }
}

/// The message of the error for a PDF without extractable text.
pub open spec fn no_text_message(t: PdfType, page_count: u32) -> Seq<char> {
    "PDF has no extractable text ("@ + spec_debug_name(t) + ", "@ + decimal(page_count as nat)
        + " pages): OCR is required"@
}

/// What the conversion to Markdown returns for an extraction: its Markdown,
/// finished with a line feed, when there is some that is not all
/// whitespace; an unsupported-document error naming the type and page count
/// otherwise.
pub open spec fn spec_markdown_result(x: ExtractionView) -> Result<Seq<char>, ConvertErrorView> {
    if x.markdown is Some && !is_blank(x.markdown->0) {
        Ok(finished_markdown(x.markdown->0))
    } else {
        Err(ConvertErrorView::Unsupported(no_text_message(x.pdf_type, x.page_count)))
    }
}

/// The warnings an extraction is logged with: how many pages needed OCR and
/// were left out, when any were, then whether font encodings were broken.
pub open spec fn spec_warnings(x: ExtractionView) -> Seq<Seq<char>> {
    let ocr: Seq<Seq<char>> = if x.pages_needing_ocr.len() > 0 {
        seq![
            decimal(x.pages_needing_ocr.len()) + " of "@ + decimal(x.page_count as nat)
                + " pages need OCR and were not extracted"@,
        ]
    } else {
        seq![]
    };
    let encoding: Seq<Seq<char>> = if x.has_encoding_issues {
        seq!["broken font encodings detected; extracted text may be garbled"@]
    } else {
        seq![]
    };
    ocr + encoding
}

pub open spec fn string_result_view(r: Result<String, ConvertError>) -> Result<
    Seq<char>,
    ConvertErrorView,
> {
    match r {
        Ok(s) => Ok(s@),
        Err(e) => Err(e@),
    }
}

fn no_text_error(t: PdfType, page_count: u32) -> (e: ConvertError)
    ensures
        e@ == ConvertErrorView::Unsupported(no_text_message(t, page_count)),
{
    let mut message = String::from_str("PDF has no extractable text (");
    message.append(t.debug_name());
    message.append(", ");
    push_decimal(&mut message, page_count as u64);
    message.append(" pages): OCR is required");
    ConvertError::Unsupported(message)
}

/// The Markdown of an extraction, finished with a line feed, or the
/// unsupported-document error when it has no text that is not whitespace.
pub fn finish_markdown(x: Extraction) -> (r: Result<String, ConvertError>)
    ensures
        string_result_view(r) == spec_markdown_result(x@),
{
    let ghost xv = x@;
    let Extraction { markdown, pdf_type, page_count, .. } = x;
    match markdown {
        Some(mut markdown) => {
            let ghost m = markdown@;
            if !is_blank_text(markdown.as_str()) {
                if !ends_with_newline(markdown.as_str()) {
                    markdown.append("\n");
                    proof {
                        reveal_strlit("\n");
                        assert(markdown@ =~= m.push('\n'));
                    }
                }
                assert(markdown@ == finished_markdown(m));
                return Ok(markdown);
            }
        },
        None => {},
    }
    Err(no_text_error(pdf_type, page_count))
}

/// The warnings to log for an extraction, in order.
pub fn extraction_warnings(x: &Extraction) -> (w: Vec<String>)
    ensures
        strings_view(w@) == spec_warnings(x@),
{
    let mut w: Vec<String> = Vec::new();
    let n = x.pages_needing_ocr.len();
    if n > 0 {
        let mut message = String::new();
        push_decimal(&mut message, n as u64);
        message.append(" of ");
        push_decimal(&mut message, x.page_count as u64);
        message.append(" pages need OCR and were not extracted");
        w.push(message);
    }
    if x.has_encoding_issues {
        w.push(String::from_str("broken font encodings detected; extracted text may be garbled"));
    }
    assert(strings_view(w@) =~= spec_warnings(x@));
    w
}

/// The outcome of converting a PDF to Markdown: the Markdown or the error,
/// and the warnings to log.
pub struct MarkdownConversion {
    pub markdown: Result<String, ConvertError>,
    pub warnings: Vec<String>,
}

pub open spec fn conversion_view(c: MarkdownConversion) -> (Result<Seq<char>, ConvertErrorView>, Seq<Seq<char>>) {
    (string_result_view(c.markdown), strings_view(c.warnings@))
}

/// What the conversion returns for a successful extraction.
pub open spec fn conversion_of(x: ExtractionView) -> (Result<Seq<char>, ConvertErrorView>, Seq<Seq<char>>) {
    (spec_markdown_result(x), spec_warnings(x))
}

pub open spec fn extraction_outcome_view(o: Result<Extraction, InspectorError>) -> Result<
    ExtractionView,
    InspectorErrorView,
> {
    match o {
        Ok(x) => Ok(x@),
        Err(e) => Err(e@),
    }
}

/// An extraction outcome pdf-inspector can return for `bytes`: the refusal
/// of its loader when it refuses them; any refusal or extraction otherwise,
/// an extraction with the loader's page count.
pub open spec fn extraction_outcome_fits(o: Result<ExtractionView, InspectorErrorView>, bytes: Seq<u8>) -> bool {
    &&& pdf_load_refusal(bytes) is Some ==> o == Err::<ExtractionView, InspectorErrorView>(
        pdf_load_refusal(bytes)->0,
    )
    &&& o matches Ok(x) ==> x.page_count == pdf_loaded_page_count(bytes)
}

/// What converting a PDF to Markdown returns for what pdf-inspector's
/// extraction gave: for an extraction, its Markdown or the no-text error and
/// its warnings; for a refusal, the refusal as this library's error and no
/// warnings.
pub open spec fn spec_conversion_of_outcome(o: Result<ExtractionView, InspectorErrorView>) -> (
    Result<Seq<char>, ConvertErrorView>,
    Seq<Seq<char>>,
) {
    match o {
        Ok(x) => conversion_of(x),
        Err(e) => (Err(spec_map_error(e)), Seq::empty()),
    }
}

/// The conversion of a PDF from pdf-inspector's extraction: its finished
/// Markdown or the no-text error with the warnings to log, or the refusal as
/// this library's error (an I/O error passed on as it is) with none.
pub fn markdown_from_outcome(o: Result<Extraction, InspectorError>) -> (r: MarkdownConversion)
    ensures
        conversion_view(r) == spec_conversion_of_outcome(extraction_outcome_view(o)),
        o matches Err(InspectorError::Io(x)) ==> r.markdown matches Err(ConvertError::Io(y)) && y
            == x,
{
    match o {
        Ok(x) => {
            let warnings = extraction_warnings(&x);
            let markdown = finish_markdown(x);
            MarkdownConversion { markdown, warnings }
        },
        Err(e) => {
            let r = MarkdownConversion { markdown: Err(map_error(e)), warnings: Vec::new() };
            assert(strings_view(r.warnings@) =~= Seq::<Seq<char>>::empty());
            r
        },
    }
}

/// Converts the PDF `bytes` to Markdown with pdf-inspector. Scanned and
/// image-only PDFs, which have no extractable text, are unsupported. The
/// warnings describe what the extraction left out; a refused document has
/// none. The bytes are handed to pdf-inspector unchanged; what it returns
/// also depends on the environment, so the result is that of some outcome it
/// can give.
pub fn to_markdown(bytes: &[u8]) -> (r: MarkdownConversion)
    ensures
        exists|o: Result<ExtractionView, InspectorErrorView>|
            extraction_outcome_fits(o, bytes@) && #[trigger] spec_conversion_of_outcome(o)
                == conversion_view(r),
        pdf_load_refusal(bytes@) is Some ==> (r.markdown matches Err(e) && e@ == spec_map_error(
            pdf_load_refusal(bytes@)->0,
        ) && r.warnings@.len() == 0),
        r.markdown matches Ok(s) ==> s@.len() > 0 && s@.last() == '\n' && !is_blank(s@),
{
    let outcome = process_pdf_mem(bytes);
    let ghost ov = extraction_outcome_view(outcome);
    let r = markdown_from_outcome(outcome);
    proof {
        if ov is Ok && spec_markdown_result(ov->Ok_0) is Ok {
            lemma_markdown_result_is_finished(ov->Ok_0);
        }
    }
    assert(extraction_outcome_fits(ov, bytes@) && spec_conversion_of_outcome(ov) == conversion_view(r));
    assert(strings_view(r.warnings@).len() == r.warnings@.len());
    r
}

/// Markdown returned by the conversion ends with a line feed and holds text
/// that is not whitespace; converting that Markdown again returns it
/// unchanged.
pub proof fn lemma_markdown_result_is_finished(x: ExtractionView)
    requires
        spec_markdown_result(x) is Ok,
    ensures
        ({
            let out = spec_markdown_result(x)->Ok_0;
            &&& out.len() > 0 && out.last() == '\n'
            &&& !is_blank(out)
            &&& spec_markdown_result(ExtractionView { markdown: Some(out), ..x }) == Ok::<
                Seq<char>,
                ConvertErrorView,
            >(out)
        }),
{
    let m = x.markdown->0;
    let out = finished_markdown(m);
    let k = choose|i: int| 0 <= i < m.len() && !crate::text::spec_is_whitespace(m[i]);
    assert(out[k] == m[k]);
}

/// An inspection reports the detected type, page count and confidence as
/// detected, needs OCR exactly when pdf-inspector recommends it, and, for
/// every type but text-based, the detected OCR pages and their reasons.
pub proof fn lemma_inspection_reports_the_detection(d: DetectionView)
    ensures
        inspection_of(d).pdf_type == d.pdf_type,
        inspection_of(d).needs_ocr == d.ocr_recommended,
        inspection_of(d).page_count == d.page_count,
        inspection_of(d).confidence_bits == d.confidence_bits,
        !(d.pdf_type is TextBased) ==> inspection_of(d).pages_needing_ocr == d.pages_needing_ocr
            && inspection_of(d).ocr_reasons == d.ocr_reasons_by_page,
{
}

/// Extracted Markdown that is not all whitespace is returned, ending in a
/// line feed, whatever pages the extraction flagged for OCR and whether
/// fonts were broken: those only add warnings. An extraction without such
/// Markdown is unsupported, again whatever it flagged.
pub proof fn lemma_flagged_pages_keep_the_markdown(x: ExtractionView, pages: Seq<u32>, broken: bool)
    ensures
        ({
            let y = ExtractionView { pages_needing_ocr: pages, has_encoding_issues: broken, ..x };
            spec_conversion_of_outcome(Ok(x)).0 == spec_conversion_of_outcome(Ok(y)).0
        }),
        x.markdown is Some && !is_blank(x.markdown->0) ==> ({
            let m = x.markdown->0;
            let out = spec_conversion_of_outcome(Ok(x)).0;
            &&& out is Ok
            &&& (m.len() > 0 && m.last() == '\n' ==> out->Ok_0 == m)
            &&& (!(m.len() > 0 && m.last() == '\n') ==> out->Ok_0 == m.push('\n'))
        }),
        !(x.markdown is Some && !is_blank(x.markdown->0)) ==> spec_conversion_of_outcome(Ok(x)).0 is Err,
{
}

} // verus!
