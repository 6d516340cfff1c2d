//! The value types of the Node.js bindings and their conversions to and
//! from the library's own.
use vstd::prelude::*;

use crate::format::Format as DocumentFormat;
use crate::pdf::PdfType as InspectedPdfType;

verus! {

/// Input format, named after the extension that identifies it. Container
/// variants that share a parser (`.docm`, `.xlsm`, `.ppsx`, ...) map onto
/// these.
#[derive(Debug, Clone, Copy, PartialEq, Eq, Structural)]
#[allow(non_camel_case_types)]
pub enum Format {
    doc,
    docx,
    odt,
    /// Converted with pdf-inspector, which emits Markdown directly. Scanned
    /// or image-only PDFs (needing OCR) error as unsupported.
    pdf,
    ppt,
    pptx,
    rtf,
    epub,
    xlsx,
    ods,
    odp,
    csv,
}

/// The library format a binding format names.
pub open spec fn spec_document_format(f: Format) -> DocumentFormat {
    match f {
        Format::doc => DocumentFormat::Doc,
        Format::docx => DocumentFormat::Docx,
        Format::odt => DocumentFormat::Odt,
        Format::pdf => DocumentFormat::Pdf,
        Format::ppt => DocumentFormat::Ppt,
        Format::pptx => DocumentFormat::Pptx,
        Format::rtf => DocumentFormat::Rtf,
        Format::epub => DocumentFormat::Epub,
        Format::xlsx => DocumentFormat::Excel,
        Format::ods => DocumentFormat::Ods,
        Format::odp => DocumentFormat::Odp,
        Format::csv => DocumentFormat::Csv,
    }
}

/// The binding format that names a library format.
pub open spec fn spec_binding_format(f: DocumentFormat) -> Format {
    match f {
        DocumentFormat::Doc => Format::doc,
        DocumentFormat::Docx => Format::docx,
        DocumentFormat::Odt => Format::odt,
        DocumentFormat::Pdf => Format::pdf,
        DocumentFormat::Ppt => Format::ppt,
        DocumentFormat::Pptx => Format::pptx,
        DocumentFormat::Rtf => Format::rtf,
        DocumentFormat::Epub => Format::epub,
        DocumentFormat::Excel => Format::xlsx,
        DocumentFormat::Ods => Format::ods,
        DocumentFormat::Odp => Format::odp,
        DocumentFormat::Csv => Format::csv,
    }
}

impl From<Format> for DocumentFormat {
    fn from(format: Format) -> (r: DocumentFormat) {
        match format {
            Format::doc => DocumentFormat::Doc,
            Format::docx => DocumentFormat::Docx,
            Format::odt => DocumentFormat::Odt,
            Format::pdf => DocumentFormat::Pdf,
            Format::ppt => DocumentFormat::Ppt,
            Format::pptx => DocumentFormat::Pptx,
            Format::rtf => DocumentFormat::Rtf,
            Format::epub => DocumentFormat::Epub,
            Format::xlsx => DocumentFormat::Excel,
            Format::ods => DocumentFormat::Ods,
            Format::odp => DocumentFormat::Odp,
            Format::csv => DocumentFormat::Csv,
        }
    }
}

impl vstd::std_specs::convert::FromSpecImpl<Format> for DocumentFormat {
    open spec fn obeys_from_spec() -> bool {
        true
    }

    open spec fn from_spec(format: Format) -> DocumentFormat {
        spec_document_format(format)
    }
}

impl From<DocumentFormat> for Format {
    fn from(format: DocumentFormat) -> (r: Format) {
        match format {
            DocumentFormat::Doc => Format::doc,
            DocumentFormat::Docx => Format::docx,
            DocumentFormat::Odt => Format::odt,
            DocumentFormat::Pdf => Format::pdf,
            DocumentFormat::Ppt => Format::ppt,
            DocumentFormat::Pptx => Format::pptx,
            DocumentFormat::Rtf => Format::rtf,
            DocumentFormat::Epub => Format::epub,
            DocumentFormat::Excel => Format::xlsx,
            DocumentFormat::Ods => Format::ods,
            DocumentFormat::Odp => Format::odp,
            DocumentFormat::Csv => Format::csv,
        }
    }
}

impl vstd::std_specs::convert::FromSpecImpl<DocumentFormat> for Format {
    open spec fn obeys_from_spec() -> bool {
        true
    }

    open spec fn from_spec(format: DocumentFormat) -> Format {
        spec_binding_format(format)
    }
}

/// Naming a format in the bindings and reading it back in the library, or
/// the other way round, gives the format one started with: the two sets of
/// names are in one-to-one correspondence.
pub proof fn lemma_format_names_round_trip(f: Format, g: DocumentFormat)
    ensures
        spec_binding_format(spec_document_format(f)) == f,
        spec_document_format(spec_binding_format(g)) == g,
{
}

/// How pdf-inspector classified the document before extraction.
#[derive(Debug, Clone, Copy, PartialEq, Eq, Structural)]
#[allow(non_camel_case_types)]
pub enum PdfType {
    textBased,
    scanned,
    imageBased,
    mixed,
}

/// The binding name of an inspected PDF type.
pub open spec fn spec_binding_pdf_type(t: InspectedPdfType) -> PdfType {
    match t {
        InspectedPdfType::TextBased => PdfType::textBased,
        InspectedPdfType::Scanned => PdfType::scanned,
        InspectedPdfType::ImageBased => PdfType::imageBased,
        InspectedPdfType::Mixed => PdfType::mixed,
    }
}

impl From<InspectedPdfType> for PdfType {
    fn from(pdf_type: InspectedPdfType) -> (r: PdfType) {
        match pdf_type {
            InspectedPdfType::TextBased => PdfType::textBased,
            InspectedPdfType::Scanned => PdfType::scanned,
            InspectedPdfType::ImageBased => PdfType::imageBased,
            InspectedPdfType::Mixed => PdfType::mixed,
        }
    }
}

impl vstd::std_specs::convert::FromSpecImpl<InspectedPdfType> for PdfType {
    open spec fn obeys_from_spec() -> bool {
        true
    }

    open spec fn from_spec(pdf_type: InspectedPdfType) -> PdfType {
        spec_binding_pdf_type(pdf_type)
    }
}

/// Distinct classifications keep distinct binding names, and every binding
/// name stands for one of them.
pub proof fn lemma_binding_pdf_type_bijective(a: InspectedPdfType, b: InspectedPdfType, n: PdfType)
    ensures
        spec_binding_pdf_type(a) == spec_binding_pdf_type(b) ==> a == b,
        exists|t: InspectedPdfType| spec_binding_pdf_type(t) == n,
{
    match n {
        PdfType::textBased => assert(spec_binding_pdf_type(InspectedPdfType::TextBased) == n),
        PdfType::scanned => assert(spec_binding_pdf_type(InspectedPdfType::Scanned) == n),
        PdfType::imageBased => assert(spec_binding_pdf_type(InspectedPdfType::ImageBased) == n),
        PdfType::mixed => assert(spec_binding_pdf_type(InspectedPdfType::Mixed) == n),
    }
}

} // verus!
