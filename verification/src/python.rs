//! The PDF pre-check vocabulary of the Python bindings.
use vstd::prelude::*;

use crate::pdf::PdfType;

verus! {

/// The camelCase name under which the Python bindings surface a PDF type,
/// the same vocabulary the Node bindings use.
pub open spec fn spec_pdf_type_name(t: PdfType) -> Seq<char> {
    match t {
        PdfType::TextBased => "textBased"@,
        PdfType::Scanned => "scanned"@,
        PdfType::ImageBased => "imageBased"@,
        PdfType::Mixed => "mixed"@,
    }
}

/// The camelCase name of a PDF type: `textBased`, `scanned`, `imageBased`
/// or `mixed`.
pub fn pdf_type_name(pdf_type: PdfType) -> (name: &'static str)
    ensures
        name@ == spec_pdf_type_name(pdf_type),
{
    match pdf_type {
        PdfType::TextBased => "textBased",
        PdfType::Scanned => "scanned",
        PdfType::ImageBased => "imageBased",
        PdfType::Mixed => "mixed",
    }
}

/// Distinct PDF types have distinct names, so the name identifies the type.
pub proof fn lemma_pdf_type_names_distinct(a: PdfType, b: PdfType)
    requires
        spec_pdf_type_name(a) == spec_pdf_type_name(b),
    ensures
        a == b,
{
    reveal_strlit("textBased");
    reveal_strlit("scanned");
    reveal_strlit("imageBased");
    reveal_strlit("mixed");
    let (na, nb) = (spec_pdf_type_name(a), spec_pdf_type_name(b));
    assert(na.len() == nb.len() && na[0] == nb[0]);
}

} // verus!
