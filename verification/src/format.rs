use vstd::prelude::*;

verus! {

/// A document format the converters handle. Container variants that share a
/// parser (`.docm`, `.xlsm`, `.ppsx`, ...) map onto these.
#[derive(Debug, Clone, Copy, PartialEq, Eq, Structural)]
pub enum Format {
    Doc,
    Docx,
    Odt,
    /// Converted with pdf-inspector, which emits Markdown directly.
    Pdf,
    Ppt,
    Pptx,
    Rtf,
    Epub,
    /// Spreadsheets in the Office Open XML workbook family (`.xlsx`, `.xlsm`).
    Excel,
    Ods,
    Odp,
    Csv,
}

} // verus!
