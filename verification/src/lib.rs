//! PDF inspection and Markdown extraction with pdf-inspector, and the value
//! types the language bindings expose: verified signature detection, error
//! mapping, result shaping and the conversions between binding and library
//! vocabularies.

pub mod error;
pub mod format;
pub mod inspector;
pub mod node;
pub mod pdf;
pub mod python;
pub mod signature;
pub mod text;

pub use error::ConvertError;
pub use format::Format;
pub use pdf::{inspect_pdf_bytes, to_markdown, MarkdownConversion, PdfInspection, PdfOcrPage, PdfType};
pub use signature::has_pdf_signature;
