use vstd::prelude::*;

verus! {

/// `std::io::Error`, carried through unchanged when reading fails.
#[verifier::external_type_specification]
#[verifier::external_body]
pub struct ExIoError(std::io::Error);

/// Why a conversion failed.
#[derive(Debug)]
pub enum ConvertError {
    /// The input could not be read.
    Io(std::io::Error),
    /// The document is encrypted and cannot be opened.
    Encrypted,
    /// The document is damaged or is not what its signature claims.
    Malformed(String),
    /// The document is valid but this conversion cannot handle it.
    Unsupported(String),
}

/// What a `ConvertError` says, with the I/O error's detail left out.
pub enum ConvertErrorView {
    Io,
    Encrypted,
    Malformed(Seq<char>),
    Unsupported(Seq<char>),
}

impl View for ConvertError {
    type V = ConvertErrorView;

    open spec fn view(&self) -> ConvertErrorView {
        match self {
            ConvertError::Io(_) => ConvertErrorView::Io,
            ConvertError::Encrypted => ConvertErrorView::Encrypted,
            ConvertError::Malformed(detail) => ConvertErrorView::Malformed(detail@),
            ConvertError::Unsupported(detail) => ConvertErrorView::Unsupported(detail@),
        }
    }
}

/// The machine-readable code of each kind of failure.
pub open spec fn spec_error_code(e: ConvertErrorView) -> Seq<char> {
    match e {
        ConvertErrorView::Io => "io"@,
        ConvertErrorView::Encrypted => "encrypted"@,
        ConvertErrorView::Malformed(_) => "malformed"@,
        ConvertErrorView::Unsupported(_) => "unsupported"@,
    }
}

impl ConvertError {
    /// The human-readable text of this failure: the detail of a malformed or
    /// unsupported document, a fixed sentence for an encrypted one, and the
    /// I/O error's own text for a read failure.
    pub fn message(&self) -> (m: String)
        ensures
            self@ is Malformed ==> m@ == self@->Malformed_0,
            self@ is Unsupported ==> m@ == self@->Unsupported_0,
            self@ is Encrypted ==> m@ == "document is encrypted"@,
    {
        match self {
            ConvertError::Io(e) => e.to_string(),
            ConvertError::Encrypted => String::from_str("document is encrypted"),
            ConvertError::Malformed(detail) => detail.clone(),
            ConvertError::Unsupported(detail) => detail.clone(),
        }
    }

    /// A `Malformed` error with the given detail.
    pub fn malformed(detail: String) -> (e: ConvertError)
        ensures
            e@ == ConvertErrorView::Malformed(detail@),
    {
        ConvertError::Malformed(detail)
    }

    /// The machine-readable code of this failure: `io`, `encrypted`,
    /// `malformed` or `unsupported`.
    pub fn code(&self) -> (code: &'static str)
        ensures
            code@ == spec_error_code(self@),
    {
        match self {
            ConvertError::Io(_) => "io",
            ConvertError::Encrypted => "encrypted",
            ConvertError::Malformed(_) => "malformed",
            ConvertError::Unsupported(_) => "unsupported",
        }
    }
}

/// Distinct kinds of failure carry distinct codes.
pub proof fn lemma_error_codes_distinct(a: ConvertErrorView, b: ConvertErrorView)
    requires
        spec_error_code(a) == spec_error_code(b),
    ensures
        a is Io <==> b is Io,
        a is Encrypted <==> b is Encrypted,
        a is Malformed <==> b is Malformed,
        a is Unsupported <==> b is Unsupported,
{
    reveal_strlit("io");
    reveal_strlit("encrypted");
    reveal_strlit("malformed");
    reveal_strlit("unsupported");
    let (ca, cb) = (spec_error_code(a), spec_error_code(b));
    assert(ca.len() == cb.len());
    if !(a is Io <==> b is Io) || !(a is Encrypted <==> b is Encrypted) || !(a is Malformed <==> b is Malformed) {
        assert(ca[0] != cb[0] || ca.len() != cb.len());
    }
}

} // verus!
