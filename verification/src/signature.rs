use vstd::prelude::*;

verus! {

/// The five bytes `%PDF-` that open every PDF file.
pub open spec fn pdf_magic() -> Seq<u8> {
    seq![0x25u8, 0x50u8, 0x44u8, 0x46u8, 0x2du8]
}

/// Whether `bytes` begin with the PDF header marker `%PDF-`.
pub open spec fn spec_has_pdf_signature(bytes: Seq<u8>) -> bool {
    bytes.len() >= 5 && bytes.subrange(0, 5) == pdf_magic()
}

/// Whether the content opens with the PDF header marker `%PDF-`, the
/// signature the PDF specification designates for the format.
pub fn has_pdf_signature(bytes: &[u8]) -> (res: bool)
    ensures
        res == spec_has_pdf_signature(bytes@),
        res == (bytes@.len() >= 5 && bytes@[0] == 0x25u8 && bytes@[1] == 0x50u8 && bytes@[2]
            == 0x44u8 && bytes@[3] == 0x46u8 && bytes@[4] == 0x2du8),
{
    if bytes.len() < 5 {
        return false;
    }
    let ok = bytes[0] == 0x25u8 && bytes[1] == 0x50u8 && bytes[2] == 0x44u8 && bytes[3] == 0x46u8
        && bytes[4] == 0x2du8;
    assert(ok <==> bytes@.subrange(0, 5) =~= pdf_magic());
    ok
}

/// Any content that opens with `%PDF-` carries the signature, whatever
/// follows (any version, any body), and content that does not open with
/// those five bytes does not.
pub proof fn lemma_pdf_signature_is_the_header_prefix(rest: Seq<u8>, other: Seq<u8>)
    ensures
        spec_has_pdf_signature(seq![0x25u8, 0x50u8, 0x44u8, 0x46u8, 0x2du8] + rest),
        !(other.len() >= 5 && other[0] == 0x25u8 && other[1] == 0x50u8 && other[2] == 0x44u8
            && other[3] == 0x46u8 && other[4] == 0x2du8) ==> !spec_has_pdf_signature(other),
{
    let s = seq![0x25u8, 0x50u8, 0x44u8, 0x46u8, 0x2du8] + rest;
    assert(s.subrange(0, 5) =~= pdf_magic());
    if spec_has_pdf_signature(other) {
        assert(other.subrange(0, 5)[0] == other[0]);
        assert(other.subrange(0, 5)[1] == other[1]);
        assert(other.subrange(0, 5)[2] == other[2]);
        assert(other.subrange(0, 5)[3] == other[3]);
        assert(other.subrange(0, 5)[4] == other[4]);
    }
}

} // verus!
