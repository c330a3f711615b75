//! Whether the bytes of an image are an SVG document: they must be UTF-8
//! text that the `usvg` parser accepts.
use vstd::prelude::*;
use vstd::string::StringSliceAdditionalSpecFns;
use vstd::utf8::decode_utf8;
use vstd::utf8::encode_utf8;
use vstd::utf8::valid_utf8;
use vello_svg::usvg;

verus! {

/// Whether `usvg` parses the text `text` into a tree, with its default
/// options.
pub uninterp spec fn svg_parses(text: Seq<char>) -> bool;

/// `core::str::from_utf8`: the bytes read as a string, when they are valid
/// UTF-8. As its documentation says, it succeeds exactly on valid UTF-8, and
/// the string it gives holds the same bytes.
#[verifier::external_body]
fn utf8_text(bytes: &[u8]) -> (r: Option<&str>)
    ensures
        r is Some <==> valid_utf8(bytes@),
        r matches Some(s) ==> s.spec_bytes() == bytes@,
{
    core::str::from_utf8(bytes).ok()
}

/// `usvg::Tree::from_str` with `usvg::Options::default()`: whether the text
/// parses into an SVG tree. The outcome is named, as a function of the text
/// alone; it is not stated here what the parser accepts.
#[verifier::external_body]
fn usvg_parses(text: &str) -> (b: bool)
    ensures
        b == svg_parses(text@),
{
    usvg::Tree::from_str(text, &usvg::Options::default()).is_ok()
}

/// Whether image bytes are an SVG document: valid UTF-8 whose text `usvg`
/// parses.
pub open spec fn is_svg(bytes: Seq<u8>) -> bool {
    valid_utf8(bytes) && svg_parses(decode_utf8(bytes))
}

/// Whether `bytes` are an SVG document: they are read as UTF-8 text, and
/// the text is handed to the SVG parser.
pub fn image_is_svg(bytes: &Vec<u8>) -> (b: bool)
    ensures
        b == is_svg(bytes@),
{
    match utf8_text(bytes.as_slice()) {
        Some(text) => {
            proof {
                vstd::utf8::encode_utf8_decode_utf8(text@);
            }
            usvg_parses(text)
        },
        None => false,
    }
}

} // verus!
