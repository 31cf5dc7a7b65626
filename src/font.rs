use vstd::prelude::*;
use crate::error::FrameError;

verus! {

#[verifier::external_type_specification]
#[verifier::external_body]
pub struct ExFontVec(ab_glyph::FontVec);

#[verifier::external_type_specification]
#[verifier::external_body]
pub struct ExInvalidFont(ab_glyph::InvalidFont);

/// Whether `ab_glyph` accepts `bytes` as the data of a single font.
pub uninterp spec fn font_parses(bytes: Seq<u8>) -> bool;

/// Relies on ab_glyph::FontVec::try_from_vec: parses owned font data, and
/// whether it succeeds depends on the bytes alone.
#[verifier::external_body]
fn parse_font(bytes: Vec<u8>) -> (r: Result<ab_glyph::FontVec, ab_glyph::InvalidFont>)
    ensures
        r is Ok <==> font_parses(bytes@),
{
    ab_glyph::FontVec::try_from_vec(bytes)
}

/// Turns raw font data into a font for measuring and drawing captions; data
/// that is not a font is reported as `FrameError::FontParse`.
pub fn load_font(bytes: Vec<u8>) -> (r: Result<ab_glyph::FontVec, FrameError>)
    ensures
        r is Ok <==> font_parses(bytes@),
        r is Err ==> r == Err::<ab_glyph::FontVec, FrameError>(FrameError::FontParse),
{
    match parse_font(bytes) {
        Ok(font) => Ok(font),
        Err(_) => Err(FrameError::FontParse),
    }
}

} // verus!
