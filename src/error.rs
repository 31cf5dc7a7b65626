use vstd::prelude::*;

verus! {

/// What can stop a run: each is reported to the user and ends it unsuccessfully.
#[derive(Clone, Copy, Debug, PartialEq, Eq, Structural)]
pub enum FrameError {
    /// The source image could not be read or decoded.
    ImageOpen,
    /// The font file the user named could not be read.
    FontRead,
    /// The font data is not a usable font.
    FontParse,
    /// The image is too large to be framed.
    TooLarge,
    /// The finished image could not be encoded or written.
    ImageSave,
}

impl FrameError {
    /// The context line printed before the underlying cause.
    pub fn message(&self) -> (r: &'static str)
        ensures
            *self == FrameError::ImageOpen ==> r@ == "Failed to open original image file"@,
            *self == FrameError::FontRead ==> r@ == "Failed to open font file"@,
            *self == FrameError::FontParse ==> r@ == "Failed to parse font file"@,
            *self == FrameError::TooLarge ==> r@ == "Image too large to frame"@,
            *self == FrameError::ImageSave ==> r@ == "Failed to save output image"@,
    {
        match self {
            FrameError::ImageOpen => "Failed to open original image file",
            FrameError::FontRead => "Failed to open font file",
            FrameError::FontParse => "Failed to parse font file",
            FrameError::TooLarge => "Image too large to frame",
            FrameError::ImageSave => "Failed to save output image",
        }
    }

    /// The process exit status for this error; every error ends the run with 1.
    pub fn exit_code(&self) -> (r: i32)
        ensures
            r == 1,
    {
        1
    }
}

} // verus!
