use vstd::prelude::*;

verus! {

/// Failures surfaced by the binding.  The native library reports failure
/// through null handles and negative return codes together with a
/// descriptive string; this enum is the typed translation of the failures
/// the surface routines can hit.
#[derive(Clone, Copy, Debug, PartialEq, Eq, Structural)]
pub enum SdlError {
    /// A requested width or height is negative or beyond the supported range.
    InvalidDimensions,
    /// The bit depth and channel masks do not describe a supported packed format.
    UnknownPixelFormat,
    /// The surface has no color key set.
    NoColorKey,
    /// A decoded image does not describe a consistent surface.
    InvalidBmp,
    /// A pixel buffer does not match the geometry it was handed over with.
    BufferSizeMismatch,
}

/// Result alias used throughout the binding.
pub type SdlResult<T> = Result<T, SdlError>;

impl SdlError {
    /// The descriptive message for this error, as a sequence of characters.
    pub open spec fn spec_message(self) -> Seq<char> {
        match self {
            SdlError::InvalidDimensions => "width and height must be in the supported range"@,
            SdlError::UnknownPixelFormat => "unknown pixel format"@,
            SdlError::NoColorKey => "surface doesn't have a color key"@,
            SdlError::InvalidBmp => "image data does not describe a valid surface"@,
            SdlError::BufferSizeMismatch => "pixel buffer does not match the surface geometry"@,
        }
    }

    /// A descriptive message in the style of the native library's error strings.
    pub fn message(&self) -> (r: &'static str)
        ensures
            r@ == self.spec_message(),
    {
        match self {
            SdlError::InvalidDimensions => "width and height must be in the supported range",
            SdlError::UnknownPixelFormat => "unknown pixel format",
            SdlError::NoColorKey => "surface doesn't have a color key",
            SdlError::InvalidBmp => "image data does not describe a valid surface",
            SdlError::BufferSizeMismatch => "pixel buffer does not match the surface geometry",
        }
    }
}

} // verus!
