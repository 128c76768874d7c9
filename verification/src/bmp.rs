use crate::pixels::PixelFormat;
use crate::surface::spec_pitch;
use vstd::prelude::*;

verus! {

/// The mathematical content of a BMP-encoded surface: its geometry, its
/// format and its pixel bytes.
pub ghost struct BmpModel {
    pub width: u16,
    pub height: u16,
    pub format: PixelFormat,
    pub pitch: u32,
    pub pixels: Seq<u8>,
}

impl BmpModel {
    /// An image is consistent when its format is supported, its row stride
    /// is the stride its geometry calls for, and it carries exactly one
    /// byte per buffer position.
    pub open spec fn wf(self) -> bool {
        &&& self.format.wf()
        &&& self.pitch == spec_pitch(self.width, self.format.bytes_per_pixel())
        &&& self.pixels.len() == (self.pitch as int) * (self.height as int)
    }
}

/// The decoded content of a BMP image, as the boundary value between a
/// surface and the byte-stream layer that reads and writes files.  Encoding
/// the bytes of the container itself is the native codec's work; what it
/// preserves — geometry, format, pixel bytes — is what this type carries.
pub struct BmpImage {
    pub width: u16,
    pub height: u16,
    pub format: PixelFormat,
    pub pitch: u32,
    pub pixels: Vec<u8>,
}

impl View for BmpImage {
    type V = BmpModel;

    open spec fn view(&self) -> BmpModel {
        BmpModel {
            width: self.width,
            height: self.height,
            format: self.format,
            pitch: self.pitch,
            pixels: self.pixels@,
        }
    }
}

} // verus!
