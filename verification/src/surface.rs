use crate::bmp::{BmpImage, BmpModel};
use crate::error::{SdlError, SdlResult};
use crate::flags::SurfaceFlags;
use crate::pixels::{
    reinterpret, spec_from_u32, spec_to_u32, Color, Palette, PixelFormat,
};
use vstd::prelude::*;

verus! {

/// Row stride in bytes for a surface of the given width: one pixel word per
/// column, rounded up to the native library's four-byte row alignment.
pub open spec fn spec_pitch(width: u16, bytes_per_pixel: u32) -> u32 {
    ((((width as int) * (bytes_per_pixel as int) + 3) / 4) * 4) as u32
}

/// What must be done with the foreign handle when a wrapper goes away:
/// release it, or leave it to its real owner.
#[derive(Clone, Copy, Debug, PartialEq, Eq, Structural)]
pub enum ReleaseAction {
    Free,
    Keep,
}

/// The mathematical state of a surface wrapper: geometry, format, pixel
/// bytes, the per-surface settings the native library stores, the ownership
/// tag, and the history of the pixel lock as counts of acquisitions and
/// releases.
pub ghost struct SurfaceModel {
    pub width: u16,
    pub height: u16,
    pub pitch: u32,
    pub format: PixelFormat,
    pub flags: SurfaceFlags,
    pub owned: bool,
    pub locked: bool,
    pub pixels: Seq<u8>,
    pub color_key: Option<u32>,
    pub color_mod: (u8, u8, u8),
    pub rle: bool,
    pub palette: Option<Seq<Color>>,
    pub locks_taken: nat,
    pub locks_released: nat,
}

impl SurfaceModel {
    /// The wrapper's invariant: a supported format, the stride its geometry
    /// calls for, one byte per buffer position, and a lock that is held if
    /// and only if exactly one more acquisition than releases has happened.
    pub open spec fn wf(self) -> bool {
        &&& self.format.wf()
        &&& self.pitch == spec_pitch(self.width, self.format.bytes_per_pixel())
        &&& self.pixels.len() == (self.pitch as int) * (self.height as int)
        &&& self.locks_released <= self.locks_taken
        &&& self.locks_taken <= self.locks_released + 1
        &&& self.locked == (self.locks_taken == self.locks_released + 1)
    }
}

/// The state after the color key is enabled with colour `c`, or disabled.
pub open spec fn spec_set_color_key(m: SurfaceModel, enable: bool, c: Color) -> SurfaceModel {
    SurfaceModel {
        color_key: if enable {
            Some(spec_to_u32(m.format, c))
        } else {
            None
        },
        ..m
    }
}

/// What a color-key query returns: the stored key read back as a colour in
/// the surface's own format, or a failure when no key is set.
pub open spec fn spec_color_key(m: SurfaceModel) -> SdlResult<Color> {
    match m.color_key {
        Some(k) => Ok(spec_from_u32(m.format, k)),
        None => Err(SdlError::NoColorKey),
    }
}

/// The image a surface saves to: its geometry, format and pixel bytes.
pub open spec fn spec_save_bmp(m: SurfaceModel) -> BmpModel {
    BmpModel { width: m.width, height: m.height, format: m.format, pitch: m.pitch, pixels: m.pixels }
}

/// The fresh owned surface a consistent image loads back as.
pub open spec fn spec_from_bmp(b: BmpModel) -> SdlResult<SurfaceModel> {
    if b.wf() {
        Ok(
            SurfaceModel {
                width: b.width,
                height: b.height,
                pitch: b.pitch,
                format: b.format,
                flags: SurfaceFlags { bits: 0 },
                owned: true,
                locked: false,
                pixels: b.pixels,
                color_key: None,
                color_mod: (255u8, 255u8, 255u8),
                rle: false,
                palette: None,
                locks_taken: 0,
                locks_released: 0,
            },
        )
    } else {
        Err(SdlError::InvalidBmp)
    }
}

/// The red, green and blue samples of a colour; alpha is ignored.
pub open spec fn spec_rgb_of(c: Color) -> (u8, u8, u8) {
    match c {
        Color::RGB(r, g, b) => (r, g, b),
        Color::RGBA(r, g, b, _) => (r, g, b),
    }
}

/// Whether a surface of this geometry can be created at all.
pub open spec fn spec_dimensions_ok(width: i32, height: i32) -> bool {
    0 <= width <= 0xFFFF && 0 <= height <= 0xFFFF
}

/// Whether creation succeeds: dimensions in range, a supported depth and
/// mask set, and a pixel buffer that fits in memory.
pub open spec fn spec_can_create(
    width: i32,
    height: i32,
    bpp: i32,
    rmask: u32,
    gmask: u32,
    bmask: u32,
    amask: u32,
) -> bool {
    &&& spec_dimensions_ok(width, height)
    &&& (bpp == 8 || bpp == 16 || bpp == 24 || bpp == 32)
    &&& PixelFormat::spec_valid_masks(bpp as u32, rmask, gmask, bmask, amask)
    &&& (spec_pitch(width as u16, ((bpp as u32) / 8) as u32) as int) * (height as int)
        <= usize::MAX
}

/// A pixel surface: the verified wrapper state for one native surface
/// handle.  The wrapper either owns the handle, and must release it exactly
/// once, or merely borrows it; destruction is the explicit [`Surface::destroy`],
/// which consumes the wrapper — a second release is ruled out by ownership —
/// and says whether the handle is to be freed.
pub struct Surface {
    width: u16,
    height: u16,
    pitch: u32,
    format: PixelFormat,
    flags: SurfaceFlags,
    owned: bool,
    locked: bool,
    pixels: Vec<u8>,
    color_key: Option<u32>,
    color_mod: (u8, u8, u8),
    rle: bool,
    palette: Option<Vec<Color>>,
    locks_taken: Ghost<nat>,
    locks_released: Ghost<nat>,
}

impl View for Surface {
    type V = SurfaceModel;

    closed spec fn view(&self) -> SurfaceModel {
        SurfaceModel {
            width: self.width,
            height: self.height,
            pitch: self.pitch,
            format: self.format,
            flags: self.flags,
            owned: self.owned,
            locked: self.locked,
            pixels: self.pixels@,
            color_key: self.color_key,
            color_mod: self.color_mod,
            rle: self.rle,
            palette: match self.palette {
                Some(ref p) => Some(p@),
                None => None,
            },
            locks_taken: self.locks_taken@,
            locks_released: self.locks_released@,
        }
    }
}

/// A fresh, zero-filled pixel buffer of the given length.
fn zero_pixels(len: usize) -> (r: Vec<u8>)
    ensures
        r@.len() == len,
        forall|i: int| 0 <= i < len ==> r@[i] == 0u8,
{
    let mut v: Vec<u8> = Vec::new();
    while v.len() < len
        invariant
            v@.len() <= len,
            forall|i: int| 0 <= i < v@.len() ==> v@[i] == 0u8,
        decreases len - v@.len(),
    {
        v.push(0u8);
    }
    v
}

/// A copy of a byte buffer.
fn copy_bytes(src: &Vec<u8>) -> (r: Vec<u8>)
    ensures
        r@ == src@,
{
    let mut v: Vec<u8> = Vec::new();
    let mut i: usize = 0;
    while i < src.len()
        invariant
            i <= src@.len(),
            v@ == src@.subrange(0, i as int),
        decreases src@.len() - i,
    {
        v.push(src[i]);
        i += 1;
    }
    proof {
        assert(v@ =~= src@);
    }
    v
}

/// A copy of a colour table.
fn copy_colors(src: &Vec<Color>) -> (r: Vec<Color>)
    ensures
        r@ == src@,
{
    let mut v: Vec<Color> = Vec::new();
    let mut i: usize = 0;
    while i < src.len()
        invariant
            i <= src@.len(),
            v@ == src@.subrange(0, i as int),
        decreases src@.len() - i,
    {
        v.push(src[i]);
        i += 1;
    }
    proof {
        assert(v@ =~= src@);
    }
    v
}

/// A product grows no faster than its factors' bounds.
proof fn lemma_mul_le(a: int, b: int, amax: int, bmax: int)
    by (nonlinear_arith)
    requires
        0 <= a <= amax,
        0 <= b <= bmax,
    ensures
        a * b <= amax * bmax,
{
}

/// The row stride of any supported surface fits comfortably in 32 bits.
proof fn lemma_pitch_bound(width: u16, bytes: u32)
    requires
        bytes <= 4,
    ensures
        spec_pitch(width, bytes) <= 262140,
        spec_pitch(width, bytes) as int == (((width as int) * (bytes as int) + 3) / 4) * 4,
{
    lemma_mul_le(width as int, bytes as int, 0xFFFF, 4);
}

/// Executable row-stride computation.
fn calc_pitch(width: u16, format: &PixelFormat) -> (r: u32)
    requires
        format.wf(),
    ensures
        r == spec_pitch(width, format.bytes_per_pixel()),
{
    let bytes: u32 = format.bpp / 8;
    proof {
        lemma_mul_le(width as int, bytes as int, 0xFFFF, 4);
        lemma_pitch_bound(width, bytes);
    }
    let raw: u32 = (width as u32) * bytes;
    ((raw + 3) / 4) * 4
}

impl Surface {
    /// Allocate a fresh owned surface with the requested geometry and
    /// format.  Succeeds exactly when the dimensions are in the supported
    /// range, the depth and masks describe a supported packed format, and
    /// the pixel buffer fits in memory; the new surface starts unlocked,
    /// zero-filled, with no color key, neutral colour modulation and no
    /// palette.
    pub fn new(
        surface_flags: SurfaceFlags,
        width: i32,
        height: i32,
        bpp: i32,
        rmask: u32,
        gmask: u32,
        bmask: u32,
        amask: u32,
    ) -> (r: SdlResult<Surface>)
        ensures
            r is Ok <==> spec_can_create(width, height, bpp, rmask, gmask, bmask, amask),
            r matches Ok(s) ==> {
                &&& s@.wf()
                &&& s@.width as int == width as int
                &&& s@.height as int == height as int
                &&& s@.format.bpp as int == bpp as int
                &&& s@.format.r.mask() == rmask
                &&& s@.format.g.mask() == gmask
                &&& s@.format.b.mask() == bmask
                &&& s@.format.a.mask() == amask
                &&& s@.flags == surface_flags
                &&& s@.owned
                &&& !s@.locked
                &&& s@.locks_taken == 0 && s@.locks_released == 0
                &&& s@.color_key is None
                &&& s@.color_mod == (255u8, 255u8, 255u8)
                &&& !s@.rle
                &&& s@.palette is None
                &&& forall|i: int| 0 <= i < s@.pixels.len() ==> s@.pixels[i] == 0u8
            },
            !spec_dimensions_ok(width, height) ==> r == Err::<Surface, SdlError>(
                SdlError::InvalidDimensions,
            ),
            spec_dimensions_ok(width, height) && !((bpp == 8 || bpp == 16 || bpp == 24 || bpp == 32)
                && PixelFormat::spec_valid_masks(bpp as u32, rmask, gmask, bmask, amask)) ==> r
                == Err::<Surface, SdlError>(SdlError::UnknownPixelFormat),
            spec_dimensions_ok(width, height) && (bpp == 8 || bpp == 16 || bpp == 24 || bpp == 32)
                && PixelFormat::spec_valid_masks(bpp as u32, rmask, gmask, bmask, amask)
                && !spec_can_create(width, height, bpp, rmask, gmask, bmask, amask) ==> r == Err::<
                Surface,
                SdlError,
            >(SdlError::InvalidDimensions),
    {
        if width < 0 || width > 0xFFFF || height < 0 || height > 0xFFFF {
            return Err(SdlError::InvalidDimensions);
        }
        if !(bpp == 8 || bpp == 16 || bpp == 24 || bpp == 32) {
            return Err(SdlError::UnknownPixelFormat);
        }
        let format = match PixelFormat::from_masks(bpp as u32, rmask, gmask, bmask, amask) {
            Ok(f) => f,
            Err(e) => { return Err(e) },
        };
        let w: u16 = width as u16;
        let h: u16 = height as u16;
        let pitch = calc_pitch(w, &format);
        proof {
            lemma_pitch_bound(w, format.bytes_per_pixel());
            lemma_mul_le(pitch as int, h as int, 262140, 0xFFFF);
        }
        let total: u64 = (pitch as u64) * (h as u64);
        if total > usize::MAX as u64 {
            return Err(SdlError::InvalidDimensions);
        }
        let pixels = zero_pixels(total as usize);
        Ok(
            Surface {
                width: w,
                height: h,
                pitch,
                format,
                flags: surface_flags,
                owned: true,
                locked: false,
                pixels,
                color_key: None,
                color_mod: (255, 255, 255),
                rle: false,
                palette: None,
                locks_taken: Ghost(0nat),
                locks_released: Ghost(0nat),
            },
        )
    }

    /// Wrap pixel state read from a surface that lives elsewhere.  The
    /// wrapper releases the underlying handle on destruction only when
    /// `owned` is true.
    pub fn from_existing(
        width: u16,
        height: u16,
        format: PixelFormat,
        pixels: Vec<u8>,
        owned: bool,
    ) -> (r: SdlResult<Surface>)
        ensures
            r is Ok <==> (format.wf() && pixels@.len() == (spec_pitch(
                width,
                format.bytes_per_pixel(),
            ) as int) * (height as int)),
            r matches Ok(s) ==> {
                &&& s@.wf()
                &&& s@.width == width
                &&& s@.height == height
                &&& s@.format == format
                &&& s@.owned == owned
                &&& !s@.locked
                &&& s@.locks_taken == 0 && s@.locks_released == 0
                &&& s@.pixels == pixels@
                &&& s@.color_key is None
                &&& s@.color_mod == (255u8, 255u8, 255u8)
                &&& !s@.rle
                &&& s@.palette is None
                &&& s@.flags.bits == 0
            },
            !format.wf() ==> r == Err::<Surface, SdlError>(SdlError::UnknownPixelFormat),
            format.wf() && pixels@.len() != (spec_pitch(width, format.bytes_per_pixel()) as int) * (
            height as int) ==> r == Err::<Surface, SdlError>(SdlError::BufferSizeMismatch),
    {
        if !format.check() {
            return Err(SdlError::UnknownPixelFormat);
        }
        let pitch = calc_pitch(width, &format);
        proof {
            lemma_pitch_bound(width, format.bytes_per_pixel());
            lemma_mul_le(pitch as int, height as int, 262140, 0xFFFF);
        }
        let total: u64 = (pitch as u64) * (height as u64);
        if pixels.len() as u64 != total {
            return Err(SdlError::BufferSizeMismatch);
        }
        Ok(
            Surface {
                width,
                height,
                pitch,
                format,
                flags: SurfaceFlags { bits: 0 },
                owned,
                locked: false,
                pixels,
                color_key: None,
                color_mod: (255, 255, 255),
                rle: false,
                palette: None,
                locks_taken: Ghost(0nat),
                locks_released: Ghost(0nat),
            },
        )
    }

    /// The surface's width in pixels.
    pub fn get_width(&self) -> (r: u16)
        ensures
            r == self@.width,
    {
        self.width
    }

    /// The surface's height in pixels.
    pub fn get_height(&self) -> (r: u16)
        ensures
            r == self@.height,
    {
        self.height
    }

    /// Width and height together.
    pub fn get_size(&self) -> (r: (u16, u16))
        ensures
            r == (self@.width, self@.height),
    {
        (self.width, self.height)
    }

    /// The surface's bounding rectangle: origin at zero, dimensions equal
    /// to its size.
    pub fn get_rect(&self) -> (r: crate::rect::Rect)
        ensures
            r == (crate::rect::Rect {
                x: 0,
                y: 0,
                w: self@.width as i32,
                h: self@.height as i32,
            }),
    {
        crate::rect::Rect { x: 0, y: 0, w: self.width as i32, h: self.height as i32 }
    }

    /// The surface's pixel-format descriptor.
    pub fn get_pixel_format(&self) -> (r: PixelFormat)
        ensures
            r == self@.format,
    {
        self.format
    }

    /// Whether the pixel lock is currently held.
    pub fn is_locked(&self) -> (r: bool)
        ensures
            r == self@.locked,
    {
        self.locked
    }

    /// Whether this wrapper owns the underlying handle.
    pub fn is_owned(&self) -> (r: bool)
        ensures
            r == self@.owned,
    {
        self.owned
    }

    /// Acquire the pixel lock.  Taking the lock twice without a release is
    /// caller misuse — the native behaviour is undefined there — so it is a
    /// precondition, not a run-time failure; under it the acquisition
    /// always succeeds.
    pub fn lock(&mut self) -> (r: bool)
        requires
            old(self)@.wf(),
            !old(self)@.locked,
        ensures
            r == true,
            final(self)@.wf(),
            final(self)@ == (SurfaceModel {
                locked: true,
                locks_taken: old(self)@.locks_taken + 1,
                ..old(self)@
            }),
    {
        self.locked = true;
        self.locks_taken = Ghost(self.locks_taken@ + 1);
        true
    }

    /// Release the pixel lock.
    pub fn unlock(&mut self)
        requires
            old(self)@.wf(),
            old(self)@.locked,
        ensures
            final(self)@.wf(),
            final(self)@ == (SurfaceModel {
                locked: false,
                locks_released: old(self)@.locks_released + 1,
                ..old(self)@
            }),
    {
        self.locked = false;
        self.locks_released = Ghost(self.locks_released@ + 1);
    }

    /// Scoped pixel access: acquire the lock, hand the pixel bytes — one
    /// per buffer position, `pitch * height` in all — to `f`, and release
    /// the lock exactly once before returning, whatever `f` returns.  The
    /// supplied function must hand back a buffer of the same length, since
    /// the native buffer cannot be resized; a failure it wants to propagate
    /// travels through its result value `R`, and the lock is released
    /// before that result is passed on, so a later lock/unlock cycle finds
    /// the surface unlocked.
    pub fn with_lock<F, R>(&mut self, f: F) -> (r: R) where F: FnOnce(Vec<u8>) -> (Vec<u8>, R)
        requires
            old(self)@.wf(),
            !old(self)@.locked,
            forall|v: Vec<u8>| v@ == old(self)@.pixels ==> call_requires(f, (v,)),
            forall|v: Vec<u8>, out: (Vec<u8>, R)|
                call_ensures(f, (v,), out) ==> out.0@.len() == v@.len(),
        ensures
            final(self)@.wf(),
            !final(self)@.locked,
            final(self)@.locks_taken == old(self)@.locks_taken + 1,
            final(self)@.locks_released == old(self)@.locks_released + 1,
            final(self)@.pixels.len() == old(self)@.pixels.len(),
            final(self)@ == (SurfaceModel {
                pixels: final(self)@.pixels,
                locks_taken: old(self)@.locks_taken + 1,
                locks_released: old(self)@.locks_released + 1,
                ..old(self)@
            }),
            exists|v: Vec<u8>, w: Vec<u8>|
                v@ == old(self)@.pixels && w@ == final(self)@.pixels && call_ensures(
                    f,
                    (v,),
                    (w, r),
                ),
    {
        self.locked = true;
        self.locks_taken = Ghost(self.locks_taken@ + 1);
        let mut buf: Vec<u8> = Vec::new();
        core::mem::swap(&mut buf, &mut self.pixels);
        let (out, r) = f(buf);
        self.pixels = out;
        self.locked = false;
        self.locks_released = Ghost(self.locks_released@ + 1);
        r
    }

    /// Save the surface as an image: the geometry, format and pixel bytes a
    /// BMP encoding preserves.
    pub fn save_bmp(&self) -> (img: BmpImage)
        requires
            self@.wf(),
        ensures
            img@ == spec_save_bmp(self@),
            img@.wf(),
    {
        BmpImage {
            width: self.width,
            height: self.height,
            format: self.format,
            pitch: self.pitch,
            pixels: copy_bytes(&self.pixels),
        }
    }

    /// Load a surface from a decoded image, failing exactly when the image
    /// does not describe a consistent surface.  The result is a fresh owned
    /// surface with the image's geometry, format and pixel bytes.
    pub fn from_bmp(img: &BmpImage) -> (r: SdlResult<Surface>)
        ensures
            r is Ok <==> img@.wf(),
            r matches Ok(s) ==> s@.wf() && spec_from_bmp(img@) == Ok::<SurfaceModel, SdlError>(s@),
            r is Err ==> r == Err::<Surface, SdlError>(SdlError::InvalidBmp),
    {
        if !img.format.check() {
            return Err(SdlError::InvalidBmp);
        }
        let pitch = calc_pitch(img.width, &img.format);
        if img.pitch != pitch {
            return Err(SdlError::InvalidBmp);
        }
        proof {
            lemma_pitch_bound(img.width, img.format.bytes_per_pixel());
            lemma_mul_le(pitch as int, img.height as int, 262140, 0xFFFF);
        }
        let total: u64 = (pitch as u64) * (img.height as u64);
        if img.pixels.len() as u64 != total {
            return Err(SdlError::InvalidBmp);
        }
        Ok(
            Surface {
                width: img.width,
                height: img.height,
                pitch,
                format: img.format,
                flags: SurfaceFlags { bits: 0 },
                owned: true,
                locked: false,
                pixels: copy_bytes(&img.pixels),
                color_key: None,
                color_mod: (255, 255, 255),
                rle: false,
                palette: None,
                locks_taken: Ghost(0nat),
                locks_released: Ghost(0nat),
            },
        )
    }

    /// Install a palette.  The native call succeeds exactly when the
    /// surface is palettized — eight bits per pixel — and the palette has
    /// one entry per index value.
    pub fn set_palette(&mut self, palette: &Palette) -> (r: bool)
        requires
            old(self)@.wf(),
        ensures
            r == (old(self)@.format.bpp == 8 && palette.colors@.len() == 256),
            final(self)@.wf(),
            r ==> final(self)@ == (SurfaceModel { palette: Some(palette.colors@), ..old(self)@ }),
            !r ==> final(self)@ == old(self)@,
    {
        if self.format.bpp == 8 && palette.colors.len() == 256 {
            self.palette = Some(copy_colors(&palette.colors));
            true
        } else {
            false
        }
    }

    /// Switch run-length-encoding acceleration on for blits from this
    /// surface; on a live surface the native call always succeeds.
    #[allow(non_snake_case)]
    pub fn enable_RLE(&mut self) -> (r: bool)
        requires
            old(self)@.wf(),
        ensures
            r == true,
            final(self)@.wf(),
            final(self)@ == (SurfaceModel { rle: true, ..old(self)@ }),
    {
        self.rle = true;
        true
    }

    /// Switch run-length-encoding acceleration off again.
    #[allow(non_snake_case)]
    pub fn disable_RLE(&mut self) -> (r: bool)
        requires
            old(self)@.wf(),
        ensures
            r == true,
            final(self)@.wf(),
            final(self)@ == (SurfaceModel { rle: false, ..old(self)@ }),
    {
        self.rle = false;
        true
    }

    /// Enable the color key — the pixel value treated as transparent during
    /// blits — as the given colour mapped into this surface's own format,
    /// or disable it.
    pub fn set_color_key(&mut self, enable: bool, color: Color) -> (r: SdlResult<()>)
        requires
            old(self)@.wf(),
        ensures
            r == Ok::<(), SdlError>(()),
            final(self)@.wf(),
            final(self)@ == spec_set_color_key(old(self)@, enable, color),
    {
        let key = color.to_u32(&self.format);
        if enable {
            self.color_key = Some(key);
        } else {
            self.color_key = None;
        }
        Ok(())
    }

    /// The color key, read back as a colour in this surface's format, or a
    /// failure when no key is set.
    pub fn get_color_key(&self) -> (r: SdlResult<Color>)
        requires
            self@.wf(),
        ensures
            r == spec_color_key(self@),
    {
        match self.color_key {
            Some(k) => Ok(Color::from_u32(&self.format, k)),
            None => Err(SdlError::NoColorKey),
        }
    }

    /// Set the per-surface colour modulation factors from the colour's red,
    /// green and blue samples; an alpha sample is ignored.  On a live
    /// surface the native call always succeeds.
    pub fn set_color_mod(&mut self, color: Color) -> (r: bool)
        requires
            old(self)@.wf(),
        ensures
            r == true,
            final(self)@.wf(),
            final(self)@ == (SurfaceModel { color_mod: spec_rgb_of(color), ..old(self)@ }),
    {
        match color {
            Color::RGB(r, g, b) => {
                self.color_mod = (r, g, b);
            },
            Color::RGBA(r, g, b, _) => {
                self.color_mod = (r, g, b);
            },
        }
        true
    }

    /// The colour modulation factors, as an opaque colour.
    pub fn get_color_mod(&self) -> (r: SdlResult<Color>)
        requires
            self@.wf(),
        ensures
            r == Ok::<Color, SdlError>(
                Color::RGB(self@.color_mod.0, self@.color_mod.1, self@.color_mod.2),
            ),
    {
        Ok(Color::RGB(self.color_mod.0, self.color_mod.1, self.color_mod.2))
    }

    /// Copy pixels from `src` into this surface, clipped to the optional
    /// rectangles, where a missing rectangle means the whole surface.  The
    /// native compositor refuses locked surfaces and otherwise signals
    /// success; what it writes into the destination bytes is its own
    /// business, so nothing is stated of the pixel contents after a
    /// successful blit beyond their count.
    #[allow(unused_variables)]
    pub fn blit(&mut self, src: &Surface, dstrect: Option<crate::rect::Rect>, srcrect: Option<
        crate::rect::Rect,
    >) -> (r: bool)
        requires
            old(self)@.wf(),
            src@.wf(),
        ensures
            r == (!old(self)@.locked && !src@.locked),
            final(self)@.wf(),
            final(self)@.pixels.len() == old(self)@.pixels.len(),
            final(self)@ == (SurfaceModel { pixels: final(self)@.pixels, ..old(self)@ }),
            !r ==> final(self)@ == old(self)@,
    {
        if self.locked || src.locked {
            false
        } else {
            true
        }
    }

    /// Give the wrapper up, and say what is to happen to the underlying
    /// handle: a release when this wrapper owns it, nothing when it only
    /// borrows it.  Taking the wrapper by value makes a second release
    /// impossible.
    pub fn destroy(self) -> (r: ReleaseAction)
        ensures
            r == (if self@.owned {
                ReleaseAction::Free
            } else {
                ReleaseAction::Keep
            }),
    {
        if self.owned {
            ReleaseAction::Free
        } else {
            ReleaseAction::Keep
        }
    }
}

/// Saving a surface and loading the result back always succeeds and yields
/// a surface of the same width, height and pixel bytes.
pub proof fn lemma_bmp_round_trip(m: SurfaceModel)
    requires
        m.wf(),
    ensures
        spec_from_bmp(spec_save_bmp(m)) matches Ok(s) && s.width == m.width && s.height == m.height
            && s.pixels == m.pixels && s.format == m.format && s.owned,
{
}

/// Enabling the color key with colour `c` and reading it back yields `c`
/// reinterpreted in the surface's own pixel format; reading the key of a
/// surface that has none set fails.
pub proof fn lemma_color_key_round_trip(m: SurfaceModel, c: Color)
    requires
        m.wf(),
    ensures
        spec_color_key(spec_set_color_key(m, true, c)) == Ok::<Color, SdlError>(
            reinterpret(m.format, c),
        ),
        m.color_key is None ==> spec_color_key(m) == Err::<Color, SdlError>(SdlError::NoColorKey),
{
}

} // verus!
