use crate::error::{SdlError, SdlResult};
use vstd::prelude::*;

verus! {

/// The mask of the `bits` lowest bits, for channel widths up to 8.
pub open spec fn low_mask(bits: u32) -> u32 {
    if bits == 0 {
        0
    } else if bits == 1 {
        0x1
    } else if bits == 2 {
        0x3
    } else if bits == 3 {
        0x7
    } else if bits == 4 {
        0xf
    } else if bits == 5 {
        0x1f
    } else if bits == 6 {
        0x3f
    } else if bits == 7 {
        0x7f
    } else {
        0xff
    }
}

/// Executable twin of [`low_mask`].
pub fn low_mask_val(bits: u32) -> (r: u32)
    ensures
        r == low_mask(bits),
{
    if bits == 0 {
        0
    } else if bits == 1 {
        0x1
    } else if bits == 2 {
        0x3
    } else if bits == 3 {
        0x7
    } else if bits == 4 {
        0xf
    } else if bits == 5 {
        0x1f
    } else if bits == 6 {
        0x3f
    } else if bits == 7 {
        0x7f
    } else {
        0xff
    }
}

/// One colour channel of a packed pixel format: `bits` bits of the pixel
/// word, starting at bit `shift`.  A channel with `bits == 0` is absent.
#[derive(Clone, Copy, Debug, PartialEq, Eq, Structural)]
pub struct Channel {
    pub shift: u32,
    pub bits: u32,
}

impl Channel {
    /// Channels are at most 8 bits wide and lie inside a 32-bit pixel word.
    pub open spec fn wf(self) -> bool {
        self.bits <= 8 && self.shift < 32 && self.shift + self.bits <= 32
    }

    /// The bits of the pixel word this channel occupies.
    pub open spec fn mask(self) -> u32 {
        low_mask(self.bits) << self.shift
    }

    /// The bits a sample loses when stored in this channel.
    pub open spec fn loss(self) -> u32 {
        (8 - self.bits) as u32
    }
}

/// Shifting zero never sets a bit.
proof fn lemma_zero_shift(s: u32)
    requires
        s < 32,
    ensures
        0u32 << s == 0u32,
{
    assert(0u32 << s == 0u32) by (bit_vector);
}

/// Whether some channel no wider than `bpp` bits occupies exactly `mask`.
pub open spec fn valid_mask_for(mask: u32, bpp: u32) -> bool {
    exists|ch: Channel| ch.wf() && ch.shift + ch.bits <= bpp && #[trigger] ch.mask() == mask
}

/// Find the channel that occupies `mask` inside a `bpp`-bit pixel word,
/// or report that no supported channel does.
pub fn channel_for_mask(mask: u32, bpp: u32) -> (r: Option<Channel>)
    requires
        bpp <= 32,
    ensures
        r matches Some(ch) ==> ch.wf() && ch.shift + ch.bits <= bpp && ch.mask() == mask,
        r is None ==> !valid_mask_for(mask, bpp),
{
    if mask == 0 {
        let ch = Channel { shift: 0, bits: 0 };
        proof {
            lemma_zero_shift(0);
            assert(ch.mask() == 0u32);
        }
        return Some(ch);
    }
    let mut shift: u32 = 0;
    while shift < 32
        invariant
            shift <= 32,
            mask != 0,
            bpp <= 32,
            forall|ch: Channel|
                ch.wf() && ch.shift < shift && ch.shift + ch.bits <= bpp ==> #[trigger] ch.mask()
                    != mask,
        decreases 32 - shift,
    {
        let mut bits: u32 = 1;
        while bits <= 8
            invariant
                1 <= bits <= 9,
                shift < 32,
                mask != 0,
                bpp <= 32,
                forall|ch: Channel|
                    ch.wf() && ch.shift < shift && ch.shift + ch.bits <= bpp ==> #[trigger] ch.mask()
                        != mask,
                forall|ch: Channel|
                    ch.wf() && ch.shift == shift && 0 < ch.bits < bits && ch.shift + ch.bits <= bpp
                        ==> #[trigger] ch.mask() != mask,
            decreases 9 - bits,
        {
            if shift + bits <= 32 && shift + bits <= bpp {
                let candidate: u32 = low_mask_val(bits) << shift;
                let ch = Channel { shift, bits };
                assert(candidate == ch.mask());
                if candidate == mask {
                    return Some(ch);
                }
            }
            bits += 1;
        }
        proof {
            assert forall|ch: Channel|
                ch.wf() && ch.shift == shift && ch.shift + ch.bits <= bpp implies #[trigger] ch.mask()
                != mask by {
                if ch.bits == 0 {
                    lemma_zero_shift(ch.shift);
                }
            }
        }
        shift += 1;
    }
    None
}

/// A packed pixel-format descriptor: the bit depth of a pixel word and the
/// position of each colour channel inside it.  This is the plain-value view
/// of the native library's format struct, restricted to byte-aligned packed
/// formats with channels up to 8 bits wide.
#[derive(Clone, Copy, Debug, PartialEq, Eq, Structural)]
pub struct PixelFormat {
    /// Bits per pixel: 8, 16, 24 or 32.
    pub bpp: u32,
    pub r: Channel,
    pub g: Channel,
    pub b: Channel,
    pub a: Channel,
}

impl PixelFormat {
    pub open spec fn wf(self) -> bool {
        &&& (self.bpp == 8 || self.bpp == 16 || self.bpp == 24 || self.bpp == 32)
        &&& self.r.wf() && self.r.shift + self.r.bits <= self.bpp
        &&& self.g.wf() && self.g.shift + self.g.bits <= self.bpp
        &&& self.b.wf() && self.b.shift + self.b.bits <= self.bpp
        &&& self.a.wf() && self.a.shift + self.a.bits <= self.bpp
    }

    /// Bytes per pixel word.
    pub open spec fn bytes_per_pixel(self) -> u32 {
        (self.bpp / 8) as u32
    }

    /// Whether the depth and masks describe a supported packed format.
    pub open spec fn spec_valid_masks(
        bpp: u32,
        rmask: u32,
        gmask: u32,
        bmask: u32,
        amask: u32,
    ) -> bool {
        &&& (bpp == 8 || bpp == 16 || bpp == 24 || bpp == 32)
        &&& valid_mask_for(rmask, bpp)
        &&& valid_mask_for(gmask, bpp)
        &&& valid_mask_for(bmask, bpp)
        &&& valid_mask_for(amask, bpp)
    }

    /// Build a format descriptor from a bit depth and four channel masks,
    /// failing exactly when they do not describe a supported packed format.
    pub fn from_masks(bpp: u32, rmask: u32, gmask: u32, bmask: u32, amask: u32) -> (r: SdlResult<
        PixelFormat,
    >)
        ensures
            r is Ok <==> Self::spec_valid_masks(bpp, rmask, gmask, bmask, amask),
            r matches Ok(f) ==> f.wf() && f.bpp == bpp && f.r.mask() == rmask && f.g.mask() == gmask
                && f.b.mask() == bmask && f.a.mask() == amask,
            r is Err ==> r == Err::<PixelFormat, SdlError>(SdlError::UnknownPixelFormat),
    {
        if !(bpp == 8 || bpp == 16 || bpp == 24 || bpp == 32) {
            return Err(SdlError::UnknownPixelFormat);
        }
        let r = match channel_for_mask(rmask, bpp) {
            Some(ch) => ch,
            None => { return Err(SdlError::UnknownPixelFormat) },
        };
        let g = match channel_for_mask(gmask, bpp) {
            Some(ch) => ch,
            None => { return Err(SdlError::UnknownPixelFormat) },
        };
        let b = match channel_for_mask(bmask, bpp) {
            Some(ch) => ch,
            None => { return Err(SdlError::UnknownPixelFormat) },
        };
        let a = match channel_for_mask(amask, bpp) {
            Some(ch) => ch,
            None => { return Err(SdlError::UnknownPixelFormat) },
        };
        Ok(PixelFormat { bpp, r, g, b, a })
    }

    /// Executable check of [`PixelFormat::wf`].
    pub fn check(&self) -> (r: bool)
        ensures
            r == self.wf(),
    {
        (self.bpp == 8 || self.bpp == 16 || self.bpp == 24 || self.bpp == 32) && self.r.bits <= 8
            && self.r.shift < 32 && self.r.shift + self.r.bits <= self.bpp && self.g.bits <= 8
            && self.g.shift < 32 && self.g.shift + self.g.bits <= self.bpp && self.b.bits <= 8
            && self.b.shift < 32 && self.b.shift + self.b.bits <= self.bpp && self.a.bits <= 8
            && self.a.shift < 32 && self.a.shift + self.a.bits <= self.bpp
    }
}

/// A colour value: red, green and blue samples, with or without alpha.
#[derive(Clone, Copy, Debug, PartialEq, Eq, Structural)]
pub enum Color {
    RGB(u8, u8, u8),
    RGBA(u8, u8, u8, u8),
}

/// A colour table for palettized (8 bits per pixel) surfaces.
pub struct Palette {
    pub colors: Vec<Color>,
}

impl View for Palette {
    type V = Seq<Color>;

    open spec fn view(&self) -> Seq<Color> {
        self.colors@
    }
}

/// The four samples of a colour; a colour without alpha is opaque.
pub open spec fn rgba_of(c: Color) -> (u8, u8, u8, u8) {
    match c {
        Color::RGB(r, g, b) => (r, g, b, 255u8),
        Color::RGBA(r, g, b, a) => (r, g, b, a),
    }
}

/// An 8-bit sample stored into one channel of a pixel word: the sample
/// keeps its `bits` highest bits and moves to the channel's position.
pub open spec fn encode_channel(ch: Channel, v: u8) -> u32 {
    ((v as u32) >> ch.loss()) << ch.shift
}

/// One channel read back out of a pixel word, widened to 8 bits.
pub open spec fn decode_channel(ch: Channel, p: u32) -> u8 {
    ((((p >> ch.shift) & low_mask(ch.bits))) << ch.loss()) as u8
}

/// The pixel word a colour maps to in the given format.
pub open spec fn spec_to_u32(fmt: PixelFormat, c: Color) -> u32 {
    encode_channel(fmt.r, rgba_of(c).0) | encode_channel(fmt.g, rgba_of(c).1) | encode_channel(
        fmt.b,
        rgba_of(c).2,
    ) | encode_channel(fmt.a, rgba_of(c).3)
}

/// The colour a pixel word reads back as in the given format: with alpha
/// when the format stores alpha, without when it does not.
pub open spec fn spec_from_u32(fmt: PixelFormat, p: u32) -> Color {
    if fmt.a.bits == 0 {
        Color::RGB(decode_channel(fmt.r, p), decode_channel(fmt.g, p), decode_channel(fmt.b, p))
    } else {
        Color::RGBA(
            decode_channel(fmt.r, p),
            decode_channel(fmt.g, p),
            decode_channel(fmt.b, p),
            decode_channel(fmt.a, p),
        )
    }
}

/// A colour pushed through a format and read back: what remains of it once
/// each sample is cut to the channel's width.
pub open spec fn reinterpret(fmt: PixelFormat, c: Color) -> Color {
    spec_from_u32(fmt, spec_to_u32(fmt, c))
}

impl Color {
    /// Map this colour to its pixel word in the given format, as the native
    /// pixel-mapping routine does for packed formats.
    pub fn to_u32(&self, format: &PixelFormat) -> (r: u32)
        requires
            format.wf(),
        ensures
            r == spec_to_u32(*format, *self),
    {
        let (cr, cg, cb, ca): (u8, u8, u8, u8) = match *self {
            Color::RGB(r, g, b) => (r, g, b, 255),
            Color::RGBA(r, g, b, a) => (r, g, b, a),
        };
        let pr: u32 = ((cr as u32) >> (8 - format.r.bits)) << format.r.shift;
        let pg: u32 = ((cg as u32) >> (8 - format.g.bits)) << format.g.shift;
        let pb: u32 = ((cb as u32) >> (8 - format.b.bits)) << format.b.shift;
        let pa: u32 = ((ca as u32) >> (8 - format.a.bits)) << format.a.shift;
        pr | pg | pb | pa
    }

    /// Read a pixel word back as a colour in the given format.
    pub fn from_u32(format: &PixelFormat, pixel: u32) -> (r: Color)
        requires
            format.wf(),
        ensures
            r == spec_from_u32(*format, pixel),
    {
        let cr = decode_channel_val(&format.r, pixel);
        let cg = decode_channel_val(&format.g, pixel);
        let cb = decode_channel_val(&format.b, pixel);
        if format.a.bits == 0 {
            Color::RGB(cr, cg, cb)
        } else {
            let ca = decode_channel_val(&format.a, pixel);
            Color::RGBA(cr, cg, cb, ca)
        }
    }
}

/// In a format whose four channels are all 8 bits wide and pairwise
/// disjoint, a colour with alpha survives the trip through a pixel word
/// unchanged: reinterpretation is the identity there.
pub proof fn lemma_reinterpret_exact_rgba(fmt: PixelFormat, r: u8, g: u8, b: u8, a: u8)
    requires
        fmt.wf(),
        fmt.r.bits == 8,
        fmt.g.bits == 8,
        fmt.b.bits == 8,
        fmt.a.bits == 8,
        fmt.r.mask() & fmt.g.mask() == 0,
        fmt.r.mask() & fmt.b.mask() == 0,
        fmt.r.mask() & fmt.a.mask() == 0,
        fmt.g.mask() & fmt.b.mask() == 0,
        fmt.g.mask() & fmt.a.mask() == 0,
        fmt.b.mask() & fmt.a.mask() == 0,
    ensures
        reinterpret(fmt, Color::RGBA(r, g, b, a)) == Color::RGBA(r, g, b, a),
{
    let s1 = fmt.r.shift;
    let s2 = fmt.g.shift;
    let s3 = fmt.b.shift;
    let s4 = fmt.a.shift;
    let p = spec_to_u32(fmt, Color::RGBA(r, g, b, a));
    assert(p == (((r as u32) >> 0u32) << s1) | (((g as u32) >> 0u32) << s2) | (((b as u32) >> 0u32)
        << s3) | (((a as u32) >> 0u32) << s4));
    assert((((p >> s1) & 0xffu32) << 0u32) as u8 == r && (((p >> s2) & 0xffu32) << 0u32) as u8 == g
        && (((p >> s3) & 0xffu32) << 0u32) as u8 == b && (((p >> s4) & 0xffu32) << 0u32) as u8
        == a) by (bit_vector)
        requires
            p == (((r as u32) >> 0u32) << s1) | (((g as u32) >> 0u32) << s2) | (((b as u32)
                >> 0u32) << s3) | (((a as u32) >> 0u32) << s4),
            s1 + 8 <= 32,
            s2 + 8 <= 32,
            s3 + 8 <= 32,
            s4 + 8 <= 32,
            (0xffu32 << s1) & (0xffu32 << s2) == 0,
            (0xffu32 << s1) & (0xffu32 << s3) == 0,
            (0xffu32 << s1) & (0xffu32 << s4) == 0,
            (0xffu32 << s2) & (0xffu32 << s3) == 0,
            (0xffu32 << s2) & (0xffu32 << s4) == 0,
            (0xffu32 << s3) & (0xffu32 << s4) == 0,
    ;
    assert(decode_channel(fmt.r, p) == r);
    assert(decode_channel(fmt.g, p) == g);
    assert(decode_channel(fmt.b, p) == b);
    assert(decode_channel(fmt.a, p) == a);
}

/// The same identity for a colour given without alpha: it reads back with
/// full opacity in the alpha channel.
pub proof fn lemma_reinterpret_exact_rgb(fmt: PixelFormat, r: u8, g: u8, b: u8)
    requires
        fmt.wf(),
        fmt.r.bits == 8,
        fmt.g.bits == 8,
        fmt.b.bits == 8,
        fmt.a.bits == 8,
        fmt.r.mask() & fmt.g.mask() == 0,
        fmt.r.mask() & fmt.b.mask() == 0,
        fmt.r.mask() & fmt.a.mask() == 0,
        fmt.g.mask() & fmt.b.mask() == 0,
        fmt.g.mask() & fmt.a.mask() == 0,
        fmt.b.mask() & fmt.a.mask() == 0,
    ensures
        reinterpret(fmt, Color::RGB(r, g, b)) == Color::RGBA(r, g, b, 255),
{
    assert(spec_to_u32(fmt, Color::RGB(r, g, b)) == spec_to_u32(fmt, Color::RGBA(r, g, b, 255)));
    lemma_reinterpret_exact_rgba(fmt, r, g, b, 255);
}

/// Executable twin of [`decode_channel`].
fn decode_channel_val(ch: &Channel, p: u32) -> (r: u8)
    requires
        ch.wf(),
    ensures
        r == decode_channel(*ch, p),
{
    let masked: u32 = (p >> ch.shift) & low_mask_val(ch.bits);
    let widened: u32 = masked << (8 - ch.bits);
    proof {
        let bits = ch.bits;
        let shift = ch.shift;
        assert(((p >> shift) & low_mask(bits)) << ((8 - bits) as u32) < 256 ==> (((p >> shift)
            & low_mask(bits)) << ((8 - bits) as u32)) as u8 == ((p >> shift) & low_mask(bits)) << ((
        8 - bits) as u32)) by (bit_vector);
        assert(bits <= 8 && shift < 32 ==> ((p >> shift) & low_mask(bits)) << ((8 - bits) as u32)
            < 256) by (bit_vector);
    }
    widened as u8
}

} // verus!
