use vstd::prelude::*;

verus! {

/// The software-surface flag: the absence of every other flag.
pub const SWSURFACE_BITS: u32 = 0x0;

/// The surface uses preallocated pixel memory.
pub const PREALLOC_BITS: u32 = 0x1;

/// Blits from the surface use run-length-encoding acceleration.
pub const RLEACCEL_BITS: u32 = 0x2;

/// The surface is referenced internally and must not be freed.
pub const DONTFREE_BITS: u32 = 0x4;

/// A set of surface flags: a named bit set over the three flag bits the
/// native surface header defines (preallocated memory, RLE acceleration,
/// do-not-free), with the all-clear value standing for a plain software
/// surface.
#[derive(Clone, Copy, Debug, PartialEq, Eq, Structural)]
pub struct SurfaceFlags {
    pub bits: u32,
}

impl SurfaceFlags {
    /// A flag set holds nothing outside the three defined bits.
    pub open spec fn wf(self) -> bool {
        self.bits & 0x7u32 == self.bits
    }

    /// The empty set: a plain software surface.
    pub fn empty() -> (r: SurfaceFlags)
        ensures
            r.bits == SWSURFACE_BITS,
            r.wf(),
    {
        proof {
            assert(0u32 & 0x7u32 == 0u32) by (bit_vector);
        }
        SurfaceFlags { bits: 0 }
    }

    /// The preallocated-memory flag alone.
    pub fn prealloc() -> (r: SurfaceFlags)
        ensures
            r.bits == PREALLOC_BITS,
            r.wf(),
    {
        proof {
            assert(0x1u32 & 0x7u32 == 0x1u32) by (bit_vector);
        }
        SurfaceFlags { bits: 0x1 }
    }

    /// The RLE-acceleration flag alone.
    pub fn rle_accel() -> (r: SurfaceFlags)
        ensures
            r.bits == RLEACCEL_BITS,
            r.wf(),
    {
        proof {
            assert(0x2u32 & 0x7u32 == 0x2u32) by (bit_vector);
        }
        SurfaceFlags { bits: 0x2 }
    }

    /// The do-not-free flag alone.
    pub fn dont_free() -> (r: SurfaceFlags)
        ensures
            r.bits == DONTFREE_BITS,
            r.wf(),
    {
        proof {
            assert(0x4u32 & 0x7u32 == 0x4u32) by (bit_vector);
        }
        SurfaceFlags { bits: 0x4 }
    }

    /// The set holding the flags of both operands.
    pub fn union(self, other: SurfaceFlags) -> (r: SurfaceFlags)
        ensures
            r.bits == self.bits | other.bits,
            self.wf() && other.wf() ==> r.wf(),
    {
        proof {
            let a = self.bits;
            let b = other.bits;
            assert(a & 0x7u32 == a && b & 0x7u32 == b ==> (a | b) & 0x7u32 == (a | b))
                by (bit_vector);
        }
        SurfaceFlags { bits: self.bits | other.bits }
    }

    /// Whether every flag of `other` is also in `self`.
    pub fn contains(self, other: SurfaceFlags) -> (r: bool)
        ensures
            r == (self.bits & other.bits == other.bits),
    {
        self.bits & other.bits == other.bits
    }

    /// The raw bit pattern, as handed to the native allocator.
    pub fn bits(self) -> (r: u32)
        ensures
            r == self.bits,
    {
        self.bits
    }
}

} // verus!
