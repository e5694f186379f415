//! Pixel bit depth of a camera read-out.

use vstd::prelude::*;

verus! {

/// Pixel bit depth.
#[derive(Clone, Copy, Debug, PartialEq, Eq, Structural)]
pub enum PixelBpp {
    /// 8 bits per pixel. This is the default.
    Bpp8,
    /// 10 bits per pixel.
    Bpp10,
    /// 12 bits per pixel.
    Bpp12,
    /// 16 bits per pixel.
    Bpp16,
    /// 24 bits per pixel.
    Bpp24,
    /// 32 bits per pixel.
    Bpp32,
}

impl PixelBpp {
    /// The number of bits that one pixel occupies.
    pub open spec fn spec_bits(self) -> u32 {
        match self {
            PixelBpp::Bpp8 => 8,
            PixelBpp::Bpp10 => 10,
            PixelBpp::Bpp12 => 12,
            PixelBpp::Bpp16 => 16,
            PixelBpp::Bpp24 => 24,
            PixelBpp::Bpp32 => 32,
        }
    }

    /// The depth that a bit count names; any count that is not a known depth
    /// names the default, 8 bits.
    pub open spec fn of_bits(value: u32) -> PixelBpp {
        if value == 10 {
            PixelBpp::Bpp10
        } else if value == 12 {
            PixelBpp::Bpp12
        } else if value == 16 {
            PixelBpp::Bpp16
        } else if value == 24 {
            PixelBpp::Bpp24
        } else if value == 32 {
            PixelBpp::Bpp32
        } else {
            PixelBpp::Bpp8
        }
    }

    /// The number of bits that one pixel occupies.
    #[verifier::when_used_as_spec(spec_bits)]
    pub fn bits(self) -> (n: u32)
        ensures
            n == self.spec_bits(),
    {
        match self {
            PixelBpp::Bpp8 => 8,
            PixelBpp::Bpp10 => 10,
            PixelBpp::Bpp12 => 12,
            PixelBpp::Bpp16 => 16,
            PixelBpp::Bpp24 => 24,
            PixelBpp::Bpp32 => 32,
        }
    }
}

impl From<u32> for PixelBpp {
    /// The depth that a bit count names. A count that is not a known depth
    /// gives the default, 8 bits.
    fn from(value: u32) -> (bpp: Self) {
        match value {
            8 => PixelBpp::Bpp8,
            10 => PixelBpp::Bpp10,
            12 => PixelBpp::Bpp12,
            16 => PixelBpp::Bpp16,
            24 => PixelBpp::Bpp24,
            32 => PixelBpp::Bpp32,
            _ => PixelBpp::Bpp8,
        }
    }
}

impl vstd::std_specs::convert::FromSpecImpl<u32> for PixelBpp {
    open spec fn obeys_from_spec() -> bool {
        true
    }

    open spec fn from_spec(value: u32) -> PixelBpp {
        PixelBpp::of_bits(value)
    }
}

/// A depth is found again from its bit count.
pub proof fn lemma_bits_round_trip(bpp: PixelBpp)
    ensures
        PixelBpp::of_bits(bpp.spec_bits()) == bpp,
{
}

/// A bit count is found again from the depth that it names exactly where
/// it is the count of a known depth; every other count names 8 bits.
pub proof fn lemma_of_bits_known(value: u32)
    ensures
        PixelBpp::of_bits(value).spec_bits() == value <==> (value == 8 || value == 10 || value == 12
            || value == 16 || value == 24 || value == 32),
        PixelBpp::of_bits(value).spec_bits() != value ==> PixelBpp::of_bits(value) == PixelBpp::Bpp8,
{
}

} // verus!
