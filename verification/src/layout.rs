//! The closed set of pixel storage layouts.
//!
//! A layout fixes the type of one stored sample, the number of channels of
//! a pixel and the order of the channels inside a pixel. Samples of one
//! pixel are stored next to each other, pixels row by row.

use vstd::prelude::*;

verus! {

/// The type of one stored sample.
#[derive(Clone, Copy, Debug, PartialEq, Eq, Hash, Structural)]
pub enum SampleType {
    /// 8-bit unsigned integer.
    U8,
    /// 16-bit unsigned integer.
    U16,
    /// 32-bit IEEE-754 number.
    F32,
}

/// One channel of a pixel, by what it means.
#[derive(Clone, Copy, Debug, PartialEq, Eq, Hash, Structural)]
pub enum Channel {
    /// The single channel of a monochrome image.
    Mono,
    /// Luminance, where an alpha channel goes with it.
    Luma,
    /// Red.
    Red,
    /// Green.
    Green,
    /// Blue.
    Blue,
    /// Transparency.
    Alpha,
}

/// The tag that a stored record carries for its samples: their type and
/// the number of channels of a pixel. Not every tag names a layout.
#[derive(Clone, Copy, Debug, PartialEq, Eq, Hash, Structural)]
pub enum SerialImagePixel {
    /// 8-bit samples, with the number of channels.
    U8(usize),
    /// 16-bit samples, with the number of channels.
    U16(usize),
    /// 32-bit IEEE-754 samples, with the number of channels.
    F32(usize),
}

/// A pixel storage layout.
#[derive(Clone, Copy, Debug, PartialEq, Eq, Hash, Structural)]
pub enum PixelLayout {
    /// One 8-bit channel.
    Mono8,
    /// One 16-bit channel.
    Mono16,
    /// Luminance and alpha, 8 bits each.
    LumaAlpha8,
    /// Luminance and alpha, 16 bits each.
    LumaAlpha16,
    /// Red, green, blue, 8 bits each.
    RGB8,
    /// Red, green, blue, 16 bits each.
    RGB16,
    /// Red, green, blue, 32-bit IEEE-754 each.
    RGB32F,
    /// Red, green, blue, alpha, 8 bits each.
    RGBA8,
    /// Red, green, blue, alpha, 16 bits each.
    RGBA16,
    /// Red, green, blue, alpha, 32-bit IEEE-754 each.
    RGBA32F,
}

impl PixelLayout {
    /// The number of channels of a pixel.
    pub open spec fn spec_channels(self) -> usize {
        match self {
            PixelLayout::Mono8 | PixelLayout::Mono16 => 1,
            PixelLayout::LumaAlpha8 | PixelLayout::LumaAlpha16 => 2,
            PixelLayout::RGB8 | PixelLayout::RGB16 | PixelLayout::RGB32F => 3,
            PixelLayout::RGBA8 | PixelLayout::RGBA16 | PixelLayout::RGBA32F => 4,
        }
    }

    /// The type of one stored sample.
    pub open spec fn spec_sample_type(self) -> SampleType {
        match self {
            PixelLayout::Mono8 | PixelLayout::LumaAlpha8 | PixelLayout::RGB8 | PixelLayout::RGBA8 => SampleType::U8,
            PixelLayout::Mono16 | PixelLayout::LumaAlpha16 | PixelLayout::RGB16 | PixelLayout::RGBA16 => SampleType::U16,
            PixelLayout::RGB32F | PixelLayout::RGBA32F => SampleType::F32,
        }
    }

    /// The meaning of channel `k` of a pixel. Channels beyond the last one
    /// of the layout are given as alpha.
    pub open spec fn spec_channel(self, k: usize) -> Channel {
        match self {
            PixelLayout::Mono8 | PixelLayout::Mono16 => Channel::Mono,
            PixelLayout::LumaAlpha8 | PixelLayout::LumaAlpha16 => if k == 0 {
                Channel::Luma
            } else {
                Channel::Alpha
            },
            _ => if k == 0 {
                Channel::Red
            } else if k == 1 {
                Channel::Green
            } else if k == 2 {
                Channel::Blue
            } else {
                Channel::Alpha
            },
        }
    }

    /// The number under which the layout is stored. The numbers are fixed:
    /// a stored record stays readable.
    pub open spec fn spec_code(self) -> u8 {
        match self {
            PixelLayout::Mono8 => 0,
            PixelLayout::Mono16 => 1,
            PixelLayout::LumaAlpha8 => 2,
            PixelLayout::LumaAlpha16 => 3,
            PixelLayout::RGB8 => 4,
            PixelLayout::RGB16 => 5,
            PixelLayout::RGB32F => 6,
            PixelLayout::RGBA8 => 7,
            PixelLayout::RGBA16 => 8,
            PixelLayout::RGBA32F => 9,
        }
    }

    /// The layout that is stored under a number, if there is one.
    pub open spec fn spec_from_code(code: u8) -> Option<PixelLayout> {
        if code == 0 {
            Some(PixelLayout::Mono8)
        } else if code == 1 {
            Some(PixelLayout::Mono16)
        } else if code == 2 {
            Some(PixelLayout::LumaAlpha8)
        } else if code == 3 {
            Some(PixelLayout::LumaAlpha16)
        } else if code == 4 {
            Some(PixelLayout::RGB8)
        } else if code == 5 {
            Some(PixelLayout::RGB16)
        } else if code == 6 {
            Some(PixelLayout::RGB32F)
        } else if code == 7 {
            Some(PixelLayout::RGBA8)
        } else if code == 8 {
            Some(PixelLayout::RGBA16)
        } else if code == 9 {
            Some(PixelLayout::RGBA32F)
        } else {
            None
        }
    }

    /// The tag of the layout: its sample type with its channel count.
    pub open spec fn spec_serial_pixel(self) -> SerialImagePixel {
        match self.spec_sample_type() {
            SampleType::U8 => SerialImagePixel::U8(self.spec_channels()),
            SampleType::U16 => SerialImagePixel::U16(self.spec_channels()),
            SampleType::F32 => SerialImagePixel::F32(self.spec_channels()),
        }
    }

    /// The number of channels of a pixel.
    #[verifier::when_used_as_spec(spec_channels)]
    pub fn channels(self) -> (n: usize)
        ensures
            n == self.spec_channels(),
            1 <= n <= 4,
    {
        match self {
            PixelLayout::Mono8 | PixelLayout::Mono16 => 1,
            PixelLayout::LumaAlpha8 | PixelLayout::LumaAlpha16 => 2,
            PixelLayout::RGB8 | PixelLayout::RGB16 | PixelLayout::RGB32F => 3,
            PixelLayout::RGBA8 | PixelLayout::RGBA16 | PixelLayout::RGBA32F => 4,
        }
    }

    /// The type of one stored sample.
    #[verifier::when_used_as_spec(spec_sample_type)]
    pub fn sample_type(self) -> (t: SampleType)
        ensures
            t == self.spec_sample_type(),
    {
        match self {
            PixelLayout::Mono8 | PixelLayout::LumaAlpha8 | PixelLayout::RGB8 | PixelLayout::RGBA8 => SampleType::U8,
            PixelLayout::Mono16 | PixelLayout::LumaAlpha16 | PixelLayout::RGB16 | PixelLayout::RGBA16 => SampleType::U16,
            PixelLayout::RGB32F | PixelLayout::RGBA32F => SampleType::F32,
        }
    }

    /// The meaning of channel `k` of a pixel.
    #[verifier::when_used_as_spec(spec_channel)]
    pub fn channel(self, k: usize) -> (c: Channel)
        ensures
            c == self.spec_channel(k),
    {
        match self {
            PixelLayout::Mono8 | PixelLayout::Mono16 => Channel::Mono,
            PixelLayout::LumaAlpha8 | PixelLayout::LumaAlpha16 => if k == 0 {
                Channel::Luma
            } else {
                Channel::Alpha
            },
            _ => if k == 0 {
                Channel::Red
            } else if k == 1 {
                Channel::Green
            } else if k == 2 {
                Channel::Blue
            } else {
                Channel::Alpha
            },
        }
    }

    /// The number under which the layout is stored.
    #[verifier::when_used_as_spec(spec_code)]
    pub fn code(self) -> (c: u8)
        ensures
            c == self.spec_code(),
            c <= 9,
    {
        match self {
            PixelLayout::Mono8 => 0,
            PixelLayout::Mono16 => 1,
            PixelLayout::LumaAlpha8 => 2,
            PixelLayout::LumaAlpha16 => 3,
            PixelLayout::RGB8 => 4,
            PixelLayout::RGB16 => 5,
            PixelLayout::RGB32F => 6,
            PixelLayout::RGBA8 => 7,
            PixelLayout::RGBA16 => 8,
            PixelLayout::RGBA32F => 9,
        }
    }

    /// The layout that is stored under a number: `None` for a number that
    /// no layout has.
    #[verifier::when_used_as_spec(spec_from_code)]
    pub fn from_code(code: u8) -> (l: Option<PixelLayout>)
        ensures
            l == PixelLayout::spec_from_code(code),
            l is Some <==> code <= 9,
    {
        match code {
            0 => Some(PixelLayout::Mono8),
            1 => Some(PixelLayout::Mono16),
            2 => Some(PixelLayout::LumaAlpha8),
            3 => Some(PixelLayout::LumaAlpha16),
            4 => Some(PixelLayout::RGB8),
            5 => Some(PixelLayout::RGB16),
            6 => Some(PixelLayout::RGB32F),
            7 => Some(PixelLayout::RGBA8),
            8 => Some(PixelLayout::RGBA16),
            9 => Some(PixelLayout::RGBA32F),
            _ => None,
        }
    }

    /// The tag of the layout: its sample type with its channel count.
    #[verifier::when_used_as_spec(spec_serial_pixel)]
    pub fn serial_pixel(self) -> (p: SerialImagePixel)
        ensures
            p == self.spec_serial_pixel(),
    {
        let n = self.channels();
        match self.sample_type() {
            SampleType::U8 => SerialImagePixel::U8(n),
            SampleType::U16 => SerialImagePixel::U16(n),
            SampleType::F32 => SerialImagePixel::F32(n),
        }
    }
}

impl SerialImagePixel {
    /// The sample type of the tag.
    pub open spec fn spec_sample_type(self) -> SampleType {
        match self {
            SerialImagePixel::U8(_) => SampleType::U8,
            SerialImagePixel::U16(_) => SampleType::U16,
            SerialImagePixel::F32(_) => SampleType::F32,
        }
    }

    /// The channel count of the tag.
    pub open spec fn spec_channels(self) -> usize {
        match self {
            SerialImagePixel::U8(n) => n,
            SerialImagePixel::U16(n) => n,
            SerialImagePixel::F32(n) => n,
        }
    }

    /// The layout that the tag names: integer samples in one to four
    /// channels, IEEE-754 samples in three or four. Other tags name none.
    pub open spec fn spec_layout(self) -> Option<PixelLayout> {
        match self {
            SerialImagePixel::U8(n) => if n == 1 {
                Some(PixelLayout::Mono8)
            } else if n == 2 {
                Some(PixelLayout::LumaAlpha8)
            } else if n == 3 {
                Some(PixelLayout::RGB8)
            } else if n == 4 {
                Some(PixelLayout::RGBA8)
            } else {
                None
            },
            SerialImagePixel::U16(n) => if n == 1 {
                Some(PixelLayout::Mono16)
            } else if n == 2 {
                Some(PixelLayout::LumaAlpha16)
            } else if n == 3 {
                Some(PixelLayout::RGB16)
            } else if n == 4 {
                Some(PixelLayout::RGBA16)
            } else {
                None
            },
            SerialImagePixel::F32(n) => if n == 3 {
                Some(PixelLayout::RGB32F)
            } else if n == 4 {
                Some(PixelLayout::RGBA32F)
            } else {
                None
            },
        }
    }

    /// The sample type of the tag.
    #[verifier::when_used_as_spec(spec_sample_type)]
    pub fn sample_type(self) -> (t: SampleType)
        ensures
            t == self.spec_sample_type(),
    {
        match self {
            SerialImagePixel::U8(_) => SampleType::U8,
            SerialImagePixel::U16(_) => SampleType::U16,
            SerialImagePixel::F32(_) => SampleType::F32,
        }
    }

    /// The channel count of the tag.
    #[verifier::when_used_as_spec(spec_channels)]
    pub fn channels(self) -> (n: usize)
        ensures
            n == self.spec_channels(),
    {
        match self {
            SerialImagePixel::U8(n) => n,
            SerialImagePixel::U16(n) => n,
            SerialImagePixel::F32(n) => n,
        }
    }

    /// The layout that the tag names, or `None` where it names none.
    #[verifier::when_used_as_spec(spec_layout)]
    pub fn layout(self) -> (l: Option<PixelLayout>)
        ensures
            l == self.spec_layout(),
    {
        match self {
            SerialImagePixel::U8(n) => match n {
                1 => Some(PixelLayout::Mono8),
                2 => Some(PixelLayout::LumaAlpha8),
                3 => Some(PixelLayout::RGB8),
                4 => Some(PixelLayout::RGBA8),
                _ => None,
            },
            SerialImagePixel::U16(n) => match n {
                1 => Some(PixelLayout::Mono16),
                2 => Some(PixelLayout::LumaAlpha16),
                3 => Some(PixelLayout::RGB16),
                4 => Some(PixelLayout::RGBA16),
                _ => None,
            },
            SerialImagePixel::F32(n) => match n {
                3 => Some(PixelLayout::RGB32F),
                4 => Some(PixelLayout::RGBA32F),
                _ => None,
            },
        }
    }
}

/// A layout is found again from its number, and a number from the layout
/// that it names: the two mappings are inverse to each other.
pub proof fn lemma_code_round_trip(layout: PixelLayout, code: u8)
    ensures
        PixelLayout::spec_from_code(layout.spec_code()) == Some(layout),
        PixelLayout::spec_from_code(code) matches Some(l) ==> l.spec_code() == code,
        PixelLayout::spec_from_code(code) is Some <==> code <= 9,
{
}

/// A layout is found again from its tag, and a tag that names a layout is
/// the tag of that layout: sample type and channel count determine the
/// layout, and no other combination is one.
pub proof fn lemma_serial_pixel_round_trip(layout: PixelLayout, pixel: SerialImagePixel)
    ensures
        layout.spec_serial_pixel().spec_layout() == Some(layout),
        pixel.spec_layout() matches Some(l) ==> l.spec_serial_pixel() == pixel,
        pixel.spec_layout() matches Some(l) ==> l.spec_sample_type() == pixel.spec_sample_type()
            && l.spec_channels() == pixel.spec_channels(),
{
}

} // verus!
