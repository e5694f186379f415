//! An image: a pixel layout, a width, a height and the samples that fill
//! them exactly.

use vstd::prelude::*;
use vstd::string::StringExecFns;
use crate::error::Error;
use crate::layout::{PixelLayout, SampleType};
use crate::samples::{Samples, SamplesView};

verus! {

/// What an [`Image`] holds.
pub struct ImageView {
    /// The pixel layout.
    pub layout: PixelLayout,
    /// The width, in pixels.
    pub width: nat,
    /// The height, in pixels.
    pub height: nat,
    /// The samples, pixel after pixel and row after row.
    pub samples: SamplesView,
}

/// The number of samples of an image of the given size: one for each
/// channel of each pixel.
pub open spec fn sample_count(width: nat, height: nat, channels: nat) -> nat {
    width * height * channels
}

/// Whether samples fill a size in a layout: they have the type of the
/// layout, and there are exactly as many as the layout asks for the width
/// and the height.
pub open spec fn fills(layout: PixelLayout, width: nat, height: nat, samples: SamplesView) -> bool {
    &&& samples.sample_type() == layout.spec_sample_type()
    &&& samples.len() == sample_count(width, height, layout.spec_channels() as nat)
}

impl ImageView {
    /// The samples fill the image, see [`fills`], and the width and the
    /// height are 32-bit numbers.
    pub open spec fn wf(self) -> bool {
        &&& fills(self.layout, self.width, self.height, self.samples)
        &&& self.width <= u32::MAX
        &&& self.height <= u32::MAX
    }
}

/// The words of the error for samples that are not of the layout's type.
pub open spec fn wrong_sample_type_text() -> Seq<char> {
    "Sample type does not match the pixel layout"@
}

/// The image that a layout, a size and samples make.
pub open spec fn image_of(layout: PixelLayout, width: nat, height: nat, samples: SamplesView) -> ImageView {
    ImageView { layout, width, height, samples }
}

/// Whether `e` says what is wrong with samples that do not fill a size in
/// a layout: invalid image type, with the words of
/// [`wrong_sample_type_text`], for samples that are not of the layout's
/// type; else invalid size, with the number of samples.
pub open spec fn is_shape_error(e: Error, layout: PixelLayout, samples: SamplesView) -> bool {
    if samples.sample_type() != layout.spec_sample_type() {
        e matches Error::InvalidImageType(m) && m@ == wrong_sample_type_text()
    } else {
        e == Error::InvalidSize(samples.len() as usize)
    }
}

/// Tests whether samples fill a size in a layout; the error says what is
/// wrong where they do not.
pub fn check_shape(layout: PixelLayout, width: usize, height: usize, samples: &Samples) -> (r: Result<(), Error>)
    ensures
        r is Ok <==> fills(layout, width as nat, height as nat, samples@),
        r matches Err(e) ==> is_shape_error(e, layout, samples@),
{
    if !sample_types_equal(samples.sample_type(), layout.sample_type()) {
        return Err(Error::InvalidImageType(String::from_str("Sample type does not match the pixel layout")));
    }
    let len = samples.len();
    let channels = layout.channels();
    proof {
        assert(sample_count(width as nat, height as nat, channels as nat) == (width as nat * height as nat)
            * channels as nat);
    }
    let fits = match width.checked_mul(height) {
        Some(pixels) => match pixels.checked_mul(channels) {
            Some(count) => count == len,
            None => false,
        },
        None => {
            proof {
                assert(width as nat * height as nat * channels as nat >= width as nat * height as nat)
                    by (nonlinear_arith)
                    requires
                        channels >= 1,
                ;
            }
            false
        },
    };
    if fits {
        Ok(())
    } else {
        Err(Error::InvalidSize(len))
    }
}

/// Whether two sample types are the same.
pub fn sample_types_equal(a: SampleType, b: SampleType) -> (same: bool)
    ensures
        same == (a == b),
{
    match (a, b) {
        (SampleType::U8, SampleType::U8) => true,
        (SampleType::U16, SampleType::U16) => true,
        (SampleType::F32, SampleType::F32) => true,
        _ => false,
    }
}

/// An image. Its samples always fill its width and height in its layout:
/// there is no image with samples missing or left over.
#[derive(Debug, PartialEq)]
pub struct Image {
    layout: PixelLayout,
    width: u32,
    height: u32,
    samples: Samples,
}

impl View for Image {
    type V = ImageView;

    closed spec fn view(&self) -> ImageView {
        ImageView {
            layout: self.layout,
            width: self.width as nat,
            height: self.height as nat,
            samples: self.samples@,
        }
    }
}

impl Image {
    #[verifier::type_invariant]
    closed spec fn inv(self) -> bool {
        self@.wf()
    }

    /// An image of the given layout and size from its samples. It fails,
    /// and builds nothing, where the samples are not of the layout's type
    /// (invalid image type) or are not exactly as many as the size asks
    /// for (invalid size, with the number of samples).
    pub fn new(layout: PixelLayout, width: u32, height: u32, samples: Samples) -> (r: Result<Image, Error>)
        ensures
            r is Ok <==> fills(layout, width as nat, height as nat, samples@),
            r matches Ok(img) ==> img@ == image_of(layout, width as nat, height as nat, samples@) && img@.wf(),
            r matches Err(e) ==> is_shape_error(e, layout, samples@),
    {
        match check_shape(layout, width as usize, height as usize, &samples) {
            Ok(()) => Ok(Image { layout, width, height, samples }),
            Err(e) => Err(e),
        }
    }

    /// An image from samples that are known to fill it.
    pub(crate) fn assemble(layout: PixelLayout, width: u32, height: u32, samples: Samples) -> (img: Image)
        requires
            fills(layout, width as nat, height as nat, samples@),
        ensures
            img@ == image_of(layout, width as nat, height as nat, samples@),
    {
        Image { layout, width, height, samples }
    }

    /// The pixel layout.
    pub fn layout(&self) -> (l: PixelLayout)
        ensures
            l == self@.layout,
    {
        self.layout
    }

    /// The width, in pixels.
    pub fn width(&self) -> (w: u32)
        ensures
            w == self@.width,
    {
        self.width
    }

    /// The height, in pixels.
    pub fn height(&self) -> (h: u32)
        ensures
            h == self@.height,
    {
        self.height
    }

    /// The samples, which fill the image.
    pub fn samples(&self) -> (s: &Samples)
        ensures
            s@ == self@.samples,
            self@.wf(),
    {
        proof {
            use_type_invariant(self);
        }
        &self.samples
    }

    /// The samples, leaving the image.
    pub fn into_samples(self) -> (s: Samples)
        ensures
            s@ == self@.samples,
            self@.wf(),
    {
        proof {
            use_type_invariant(&self);
        }
        self.samples
    }
}

impl Clone for Image {
    fn clone(&self) -> (img: Self)
        ensures
            img@ == self@,
    {
        proof {
            use_type_invariant(self);
        }
        Image { layout: self.layout, width: self.width, height: self.height, samples: self.samples.clone() }
    }
}

} // verus!
