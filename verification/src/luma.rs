//! The brightness of an image: its luminance on the 16-bit scale, which
//! the `image` crate computes, and the samples of that luminance in
//! ascending order.

use vstd::prelude::*;
use vstd::relations::{sorted_by, total_ordering};
use vstd::seq_lib::lemma_sorted_unique;
use image::DynamicImage;
use image::ImageBuffer;
use crate::layout::PixelLayout;
use crate::raster::{fills, image_of, Image, ImageView};
use crate::samples::{Samples, SamplesView};

verus! {

/// Whether `luma` is the 16-bit luminance of an image, one sample for
/// each pixel, row after row.
///
/// An image without samples has none. Of an image of one channel, or of
/// luminance and alpha, the luminance is the first sample of each pixel,
/// an 8-bit sample brought to the 16-bit scale by the factor 257. Of an
/// image of red, green and blue the luminance is a weighted sum that is
/// rounded as the machine rounds it: only its length is fixed here.
pub open spec fn is_luma_of(image: ImageView, luma: Seq<u16>) -> bool {
    if image.samples.len() == 0 {
        luma.len() == 0
    } else {
        &&& luma.len() == image.width * image.height
        &&& match (image.layout, image.samples) {
            (PixelLayout::Mono8, SamplesView::U8(s)) => forall|i: int|
                0 <= i < luma.len() ==> #[trigger] luma[i] == s[i] * 257,
            (PixelLayout::Mono16, SamplesView::U16(s)) => luma == s,
            (PixelLayout::LumaAlpha8, SamplesView::U8(s)) => forall|i: int|
                0 <= i < luma.len() ==> #[trigger] luma[i] == s[2 * i] * 257,
            (PixelLayout::LumaAlpha16, SamplesView::U16(s)) => forall|i: int|
                0 <= i < luma.len() ==> #[trigger] luma[i] == s[2 * i],
            _ => true,
        }
    }
}

/// `image::DynamicImage::into_luma16` on an image of one 8-bit channel,
/// which `image::ImageBuffer::from_raw` builds from the samples. The result has one sample for each
/// pixel: the sample of the pixel times 257, which brings it to the 16-bit
/// scale.
#[verifier::external_body]
fn luma16_of_mono8(width: u32, height: u32, data: Vec<u8>) -> (out: Vec<u16>)
    requires
        fills(PixelLayout::Mono8, width as nat, height as nat, SamplesView::U8(data@)),
    ensures
        out@.len() == width * height,
        out@.len() == data@.len(),
        forall|i: int| 0 <= i < out@.len() ==> #[trigger] out@[i] == data@[i] * 257,
{
    DynamicImage::ImageLuma8(ImageBuffer::from_raw(width, height, data).unwrap()).into_luma16().into_raw()
}

/// `image::DynamicImage::into_luma16` on an image of 8-bit luminance and alpha,
/// which `image::ImageBuffer::from_raw` builds from the samples. The result has one sample for each
/// pixel: the luminance of the pixel times 257, which brings it to the
/// 16-bit scale. The image has samples: `from_raw` multiplies the
/// channels by the width before the height, which may not fit where the
/// height is zero.
#[verifier::external_body]
fn luma16_of_luma_alpha8(width: u32, height: u32, data: Vec<u8>) -> (out: Vec<u16>)
    requires
        fills(PixelLayout::LumaAlpha8, width as nat, height as nat, SamplesView::U8(data@)),
        data@.len() > 0,
    ensures
        out@.len() == width * height,
        forall|i: int| 0 <= i < out@.len() ==> #[trigger] out@[i] == data@[2 * i] * 257,
{
    DynamicImage::ImageLumaA8(ImageBuffer::from_raw(width, height, data).unwrap()).into_luma16().into_raw()
}

/// `image::DynamicImage::into_luma16` on an image of 8-bit red, green and blue,
/// which `image::ImageBuffer::from_raw` builds from the samples. The result has one sample for each
/// pixel. Its samples are weighted sums that are rounded as the machine
/// rounds them: nothing is said of them. The image has samples: `from_raw` multiplies the
/// channels by the width before the height, which may not fit where the
/// height is zero.
#[verifier::external_body]
fn luma16_of_rgb8(width: u32, height: u32, data: Vec<u8>) -> (out: Vec<u16>)
    requires
        fills(PixelLayout::RGB8, width as nat, height as nat, SamplesView::U8(data@)),
        data@.len() > 0,
    ensures
        out@.len() == width * height,
{
    DynamicImage::ImageRgb8(ImageBuffer::from_raw(width, height, data).unwrap()).into_luma16().into_raw()
}

/// `image::DynamicImage::into_luma16` on an image of 8-bit red, green, blue and alpha,
/// which `image::ImageBuffer::from_raw` builds from the samples. The result has one sample for each
/// pixel. Its samples are weighted sums that are rounded as the machine
/// rounds them: nothing is said of them. The image has samples: `from_raw` multiplies the
/// channels by the width before the height, which may not fit where the
/// height is zero.
#[verifier::external_body]
fn luma16_of_rgba8(width: u32, height: u32, data: Vec<u8>) -> (out: Vec<u16>)
    requires
        fills(PixelLayout::RGBA8, width as nat, height as nat, SamplesView::U8(data@)),
        data@.len() > 0,
    ensures
        out@.len() == width * height,
{
    DynamicImage::ImageRgba8(ImageBuffer::from_raw(width, height, data).unwrap()).into_luma16().into_raw()
}

/// `image::DynamicImage::into_luma16` on an image of one 16-bit channel,
/// which `image::ImageBuffer::from_raw` builds from the samples. Such an image is its own
/// luminance: its samples come back as they are.
#[verifier::external_body]
fn luma16_of_mono16(width: u32, height: u32, data: Vec<u16>) -> (out: Vec<u16>)
    requires
        fills(PixelLayout::Mono16, width as nat, height as nat, SamplesView::U16(data@)),
    ensures
        out@.len() == width * height,
        out@ == data@,
{
    DynamicImage::ImageLuma16(ImageBuffer::from_raw(width, height, data).unwrap()).into_luma16().into_raw()
}

/// `image::DynamicImage::into_luma16` on an image of 16-bit luminance and alpha,
/// which `image::ImageBuffer::from_raw` builds from the samples. The result has one sample for each
/// pixel: the luminance of the pixel as it is. The image has samples: `from_raw` multiplies the
/// channels by the width before the height, which may not fit where the
/// height is zero.
#[verifier::external_body]
fn luma16_of_luma_alpha16(width: u32, height: u32, data: Vec<u16>) -> (out: Vec<u16>)
    requires
        fills(PixelLayout::LumaAlpha16, width as nat, height as nat, SamplesView::U16(data@)),
        data@.len() > 0,
    ensures
        out@.len() == width * height,
        forall|i: int| 0 <= i < out@.len() ==> #[trigger] out@[i] == data@[2 * i],
{
    DynamicImage::ImageLumaA16(ImageBuffer::from_raw(width, height, data).unwrap()).into_luma16().into_raw()
}

/// `image::DynamicImage::into_luma16` on an image of 16-bit red, green and blue,
/// which `image::ImageBuffer::from_raw` builds from the samples. The result has one sample for each
/// pixel. Its samples are weighted sums that are rounded as the machine
/// rounds them: nothing is said of them. The image has samples: `from_raw` multiplies the
/// channels by the width before the height, which may not fit where the
/// height is zero.
#[verifier::external_body]
fn luma16_of_rgb16(width: u32, height: u32, data: Vec<u16>) -> (out: Vec<u16>)
    requires
        fills(PixelLayout::RGB16, width as nat, height as nat, SamplesView::U16(data@)),
        data@.len() > 0,
    ensures
        out@.len() == width * height,
{
    DynamicImage::ImageRgb16(ImageBuffer::from_raw(width, height, data).unwrap()).into_luma16().into_raw()
}

/// `image::DynamicImage::into_luma16` on an image of 16-bit red, green, blue and alpha,
/// which `image::ImageBuffer::from_raw` builds from the samples. The result has one sample for each
/// pixel. Its samples are weighted sums that are rounded as the machine
/// rounds them: nothing is said of them. The image has samples: `from_raw` multiplies the
/// channels by the width before the height, which may not fit where the
/// height is zero.
#[verifier::external_body]
fn luma16_of_rgba16(width: u32, height: u32, data: Vec<u16>) -> (out: Vec<u16>)
    requires
        fills(PixelLayout::RGBA16, width as nat, height as nat, SamplesView::U16(data@)),
        data@.len() > 0,
    ensures
        out@.len() == width * height,
{
    DynamicImage::ImageRgba16(ImageBuffer::from_raw(width, height, data).unwrap()).into_luma16().into_raw()
}

/// `image::DynamicImage::into_luma16` on an image of IEEE-754 red, green and blue,
/// which `image::ImageBuffer::from_raw` builds from the samples, read from
/// their bits by `bytemuck::cast_vec`. The result has one sample for each
/// pixel. Its samples are weighted sums that are rounded as the machine
/// rounds them: nothing is said of them. The image has samples: `from_raw` multiplies the
/// channels by the width before the height, which may not fit where the
/// height is zero.
#[verifier::external_body]
fn luma16_of_rgb32f(width: u32, height: u32, data: Vec<u32>) -> (out: Vec<u16>)
    requires
        fills(PixelLayout::RGB32F, width as nat, height as nat, SamplesView::F32(data@)),
        data@.len() > 0,
    ensures
        out@.len() == width * height,
{
    let numbers = bytemuck::cast_vec(data);
    DynamicImage::ImageRgb32F(ImageBuffer::from_raw(width, height, numbers).unwrap()).into_luma16().into_raw()
}

/// `image::DynamicImage::into_luma16` on an image of IEEE-754 red, green, blue and alpha,
/// which `image::ImageBuffer::from_raw` builds from the samples, read from
/// their bits by `bytemuck::cast_vec`. The result has one sample for each
/// pixel. Its samples are weighted sums that are rounded as the machine
/// rounds them: nothing is said of them. The image has samples: `from_raw` multiplies the
/// channels by the width before the height, which may not fit where the
/// height is zero.
#[verifier::external_body]
fn luma16_of_rgba32f(width: u32, height: u32, data: Vec<u32>) -> (out: Vec<u16>)
    requires
        fills(PixelLayout::RGBA32F, width as nat, height as nat, SamplesView::F32(data@)),
        data@.len() > 0,
    ensures
        out@.len() == width * height,
{
    let numbers = bytemuck::cast_vec(data);
    DynamicImage::ImageRgba32F(ImageBuffer::from_raw(width, height, numbers).unwrap()).into_luma16().into_raw()
}

/// The order of 16-bit samples by their size.
pub open spec fn at_most() -> spec_fn(u16, u16) -> bool {
    |a: u16, b: u16| a <= b
}

/// The samples in ascending order: the same samples, each as often as it
/// occurs, the smaller before the larger.
pub open spec fn ascending(samples: Seq<u16>) -> Seq<u16> {
    samples.sort_by(at_most())
}

/// `slice::sort` on 16-bit samples: the samples are the same afterwards,
/// each as often as before, and stand in ascending order.
#[verifier::external_body]
fn sort_samples(samples: &mut Vec<u16>)
    ensures
        sorted_by(final(samples)@, at_most()),
        final(samples)@.to_multiset() == old(samples)@.to_multiset(),
{
    samples.sort();
}

/// Puts samples in ascending order.
pub fn sort_ascending(samples: &mut Vec<u16>)
    ensures
        final(samples)@ == ascending(old(samples)@),
{
    sort_samples(samples);
    proof {
        assert(total_ordering(at_most()));
        old(samples)@.lemma_sort_by_ensures(at_most());
        lemma_sorted_unique(samples@, ascending(old(samples)@), at_most());
    }
}

impl Image {
    /// The 16-bit luminance of the image, one sample for each pixel, see
    /// [`is_luma_of`]. An image without samples has none, and an image of
    /// one 16-bit channel is its own luminance.
    pub fn to_luma16(&self) -> (out: Vec<u16>)
        ensures
            is_luma_of(self@, out@),
            out@.len() == self@.width * self@.height,
            self@.layout == PixelLayout::Mono16 ==> self@.samples == SamplesView::U16(out@),
    {
        let width = self.width();
        let height = self.height();
        let samples = self.samples();
        if samples.len() == 0 {
            proof {
                let channels = self@.layout.spec_channels() as nat;
                assert(self@.width * self@.height == 0) by (nonlinear_arith)
                    requires
                        self@.width * self@.height * channels == 0,
                        channels >= 1,
                ;
                match self@.samples {
                    SamplesView::U8(s) => assert(s =~= Seq::<u8>::empty()),
                    SamplesView::U16(s) => assert(s =~= Seq::<u16>::empty()),
                    SamplesView::F32(s) => assert(s =~= Seq::<u32>::empty()),
                }
            }
            return Vec::new();
        }
        match samples {
            Samples::U8(data) => {
                let copy = data.clone();
                assert(copy@ =~= data@);
                match self.layout() {
                    PixelLayout::Mono8 => luma16_of_mono8(width, height, copy),
                    PixelLayout::LumaAlpha8 => luma16_of_luma_alpha8(width, height, copy),
                    PixelLayout::RGB8 => luma16_of_rgb8(width, height, copy),
                    _ => luma16_of_rgba8(width, height, copy),
                }
            },
            Samples::U16(data) => {
                let copy = data.clone();
                assert(copy@ =~= data@);
                match self.layout() {
                    PixelLayout::Mono16 => luma16_of_mono16(width, height, copy),
                    PixelLayout::LumaAlpha16 => luma16_of_luma_alpha16(width, height, copy),
                    PixelLayout::RGB16 => luma16_of_rgb16(width, height, copy),
                    _ => luma16_of_rgba16(width, height, copy),
                }
            },
            Samples::F32(data) => {
                let copy = data.clone();
                assert(copy@ =~= data@);
                match self.layout() {
                    PixelLayout::RGB32F => luma16_of_rgb32f(width, height, copy),
                    _ => luma16_of_rgba32f(width, height, copy),
                }
            },
        }
    }
}

/// An image of one channel, or of luminance and alpha, has one
/// luminance only, and so has an image without samples.
pub proof fn lemma_integer_luma_is_one(image: ImageView, a: Seq<u16>, b: Seq<u16>)
    requires
        image.wf(),
        is_luma_of(image, a),
        is_luma_of(image, b),
        image.samples.len() == 0 || image.layout.spec_channels() <= 2,
    ensures
        a == b,
{
    assert(a =~= b);
}

} // verus!
