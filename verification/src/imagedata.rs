//! An image with its metadata, and what is made of the two: the record
//! that is handed on, the plan of the stored file, and the exposure of the
//! next image.

use vstd::prelude::*;
use vstd::string::StringExecFns;
use crate::error::Error;
use crate::exposure::OptimumExposure;
use crate::fits::{fits_plan, plan_of, timestamp_ms, timestamp_text, FitsPlan};
use crate::layout::{SampleType, SerialImagePixel};
use crate::luma::{ascending, is_luma_of, sort_ascending};
use crate::metadata::{ImageMetaData, MetaDataView};
use crate::raster::{image_of, sample_types_equal, Image, ImageView};
use crate::serial::{record_of, unsupported_text, SerialImageData, SerialImageDataView};

verus! {

/// What an [`ImageData`] holds.
pub struct ImageDataView {
    /// The image.
    pub image: ImageView,
    /// The metadata.
    pub meta: MetaDataView,
}

/// An image with the metadata of its acquisition.
#[derive(Debug, PartialEq)]
pub struct ImageData {
    img: Image,
    meta: ImageMetaData,
}

impl View for ImageData {
    type V = ImageDataView;

    closed spec fn view(&self) -> ImageDataView {
        ImageDataView { image: self.img@, meta: self.meta@ }
    }
}

/// The record of an image with its metadata: the metadata, the samples
/// and the size as they are, under the tag of the layout.
pub open spec fn serial_of(image: ImageDataView) -> SerialImageDataView {
    record_of(
        image.meta,
        image.image.samples,
        image.image.width,
        image.image.height,
        image.image.layout.spec_serial_pixel(),
    )
}

/// The image with its metadata that a record holds: the samples, the size
/// and the metadata as they are, in the layout that the tag names. There
/// is none for a record whose width or height is no 32-bit number.
pub open spec fn image_of_serial(data: SerialImageDataView) -> Option<ImageDataView> {
    if data.width <= u32::MAX && data.height <= u32::MAX {
        Some(
            ImageDataView {
                image: image_of(data.layout(), data.width, data.height, data.samples),
                meta: data.meta,
            },
        )
    } else {
        None
    }
}

impl ImageData {
    /// An image with its metadata.
    pub fn new(img: Image, meta: ImageMetaData) -> (data: Self)
        ensures
            data@ == (ImageDataView { image: img@, meta: meta@ }),
    {
        ImageData { img, meta }
    }

    /// Adds an extended attribute to the metadata, after those that are
    /// there.
    pub fn add_extended_attrib(&mut self, key: &str, val: &str)
        ensures
            final(self)@ == (ImageDataView { meta: old(self)@.meta.with_attrib(key@, val@), ..old(self)@ }),
    {
        self.meta.add_extended_attrib(key, val);
    }

    /// The metadata.
    pub fn get_metadata(&self) -> (meta: &ImageMetaData)
        ensures
            meta@ == self@.meta,
    {
        &self.meta
    }

    /// Replaces the metadata.
    pub fn set_metadata(&mut self, meta: ImageMetaData)
        ensures
            final(self)@ == (ImageDataView { meta: meta@, ..old(self)@ }),
    {
        self.meta = meta;
    }

    /// The image.
    pub fn get_image(&self) -> (img: &Image)
        ensures
            img@ == self@.image,
    {
        &self.img
    }

    /// The image, to be replaced by another.
    pub fn get_image_mut(&mut self) -> (img: &mut Image)
        ensures
            img@ == old(self)@.image,
            final(self)@ == (ImageDataView { image: final(img)@, ..old(self)@ }),
    {
        &mut self.img
    }

    /// The image and the metadata, apart.
    pub fn into_parts(self) -> (parts: (Image, ImageMetaData))
        ensures
            self@ == (ImageDataView { image: parts.0@, meta: parts.1@ }),
    {
        (self.img, self.meta)
    }

    /// The tag under which the samples of the image are handed on: their
    /// type with the number of channels. Every layout has one.
    pub fn get_serial_pixel(self) -> (r: Result<SerialImagePixel, Error>)
        ensures
            r == Ok::<SerialImagePixel, Error>(self@.image.layout.spec_serial_pixel()),
    {
        Ok(self.img.layout().serial_pixel())
    }

    /// The record of the image with its metadata, see [`serial_of`]. The
    /// samples and the metadata are copied.
    pub fn serialize(&self) -> (data: SerialImageData)
        ensures
            data@ == serial_of(self@),
            data@.wf(),
    {
        let samples = self.img.samples().clone();
        let pixel = self.img.layout().serial_pixel();
        proof {
            crate::layout::lemma_serial_pixel_round_trip(self@.image.layout, pixel);
        }
        SerialImageData::assemble(
            self.meta.clone(),
            samples,
            self.img.width() as usize,
            self.img.height() as usize,
            pixel,
        )
    }

    /// The image with its metadata that a record holds, see
    /// [`image_of_serial`]. The samples and the metadata are copied.
    ///
    /// It fails where the width or the height of the record is no 32-bit
    /// number: with an invalid size, that of the width where the width is
    /// none, else that of the height.
    pub fn try_from(value: &SerialImageData) -> (r: Result<ImageData, Error>)
        ensures
            r is Ok <==> image_of_serial(value@) is Some,
            r matches Ok(data) ==> Some(data@) == image_of_serial(value@),
            r matches Err(e) ==> e == Error::InvalidSize(
                if value@.width > u32::MAX {
                    value@.width as usize
                } else {
                    value@.height as usize
                },
            ),
    {
        let width = value.width();
        let height = value.height();
        if width > u32::MAX as usize {
            return Err(Error::InvalidSize(width));
        }
        if height > u32::MAX as usize {
            return Err(Error::InvalidSize(height));
        }
        let layout = value.layout();
        let samples = value.get_data().clone();
        let img = Image::assemble(layout, width as u32, height as u32, samples);
        Ok(ImageData { img, meta: value.get_metadata().clone() })
    }

    /// The exposure time, in nanoseconds, and the binning with which the
    /// next image reaches the target brightness: what
    /// [`OptimumExposure::calculate`] gives for a luminance of the image,
    /// see [`is_luma_of`], in ascending order, for its exposure and its
    /// binning. An image without samples has no luminance and is taken
    /// as dark.
    ///
    /// The percentile, the target and the uncertainty are given in parts
    /// per million, the exposure bounds in nanoseconds. It fails with an
    /// invalid value where what is asked cannot be asked, see
    /// [`OptimumExposure::fault`], and in no other case.
    pub fn find_optimum_exposure(
        &self,
        percentile_pix: u32,
        pixel_tgt: u32,
        pixel_uncertainty: u32,
        min_allowed_exp: u64,
        max_allowed_exp: u64,
        max_allowed_bin: u16,
        pixel_exclusion: u32,
    ) -> (r: Result<(u64, u32), Error>)
        ensures
            ({
                let request = OptimumExposure {
                    percentile_pix,
                    pixel_tgt,
                    pixel_uncertainty,
                    min_allowed_exp,
                    max_allowed_exp,
                    max_allowed_bin,
                    pixel_exclusion,
                };
                &&& r is Ok <==> request.fault() is None
                &&& r matches Ok(next) ==> exists|luma: Seq<u16>|
                    #[trigger] is_luma_of(self@.image, luma) && (next.0 as nat, next.1 as nat)
                        == request.optimum(
                        ascending(luma),
                        self@.meta.exposure_ns as nat,
                        self@.meta.bin_x as nat,
                        self@.meta.bin_y as nat,
                    )
                &&& r matches Err(e) ==> e matches Error::InvalidValue(m) && Some(m@) == request.fault()
            }),
    {
        let request = OptimumExposure {
            percentile_pix,
            pixel_tgt,
            pixel_uncertainty,
            min_allowed_exp,
            max_allowed_exp,
            max_allowed_bin,
            pixel_exclusion,
        };
        match request.validate() {
            Ok(()) => {},
            Err(e) => {
                return Err(e);
            },
        }
        let mut luma = self.img.to_luma16();
        let ghost unsorted = luma@;
        sort_ascending(&mut luma);
        let r = request.calculate(&luma, self.meta.exposure_ns, self.meta.bin_x, self.meta.bin_y);
        assert(is_luma_of(self@.image, unsorted));
        r
    }

    /// All that is written to store the image as a FITS file, see
    /// [`fits_plan`].
    pub fn fits_plan(&self, file_prefix: &str, progname: &str, compress: bool) -> (r: Result<FitsPlan, Error>)
        ensures
            r is Ok <==> timestamp_ms(self@.meta.timestamp_ns) is Some,
            r matches Ok(plan) ==> plan@ == plan_of(
                self@.image,
                self@.meta,
                file_prefix@,
                progname@,
                compress,
                timestamp_ms(self@.meta.timestamp_ns).unwrap(),
            ),
            r matches Err(e) ==> e matches Error::InvalidValue(m) && m@ == timestamp_text(),
    {
        fits_plan(&self.img, &self.meta, file_prefix, progname, compress)
    }
}

impl Clone for ImageData {
    fn clone(&self) -> (data: Self)
        ensures
            data@ == self@,
    {
        ImageData { img: self.img.clone(), meta: self.meta.clone() }
    }
}

impl SerialImageData {
    /// The record of an image with its metadata, see [`serial_of`], for a
    /// reader that takes samples of one type.
    ///
    /// It fails, with an invalid image type, where the samples of the
    /// image are of another type than the one asked for, and in no other
    /// case.
    pub fn try_from(value: &ImageData, sample_type: SampleType) -> (r: Result<SerialImageData, Error>)
        ensures
            r is Ok <==> value@.image.layout.spec_sample_type() == sample_type,
            r matches Ok(data) ==> data@ == serial_of(value@) && data@.wf(),
            r matches Err(e) ==> e matches Error::InvalidImageType(m) && m@ == unsupported_text(),
    {
        if !sample_types_equal(value.get_image().layout().sample_type(), sample_type) {
            return Err(Error::InvalidImageType(String::from_str("Unsupported image type")));
        }
        Ok(value.serialize())
    }
}

/// An image with its metadata comes back from its record as it was:
/// sample for sample, with its layout and its size, and with its
/// metadata.
pub proof fn lemma_image_round_trip(image: ImageDataView)
    requires
        image.image.wf(),
    ensures
        serial_of(image).wf(),
        image_of_serial(serial_of(image)) == Some(image),
{
    crate::layout::lemma_serial_pixel_round_trip(image.image.layout, image.image.layout.spec_serial_pixel());
}

/// A record whose width and height are 32-bit numbers comes back from its
/// image as it was, and that image is filled by its samples.
pub proof fn lemma_serial_round_trip(data: SerialImageDataView)
    requires
        data.wf(),
        data.width <= u32::MAX,
        data.height <= u32::MAX,
    ensures
        image_of_serial(data) matches Some(image) && image.image.wf() && serial_of(image) == data,
{
    crate::layout::lemma_serial_pixel_round_trip(data.layout(), data.pixel);
}

} // verus!
