//! The record in which an image is handed on or stored: the metadata, the
//! tag of the samples, the size and the samples themselves.

use vstd::prelude::*;
use vstd::string::StringExecFns;
use crate::error::Error;
use crate::layout::{PixelLayout, SerialImagePixel};
use crate::metadata::{ImageMetaData, MetaDataView};
use crate::raster::{check_shape, fills, is_shape_error};
use crate::samples::{Samples, SamplesView};

verus! {

/// What a [`SerialImageData`] holds.
pub struct SerialImageDataView {
    /// The metadata.
    pub meta: MetaDataView,
    /// The samples, pixel after pixel and row after row.
    pub samples: SamplesView,
    /// The width, in pixels.
    pub width: nat,
    /// The height, in pixels.
    pub height: nat,
    /// The tag of the samples.
    pub pixel: SerialImagePixel,
}

impl SerialImageDataView {
    /// The tag names a layout, and the samples fill the size in that
    /// layout.
    pub open spec fn wf(self) -> bool {
        self.pixel.spec_layout() matches Some(layout) && fills(layout, self.width, self.height, self.samples)
    }

    /// The layout that the tag names.
    pub open spec fn layout(self) -> PixelLayout
        recommends
            self.wf(),
    {
        self.pixel.spec_layout().unwrap()
    }

    /// The number under which the layout is stored.
    pub open spec fn code(self) -> u8
        recommends
            self.wf(),
    {
        self.layout().spec_code()
    }
}

/// The words of the error for a tag or a number that names no layout.
pub open spec fn unsupported_text() -> Seq<char> {
    "Unsupported image type"@
}

/// The record that its parts make.
pub open spec fn record_of(
    meta: MetaDataView,
    samples: SamplesView,
    width: nat,
    height: nat,
    pixel: SerialImagePixel,
) -> SerialImageDataView {
    SerialImageDataView { meta, samples, width, height, pixel }
}

/// Whether `e` says what is wrong with parts that make no record: invalid
/// image type, with the words of [`unsupported_text`], for a tag that
/// names no layout; else what is wrong with the samples, see
/// [`is_shape_error`].
pub open spec fn is_record_error(e: Error, pixel: SerialImagePixel, samples: SamplesView) -> bool {
    match pixel.spec_layout() {
        None => e matches Error::InvalidImageType(m) && m@ == unsupported_text(),
        Some(layout) => is_shape_error(e, layout, samples),
    }
}

/// The record that is read from stored parts, where the layout is given
/// by its number: none for a number that no layout has, and none for
/// samples that do not fill the size in the layout.
pub open spec fn read_record(meta: MetaDataView, samples: SamplesView, width: nat, height: nat, code: u8) -> Option<
    SerialImageDataView,
> {
    match PixelLayout::spec_from_code(code) {
        None => None,
        Some(layout) => if fills(layout, width, height, samples) {
            Some(record_of(meta, samples, width, height, layout.spec_serial_pixel()))
        } else {
            None
        },
    }
}

/// An image record. Its tag always names a layout, and its samples always
/// fill its width and height in that layout.
#[derive(Debug, PartialEq)]
pub struct SerialImageData {
    meta: ImageMetaData,
    samples: Samples,
    width: usize,
    height: usize,
    pixel: SerialImagePixel,
}

impl View for SerialImageData {
    type V = SerialImageDataView;

    closed spec fn view(&self) -> SerialImageDataView {
        SerialImageDataView {
            meta: self.meta@,
            samples: self.samples@,
            width: self.width as nat,
            height: self.height as nat,
            pixel: self.pixel,
        }
    }
}

impl SerialImageData {
    #[verifier::type_invariant]
    closed spec fn inv(self) -> bool {
        self@.wf()
    }

    /// A record from its parts. It fails, and builds nothing, where the
    /// tag names no layout or the samples are not of the layout's type
    /// (invalid image type), and where the samples are not exactly as
    /// many as the size asks for (invalid size, with the number of
    /// samples): samples are never cut or filled up.
    pub fn new(meta: ImageMetaData, samples: Samples, width: usize, height: usize, pixel: SerialImagePixel) -> (r:
        Result<SerialImageData, Error>)
        ensures
            r is Ok <==> record_of(meta@, samples@, width as nat, height as nat, pixel).wf(),
            r matches Ok(data) ==> data@ == record_of(meta@, samples@, width as nat, height as nat, pixel),
            r matches Err(e) ==> is_record_error(e, pixel, samples@),
    {
        let layout = match pixel.layout() {
            Some(layout) => layout,
            None => {
                return Err(Error::InvalidImageType(String::from_str("Unsupported image type")));
            },
        };
        match check_shape(layout, width, height, &samples) {
            Ok(()) => Ok(SerialImageData { meta, samples, width, height, pixel }),
            Err(e) => Err(e),
        }
    }

    /// A record from parts that are known to make one.
    pub(crate) fn assemble(
        meta: ImageMetaData,
        samples: Samples,
        width: usize,
        height: usize,
        pixel: SerialImagePixel,
    ) -> (data: SerialImageData)
        requires
            record_of(meta@, samples@, width as nat, height as nat, pixel).wf(),
        ensures
            data@ == record_of(meta@, samples@, width as nat, height as nat, pixel),
    {
        SerialImageData { meta, samples, width, height, pixel }
    }

    /// The record that is read from stored parts, where the layout is
    /// given by its number. It fails as [`SerialImageData::new`] does,
    /// with invalid image type for a number that no layout has.
    pub fn from_record(code: u8, width: usize, height: usize, samples: Samples, meta: ImageMetaData) -> (r:
        Result<SerialImageData, Error>)
        ensures
            r is Ok <==> read_record(meta@, samples@, width as nat, height as nat, code) is Some,
            r matches Ok(data) ==> Some(data@) == read_record(meta@, samples@, width as nat, height as nat, code),
            r matches Err(e) ==> match PixelLayout::spec_from_code(code) {
                None => e matches Error::InvalidImageType(m) && m@ == unsupported_text(),
                Some(layout) => is_shape_error(e, layout, samples@),
            },
    {
        match PixelLayout::from_code(code) {
            None => Err(Error::InvalidImageType(String::from_str("Unsupported image type"))),
            Some(layout) => {
                proof {
                    crate::layout::lemma_serial_pixel_round_trip(layout, layout.spec_serial_pixel());
                }
                SerialImageData::new(meta, samples, width, height, layout.serial_pixel())
            },
        }
    }

    /// The metadata.
    pub fn get_metadata(&self) -> (meta: &ImageMetaData)
        ensures
            meta@ == self@.meta,
    {
        &self.meta
    }

    /// The samples, which fill the record.
    pub fn get_data(&self) -> (samples: &Samples)
        ensures
            samples@ == self@.samples,
            self@.wf(),
    {
        proof {
            use_type_invariant(self);
        }
        &self.samples
    }

    /// The width, in pixels.
    pub fn width(&self) -> (w: usize)
        ensures
            w == self@.width,
    {
        self.width
    }

    /// The height, in pixels.
    pub fn height(&self) -> (h: usize)
        ensures
            h == self@.height,
    {
        self.height
    }

    /// The tag of the samples.
    pub fn pixel(&self) -> (p: SerialImagePixel)
        ensures
            p == self@.pixel,
    {
        self.pixel
    }

    /// The layout of the samples.
    pub fn layout(&self) -> (l: PixelLayout)
        ensures
            self@.wf(),
            l == self@.layout(),
    {
        proof {
            use_type_invariant(self);
        }
        match self.pixel.layout() {
            Some(layout) => layout,
            None => PixelLayout::Mono8,
        }
    }

    /// The number under which the layout of the samples is stored.
    pub fn code(&self) -> (c: u8)
        ensures
            self@.wf(),
            c == self@.code(),
    {
        self.layout().code()
    }

    /// The parts of the record: the metadata, the samples, the width, the
    /// height and the tag.
    pub fn into_parts(self) -> (parts: (ImageMetaData, Samples, usize, usize, SerialImagePixel))
        ensures
            self@.wf(),
            self@ == record_of(parts.0@, parts.1@, parts.2 as nat, parts.3 as nat, parts.4),
    {
        proof {
            use_type_invariant(&self);
        }
        (self.meta, self.samples, self.width, self.height, self.pixel)
    }
}

impl Clone for SerialImageData {
    fn clone(&self) -> (data: Self)
        ensures
            data@ == self@,
    {
        proof {
            use_type_invariant(self);
        }
        SerialImageData {
            meta: self.meta.clone(),
            samples: self.samples.clone(),
            width: self.width,
            height: self.height,
            pixel: self.pixel,
        }
    }
}

/// A record is read again from its own parts: stored under the number of
/// its layout with its size, its samples and its metadata, it comes back
/// as it was, with the extended attributes in their order.
pub proof fn lemma_record_round_trip(data: SerialImageDataView)
    requires
        data.wf(),
    ensures
        read_record(data.meta, data.samples, data.width, data.height, data.code()) == Some(data),
{
    crate::layout::lemma_code_round_trip(data.layout(), data.code());
    crate::layout::lemma_serial_pixel_round_trip(data.layout(), data.pixel);
}

/// Parts make a record only where the samples fill the size: with one
/// sample more or less than width times height times the channels of the
/// layout there is none, whatever the rest is.
pub proof fn lemma_shape_is_checked(meta: MetaDataView, samples: SamplesView, width: nat, height: nat, code: u8)
    ensures
        read_record(meta, samples, width, height, code) matches Some(data) ==> data.wf() && data.samples.len()
            == width * height * data.layout().spec_channels(),
        PixelLayout::spec_from_code(code) matches Some(layout) && samples.len() != width * height
            * layout.spec_channels() ==> read_record(meta, samples, width, height, code) is None,
{
    match PixelLayout::spec_from_code(code) {
        Some(layout) => {
            crate::layout::lemma_serial_pixel_round_trip(layout, layout.spec_serial_pixel());
        },
        None => {},
    }
}

} // verus!
