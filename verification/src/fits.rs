//! How an image is stored as a FITS file: the name of the file, one image
//! extension for each channel, and the header fields of the first
//! extension. Nothing here touches a file: what is planned here is
//! written elsewhere.

use vstd::prelude::*;
use vstd::string::StringExecFns;
use crate::error::Error;
use crate::layout::{Channel, PixelLayout, SampleType};
use crate::metadata::{ImageMetaData, MetaDataView};
use crate::raster::{Image, ImageView};
use crate::samples::{Samples, SamplesView};
use crate::text::{decimal, push_decimal};

verus! {

/// The type in which the samples are stored in the file.
#[derive(Clone, Copy, Debug, PartialEq, Eq, Structural)]
pub enum FitsImageType {
    /// Bytes, for 8-bit samples.
    UnsignedByte,
    /// Unsigned shorts, for 16-bit samples.
    UnsignedShort,
    /// Single precision numbers, for 32-bit IEEE-754 samples.
    Float,
}

/// The value of a header field, in the width in which it is written.
#[derive(Debug, PartialEq)]
pub enum HeaderValue {
    /// A text.
    Text(String),
    /// A signed 32-bit integer.
    I32(i32),
    /// An unsigned 32-bit integer.
    U32(u32),
    /// A signed 64-bit integer.
    I64(i64),
    /// An unsigned 64-bit integer.
    U64(u64),
    /// A single precision number, by its bits.
    F32(u32),
}

/// What a [`HeaderValue`] holds.
pub enum HeaderValueView {
    /// A text.
    Text(Seq<char>),
    /// A signed 32-bit integer.
    I32(i32),
    /// An unsigned 32-bit integer.
    U32(u32),
    /// A signed 64-bit integer.
    I64(i64),
    /// An unsigned 64-bit integer.
    U64(u64),
    /// A single precision number, by its bits.
    F32(u32),
}

impl View for HeaderValue {
    type V = HeaderValueView;

    open spec fn view(&self) -> HeaderValueView {
        match self {
            HeaderValue::Text(s) => HeaderValueView::Text(s@),
            HeaderValue::I32(v) => HeaderValueView::I32(*v),
            HeaderValue::U32(v) => HeaderValueView::U32(*v),
            HeaderValue::I64(v) => HeaderValueView::I64(*v),
            HeaderValue::U64(v) => HeaderValueView::U64(*v),
            HeaderValue::F32(v) => HeaderValueView::F32(*v),
        }
    }
}

/// One header field: a key with its value.
#[derive(Debug, PartialEq)]
pub struct HeaderField {
    /// The key.
    pub key: String,
    /// The value.
    pub value: HeaderValue,
}

impl View for HeaderField {
    type V = (Seq<char>, HeaderValueView);

    open spec fn view(&self) -> (Seq<char>, HeaderValueView) {
        (self.key@, self.value@)
    }
}

/// One image extension of the file: its name and the samples of its
/// channel, row after row.
#[derive(Debug, PartialEq)]
pub struct FitsExtension {
    /// The name of the extension.
    pub name: String,
    /// The samples of the channel.
    pub samples: Samples,
}

/// What a [`FitsExtension`] holds.
pub struct FitsExtensionView {
    /// The name of the extension.
    pub name: Seq<char>,
    /// The samples of the channel.
    pub samples: SamplesView,
}

impl View for FitsExtension {
    type V = FitsExtensionView;

    open spec fn view(&self) -> FitsExtensionView {
        FitsExtensionView { name: self.name@, samples: self.samples@ }
    }
}

/// All that is written for one image.
#[derive(Debug, PartialEq)]
pub struct FitsPlan {
    /// The name of the file in its directory.
    pub file_name: String,
    /// The name under which the file is created: the file name, followed
    /// by the request for compression where one is made.
    pub create_name: String,
    /// The type in which the samples are stored.
    pub data_type: FitsImageType,
    /// The width of every extension, in pixels.
    pub width: u32,
    /// The height of every extension, in pixels.
    pub height: u32,
    /// The extensions, in the order in which they are written. The first
    /// one carries the header fields.
    pub extensions: Vec<FitsExtension>,
    /// The header fields of the first extension, in the order in which
    /// they are written.
    pub header: Vec<HeaderField>,
}

/// What a [`FitsPlan`] holds.
pub struct FitsPlanView {
    /// The name of the file in its directory.
    pub file_name: Seq<char>,
    /// The name under which the file is created.
    pub create_name: Seq<char>,
    /// The type in which the samples are stored.
    pub data_type: FitsImageType,
    /// The width of every extension.
    pub width: nat,
    /// The height of every extension.
    pub height: nat,
    /// The extensions, in order.
    pub extensions: Seq<FitsExtensionView>,
    /// The header fields of the first extension, in order.
    pub header: Seq<(Seq<char>, HeaderValueView)>,
}

/// What a list of extensions holds.
pub open spec fn extensions_view(list: Seq<FitsExtension>) -> Seq<FitsExtensionView> {
    Seq::new(list.len(), |i: int| list[i]@)
}

/// What a list of header fields holds.
pub open spec fn header_view(list: Seq<HeaderField>) -> Seq<(Seq<char>, HeaderValueView)> {
    Seq::new(list.len(), |i: int| list[i]@)
}

impl View for FitsPlan {
    type V = FitsPlanView;

    open spec fn view(&self) -> FitsPlanView {
        FitsPlanView {
            file_name: self.file_name@,
            create_name: self.create_name@,
            data_type: self.data_type,
            width: self.width as nat,
            height: self.height as nat,
            extensions: extensions_view(self.extensions@),
            header: header_view(self.header@),
        }
    }
}

/// The name of the extension that holds a channel.
pub open spec fn channel_name(channel: Channel) -> Seq<char> {
    match channel {
        Channel::Mono => "IMAGE"@,
        Channel::Luma => "LUMA"@,
        Channel::Red => "RED"@,
        Channel::Green => "GREEN"@,
        Channel::Blue => "BLUE"@,
        Channel::Alpha => "ALPHA"@,
    }
}

/// The type in which samples of a type are stored in the file.
pub open spec fn storage_type(t: SampleType) -> FitsImageType {
    match t {
        SampleType::U8 => FitsImageType::UnsignedByte,
        SampleType::U16 => FitsImageType::UnsignedShort,
        SampleType::F32 => FitsImageType::Float,
    }
}

/// The extensions of an image: one for each channel of its layout, in the
/// order of the channels in a pixel, each under the name of its channel
/// and with the samples of that channel.
pub open spec fn extensions_of(image: ImageView) -> Seq<FitsExtensionView> {
    Seq::new(
        image.layout.spec_channels() as nat,
        |k: int|
            FitsExtensionView {
                name: channel_name(image.layout.spec_channel(k as usize)),
                samples: image.samples.plane(image.layout.spec_channels() as int, k),
            },
    )
}

/// The time of an image in whole milliseconds since the Unix epoch, as it
/// is written: the low 64 bits of the count. There is none for a time
/// before the epoch.
pub open spec fn timestamp_ms(timestamp_ns: i128) -> Option<u64> {
    if timestamp_ns < 0 {
        None
    } else {
        Some(((timestamp_ns / 1_000_000) % 0x1_0000_0000_0000_0000) as u64)
    }
}

/// The header fields that every image has, in the order in which they are
/// written: the number of channels, the program, the camera, the time in
/// milliseconds, the temperature, the exposure in whole microseconds, the
/// origin, the binning, gain and offset, and the gain bounds.
pub open spec fn fixed_header(meta: MetaDataView, program: Seq<char>, channels: i32, millis: u64) -> Seq<
    (Seq<char>, HeaderValueView),
> {
    seq![
        ("CHANNELS"@, HeaderValueView::I32(channels)),
        ("PROGRAM"@, HeaderValueView::Text(program)),
        ("CAMERA"@, HeaderValueView::Text(meta.camera_name)),
        ("TIMESTAMP"@, HeaderValueView::U64(millis)),
        ("CCDTEMP"@, HeaderValueView::F32(meta.temperature_bits)),
        ("EXPOSURE_US"@, HeaderValueView::U64((meta.exposure_ns / 1000) as u64)),
        ("ORIGIN_X"@, HeaderValueView::U32(meta.img_left)),
        ("ORIGIN_Y"@, HeaderValueView::U32(meta.img_top)),
        ("BINX"@, HeaderValueView::U32(meta.bin_x)),
        ("BINY"@, HeaderValueView::U32(meta.bin_y)),
        ("GAIN"@, HeaderValueView::I64(meta.gain)),
        ("OFFSET"@, HeaderValueView::I64(meta.offset)),
        ("GAIN_MIN"@, HeaderValueView::I32(meta.min_gain)),
        ("GAIN_MAX"@, HeaderValueView::I32(meta.max_gain)),
    ]
}

/// The header fields of the extended attributes: one text field for each
/// attribute, in the order of the attributes.
pub open spec fn extended_header(extended: Seq<(Seq<char>, Seq<char>)>) -> Seq<(Seq<char>, HeaderValueView)> {
    Seq::new(extended.len(), |i: int| (extended[i].0, HeaderValueView::Text(extended[i].1)))
}

/// Whether a character is white space: whether it has the Unicode
/// property White_Space, by which `str::trim` goes. These are the
/// controls from tab to carriage return, the space, the next-line
/// control, the no-break space, the Ogham space mark, the spaces from en
/// quad to hair space, the line and the paragraph separator, the narrow
/// no-break space, the medium mathematical space and the ideographic
/// space.
pub open spec fn is_white_space(c: char) -> bool {
    let n = c as u32;
    ||| 0x0009 <= n <= 0x000D
    ||| n == 0x0020
    ||| n == 0x0085
    ||| n == 0x00A0
    ||| n == 0x1680
    ||| 0x2000 <= n <= 0x200A
    ||| n == 0x2028
    ||| n == 0x2029
    ||| n == 0x202F
    ||| n == 0x205F
    ||| n == 0x3000
}

/// Whether a text is blank: whether every character of it is white
/// space, as in the empty text.
pub open spec fn blank(text: Seq<char>) -> bool {
    forall|i: int| 0 <= i < text.len() ==> is_white_space(#[trigger] text[i])
}

/// The first part of the file name, where it is known whether the prefix
/// is blank: the prefix that is asked for or, where that is blank, the
/// name of the camera or, where there is none, the word `image`.
pub open spec fn stem_of(prefix: Seq<char>, prefix_is_blank: bool, camera_name: Seq<char>) -> Seq<char> {
    if !prefix_is_blank {
        prefix
    } else if camera_name.len() > 0 {
        camera_name
    } else {
        "image"@
    }
}

/// The first part of the file name: the prefix that is asked for or,
/// where that is blank, the name of the camera or, where there is none,
/// the word `image`.
pub open spec fn file_stem(prefix: Seq<char>, camera_name: Seq<char>) -> Seq<char> {
    stem_of(prefix, blank(prefix), camera_name)
}

/// The name of the file: the stem, an underscore, the time in
/// milliseconds as a decimal numeral, and the ending `.fits`.
pub open spec fn file_name(stem: Seq<char>, millis: u64) -> Seq<char> {
    stem + "_"@ + decimal(millis as nat) + ".fits"@
}

/// The name under which the file is created: the file name, and behind it
/// `[compress]` where the file is to be compressed.
pub open spec fn create_name(name: Seq<char>, compress: bool) -> Seq<char> {
    if compress {
        name + "[compress]"@
    } else {
        name
    }
}

/// The words of the error for an image taken before the Unix epoch.
pub open spec fn timestamp_text() -> Seq<char> {
    "Could not convert timestamp to milliseconds"@
}

/// All that is written for an image with its metadata, where its time is
/// `millis`.
pub open spec fn plan_of(
    image: ImageView,
    meta: MetaDataView,
    prefix: Seq<char>,
    program: Seq<char>,
    compress: bool,
    millis: u64,
) -> FitsPlanView {
    FitsPlanView {
        file_name: file_name(file_stem(prefix, meta.camera_name), millis),
        create_name: create_name(file_name(file_stem(prefix, meta.camera_name), millis), compress),
        data_type: storage_type(image.layout.spec_sample_type()),
        width: image.width,
        height: image.height,
        extensions: extensions_of(image),
        header: fixed_header(meta, program, image.layout.spec_channels() as i32, millis) + extended_header(
            meta.extended,
        ),
    }
}

/// `str::trim`: the text without the white space at its two ends.
/// Nothing is left exactly of a text that is blank.
#[verifier::external_body]
fn trim(text: &str) -> (out: &str)
    ensures
        out@.len() == 0 <==> blank(text@),
{
    text.trim()
}

/// Whether a text is blank, see [`blank`].
pub fn is_blank(text: &str) -> (b: bool)
    ensures
        b == blank(text@),
{
    trim(text).is_empty()
}

/// The first part of the file name, where it is known whether the prefix
/// is blank, see [`stem_of`].
pub fn choose_stem<'a>(prefix: &'a str, prefix_is_blank: bool, camera_name: &'a str) -> (stem: &'a str)
    ensures
        stem@ == stem_of(prefix@, prefix_is_blank, camera_name@),
{
    if !prefix_is_blank {
        prefix
    } else if !camera_name.is_empty() {
        camera_name
    } else {
        "image"
    }
}

/// The name of the extension that holds a channel.
pub fn channel_name_str(channel: Channel) -> (name: &'static str)
    ensures
        name@ == channel_name(channel),
{
    match channel {
        Channel::Mono => "IMAGE",
        Channel::Luma => "LUMA",
        Channel::Red => "RED",
        Channel::Green => "GREEN",
        Channel::Blue => "BLUE",
        Channel::Alpha => "ALPHA",
    }
}

/// The type in which samples of a type are stored in the file.
pub fn storage_type_of(t: SampleType) -> (s: FitsImageType)
    ensures
        s == storage_type(t),
{
    match t {
        SampleType::U8 => FitsImageType::UnsignedByte,
        SampleType::U16 => FitsImageType::UnsignedShort,
        SampleType::F32 => FitsImageType::Float,
    }
}

/// The extensions of an image, see [`extensions_of`].
pub fn split_channels(image: &Image) -> (list: Vec<FitsExtension>)
    ensures
        extensions_view(list@) == extensions_of(image@),
{
    let layout = image.layout();
    let channels = layout.channels();
    let samples = image.samples();
    let mut list: Vec<FitsExtension> = Vec::new();
    let mut k: usize = 0;
    while k < channels
        invariant
            channels == layout.spec_channels(),
            layout == image@.layout,
            samples@ == image@.samples,
            1 <= channels <= 4,
            k <= channels,
            list@.len() == k,
            forall|j: int| 0 <= j < k ==> (#[trigger] list@[j])@ == extensions_of(image@)[j],
        decreases channels - k,
    {
        let extension = FitsExtension {
            name: String::from_str(channel_name_str(layout.channel(k))),
            samples: samples.plane(channels, k),
        };
        list.push(extension);
        k = k + 1;
    }
    assert(extensions_view(list@) =~= extensions_of(image@));
    list
}

/// A text field.
fn text_field(key: &str, value: &str) -> (f: HeaderField)
    ensures
        f@ == (key@, HeaderValueView::Text(value@)),
{
    HeaderField { key: String::from_str(key), value: HeaderValue::Text(String::from_str(value)) }
}

/// A field with the value given.
fn field(key: &str, value: HeaderValue) -> (f: HeaderField)
    ensures
        f@ == (key@, value@),
{
    HeaderField { key: String::from_str(key), value }
}

/// The header fields of an image: the fixed ones, see [`fixed_header`],
/// then those of the extended attributes, see [`extended_header`].
pub fn header_fields(meta: &ImageMetaData, program: &str, channels: i32, millis: u64) -> (list: Vec<HeaderField>)
    ensures
        header_view(list@) == fixed_header(meta@, program@, channels, millis) + extended_header(meta@.extended),
{
    let mut list: Vec<HeaderField> = Vec::new();
    list.push(field("CHANNELS", HeaderValue::I32(channels)));
    list.push(text_field("PROGRAM", program));
    list.push(text_field("CAMERA", meta.camera_name.as_str()));
    list.push(field("TIMESTAMP", HeaderValue::U64(millis)));
    list.push(field("CCDTEMP", HeaderValue::F32(meta.temperature_bits)));
    list.push(field("EXPOSURE_US", HeaderValue::U64(meta.exposure_ns / 1000)));
    list.push(field("ORIGIN_X", HeaderValue::U32(meta.img_left)));
    list.push(field("ORIGIN_Y", HeaderValue::U32(meta.img_top)));
    list.push(field("BINX", HeaderValue::U32(meta.bin_x)));
    list.push(field("BINY", HeaderValue::U32(meta.bin_y)));
    list.push(field("GAIN", HeaderValue::I64(meta.gain)));
    list.push(field("OFFSET", HeaderValue::I64(meta.offset)));
    list.push(field("GAIN_MIN", HeaderValue::I32(meta.min_gain)));
    list.push(field("GAIN_MAX", HeaderValue::I32(meta.max_gain)));
    assert(header_view(list@) =~= fixed_header(meta@, program@, channels, millis));
    let pairs = meta.get_extended_data();
    let n = pairs.len();
    let mut i: usize = 0;
    while i < n
        invariant
            n == pairs@.len(),
            i <= n,
            crate::metadata::pairs_view(pairs@) == meta@.extended,
            list@.len() == 14 + i,
            header_view(list@) =~= fixed_header(meta@, program@, channels, millis) + extended_header(
                meta@.extended,
            ).take(i as int),
        decreases n - i,
    {
        let pair = &pairs[i];
        let ghost before = header_view(list@);
        list.push(text_field(pair.0.as_str(), pair.1.as_str()));
        assert(header_view(list@) =~= before.push((pair.0@, HeaderValueView::Text(pair.1@))));
        assert(extended_header(meta@.extended).take(i + 1) =~= extended_header(meta@.extended).take(
            i as int,
        ).push(extended_header(meta@.extended)[i as int]));
        i = i + 1;
    }
    assert(extended_header(meta@.extended).take(n as int) =~= extended_header(meta@.extended));
    list
}

/// The name of the file of an image, see [`file_name`] and [`file_stem`].
pub fn file_name_of(prefix: &str, camera_name: &str, millis: u64) -> (name: String)
    ensures
        name@ == file_name(file_stem(prefix@, camera_name@), millis),
{
    let stem = choose_stem(prefix, is_blank(prefix), camera_name);
    let mut name = String::from_str(stem);
    name.append("_");
    push_decimal(&mut name, millis as u128);
    name.append(".fits");
    name
}

/// All that is written for an image with its metadata: the file named
/// after `prefix` and the time of the image, one extension for each
/// channel, and on the first one the header fields, with `program` as the
/// name of the program that writes.
///
/// It fails, with an invalid value, for an image that was taken before
/// the Unix epoch, and for no other.
pub fn fits_plan(image: &Image, meta: &ImageMetaData, prefix: &str, program: &str, compress: bool) -> (r: Result<
    FitsPlan,
    Error,
>)
    ensures
        r is Ok <==> timestamp_ms(meta@.timestamp_ns) is Some,
        r matches Ok(plan) ==> plan@ == plan_of(
            image@,
            meta@,
            prefix@,
            program@,
            compress,
            timestamp_ms(meta@.timestamp_ns).unwrap(),
        ),
        r matches Err(e) ==> e matches Error::InvalidValue(m) && m@ == timestamp_text(),
{
    if meta.timestamp_ns < 0 {
        return Err(Error::InvalidValue(String::from_str("Could not convert timestamp to milliseconds")));
    }
    let millis: u64 = ((meta.timestamp_ns / 1_000_000) % 0x1_0000_0000_0000_0000) as u64;
    let layout = image.layout();
    let channels = layout.channels();
    let name = file_name_of(prefix, meta.camera_name.as_str(), millis);
    let mut full = name.clone();
    if compress {
        full.append("[compress]");
    }
    Ok(
        FitsPlan {
            file_name: name,
            create_name: full,
            data_type: storage_type_of(layout.sample_type()),
            width: image.width(),
            height: image.height(),
            extensions: split_channels(image),
            header: header_fields(meta, program, channels as i32, millis),
        },
    )
}

/// Without a prefix the file is named after the camera, and after the
/// word `image` where the camera has no name; with a prefix that holds a
/// character that is no white space it is named after the prefix.
pub proof fn lemma_file_stem(prefix: Seq<char>, camera_name: Seq<char>, i: int)
    ensures
        prefix.len() == 0 && camera_name.len() > 0 ==> file_stem(prefix, camera_name) == camera_name,
        prefix.len() == 0 && camera_name.len() == 0 ==> file_stem(prefix, camera_name) == "image"@,
        0 <= i < prefix.len() && !is_white_space(prefix[i]) ==> file_stem(prefix, camera_name) == prefix,
{
}

/// The names of the extensions of a layout, in the order in which they
/// are written.
pub open spec fn extension_names(layout: PixelLayout) -> Seq<Seq<char>> {
    match layout {
        PixelLayout::Mono8 | PixelLayout::Mono16 => seq!["IMAGE"@],
        PixelLayout::LumaAlpha8 | PixelLayout::LumaAlpha16 => seq!["LUMA"@, "ALPHA"@],
        PixelLayout::RGB8 | PixelLayout::RGB16 | PixelLayout::RGB32F => seq!["RED"@, "GREEN"@, "BLUE"@],
        PixelLayout::RGBA8 | PixelLayout::RGBA16 | PixelLayout::RGBA32F => seq![
            "RED"@,
            "GREEN"@,
            "BLUE"@,
            "ALPHA"@,
        ],
    }
}

/// An image is written in as many extensions as its layout has channels,
/// under the names of [`extension_names`] in that order, and every
/// extension has one sample for each pixel of the image, in the type of
/// the image's samples. The first header field gives the number of
/// channels.
pub proof fn lemma_extensions(
    image: ImageView,
    meta: MetaDataView,
    prefix: Seq<char>,
    program: Seq<char>,
    compress: bool,
    millis: u64,
)
    requires
        image.wf(),
    ensures
        extensions_of(image).len() == image.layout.spec_channels(),
        extensions_of(image).len() == extension_names(image.layout).len(),
        forall|k: int|
            0 <= k < extensions_of(image).len() ==> {
                &&& (#[trigger] extensions_of(image)[k]).name == extension_names(image.layout)[k]
                &&& extensions_of(image)[k].samples.len() == image.width * image.height
                &&& extensions_of(image)[k].samples.sample_type() == image.samples.sample_type()
            },
        plan_of(image, meta, prefix, program, compress, millis).extensions == extensions_of(image),
        plan_of(image, meta, prefix, program, compress, millis).header[0] == (
            "CHANNELS"@,
            HeaderValueView::I32(image.layout.spec_channels() as i32),
        ),
{
    let c = image.layout.spec_channels() as int;
    let pixels = (image.width * image.height) as int;
    assert((pixels * c) / c == pixels) by (nonlinear_arith)
        requires
            c > 0,
    ;
    assert(image.samples.len() as int / c == pixels);
}

/// Every sample of an image is written, once, to the extension of its
/// channel and at the place of its pixel: sample `i` of the image is
/// sample `i / channels` of extension `i % channels`.
pub proof fn lemma_extensions_hold_all(image: ImageView, i: int)
    requires
        image.wf(),
        0 <= i < image.samples.len(),
    ensures
        0 <= i % (image.layout.spec_channels() as int) < extensions_of(image).len(),
        match (extensions_of(image)[i % (image.layout.spec_channels() as int)].samples, image.samples) {
            (SamplesView::U8(p), SamplesView::U8(s)) => p[i / (image.layout.spec_channels() as int)] == s[i],
            (SamplesView::U16(p), SamplesView::U16(s)) => p[i / (image.layout.spec_channels() as int)] == s[i],
            (SamplesView::F32(p), SamplesView::F32(s)) => p[i / (image.layout.spec_channels() as int)] == s[i],
            _ => false,
        },
{
    let c = image.layout.spec_channels() as int;
    let pixels = (image.width * image.height) as int;
    assert((pixels * c) / c == pixels) by (nonlinear_arith)
        requires
            c > 0,
    ;
    assert(0 <= i % c < c) by (nonlinear_arith)
        requires
            c > 0,
    ;
    match image.samples {
        SamplesView::U8(s) => {
            crate::samples::lemma_planes_hold_all(s, c, i);
        },
        SamplesView::U16(s) => {
            crate::samples::lemma_planes_hold_all(s, c, i);
        },
        SamplesView::F32(s) => {
            crate::samples::lemma_planes_hold_all(s, c, i);
        },
    }
}

/// Why an image was not stored.
#[derive(Clone, Copy, Debug, PartialEq, Eq, Structural)]
pub enum SaveFailure {
    /// The directory does not exist.
    InvalidPath,
    /// The file exists and may not be overwritten.
    AlreadyExists,
    /// The file exists and could not be removed.
    RemoveFailed,
    /// The file could not be created or written.
    WriteFailed,
}

/// What is done next to store an image, or how storing ended.
#[derive(Clone, Copy, Debug, PartialEq, Eq, Structural)]
pub enum SaveStep {
    /// See whether the directory exists.
    ProbeDirectory,
    /// See whether the file exists.
    ProbeFile,
    /// Remove the file that exists.
    RemoveFile,
    /// Create the file and write the image.
    WriteFile,
    /// The image is stored.
    Done,
    /// The image is not stored.
    Failed(SaveFailure),
}

impl SaveStep {
    /// The step after this one. `answer` says how this step ended:
    /// whether what was looked for exists, or whether what was done
    /// succeeded. `overwrite` says whether a file that exists may be
    /// replaced.
    ///
    /// A missing directory ends in an invalid path. A file that exists is
    /// removed where it may be replaced, and ends in already exists where
    /// it may not. The image is written where no file exists or the one
    /// that existed is removed; a removal or a writing that fails ends
    /// there. The two ends have no next step but themselves.
    pub open spec fn spec_next(self, answer: bool, overwrite: bool) -> SaveStep {
        match self {
            SaveStep::ProbeDirectory => if answer {
                SaveStep::ProbeFile
            } else {
                SaveStep::Failed(SaveFailure::InvalidPath)
            },
            SaveStep::ProbeFile => if !answer {
                SaveStep::WriteFile
            } else if overwrite {
                SaveStep::RemoveFile
            } else {
                SaveStep::Failed(SaveFailure::AlreadyExists)
            },
            SaveStep::RemoveFile => if answer {
                SaveStep::WriteFile
            } else {
                SaveStep::Failed(SaveFailure::RemoveFailed)
            },
            SaveStep::WriteFile => if answer {
                SaveStep::Done
            } else {
                SaveStep::Failed(SaveFailure::WriteFailed)
            },
            SaveStep::Done => SaveStep::Done,
            SaveStep::Failed(f) => SaveStep::Failed(f),
        }
    }

    /// The number of steps that may still follow.
    pub open spec fn steps_left(self) -> nat {
        match self {
            SaveStep::ProbeDirectory => 4,
            SaveStep::ProbeFile => 3,
            SaveStep::RemoveFile => 2,
            SaveStep::WriteFile => 1,
            SaveStep::Done => 0,
            SaveStep::Failed(_) => 0,
        }
    }

    /// The first step.
    pub fn first() -> (step: SaveStep)
        ensures
            step == SaveStep::ProbeDirectory,
    {
        SaveStep::ProbeDirectory
    }

    /// The step after this one, see [`SaveStep::spec_next`].
    #[verifier::when_used_as_spec(spec_next)]
    pub fn next(self, answer: bool, overwrite: bool) -> (step: SaveStep)
        ensures
            step == self.spec_next(answer, overwrite),
    {
        match self {
            SaveStep::ProbeDirectory => if answer {
                SaveStep::ProbeFile
            } else {
                SaveStep::Failed(SaveFailure::InvalidPath)
            },
            SaveStep::ProbeFile => if !answer {
                SaveStep::WriteFile
            } else if overwrite {
                SaveStep::RemoveFile
            } else {
                SaveStep::Failed(SaveFailure::AlreadyExists)
            },
            SaveStep::RemoveFile => if answer {
                SaveStep::WriteFile
            } else {
                SaveStep::Failed(SaveFailure::RemoveFailed)
            },
            SaveStep::WriteFile => if answer {
                SaveStep::Done
            } else {
                SaveStep::Failed(SaveFailure::WriteFailed)
            },
            SaveStep::Done => SaveStep::Done,
            SaveStep::Failed(f) => SaveStep::Failed(f),
        }
    }

    /// Whether storing has ended.
    pub fn is_end(self) -> (end: bool)
        ensures
            end == (self.steps_left() == 0),
            end == (self == SaveStep::Done || self is Failed),
    {
        match self {
            SaveStep::Done => true,
            SaveStep::Failed(_) => true,
            _ => false,
        }
    }
}

/// A file that exists is never written over: with no leave to overwrite,
/// storing ends in already exists; with leave, the file is removed first,
/// and the image is written only after the removal succeeded.
pub proof fn lemma_overwrite(overwrite: bool)
    ensures
        SaveStep::ProbeFile.spec_next(true, false) == SaveStep::Failed(SaveFailure::AlreadyExists),
        SaveStep::ProbeFile.spec_next(true, true) == SaveStep::RemoveFile,
        SaveStep::ProbeFile.spec_next(false, overwrite) == SaveStep::WriteFile,
        SaveStep::RemoveFile.spec_next(true, overwrite) == SaveStep::WriteFile,
        SaveStep::RemoveFile.spec_next(false, overwrite) == SaveStep::Failed(SaveFailure::RemoveFailed),
        SaveStep::ProbeDirectory.spec_next(false, overwrite) == SaveStep::Failed(SaveFailure::InvalidPath),
{
}

/// Writing is reached from two steps only: from the probe that found no
/// file, and from the removal that succeeded. Every step that is no end
/// leads to a step with fewer steps left, so storing ends after four
/// steps at most; and it ends as done only after the writing succeeded.
pub proof fn lemma_save_steps(step: SaveStep, answer: bool, overwrite: bool)
    ensures
        step.spec_next(answer, overwrite) == SaveStep::WriteFile ==> (step == SaveStep::ProbeFile && !answer)
            || (step == SaveStep::RemoveFile && answer),
        step.steps_left() > 0 ==> step.spec_next(answer, overwrite).steps_left() < step.steps_left(),
        step.steps_left() == 0 ==> step.spec_next(answer, overwrite) == step,
        step.spec_next(answer, overwrite) == SaveStep::Done ==> step == SaveStep::Done || (step
            == SaveStep::WriteFile && answer),
{
}

} // verus!
