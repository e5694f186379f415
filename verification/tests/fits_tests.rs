use cameraunit::error::Error;
use cameraunit::fits::{
    channel_name_str, choose_stem, file_name_of, fits_plan, header_fields, is_blank, split_channels,
    storage_type_of, FitsImageType, HeaderField, HeaderValue, SaveFailure, SaveStep,
};
use cameraunit::imagedata::ImageData;
use cameraunit::layout::{Channel, PixelLayout, SampleType};
use cameraunit::metadata::ImageMetaData;
use cameraunit::raster::Image;
use cameraunit::samples::Samples;

fn metadata() -> ImageMetaData {
    let mut meta = ImageMetaData::full_builder(
        2,
        4,
        10,
        20,
        (-10.5f32).to_bits(),
        1_500_000_999,
        1_700_000_000_123_456_789,
        "ASI533",
        120,
        -8,
        -1,
        600,
    );
    meta.add_extended_attrib("FILTER", "Ha");
    meta.add_extended_attrib("OBSERVER", "A");
    meta.add_extended_attrib("FILTER", "OIII");
    meta
}

fn field(key: &str, value: HeaderValue) -> HeaderField {
    HeaderField { key: key.to_string(), value }
}

fn names(image: &Image) -> Vec<String> {
    split_channels(image).into_iter().map(|e| e.name).collect()
}

fn image_of(layout: PixelLayout) -> Image {
    let count = 2 * 2 * layout.channels();
    let samples = match layout.sample_type() {
        SampleType::U8 => Samples::U8((0..count).map(|i| i as u8).collect()),
        SampleType::U16 => Samples::U16((0..count).map(|i| i as u16 * 100).collect()),
        SampleType::F32 => Samples::F32((0..count).map(|i| (i as f32).to_bits()).collect()),
    };
    Image::new(layout, 2, 2, samples).unwrap()
}

#[test]
fn rgba16_is_written_in_four_extensions() {
    let image = ImageData::new(image_of(PixelLayout::RGBA16), metadata());
    let plan = image.fits_plan("m42", "capture", false).unwrap();
    assert_eq!(plan.data_type, FitsImageType::UnsignedShort);
    assert_eq!((plan.width, plan.height), (2, 2));
    assert_eq!(plan.extensions.len(), 4);
    let names: Vec<&str> = plan.extensions.iter().map(|e| e.name.as_str()).collect();
    assert_eq!(names, vec!["RED", "GREEN", "BLUE", "ALPHA"]);
    assert_eq!(plan.extensions[0].samples, Samples::U16(vec![0, 400, 800, 1200]));
    assert_eq!(plan.extensions[1].samples, Samples::U16(vec![100, 500, 900, 1300]));
    assert_eq!(plan.extensions[2].samples, Samples::U16(vec![200, 600, 1000, 1400]));
    assert_eq!(plan.extensions[3].samples, Samples::U16(vec![300, 700, 1100, 1500]));
    for extension in &plan.extensions {
        assert_eq!(extension.samples.len(), (plan.width * plan.height) as usize);
    }
    assert_eq!(plan.header[0], field("CHANNELS", HeaderValue::I32(4)));
}

#[test]
fn extension_names_follow_the_layout() {
    assert_eq!(names(&image_of(PixelLayout::Mono8)), vec!["IMAGE"]);
    assert_eq!(names(&image_of(PixelLayout::Mono16)), vec!["IMAGE"]);
    assert_eq!(names(&image_of(PixelLayout::LumaAlpha8)), vec!["LUMA", "ALPHA"]);
    assert_eq!(names(&image_of(PixelLayout::LumaAlpha16)), vec!["LUMA", "ALPHA"]);
    assert_eq!(names(&image_of(PixelLayout::RGB8)), vec!["RED", "GREEN", "BLUE"]);
    assert_eq!(names(&image_of(PixelLayout::RGB16)), vec!["RED", "GREEN", "BLUE"]);
    assert_eq!(names(&image_of(PixelLayout::RGB32F)), vec!["RED", "GREEN", "BLUE"]);
    assert_eq!(names(&image_of(PixelLayout::RGBA8)), vec!["RED", "GREEN", "BLUE", "ALPHA"]);
    assert_eq!(names(&image_of(PixelLayout::RGBA16)), vec!["RED", "GREEN", "BLUE", "ALPHA"]);
    assert_eq!(names(&image_of(PixelLayout::RGBA32F)), vec!["RED", "GREEN", "BLUE", "ALPHA"]);
}

#[test]
fn channel_names() {
    assert_eq!(channel_name_str(Channel::Mono), "IMAGE");
    assert_eq!(channel_name_str(Channel::Luma), "LUMA");
    assert_eq!(channel_name_str(Channel::Red), "RED");
    assert_eq!(channel_name_str(Channel::Green), "GREEN");
    assert_eq!(channel_name_str(Channel::Blue), "BLUE");
    assert_eq!(channel_name_str(Channel::Alpha), "ALPHA");
}

#[test]
fn storage_type_follows_the_sample_type() {
    assert_eq!(storage_type_of(SampleType::U8), FitsImageType::UnsignedByte);
    assert_eq!(storage_type_of(SampleType::U16), FitsImageType::UnsignedShort);
    assert_eq!(storage_type_of(SampleType::F32), FitsImageType::Float);
    let plan = fits_plan(&image_of(PixelLayout::RGB32F), &metadata(), "a", "b", false).unwrap();
    assert_eq!(plan.data_type, FitsImageType::Float);
    let plan = fits_plan(&image_of(PixelLayout::LumaAlpha8), &metadata(), "a", "b", false).unwrap();
    assert_eq!(plan.data_type, FitsImageType::UnsignedByte);
}

#[test]
fn mono_image_is_written_as_it_is() {
    let plan = fits_plan(&image_of(PixelLayout::Mono8), &metadata(), "a", "b", false).unwrap();
    assert_eq!(plan.extensions.len(), 1);
    assert_eq!(plan.extensions[0].samples, Samples::U8(vec![0, 1, 2, 3]));
    assert_eq!(plan.header[0], field("CHANNELS", HeaderValue::I32(1)));
}

#[test]
fn rgba32f_has_an_alpha_extension() {
    let plan = fits_plan(&image_of(PixelLayout::RGBA32F), &metadata(), "a", "b", false).unwrap();
    assert_eq!(plan.extensions.len(), 4);
    let alpha: Vec<u32> = [3.0f32, 7.0, 11.0, 15.0].iter().map(|x| x.to_bits()).collect();
    assert_eq!(plan.extensions[3].name, "ALPHA");
    assert_eq!(plan.extensions[3].samples, Samples::F32(alpha));
    assert_eq!(plan.header[0], field("CHANNELS", HeaderValue::I32(4)));
}

#[test]
fn header_fields_in_order() {
    let header = header_fields(&metadata(), "capture", 3, 1_700_000_000_123);
    let expected = vec![
        field("CHANNELS", HeaderValue::I32(3)),
        field("PROGRAM", HeaderValue::Text("capture".to_string())),
        field("CAMERA", HeaderValue::Text("ASI533".to_string())),
        field("TIMESTAMP", HeaderValue::U64(1_700_000_000_123)),
        field("CCDTEMP", HeaderValue::F32((-10.5f32).to_bits())),
        field("EXPOSURE_US", HeaderValue::U64(1_500_000)),
        field("ORIGIN_X", HeaderValue::U32(20)),
        field("ORIGIN_Y", HeaderValue::U32(10)),
        field("BINX", HeaderValue::U32(2)),
        field("BINY", HeaderValue::U32(4)),
        field("GAIN", HeaderValue::I64(120)),
        field("OFFSET", HeaderValue::I64(-8)),
        field("GAIN_MIN", HeaderValue::I32(-1)),
        field("GAIN_MAX", HeaderValue::I32(600)),
        field("FILTER", HeaderValue::Text("Ha".to_string())),
        field("OBSERVER", HeaderValue::Text("A".to_string())),
        field("FILTER", HeaderValue::Text("OIII".to_string())),
    ];
    assert_eq!(header, expected);
}

#[test]
fn header_without_extended_attributes_has_the_fixed_fields() {
    let header = header_fields(&ImageMetaData::default(), "", 1, 0);
    assert_eq!(header.len(), 14);
    assert_eq!(header[1], field("PROGRAM", HeaderValue::Text(String::new())));
    assert_eq!(header[13], field("GAIN_MAX", HeaderValue::I32(0)));
}

#[test]
fn plan_header_takes_time_and_channels_from_the_image() {
    let image = ImageData::new(image_of(PixelLayout::RGB8), metadata());
    let plan = image.fits_plan("m42", "capture", false).unwrap();
    assert_eq!(plan.header, header_fields(&metadata(), "capture", 3, 1_700_000_000_123));
}

#[test]
fn file_name_from_prefix_and_time() {
    let image = ImageData::new(image_of(PixelLayout::Mono16), metadata());
    let plan = image.fits_plan("m42", "capture", false).unwrap();
    assert_eq!(plan.file_name, "m42_1700000000123.fits");
    assert_eq!(plan.create_name, "m42_1700000000123.fits");
    let plan = image.fits_plan("m42", "capture", true).unwrap();
    assert_eq!(plan.file_name, "m42_1700000000123.fits");
    assert_eq!(plan.create_name, "m42_1700000000123.fits[compress]");
}

#[test]
fn file_name_falls_back_to_camera_name_and_image() {
    assert_eq!(file_name_of("", "ASI533", 12), "ASI533_12.fits");
    assert_eq!(file_name_of("  \t\n", "ASI533", 12), "ASI533_12.fits");
    assert_eq!(file_name_of("", "", 12), "image_12.fits");
    assert_eq!(file_name_of(" ", "", 0), "image_0.fits");
    assert_eq!(file_name_of(" a ", "ASI533", 7), " a _7.fits");
    assert_eq!(file_name_of("x", "", u64::MAX), "x_18446744073709551615.fits");
}

#[test]
fn time_is_cut_to_whole_milliseconds() {
    let mut meta = metadata();
    meta.timestamp_ns = 1_999_999;
    let plan = fits_plan(&image_of(PixelLayout::Mono8), &meta, "t", "p", false).unwrap();
    assert_eq!(plan.file_name, "t_1.fits");
    assert_eq!(plan.header[3], field("TIMESTAMP", HeaderValue::U64(1)));
    meta.timestamp_ns = 0;
    let plan = fits_plan(&image_of(PixelLayout::Mono8), &meta, "t", "p", false).unwrap();
    assert_eq!(plan.file_name, "t_0.fits");
}

#[test]
fn time_before_the_epoch_is_refused() {
    let mut meta = metadata();
    meta.timestamp_ns = -1;
    let r = fits_plan(&image_of(PixelLayout::Mono8), &meta, "t", "p", false);
    assert_eq!(r, Err(Error::InvalidValue("Could not convert timestamp to milliseconds".to_string())));
    let image = ImageData::new(image_of(PixelLayout::Mono8), meta);
    assert!(image.fits_plan("t", "p", true).is_err());
}

#[test]
fn exposure_is_written_in_whole_microseconds() {
    let mut meta = metadata();
    meta.exposure_ns = 999;
    assert_eq!(header_fields(&meta, "p", 1, 0)[5], field("EXPOSURE_US", HeaderValue::U64(0)));
    meta.exposure_ns = 2_000_000_000;
    assert_eq!(header_fields(&meta, "p", 1, 0)[5], field("EXPOSURE_US", HeaderValue::U64(2_000_000)));
}

#[test]
fn existing_file_is_kept_without_leave_to_overwrite() {
    let step = SaveStep::first().next(true, false);
    assert_eq!(step, SaveStep::ProbeFile);
    assert_eq!(step.next(true, false), SaveStep::Failed(SaveFailure::AlreadyExists));
    assert!(step.next(true, false).is_end());
}

#[test]
fn existing_file_is_removed_before_writing() {
    let step = SaveStep::first().next(true, true);
    assert_eq!(step, SaveStep::ProbeFile);
    let step = step.next(true, true);
    assert_eq!(step, SaveStep::RemoveFile);
    assert!(!step.is_end());
    assert_eq!(step.next(false, true), SaveStep::Failed(SaveFailure::RemoveFailed));
    let step = step.next(true, true);
    assert_eq!(step, SaveStep::WriteFile);
    assert_eq!(step.next(true, true), SaveStep::Done);
    assert_eq!(step.next(false, true), SaveStep::Failed(SaveFailure::WriteFailed));
}

#[test]
fn new_file_is_written_at_once() {
    for overwrite in [false, true] {
        let step = SaveStep::first().next(true, overwrite).next(false, overwrite);
        assert_eq!(step, SaveStep::WriteFile);
        assert_eq!(step.next(true, overwrite), SaveStep::Done);
    }
}

#[test]
fn missing_directory_ends_storing() {
    for overwrite in [false, true] {
        let step = SaveStep::first().next(false, overwrite);
        assert_eq!(step, SaveStep::Failed(SaveFailure::InvalidPath));
        assert!(step.is_end());
        assert_eq!(step.next(true, overwrite), step);
    }
}

#[test]
fn ends_have_no_next_step() {
    for answer in [false, true] {
        assert_eq!(SaveStep::Done.next(answer, true), SaveStep::Done);
        assert!(SaveStep::Done.is_end());
        let failed = SaveStep::Failed(SaveFailure::WriteFailed);
        assert_eq!(failed.next(answer, false), failed);
    }
}

#[test]
fn blank_texts() {
    assert!(is_blank(""));
    assert!(is_blank(" "));
    assert!(is_blank(" \t\r\n"));
    assert!(is_blank("\u{3000}\u{a0}"));
    assert!(!is_blank("a"));
    assert!(!is_blank(" a "));
    assert!(!is_blank("_"));
}

#[test]
fn stem_is_chosen_by_blankness() {
    assert_eq!(choose_stem("m42", false, "ASI533"), "m42");
    assert_eq!(choose_stem("m42", true, "ASI533"), "ASI533");
    assert_eq!(choose_stem("", true, "ASI533"), "ASI533");
    assert_eq!(choose_stem("", true, ""), "image");
    assert_eq!(choose_stem("  ", true, ""), "image");
    assert_eq!(choose_stem("", false, "ASI533"), "");
}

#[test]
fn file_name_without_prefix() {
    let mut meta = ImageMetaData::default();
    meta.timestamp_ns = 1_500_000_000;
    let plan = fits_plan(&image_of(PixelLayout::Mono8), &meta, "", "p", false).unwrap();
    assert_eq!(plan.file_name, "image_1500.fits");
    meta.camera_name = "cam0".to_string();
    meta.timestamp_ns = 2_750_999_999;
    let plan = fits_plan(&image_of(PixelLayout::Mono8), &meta, "", "p", true).unwrap();
    assert_eq!(plan.file_name, "cam0_2750.fits");
    assert_eq!(plan.create_name, "cam0_2750.fits[compress]");
}

fn listed_as_white_space(c: char) -> bool {
    let n = c as u32;
    (0x0009..=0x000D).contains(&n)
        || [0x0020, 0x0085, 0x00A0, 0x1680, 0x2028, 0x2029, 0x202F, 0x205F, 0x3000].contains(&n)
        || (0x2000..=0x200A).contains(&n)
}

#[test]
fn blank_goes_by_the_white_space_characters() {
    let mut buffer = [0u8; 4];
    for n in 0..=0x10FFFFu32 {
        if let Some(c) = char::from_u32(n) {
            let text: &str = c.encode_utf8(&mut buffer);
            assert_eq!(is_blank(text), listed_as_white_space(c), "U+{:04X}", n);
        }
    }
    assert!(!is_blank("\u{200B}"));
    assert!(!is_blank("\u{180E}"));
    assert!(!is_blank(" \u{2003}x\u{2003} "));
    assert!(is_blank("\u{2000}\u{200A}\u{2028}\u{2029}\u{202F}\u{205F}\u{1680}\u{85}"));
}

#[test]
fn file_name_keeps_a_prefix_that_is_not_blank() {
    assert_eq!(file_name_of("img", "cam0", 1500), "img_1500.fits");
    assert_eq!(file_name_of("\u{200B}", "cam0", 1500), "\u{200B}_1500.fits");
}
