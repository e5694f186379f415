use cameraunit::error::Error;
use cameraunit::exposure::OptimumExposure;
use cameraunit::imagedata::ImageData;
use cameraunit::layout::PixelLayout;
use cameraunit::luma::sort_ascending;
use cameraunit::metadata::ImageMetaData;
use cameraunit::raster::Image;
use cameraunit::samples::Samples;

const SECOND: u64 = 1_000_000_000;

fn request() -> OptimumExposure {
    OptimumExposure {
        percentile_pix: 995_000,
        pixel_tgt: 400_000,
        pixel_uncertainty: 16,
        min_allowed_exp: 1_000_000,
        max_allowed_exp: 10 * SECOND,
        max_allowed_bin: 1,
        pixel_exclusion: 0,
    }
}

fn mono16(samples: Vec<u16>, exposure_ns: u64, bin: u32) -> ImageData {
    let width = samples.len() as u32;
    let img = Image::new(PixelLayout::Mono16, width, 1, Samples::U16(samples)).unwrap();
    let meta = ImageMetaData::new(0, exposure_ns, 0, bin, bin, "cam", 0, 0);
    ImageData::new(img, meta)
}

#[test]
fn exposure_unchanged_on_exact_target() {
    // 0.4 of the full scale is 26214 counts exactly.
    let r = request().calculate(&vec![26214; 10], 2 * SECOND, 2, 2);
    assert_eq!(r, Ok((2 * SECOND, 2)));
}

#[test]
fn exposure_unchanged_keeps_values_outside_the_bounds() {
    let mut q = request();
    q.max_allowed_exp = SECOND;
    q.max_allowed_bin = 4;
    let r = q.calculate(&vec![26214; 10], 5 * SECOND, 16, 16);
    assert_eq!(r, Ok((5 * SECOND, 16)));
}

#[test]
fn exposure_unchanged_within_uncertainty() {
    let mut q = request();
    // 1000 parts per million are 65.535 counts.
    q.pixel_uncertainty = 1000;
    assert_eq!(q.calculate(&vec![26214 + 65; 4], SECOND, 1, 1), Ok((SECOND, 1)));
    assert_eq!(q.calculate(&vec![26214 - 65; 4], SECOND, 1, 1), Ok((SECOND, 1)));
    assert_ne!(q.calculate(&vec![26214 + 66; 4], SECOND, 1, 1), Ok((SECOND, 1)));
    assert_ne!(q.calculate(&vec![26214 - 66; 4], SECOND, 1, 1), Ok((SECOND, 1)));
}

#[test]
fn exposure_doubles_for_half_brightness() {
    let r = request().calculate(&vec![13107; 10], SECOND, 1, 1);
    assert_eq!(r, Ok((2 * SECOND, 1)));
}

#[test]
fn exposure_scaling_is_held_to_the_maximum() {
    let mut q = request();
    q.max_allowed_exp = 3 * SECOND / 2;
    let r = q.calculate(&vec![13107; 10], SECOND, 1, 1);
    assert_eq!(r, Ok((3 * SECOND / 2, 1)));
}

#[test]
fn exposure_scaling_is_held_to_the_minimum() {
    let mut q = request();
    q.min_allowed_exp = SECOND;
    // Ten times too bright: a tenth of the exposure is wanted.
    q.pixel_tgt = 40_000;
    let r = q.calculate(&vec![26214; 10], SECOND, 1, 1);
    assert_eq!(r, Ok((SECOND, 1)));
}

#[test]
fn exposure_scaling_rounds_down() {
    let mut q = request();
    q.pixel_tgt = 1_000_000;
    // 65535 / 3 counts wanted over 1 count: 7 ns * 65535 / 3 = 152915 ns.
    let r = q.calculate(&vec![3; 5], 7, 1, 1);
    assert_eq!(r, Ok((1_000_000, 1)));
    q.min_allowed_exp = 1;
    let r = q.calculate(&vec![3; 5], 7, 1, 1);
    assert_eq!(r, Ok((152_915, 1)));
    let r = q.calculate(&vec![7; 5], 10, 1, 1);
    // 10 * 65535 / 7 = 93621.4...
    assert_eq!(r, Ok((93_621, 1)));
}

#[test]
fn exposure_bin_stays_one_when_binning_is_held() {
    let mut q = request();
    q.max_allowed_bin = 0;
    assert_eq!(q.calculate(&vec![13107; 10], SECOND, 4, 4), Ok((2 * SECOND, 1)));
    q.max_allowed_bin = 1;
    assert_eq!(q.calculate(&vec![13107; 10], SECOND, 4, 4), Ok((2 * SECOND, 1)));
    assert_eq!(q.calculate(&vec![13107; 10], SECOND, 0, 0), Ok((2 * SECOND, 1)));
}

#[test]
fn exposure_target_boundaries() {
    let mut q = request();
    q.pixel_tgt = 1_000_000;
    assert!(q.validate().is_ok());
    assert!(q.calculate(&vec![1, 2, 3], SECOND, 1, 1).is_ok());
    q.pixel_tgt = 1_000_001;
    assert_eq!(
        q.calculate(&vec![1, 2, 3], SECOND, 1, 1),
        Err(Error::InvalidValue("Target pixel value must be between 1.6e-5 and 1".to_string()))
    );
    q.pixel_tgt = 16;
    assert!(q.validate().is_ok());
    q.pixel_tgt = 15;
    assert_eq!(
        q.validate(),
        Err(Error::InvalidValue("Target pixel value must be between 1.6e-5 and 1".to_string()))
    );
}

#[test]
fn exposure_uncertainty_boundaries() {
    let mut q = request();
    q.pixel_uncertainty = 1_000_000;
    assert!(q.validate().is_ok());
    q.pixel_uncertainty = 1_000_001;
    assert_eq!(
        q.validate(),
        Err(Error::InvalidValue("Pixel uncertainty must be between 1.6e-5 and 1".to_string()))
    );
    q.pixel_uncertainty = 15;
    assert_eq!(
        q.calculate(&vec![], SECOND, 1, 1),
        Err(Error::InvalidValue("Pixel uncertainty must be between 1.6e-5 and 1".to_string()))
    );
}

#[test]
fn exposure_percentile_boundaries() {
    let mut q = request();
    q.percentile_pix = 0;
    assert!(q.validate().is_ok());
    q.percentile_pix = 1_000_000;
    assert!(q.validate().is_ok());
    q.percentile_pix = 1_000_001;
    assert_eq!(
        q.validate(),
        Err(Error::InvalidValue("Percentile must be between 0 and 100".to_string()))
    );
}

#[test]
fn exposure_bounds_must_be_in_order() {
    let mut q = request();
    q.min_allowed_exp = SECOND;
    q.max_allowed_exp = SECOND;
    let expected =
        Err(Error::InvalidValue("Minimum allowed exposure must be less than maximum allowed exposure".to_string()));
    assert_eq!(q.validate(), expected);
    assert_eq!(q.calculate(&vec![13107; 10], SECOND, 1, 1).map(|_| ()), expected);
    q.min_allowed_exp = SECOND + 1;
    assert_eq!(q.validate(), expected);
    q.min_allowed_exp = SECOND - 1;
    assert!(q.validate().is_ok());
}

#[test]
fn exposure_first_failing_rule_gives_the_words() {
    let q = OptimumExposure {
        percentile_pix: 2_000_000,
        pixel_tgt: 0,
        pixel_uncertainty: 0,
        min_allowed_exp: 5,
        max_allowed_exp: 5,
        max_allowed_bin: 1,
        pixel_exclusion: 0,
    };
    assert_eq!(
        q.validate(),
        Err(Error::InvalidValue("Target pixel value must be between 1.6e-5 and 1".to_string()))
    );
}

#[test]
fn brightness_at_percentile() {
    let sample: Vec<u16> = vec![10, 20, 30, 40, 50];
    let mut q = request();
    q.percentile_pix = 1_000_000;
    assert_eq!(q.sample_brightness(&sample), 50_000_000);
    q.percentile_pix = 999_001;
    assert_eq!(q.sample_brightness(&sample), 50_000_000);
    q.percentile_pix = 999_000;
    assert_eq!(q.sample_brightness(&sample), 40_000_000);
    q.percentile_pix = 500_000;
    assert_eq!(q.sample_brightness(&sample), 30_000_000);
    q.percentile_pix = 499_999;
    assert_eq!(q.sample_brightness(&sample), 20_000_000);
    q.percentile_pix = 0;
    assert_eq!(q.sample_brightness(&sample), 10_000_000);
}

#[test]
fn brightness_leaves_out_the_brightest() {
    let sample: Vec<u16> = vec![10, 20, 30, 40, 50];
    let mut q = request();
    q.percentile_pix = 1_000_000;
    q.pixel_exclusion = 1;
    assert_eq!(q.sample_brightness(&sample), 40_000_000);
    q.pixel_exclusion = 2;
    assert_eq!(q.sample_brightness(&sample), 30_000_000);
    q.pixel_exclusion = 4;
    assert_eq!(q.sample_brightness(&sample), 10_000_000);
    q.percentile_pix = 250_000;
    q.pixel_exclusion = 3;
    assert_eq!(q.sample_brightness(&sample), 20_000_000);
    q.pixel_exclusion = 4;
    assert_eq!(q.sample_brightness(&sample), 10_000_000);
}

#[test]
fn brightness_of_nothing_is_the_floor() {
    let mut q = request();
    assert_eq!(q.sample_brightness(&vec![]), 10);
    q.pixel_exclusion = 5;
    assert_eq!(q.sample_brightness(&vec![10, 20, 30, 40, 50]), 10);
    q.pixel_exclusion = u32::MAX;
    assert_eq!(q.sample_brightness(&vec![10, 20, 30, 40, 50]), 10);
}

#[test]
fn exposure_of_empty_sample_is_held_to_the_maximum() {
    // Nothing is there: the brightness is the floor and the exposure
    // wanted is far above the maximum.
    let r = request().calculate(&vec![], SECOND, 1, 1);
    assert_eq!(r, Ok((10 * SECOND, 1)));
}

#[test]
fn exposure_of_dark_sample_divides_by_the_floor() {
    let mut q = request();
    q.pixel_tgt = 16;
    q.max_allowed_exp = u64::MAX;
    // 16 * 65535 millionths wanted over the floor of 10 millionths.
    let r = q.calculate(&vec![0; 3], 10, 1, 1);
    assert_eq!(r, Ok((1_048_560, 1)));
}

#[test]
fn exposure_less_binning_for_more_exposure() {
    let mut q = request();
    q.pixel_tgt = 40_000;
    q.max_allowed_bin = 8;
    // A tenth of a second is wanted; binning 8 -> 4 -> 2.
    let r = q.calculate(&vec![26214; 10], SECOND, 8, 8);
    assert_eq!(r, Ok((1_600_000_000, 2)));
}

#[test]
fn exposure_less_binning_stops_at_the_maximum() {
    let mut q = request();
    q.pixel_tgt = 40_000;
    q.max_allowed_bin = 64;
    q.max_allowed_exp = SECOND / 4;
    // 0.1 s at binning 64, then 0.4 s at binning 32: above the maximum.
    let r = q.calculate(&vec![26214; 10], SECOND, 64, 64);
    assert_eq!(r, Ok((SECOND / 4, 32)));
}

#[test]
fn exposure_odd_binning_is_halved_rounding_down() {
    let mut q = request();
    q.pixel_tgt = 40_000;
    q.max_allowed_bin = 8;
    let r = q.calculate(&vec![26214; 10], SECOND, 3, 3);
    assert_eq!(r, Ok((400_000_000, 1)));
}

#[test]
fn exposure_more_binning_for_less_exposure() {
    let mut q = request();
    q.pixel_tgt = 1_000_000;
    q.max_allowed_bin = 4;
    // Five times the exposure is wanted: 20 s, above the maximum of 10 s.
    let r = q.calculate(&vec![13107; 10], 4 * SECOND, 1, 1);
    assert_eq!(r, Ok((5 * SECOND, 2)));
}

#[test]
fn exposure_more_binning_stops_at_the_maximum_binning() {
    let mut q = request();
    q.pixel_tgt = 1_000_000;
    q.max_allowed_bin = 5;
    q.max_allowed_exp = SECOND;
    // 100 s wanted: 25 s at binning 2, 6.25 s at binning 4, no binning 8.
    let r = q.calculate(&vec![13107; 10], 20 * SECOND, 1, 1);
    assert_eq!(r, Ok((SECOND, 4)));
}

#[test]
fn exposure_binning_is_held_when_the_directions_differ() {
    let mut q = request();
    q.pixel_tgt = 1_000_000;
    q.max_allowed_bin = 4;
    let r = q.calculate(&vec![13107; 10], 4 * SECOND, 1, 2);
    assert_eq!(r, Ok((10 * SECOND, 1)));
    let r = q.calculate(&vec![13107; 10], 4 * SECOND, 8, 2);
    assert_eq!(r, Ok((10 * SECOND, 4)));
}

#[test]
fn exposure_is_a_function_of_its_inputs() {
    let q = request();
    let sample: Vec<u16> = (0..1000).collect();
    let a = q.calculate(&sample, SECOND, 2, 2);
    let b = q.calculate(&sample, SECOND, 2, 2);
    assert_eq!(a, b);
}

#[test]
fn exposure_ten_ascending_samples() {
    let q = OptimumExposure {
        percentile_pix: 995_000,
        pixel_tgt: 610_352,
        pixel_uncertainty: 76_294,
        min_allowed_exp: 1_000_000,
        max_allowed_exp: 10 * SECOND,
        max_allowed_bin: 1,
        pixel_exclusion: 1,
    };
    let r = q.calculate(&vec![0, 1, 2, 3, 4, 5, 6, 7, 8, 9], 10 * SECOND, 1, 1);
    assert_eq!(r, Ok((10 * SECOND, 1)));
}

#[test]
fn samples_are_sorted_ascending() {
    let mut v: Vec<u16> = vec![5, 1, 65535, 0, 5, 3];
    sort_ascending(&mut v);
    assert_eq!(v, vec![0, 1, 3, 5, 5, 65535]);
    let mut e: Vec<u16> = vec![];
    sort_ascending(&mut e);
    assert_eq!(e, Vec::<u16>::new());
}

#[test]
fn image_exposure_unchanged_on_exact_target() {
    let data = mono16(vec![26214; 16], 2 * SECOND, 2);
    let r = data.find_optimum_exposure(995_000, 400_000, 16, 1_000_000, 10 * SECOND, 1, 0);
    assert_eq!(r, Ok((2 * SECOND, 2)));
}

#[test]
fn image_exposure_doubles_for_half_brightness() {
    let data = mono16(vec![13107; 16], SECOND, 1);
    let r = data.find_optimum_exposure(995_000, 400_000, 16, 1_000_000, 10 * SECOND, 1, 0);
    assert_eq!(r, Ok((2 * SECOND, 1)));
    let r = data.find_optimum_exposure(995_000, 400_000, 16, 1_000_000, SECOND + 1, 1, 0);
    assert_eq!(r, Ok((SECOND + 1, 1)));
}

#[test]
fn image_exposure_looks_at_the_samples_in_ascending_order() {
    // The brightest sample stands first: only in ascending order is it
    // the one at the top percentile.
    let data = mono16(vec![26214, 5, 7, 100, 3, 1, 2, 4], 2 * SECOND, 1);
    let r = data.find_optimum_exposure(1_000_000, 400_000, 16, 1_000_000, 10 * SECOND, 1, 0);
    assert_eq!(r, Ok((2 * SECOND, 1)));
    // Without the brightest, sample 100 is looked at.
    let r = data.find_optimum_exposure(1_000_000, 400_000, 16, 1, u64::MAX, 1, 1);
    assert_eq!(r, Ok((2 * SECOND / 100 * 26214, 1)));
}

#[test]
fn image_exposure_refuses_what_cannot_be_asked() {
    let data = mono16(vec![13107; 16], SECOND, 1);
    let r = data.find_optimum_exposure(995_000, 1_000_001, 16, 1_000_000, 10 * SECOND, 1, 0);
    assert_eq!(r, Err(Error::InvalidValue("Target pixel value must be between 1.6e-5 and 1".to_string())));
    let r = data.find_optimum_exposure(995_000, 1_000_000, 16, SECOND, SECOND, 1, 0);
    assert_eq!(
        r,
        Err(Error::InvalidValue("Minimum allowed exposure must be less than maximum allowed exposure".to_string()))
    );
}
