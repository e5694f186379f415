use cameraunit::error::Error;
use cameraunit::roi::{CameraDescriptor, ROI};
use cameraunit::text::{decimal_string, push_decimal, push_signed_decimal};

#[test]
fn decimal_of_zero_and_small_numbers() {
    assert_eq!(decimal_string(0), "0");
    assert_eq!(decimal_string(7), "7");
    assert_eq!(decimal_string(10), "10");
    assert_eq!(decimal_string(1234567890), "1234567890");
}

#[test]
fn decimal_of_largest_number() {
    assert_eq!(decimal_string(u128::MAX), u128::MAX.to_string());
    assert_eq!(decimal_string(u64::MAX as u128), "18446744073709551615");
}

#[test]
fn decimal_is_appended() {
    let mut s = String::from("n=");
    push_decimal(&mut s, 405);
    assert_eq!(s, "n=405");
}

#[test]
fn signed_decimal_has_sign() {
    let mut s = String::new();
    push_signed_decimal(&mut s, -17);
    assert_eq!(s, "-17");
    let mut s = String::new();
    push_signed_decimal(&mut s, 17);
    assert_eq!(s, "17");
    let mut s = String::new();
    push_signed_decimal(&mut s, 0);
    assert_eq!(s, "0");
    let mut s = String::new();
    push_signed_decimal(&mut s, i64::MIN);
    assert_eq!(s, "-9223372036854775808");
    let mut s = String::new();
    push_signed_decimal(&mut s, i64::MAX);
    assert_eq!(s, "9223372036854775807");
}

#[test]
fn roi_description() {
    let roi = ROI { x_min: 1, y_min: 2, width: 640, height: 480, bin_x: 2, bin_y: 4 };
    assert_eq!(roi.to_string(), "ROI: Origin = (1, 2), Image Size = (640 x 480), Bin = (2, 4)");
    let zero = ROI { x_min: 0, y_min: 0, width: 0, height: 0, bin_x: 0, bin_y: 0 };
    assert_eq!(zero.to_string(), "ROI: Origin = (0, 0), Image Size = (0 x 0), Bin = (0, 0)");
}

#[test]
fn roi_is_compared_by_fields() {
    let a = ROI { x_min: 1, y_min: 2, width: 3, height: 4, bin_x: 1, bin_y: 1 };
    let b = a;
    assert_eq!(a, b);
    assert_ne!(a, ROI { bin_y: 2, ..a });
}

#[test]
fn camera_descriptor_holds_id_and_name() {
    let d = CameraDescriptor { id: 3, name: String::from("ASI533") };
    let e = d.clone();
    assert_eq!(d, e);
    assert_eq!(e.id, 3);
    assert_eq!(e.name, "ASI533");
}

#[test]
fn error_descriptions_with_text() {
    assert_eq!(Error::Message("lost".to_string()).to_string(), "Error: lost");
    assert_eq!(Error::InvalidControlType("x".to_string()).to_string(), "Invalid control type: x");
    assert_eq!(Error::InvalidPath("/nowhere".to_string()).to_string(), "Invalid path: /nowhere");
    assert_eq!(Error::InvalidFormat("raw".to_string()).to_string(), "Invalid format: raw");
    assert_eq!(Error::InvalidImageType("La32".to_string()).to_string(), "Invalid image type: La32");
    assert_eq!(Error::GeneralError("oops".to_string()).to_string(), "General error: oops");
    assert_eq!(Error::InvalidMode("video".to_string()).to_string(), "Invalid mode: video");
    assert_eq!(Error::ExposureFailed("dark".to_string()).to_string(), "Exposure failed: dark");
    assert_eq!(Error::InvalidValue("gain".to_string()).to_string(), "Invalid value: gain");
    assert_eq!(Error::OutOfBounds("roi".to_string()).to_string(), "Out of bounds: roi");
    assert_eq!(Error::Message(String::new()).to_string(), "Error: ");
}

#[test]
fn error_descriptions_with_numbers() {
    assert_eq!(Error::InvalidIndex(-3).to_string(), "Invalid index: -3");
    assert_eq!(Error::InvalidIndex(i32::MIN).to_string(), "Invalid index: -2147483648");
    assert_eq!(Error::InvalidId(42).to_string(), "Invalid ID: 42");
    assert_eq!(Error::InvalidSize(0).to_string(), "Invalid size: 0");
    assert_eq!(Error::InvalidSize(1024).to_string(), "Invalid size: 1024");
    assert_eq!(Error::BufferTooSmall(77).to_string(), "Buffer too small: 77");
}

#[test]
fn error_descriptions_without_detail() {
    assert_eq!(Error::NoCamerasAvailable.to_string(), "No cameras available");
    assert_eq!(Error::CameraClosed.to_string(), "Camera not open for access");
    assert_eq!(Error::CameraRemoved.to_string(), "Camera already removed");
    assert_eq!(Error::TimedOut.to_string(), "Operation timed out");
    assert_eq!(Error::InvalidSequence.to_string(), "Invalid sequence");
    assert_eq!(Error::ExposureInProgress.to_string(), "Exposure already in progress");
}
