//! The errors of camera and image operations.

use vstd::prelude::*;
use vstd::string::StringExecFns;
use crate::text::{decimal, push_decimal, push_signed_decimal, signed_decimal};

verus! {

/// Errors returned by camera and image operations.
#[derive(Debug, PartialEq, Clone)]
pub enum Error {
    /// Error message.
    Message(String),
    /// Invalid index.
    InvalidIndex(i32),
    /// Invalid ID.
    InvalidId(i32),
    /// Invalid control type.
    InvalidControlType(String),
    /// No cameras available.
    NoCamerasAvailable,
    /// Camera not open for access.
    CameraClosed,
    /// Camera already removed.
    CameraRemoved,
    /// Invalid path.
    InvalidPath(String),
    /// Invalid format.
    InvalidFormat(String),
    /// Invalid size.
    InvalidSize(usize),
    /// Invalid image type.
    InvalidImageType(String),
    /// Operation timed out.
    TimedOut,
    /// Invalid sequence.
    InvalidSequence,
    /// Buffer too small.
    BufferTooSmall(usize),
    /// Exposure in progress.
    ExposureInProgress,
    /// General error.
    GeneralError(String),
    /// Invalid mode.
    InvalidMode(String),
    /// Exposure failed.
    ExposureFailed(String),
    /// Invalid value.
    InvalidValue(String),
    /// Out of bounds.
    OutOfBounds(String),
}

impl Error {
    /// The fixed words that the description of the error begins with.
    pub open spec fn prefix(self) -> Seq<char> {
        match self {
            Error::Message(_) => "Error: "@,
            Error::InvalidIndex(_) => "Invalid index: "@,
            Error::InvalidId(_) => "Invalid ID: "@,
            Error::InvalidControlType(_) => "Invalid control type: "@,
            Error::NoCamerasAvailable => "No cameras available"@,
            Error::CameraClosed => "Camera not open for access"@,
            Error::CameraRemoved => "Camera already removed"@,
            Error::InvalidPath(_) => "Invalid path: "@,
            Error::InvalidFormat(_) => "Invalid format: "@,
            Error::InvalidSize(_) => "Invalid size: "@,
            Error::InvalidImageType(_) => "Invalid image type: "@,
            Error::TimedOut => "Operation timed out"@,
            Error::InvalidSequence => "Invalid sequence"@,
            Error::BufferTooSmall(_) => "Buffer too small: "@,
            Error::ExposureInProgress => "Exposure already in progress"@,
            Error::GeneralError(_) => "General error: "@,
            Error::InvalidMode(_) => "Invalid mode: "@,
            Error::ExposureFailed(_) => "Exposure failed: "@,
            Error::InvalidValue(_) => "Invalid value: "@,
            Error::OutOfBounds(_) => "Out of bounds: "@,
        }
    }

    /// What the error carries, as it is written in its description: a text
    /// as it is, a number as its decimal numeral, nothing for an error
    /// that carries nothing.
    pub open spec fn detail(self) -> Seq<char> {
        match self {
            Error::Message(s) => s@,
            Error::InvalidIndex(i) => signed_decimal(i as int),
            Error::InvalidId(i) => signed_decimal(i as int),
            Error::InvalidControlType(s) => s@,
            Error::InvalidPath(s) => s@,
            Error::InvalidFormat(s) => s@,
            Error::InvalidSize(n) => decimal(n as nat),
            Error::InvalidImageType(s) => s@,
            Error::BufferTooSmall(n) => decimal(n as nat),
            Error::GeneralError(s) => s@,
            Error::InvalidMode(s) => s@,
            Error::ExposureFailed(s) => s@,
            Error::InvalidValue(s) => s@,
            Error::OutOfBounds(s) => s@,
            _ => Seq::<char>::empty(),
        }
    }

    /// The description of the error: its fixed words, then what it carries.
    pub open spec fn text(self) -> Seq<char> {
        self.prefix() + self.detail()
    }

    /// The fixed words that the description of the error begins with.
    fn prefix_str(&self) -> (s: &'static str)
        ensures
            s@ == self.prefix(),
    {
        match self {
            Error::Message(_) => "Error: ",
            Error::InvalidIndex(_) => "Invalid index: ",
            Error::InvalidId(_) => "Invalid ID: ",
            Error::InvalidControlType(_) => "Invalid control type: ",
            Error::NoCamerasAvailable => "No cameras available",
            Error::CameraClosed => "Camera not open for access",
            Error::CameraRemoved => "Camera already removed",
            Error::InvalidPath(_) => "Invalid path: ",
            Error::InvalidFormat(_) => "Invalid format: ",
            Error::InvalidSize(_) => "Invalid size: ",
            Error::InvalidImageType(_) => "Invalid image type: ",
            Error::TimedOut => "Operation timed out",
            Error::InvalidSequence => "Invalid sequence",
            Error::BufferTooSmall(_) => "Buffer too small: ",
            Error::ExposureInProgress => "Exposure already in progress",
            Error::GeneralError(_) => "General error: ",
            Error::InvalidMode(_) => "Invalid mode: ",
            Error::ExposureFailed(_) => "Exposure failed: ",
            Error::InvalidValue(_) => "Invalid value: ",
            Error::OutOfBounds(_) => "Out of bounds: ",
        }
    }

    /// The description of the error.
    pub fn to_string(&self) -> (s: String)
        ensures
            s@ == self.text(),
    {
        let mut out = String::from_str(self.prefix_str());
        match self {
            Error::Message(s) => out.append(s.as_str()),
            Error::InvalidIndex(i) => push_signed_decimal(&mut out, *i as i64),
            Error::InvalidId(i) => push_signed_decimal(&mut out, *i as i64),
            Error::InvalidControlType(s) => out.append(s.as_str()),
            Error::InvalidPath(s) => out.append(s.as_str()),
            Error::InvalidFormat(s) => out.append(s.as_str()),
            Error::InvalidSize(n) => push_decimal(&mut out, *n as u128),
            Error::InvalidImageType(s) => out.append(s.as_str()),
            Error::BufferTooSmall(n) => push_decimal(&mut out, *n as u128),
            Error::GeneralError(s) => out.append(s.as_str()),
            Error::InvalidMode(s) => out.append(s.as_str()),
            Error::ExposureFailed(s) => out.append(s.as_str()),
            Error::InvalidValue(s) => out.append(s.as_str()),
            Error::OutOfBounds(s) => out.append(s.as_str()),
            _ => {
                assert(out@ + Seq::<char>::empty() =~= out@);
            },
        }
        out
    }
}

} // verus!
