//! The region of interest on a detector and the description of a camera
//! device.

use vstd::prelude::*;
use vstd::string::StringExecFns;
use crate::text::{decimal, push_decimal};

verus! {

/// A region of interest on the detector.
#[derive(Clone, Copy, Debug, PartialEq, Eq, Hash, Structural)]
pub struct ROI {
    /// The minimum X coordinate (in binned pixel space).
    pub x_min: u32,
    /// The minimum Y coordinate (in binned pixel space).
    pub y_min: u32,
    /// The image width (X axis, in binned pixel space).
    pub width: u32,
    /// The image height (Y axis, in binned pixel space).
    pub height: u32,
    /// The X binning factor.
    pub bin_x: u32,
    /// The Y binning factor.
    pub bin_y: u32,
}

impl ROI {
    /// The description of the region: origin, size and binning, each
    /// number as its decimal numeral.
    pub open spec fn text(self) -> Seq<char> {
        "ROI: Origin = ("@ + decimal(self.x_min as nat) + ", "@ + decimal(self.y_min as nat)
            + "), Image Size = ("@ + decimal(self.width as nat) + " x "@ + decimal(
            self.height as nat,
        ) + "), Bin = ("@ + decimal(self.bin_x as nat) + ", "@ + decimal(self.bin_y as nat) + ")"@
    }

    /// The description of the region.
    pub fn to_string(&self) -> (s: String)
        ensures
            s@ == self.text(),
    {
        let mut out = String::from_str("ROI: Origin = (");
        push_decimal(&mut out, self.x_min as u128);
        out.append(", ");
        push_decimal(&mut out, self.y_min as u128);
        out.append("), Image Size = (");
        push_decimal(&mut out, self.width as u128);
        out.append(" x ");
        push_decimal(&mut out, self.height as u128);
        out.append("), Bin = (");
        push_decimal(&mut out, self.bin_x as u128);
        out.append(", ");
        push_decimal(&mut out, self.bin_y as u128);
        out.append(")");
        out
    }
}

/// Information about a camera device.
#[derive(Clone, PartialEq, Eq, Debug)]
pub struct CameraDescriptor {
    /// The camera ID.
    pub id: usize,
    /// The camera name.
    pub name: String,
}

} // verus!
