//! Camera interface data model: pixel layouts, image metadata, typed sample
//! buffers, the conversions between them, the layout of a stored image file
//! and the exposure control that is computed from an image.

pub mod text;
pub mod error;
pub mod bpp;
pub mod roi;
pub mod layout;
pub mod samples;
pub mod metadata;
pub mod raster;
pub mod luma;
pub mod serial;
pub mod exposure;
pub mod fits;
pub mod imagedata;
