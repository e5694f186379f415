//! The metadata that is recorded with an image.

use vstd::prelude::*;
use vstd::string::StringExecFns;

verus! {

/// What a list of key and value pairs holds: each pair by the characters
/// of its key and of its value, in the order of the list.
pub open spec fn pairs_view(pairs: Seq<(String, String)>) -> Seq<(Seq<char>, Seq<char>)> {
    Seq::new(pairs.len(), |i: int| (pairs[i].0@, pairs[i].1@))
}

/// Image metadata.
///
/// Times are counted in nanoseconds: the exposure as a length of time, the
/// timestamp from the Unix epoch, negative before it. The temperature, in
/// degrees Celsius, is an IEEE-754 single precision number held by its
/// bits.
#[derive(Debug, PartialEq)]
pub struct ImageMetaData {
    /// Binning in X direction.
    pub bin_x: u32,
    /// Binning in Y direction.
    pub bin_y: u32,
    /// Top of image (pixels, binned coordinates).
    pub img_top: u32,
    /// Left of image (pixels, binned coordinates).
    pub img_left: u32,
    /// Camera temperature (C), by the bits of the single precision number.
    pub temperature_bits: u32,
    /// Exposure time, in nanoseconds.
    pub exposure_ns: u64,
    /// Timestamp of the image, in nanoseconds since the Unix epoch.
    pub timestamp_ns: i128,
    /// Name of the camera.
    pub camera_name: String,
    /// Gain (raw).
    pub gain: i64,
    /// Offset (raw).
    pub offset: i64,
    /// Minimum gain (raw).
    pub min_gain: i32,
    /// Maximum gain (raw).
    pub max_gain: i32,
    /// Extended attributes, each a key with its value, in the order in
    /// which they were added.
    pub extended_metadata: Vec<(String, String)>,
}

/// What an [`ImageMetaData`] value holds.
pub struct MetaDataView {
    /// Binning in X direction.
    pub bin_x: u32,
    /// Binning in Y direction.
    pub bin_y: u32,
    /// Top of image.
    pub img_top: u32,
    /// Left of image.
    pub img_left: u32,
    /// Camera temperature, by its bits.
    pub temperature_bits: u32,
    /// Exposure time, in nanoseconds.
    pub exposure_ns: u64,
    /// Timestamp, in nanoseconds since the Unix epoch.
    pub timestamp_ns: i128,
    /// Name of the camera.
    pub camera_name: Seq<char>,
    /// Gain (raw).
    pub gain: i64,
    /// Offset (raw).
    pub offset: i64,
    /// Minimum gain (raw).
    pub min_gain: i32,
    /// Maximum gain (raw).
    pub max_gain: i32,
    /// The extended attributes, in the order in which they were added.
    pub extended: Seq<(Seq<char>, Seq<char>)>,
}

impl MetaDataView {
    /// The metadata of an image of which nothing is known: no binning,
    /// origin at zero, all quantities zero, the timestamp at the epoch, no
    /// name and no extended attribute.
    pub open spec fn initial() -> MetaDataView {
        MetaDataView {
            bin_x: 1,
            bin_y: 1,
            img_top: 0,
            img_left: 0,
            temperature_bits: 0,
            exposure_ns: 0,
            timestamp_ns: 0,
            camera_name: Seq::<char>::empty(),
            gain: 0,
            offset: 0,
            min_gain: 0,
            max_gain: 0,
            extended: Seq::<(Seq<char>, Seq<char>)>::empty(),
        }
    }

    /// The same metadata with one more extended attribute at the end.
    pub open spec fn with_attrib(self, key: Seq<char>, val: Seq<char>) -> MetaDataView {
        MetaDataView { extended: self.extended.push((key, val)), ..self }
    }
}

impl View for ImageMetaData {
    type V = MetaDataView;

    open spec fn view(&self) -> MetaDataView {
        MetaDataView {
            bin_x: self.bin_x,
            bin_y: self.bin_y,
            img_top: self.img_top,
            img_left: self.img_left,
            temperature_bits: self.temperature_bits,
            exposure_ns: self.exposure_ns,
            timestamp_ns: self.timestamp_ns,
            camera_name: self.camera_name@,
            gain: self.gain,
            offset: self.offset,
            min_gain: self.min_gain,
            max_gain: self.max_gain,
            extended: pairs_view(self.extended_metadata@),
        }
    }
}

impl ImageMetaData {
    /// Metadata with the given acquisition parameters, the origin at
    /// zero, gain bounds of zero and no extended attribute.
    pub fn new(
        timestamp_ns: i128,
        exposure_ns: u64,
        temperature_bits: u32,
        bin_x: u32,
        bin_y: u32,
        camera_name: &str,
        gain: i64,
        offset: i64,
    ) -> (meta: Self)
        ensures
            meta@ == (MetaDataView {
                bin_x,
                bin_y,
                temperature_bits,
                exposure_ns,
                timestamp_ns,
                camera_name: camera_name@,
                gain,
                offset,
                ..MetaDataView::initial()
            }),
    {
        let meta = ImageMetaData {
            bin_x,
            bin_y,
            img_top: 0,
            img_left: 0,
            temperature_bits,
            exposure_ns,
            timestamp_ns,
            camera_name: String::from_str(camera_name),
            gain,
            offset,
            min_gain: 0,
            max_gain: 0,
            extended_metadata: Vec::new(),
        };
        assert(meta@.extended =~= Seq::<(Seq<char>, Seq<char>)>::empty());
        meta
    }

    /// Metadata with every parameter given, and no extended attribute.
    pub fn full_builder(
        bin_x: u32,
        bin_y: u32,
        img_top: u32,
        img_left: u32,
        temperature_bits: u32,
        exposure_ns: u64,
        timestamp_ns: i128,
        camera_name: &str,
        gain: i64,
        offset: i64,
        min_gain: i32,
        max_gain: i32,
    ) -> (meta: Self)
        ensures
            meta@ == (MetaDataView {
                bin_x,
                bin_y,
                img_top,
                img_left,
                temperature_bits,
                exposure_ns,
                timestamp_ns,
                camera_name: camera_name@,
                gain,
                offset,
                min_gain,
                max_gain,
                extended: Seq::<(Seq<char>, Seq<char>)>::empty(),
            }),
    {
        let meta = ImageMetaData {
            bin_x,
            bin_y,
            img_top,
            img_left,
            temperature_bits,
            exposure_ns,
            timestamp_ns,
            camera_name: String::from_str(camera_name),
            gain,
            offset,
            min_gain,
            max_gain,
            extended_metadata: Vec::new(),
        };
        assert(meta@.extended =~= Seq::<(Seq<char>, Seq<char>)>::empty());
        meta
    }

    /// Adds an extended attribute after those that are there. Keys need
    /// not differ: an attribute replaces none.
    pub fn add_extended_attrib(&mut self, key: &str, val: &str)
        ensures
            final(self)@ == old(self)@.with_attrib(key@, val@),
    {
        self.extended_metadata.push((String::from_str(key), String::from_str(val)));
        assert(self@.extended =~= old(self)@.extended.push((key@, val@)));
    }

    /// The extended attributes, in the order in which they were added.
    pub fn get_extended_data(&self) -> (pairs: &Vec<(String, String)>)
        ensures
            pairs_view(pairs@) == self@.extended,
    {
        &self.extended_metadata
    }
}

impl Default for ImageMetaData {
    fn default() -> (meta: Self)
        ensures
            meta@ == MetaDataView::initial(),
    {
        let meta = ImageMetaData {
            bin_x: 1,
            bin_y: 1,
            img_top: 0,
            img_left: 0,
            temperature_bits: 0,
            exposure_ns: 0,
            timestamp_ns: 0,
            camera_name: String::new(),
            gain: 0,
            offset: 0,
            min_gain: 0,
            max_gain: 0,
            extended_metadata: Vec::new(),
        };
        assert(meta@.extended =~= Seq::<(Seq<char>, Seq<char>)>::empty());
        meta
    }
}

impl Clone for ImageMetaData {
    fn clone(&self) -> (meta: Self)
        ensures
            meta@ == self@,
    {
        let mut pairs: Vec<(String, String)> = Vec::new();
        let n = self.extended_metadata.len();
        let mut i: usize = 0;
        while i < n
            invariant
                n == self.extended_metadata@.len(),
                i <= n,
                pairs@.len() == i,
                forall|j: int| 0 <= j < i ==> pairs@[j] == self.extended_metadata@[j],
            decreases n - i,
        {
            let pair = &self.extended_metadata[i];
            pairs.push((pair.0.clone(), pair.1.clone()));
            i = i + 1;
        }
        assert(pairs_view(pairs@) =~= pairs_view(self.extended_metadata@));
        ImageMetaData {
            bin_x: self.bin_x,
            bin_y: self.bin_y,
            img_top: self.img_top,
            img_left: self.img_left,
            temperature_bits: self.temperature_bits,
            exposure_ns: self.exposure_ns,
            timestamp_ns: self.timestamp_ns,
            camera_name: self.camera_name.clone(),
            gain: self.gain,
            offset: self.offset,
            min_gain: self.min_gain,
            max_gain: self.max_gain,
            extended_metadata: pairs,
        }
    }
}

} // verus!
