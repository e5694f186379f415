//! Flat sample storage in one of the three sample types, and the split of
//! interleaved samples into the planes of their channels.

use vstd::prelude::*;
use crate::layout::SampleType;

verus! {

/// The samples of an image, pixel after pixel and row after row, the
/// channels of one pixel next to each other.
///
/// An IEEE-754 sample is held by its 32 bits, which keeps every value,
/// the payload of a NaN included.
#[derive(Debug, PartialEq, Eq)]
pub enum Samples {
    /// 8-bit samples.
    U8(Vec<u8>),
    /// 16-bit samples.
    U16(Vec<u16>),
    /// 32-bit IEEE-754 samples, each by its bits.
    F32(Vec<u32>),
}

/// What a [`Samples`] value holds.
pub enum SamplesView {
    /// 8-bit samples.
    U8(Seq<u8>),
    /// 16-bit samples.
    U16(Seq<u16>),
    /// 32-bit IEEE-754 samples, each by its bits.
    F32(Seq<u32>),
}

/// Channel `k` of samples that are interleaved in `channels` channels:
/// sample `i` of the plane is sample `k` of pixel `i`. Samples after the
/// last whole pixel belong to no plane.
pub open spec fn plane<T>(s: Seq<T>, channels: int, k: int) -> Seq<T> {
    Seq::new((s.len() as int / channels) as nat, |i: int| s[i * channels + k])
}

impl SamplesView {
    /// The number of samples.
    pub open spec fn len(self) -> nat {
        match self {
            SamplesView::U8(s) => s.len(),
            SamplesView::U16(s) => s.len(),
            SamplesView::F32(s) => s.len(),
        }
    }

    /// The type of the samples.
    pub open spec fn sample_type(self) -> SampleType {
        match self {
            SamplesView::U8(_) => SampleType::U8,
            SamplesView::U16(_) => SampleType::U16,
            SamplesView::F32(_) => SampleType::F32,
        }
    }

    /// Channel `k` of the samples, see [`plane`].
    pub open spec fn plane(self, channels: int, k: int) -> SamplesView {
        match self {
            SamplesView::U8(s) => SamplesView::U8(plane(s, channels, k)),
            SamplesView::U16(s) => SamplesView::U16(plane(s, channels, k)),
            SamplesView::F32(s) => SamplesView::F32(plane(s, channels, k)),
        }
    }
}

impl View for Samples {
    type V = SamplesView;

    open spec fn view(&self) -> SamplesView {
        match self {
            Samples::U8(v) => SamplesView::U8(v@),
            Samples::U16(v) => SamplesView::U16(v@),
            Samples::F32(v) => SamplesView::F32(v@),
        }
    }
}

/// The index of sample `k` of pixel `i` lies inside the whole pixels.
pub proof fn lemma_plane_index(len: int, channels: int, i: int, k: int)
    requires
        0 < channels,
        0 <= k < channels,
        0 <= i < len / channels,
        0 <= len,
    ensures
        0 <= i * channels + k < len,
        (i + 1) * channels <= len,
{
    assert((i + 1) * channels <= (len / channels) * channels) by (nonlinear_arith)
        requires
            i + 1 <= len / channels,
            0 < channels,
    ;
    assert((len / channels) * channels <= len) by (nonlinear_arith)
        requires
            0 < channels,
            0 <= len,
    ;
    assert((i + 1) * channels == i * channels + channels) by (nonlinear_arith);
    assert(0 <= i * channels) by (nonlinear_arith)
        requires
            0 <= i,
            0 < channels,
    ;
}

/// Copies channel `k` out of samples interleaved in `channels` channels.
pub fn copy_plane<T: Copy>(data: &Vec<T>, channels: usize, k: usize) -> (out: Vec<T>)
    requires
        0 < channels,
        k < channels,
    ensures
        out@ == plane(data@, channels as int, k as int),
{
    let len = data.len();
    let n = len / channels;
    let mut out: Vec<T> = Vec::new();
    let mut i: usize = 0;
    while i < n
        invariant
            0 < channels,
            k < channels,
            len == data@.len(),
            n == data@.len() as int / (channels as int),
            i <= n,
            out@.len() == i,
            forall|j: int| 0 <= j < i ==> out@[j] == data@[j * channels + k],
        decreases n - i,
    {
        proof {
            lemma_plane_index(data@.len() as int, channels as int, i as int, k as int);
        }
        let at = i * channels + k;
        out.push(data[at]);
        i = i + 1;
    }
    assert(out@ =~= plane(data@, channels as int, k as int));
    out
}

impl Samples {
    /// The number of samples.
    pub fn len(&self) -> (n: usize)
        ensures
            n == self@.len(),
    {
        match self {
            Samples::U8(v) => v.len(),
            Samples::U16(v) => v.len(),
            Samples::F32(v) => v.len(),
        }
    }

    /// The type of the samples.
    pub fn sample_type(&self) -> (t: SampleType)
        ensures
            t == self@.sample_type(),
    {
        match self {
            Samples::U8(_) => SampleType::U8,
            Samples::U16(_) => SampleType::U16,
            Samples::F32(_) => SampleType::F32,
        }
    }

    /// Channel `k` of samples that are interleaved in `channels` channels,
    /// in the sample type of the whole.
    pub fn plane(&self, channels: usize, k: usize) -> (out: Samples)
        requires
            0 < channels,
            k < channels,
        ensures
            out@ == self@.plane(channels as int, k as int),
    {
        match self {
            Samples::U8(v) => Samples::U8(copy_plane(v, channels, k)),
            Samples::U16(v) => Samples::U16(copy_plane(v, channels, k)),
            Samples::F32(v) => Samples::F32(copy_plane(v, channels, k)),
        }
    }
}

impl Clone for Samples {
    fn clone(&self) -> (out: Self)
        ensures
            out@ == self@,
    {
        match self {
            Samples::U8(v) => {
                let c = v.clone();
                assert(c@ =~= v@);
                Samples::U8(c)
            },
            Samples::U16(v) => {
                let c = v.clone();
                assert(c@ =~= v@);
                Samples::U16(c)
            },
            Samples::F32(v) => {
                let c = v.clone();
                assert(c@ =~= v@);
                Samples::F32(c)
            },
        }
    }
}

/// The planes hold every sample of the whole pixels, each once and where
/// its channel and its pixel say: sample `i` of the interleaved samples is
/// sample `i / channels` of plane `i % channels`. So the interleaved
/// samples are found again from the planes.
pub proof fn lemma_planes_hold_all<T>(s: Seq<T>, channels: int, i: int)
    requires
        0 < channels,
        0 <= i < (s.len() as int / channels) * channels,
    ensures
        0 <= i / channels < plane(s, channels, i % channels).len() as int,
        plane(s, channels, i % channels)[i / channels] == s[i],
{
    assert(i / channels < s.len() as int / channels) by (nonlinear_arith)
        requires
            0 < channels,
            0 <= i < (s.len() as int / channels) * channels,
    ;
    assert(0 <= i / channels) by (nonlinear_arith)
        requires
            0 < channels,
            0 <= i,
    ;
    assert(i == (i / channels) * channels + i % channels) by (nonlinear_arith)
        requires
            0 < channels,
    ;
}

} // verus!
