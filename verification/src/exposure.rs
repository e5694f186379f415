//! The exposure control: from the brightness of an image, the exposure
//! time and the binning with which the next image reaches a target
//! brightness.
//!
//! Fractions are given in parts per million, times in nanoseconds.
//! Brightness is counted on the 16-bit scale, where the full scale is
//! 65535 counts; the rules compare and divide exact numbers, in millionths
//! of a count.

use vstd::prelude::*;
use vstd::string::StringExecFns;
use crate::error::Error;

verus! {

/// One million: the parts of a whole, and the millionths of a count.
pub const MILLION: u32 = 1_000_000;

/// The smallest fraction that a target or an uncertainty may be: 1.6e-5,
/// in parts per million.
pub const MIN_FRACTION: u32 = 16;

/// The counts of the full 16-bit scale.
pub const FULL_SCALE: u32 = 65535;

/// The percentile, in parts per million, above which the last sample is
/// taken: 99.9 percent.
pub const TOP_PERCENTILE: u32 = 999_000;

/// The brightness that stands for a sample that is not there, and below
/// which no brightness is divided by: 1e-5 counts, in millionths of a
/// count.
pub const FLOOR_BRIGHTNESS: u64 = 10;

/// What the exposure control is asked for.
#[derive(Clone, Copy, Debug, PartialEq, Eq, Structural)]
pub struct OptimumExposure {
    /// The percentile of the samples whose brightness is looked at, in
    /// parts per million of the whole: 1_000_000 is the brightest sample.
    pub percentile_pix: u32,
    /// The target brightness, in parts per million of the full scale.
    pub pixel_tgt: u32,
    /// How far from the target the brightness may be and still be on it,
    /// in parts per million of the full scale.
    pub pixel_uncertainty: u32,
    /// The minimum allowed exposure time, in nanoseconds.
    pub min_allowed_exp: u64,
    /// The maximum allowed exposure time, in nanoseconds.
    pub max_allowed_exp: u64,
    /// The maximum allowed binning. Below 2, the binning is never changed.
    pub max_allowed_bin: u16,
    /// The number of brightest samples that are not looked at.
    pub pixel_exclusion: u32,
}

/// The words of the error for a target outside its range.
pub open spec fn target_range_text() -> Seq<char> {
    "Target pixel value must be between 1.6e-5 and 1"@
}

/// The words of the error for an uncertainty outside its range.
pub open spec fn uncertainty_range_text() -> Seq<char> {
    "Pixel uncertainty must be between 1.6e-5 and 1"@
}

/// The words of the error for a percentile outside its range.
pub open spec fn percentile_range_text() -> Seq<char> {
    "Percentile must be between 0 and 100"@
}

/// The words of the error for exposure bounds that are not in order.
pub open spec fn exposure_bounds_text() -> Seq<char> {
    "Minimum allowed exposure must be less than maximum allowed exposure"@
}

/// Whether a fraction, in parts per million, lies between 1.6e-5 and 1,
/// both ends included.
pub open spec fn fraction_in_range(ppm: u32) -> bool {
    MIN_FRACTION <= ppm <= MILLION
}

/// The index of the sample at a percentile among `n` samples in ascending
/// order, `n` at least one: the last index for a percentile above 99.9
/// percent, else the percentile's share of the last index, rounded down.
pub open spec fn percentile_index(n: nat, percentile: nat) -> nat {
    if percentile > TOP_PERCENTILE {
        (n - 1) as nat
    } else {
        percentile * ((n - 1) as nat) / (MILLION as nat)
    }
}

/// The index of the sample that is looked at among `n` samples in
/// ascending order: the index at the percentile or, where that one is
/// among the `exclusion` brightest, the one just below those. There is
/// none where there is no sample or all of them are excluded.
pub open spec fn sample_index(n: nat, percentile: nat, exclusion: nat) -> Option<nat> {
    if n == 0 {
        None
    } else if percentile_index(n, percentile) + exclusion < n {
        Some(percentile_index(n, percentile))
    } else if exclusion < n {
        Some((n - 1 - exclusion) as nat)
    } else {
        None
    }
}

/// The brightness that is looked at, in millionths of a count: that of
/// the sample at [`sample_index`], or [`FLOOR_BRIGHTNESS`] where there is
/// no such sample.
pub open spec fn sampled_brightness(sample: Seq<u16>, percentile: nat, exclusion: nat) -> nat {
    match sample_index(sample.len(), percentile, exclusion) {
        Some(i) => sample[i as int] as nat * (MILLION as nat),
        None => FLOOR_BRIGHTNESS as nat,
    }
}

/// A fraction of the full scale, in millionths of a count.
pub open spec fn scaled(ppm: nat) -> nat {
    ppm * (FULL_SCALE as nat)
}

/// Whether a brightness is on the target: nearer to it than the
/// uncertainty.
pub open spec fn on_target(brightness: nat, target: nat, uncertainty: nat) -> bool {
    if brightness <= target {
        target - brightness < uncertainty
    } else {
        brightness - target < uncertainty
    }
}

/// The exposure time that brings a brightness to the target: the time of
/// the image, times the target, by the brightness, rounded down; a
/// brightness below [`FLOOR_BRIGHTNESS`] counts as that.
pub open spec fn scaled_exposure(exposure: nat, brightness: nat, target: nat) -> nat {
    if brightness <= FLOOR_BRIGHTNESS {
        exposure * target / (FLOOR_BRIGHTNESS as nat)
    } else {
        exposure * target / brightness
    }
}

/// Less binning for more exposure: while the exposure is below the
/// maximum and the binning above 2, the binning is halved and the
/// exposure becomes four times as long.
pub open spec fn lower_bin(exposure: nat, bin: nat, max_exposure: nat) -> (nat, nat)
    decreases bin,
{
    if exposure < max_exposure && bin > 2 {
        lower_bin(exposure * 4, bin / 2, max_exposure)
    } else {
        (exposure, bin)
    }
}

/// More binning for less exposure: while the exposure is above the
/// maximum and twice the binning is not above the maximum binning, the
/// binning is doubled and the exposure becomes a quarter as long,
/// rounded down.
pub open spec fn raise_bin(exposure: nat, bin: nat, max_exposure: nat, max_bin: nat) -> (nat, nat)
    decreases exposure,
{
    if exposure > max_exposure && bin * 2 <= max_bin {
        raise_bin(exposure / 4, bin * 2, max_exposure, max_bin)
    } else {
        (exposure, bin)
    }
}

/// An exposure between the bounds: the maximum for one above it, then the
/// minimum for one below it.
pub open spec fn clamp_exposure(exposure: nat, min_exposure: nat, max_exposure: nat) -> nat {
    let below = if exposure > max_exposure {
        max_exposure
    } else {
        exposure
    };
    if below < min_exposure {
        min_exposure
    } else {
        below
    }
}

/// A binning between 1 and the maximum binning.
pub open spec fn clamp_bin(bin: nat, max_bin: nat) -> nat {
    let above = if bin < 1 {
        1
    } else {
        bin
    };
    if above > max_bin {
        max_bin
    } else {
        above
    }
}

impl OptimumExposure {
    /// The words of the error for what is asked, if it cannot be asked:
    /// the target and the uncertainty lie between 1.6e-5 and 1, the
    /// percentile is at most the whole, and the minimum exposure is below
    /// the maximum. The first of these that fails gives the words.
    pub open spec fn fault(self) -> Option<Seq<char>> {
        if !fraction_in_range(self.pixel_tgt) {
            Some(target_range_text())
        } else if !fraction_in_range(self.pixel_uncertainty) {
            Some(uncertainty_range_text())
        } else if self.percentile_pix > MILLION {
            Some(percentile_range_text())
        } else if self.min_allowed_exp >= self.max_allowed_exp {
            Some(exposure_bounds_text())
        } else {
            None
        }
    }

    /// The maximum binning that counts: 1 where the one asked for is below
    /// 2.
    pub open spec fn max_bin(self) -> nat {
        if self.max_allowed_bin < 2 {
            1
        } else {
            self.max_allowed_bin as nat
        }
    }

    /// Whether the binning may be changed for an image with the given
    /// binning: where the image is binned alike in both directions and
    /// the maximum binning is at least 2.
    pub open spec fn may_change_bin(self, bin_x: nat, bin_y: nat) -> bool {
        bin_x == bin_y && self.max_allowed_bin >= 2
    }

    /// The brightness of the samples that is looked at, in millionths of a
    /// count.
    pub open spec fn brightness(self, sample: Seq<u16>) -> nat {
        sampled_brightness(sample, self.percentile_pix as nat, self.pixel_exclusion as nat)
    }

    /// Whether the image is on the target, so that nothing is changed.
    pub open spec fn keeps(self, sample: Seq<u16>) -> bool {
        on_target(self.brightness(sample), scaled(self.pixel_tgt as nat), scaled(self.pixel_uncertainty as nat))
    }

    /// The exposure and the binning before they are held to their bounds,
    /// for an image that is not on the target: the exposure that brings
    /// the brightness to the target, and the binning of the image, both
    /// changed together where the binning may be changed: towards less
    /// binning where the exposure is below the maximum, else towards more
    /// binning.
    pub open spec fn candidate(self, sample: Seq<u16>, exposure: nat, bin_x: nat, bin_y: nat) -> (nat, nat) {
        let wanted = scaled_exposure(exposure, self.brightness(sample), scaled(self.pixel_tgt as nat));
        if !self.may_change_bin(bin_x, bin_y) {
            (wanted, bin_x)
        } else if wanted < self.max_allowed_exp {
            lower_bin(wanted, bin_x, self.max_allowed_exp as nat)
        } else {
            raise_bin(wanted, bin_x, self.max_allowed_exp as nat, self.max_bin())
        }
    }

    /// The exposure and the binning for the next image, from the
    /// brightness samples of an image in ascending order, its exposure
    /// and its binning: those of the image where it is on the target,
    /// else the candidate, the exposure held between the allowed bounds
    /// and the binning between 1 and the maximum binning.
    pub open spec fn optimum(self, sample: Seq<u16>, exposure: nat, bin_x: nat, bin_y: nat) -> (nat, nat) {
        if self.keeps(sample) {
            (exposure, bin_x)
        } else {
            let c = self.candidate(sample, exposure, bin_x, bin_y);
            (
                clamp_exposure(c.0, self.min_allowed_exp as nat, self.max_allowed_exp as nat),
                clamp_bin(c.1, self.max_bin()),
            )
        }
    }

    /// Tests what is asked. The error is an invalid value with the words
    /// of the first rule that fails.
    pub fn validate(&self) -> (r: Result<(), Error>)
        ensures
            r is Ok <==> self.fault() is None,
            r matches Err(e) ==> e matches Error::InvalidValue(m) && Some(m@) == self.fault(),
    {
        if self.pixel_tgt < MIN_FRACTION || self.pixel_tgt > MILLION {
            return Err(Error::InvalidValue(String::from_str("Target pixel value must be between 1.6e-5 and 1")));
        }
        if self.pixel_uncertainty < MIN_FRACTION || self.pixel_uncertainty > MILLION {
            return Err(Error::InvalidValue(String::from_str("Pixel uncertainty must be between 1.6e-5 and 1")));
        }
        if self.percentile_pix > MILLION {
            return Err(Error::InvalidValue(String::from_str("Percentile must be between 0 and 100")));
        }
        if self.min_allowed_exp >= self.max_allowed_exp {
            return Err(
                Error::InvalidValue(
                    String::from_str("Minimum allowed exposure must be less than maximum allowed exposure"),
                ),
            );
        }
        Ok(())
    }

    /// The brightness of the samples that is looked at, in millionths of
    /// a count.
    pub fn sample_brightness(&self, sample: &Vec<u16>) -> (b: u64)
        ensures
            b == self.brightness(sample@),
    {
        let n = sample.len();
        if n == 0 {
            return FLOOR_BRIGHTNESS;
        }
        let last: u128 = (n - 1) as u128;
        let at: u128 = if self.percentile_pix > TOP_PERCENTILE {
            last
        } else {
            assert(self.percentile_pix as nat * (last as nat) <= 999_000 * 0xffff_ffff_ffff_ffff)
                by (nonlinear_arith)
                requires
                    self.percentile_pix <= 999_000,
                    last <= 0xffff_ffff_ffff_ffff,
            ;
            (self.percentile_pix as u128) * last / (MILLION as u128)
        };
        assert(at == percentile_index(n as nat, self.percentile_pix as nat));
        assert(at <= last) by {
            if self.percentile_pix <= TOP_PERCENTILE {
                assert(self.percentile_pix as nat * (last as nat) / 1_000_000 <= last) by (nonlinear_arith)
                    requires
                        self.percentile_pix <= 999_000,
                ;
            }
        }
        let exclusion: u128 = self.pixel_exclusion as u128;
        let index: usize = if at + exclusion < n as u128 {
            at as usize
        } else if exclusion < n as u128 {
            (last - exclusion) as usize
        } else {
            return FLOOR_BRIGHTNESS;
        };
        (sample[index] as u64) * (MILLION as u64)
    }

    /// The exposure time, in nanoseconds, and the binning for the next
    /// image, from the brightness samples of an image in ascending order,
    /// the exposure time of that image and its binning in both
    /// directions.
    ///
    /// It fails with an invalid value where what is asked cannot be
    /// asked, see [`OptimumExposure::fault`], and in no other case. An
    /// image without samples, or with all of them excluded, is taken as
    /// dark.
    pub fn calculate(&self, sample: &Vec<u16>, exposure: u64, bin_x: u32, bin_y: u32) -> (r: Result<
        (u64, u32),
        Error,
    >)
        ensures
            r is Ok <==> self.fault() is None,
            r matches Ok(next) ==> (next.0 as nat, next.1 as nat) == self.optimum(
                sample@,
                exposure as nat,
                bin_x as nat,
                bin_y as nat,
            ),
            r matches Err(e) ==> e matches Error::InvalidValue(m) && Some(m@) == self.fault(),
    {
        match self.validate() {
            Ok(()) => {},
            Err(e) => {
                return Err(e);
            },
        }
        let max_bin: u32 = if self.max_allowed_bin < 2 {
            1
        } else {
            self.max_allowed_bin as u32
        };
        let target: u64 = (self.pixel_tgt as u64) * (FULL_SCALE as u64);
        let uncertainty: u64 = (self.pixel_uncertainty as u64) * (FULL_SCALE as u64);
        let brightness: u64 = self.sample_brightness(sample);
        let distance: u64 = if brightness <= target {
            target - brightness
        } else {
            brightness - target
        };
        if distance < uncertainty {
            return Ok((exposure, bin_x));
        }
        let divisor: u64 = if brightness <= FLOOR_BRIGHTNESS {
            FLOOR_BRIGHTNESS
        } else {
            brightness
        };
        assert(exposure as nat * (target as nat) <= 0xffff_ffff_ffff_ffff * 65_535_000_000) by (nonlinear_arith)
            requires
                exposure <= 0xffff_ffff_ffff_ffff,
                target <= 65_535_000_000,
        ;
        let wanted: u128 = (exposure as u128) * (target as u128) / (divisor as u128);
        assert(wanted == scaled_exposure(exposure as nat, brightness as nat, target as nat));
        let max_exposure: u128 = self.max_allowed_exp as u128;
        let mut candidate: u128 = wanted;
        let mut bin: u32 = bin_x;
        if bin_x == bin_y && self.max_allowed_bin >= 2 {
            if candidate < max_exposure {
                while candidate < max_exposure && bin > 2
                    invariant
                        max_exposure <= u64::MAX,
                        candidate <= 4 * u64::MAX,
                        lower_bin(candidate as nat, bin as nat, max_exposure as nat) == lower_bin(
                            wanted as nat,
                            bin_x as nat,
                            max_exposure as nat,
                        ),
                    decreases bin,
                {
                    bin = bin / 2;
                    candidate = candidate * 4;
                }
            } else {
                while candidate > max_exposure && bin <= max_bin / 2
                    invariant
                        max_bin <= u16::MAX,
                        raise_bin(candidate as nat, bin as nat, max_exposure as nat, max_bin as nat) == raise_bin(
                            wanted as nat,
                            bin_x as nat,
                            max_exposure as nat,
                            max_bin as nat,
                        ),
                    decreases candidate,
                {
                    bin = bin * 2;
                    candidate = candidate / 4;
                }
            }
        }
        assert((candidate as nat, bin as nat) == self.candidate(
            sample@,
            exposure as nat,
            bin_x as nat,
            bin_y as nat,
        ));
        if candidate > max_exposure {
            candidate = max_exposure;
        }
        if candidate < self.min_allowed_exp as u128 {
            candidate = self.min_allowed_exp as u128;
        }
        if bin < 1 {
            bin = 1;
        }
        if bin > max_bin {
            bin = max_bin;
        }
        Ok((candidate as u64, bin))
    }
}

/// What is asked can be asked exactly where the target and the
/// uncertainty lie between 1.6e-5 and 1, both ends included, the
/// percentile is at most the whole, and the minimum exposure is below the
/// maximum. So a target of exactly 1 is accepted, a target of one part in
/// a million more is refused, and so are equal exposure bounds.
pub proof fn lemma_fault_iff(request: OptimumExposure)
    ensures
        request.fault() is None <==> (MIN_FRACTION <= request.pixel_tgt <= MILLION && MIN_FRACTION
            <= request.pixel_uncertainty <= MILLION && request.percentile_pix <= MILLION
            && request.min_allowed_exp < request.max_allowed_exp),
        request.pixel_tgt == MILLION + 1 ==> request.fault() == Some(target_range_text()),
        request.min_allowed_exp == request.max_allowed_exp ==> request.fault() is Some,
{
}

/// An image on the target keeps its exposure and its binning, whatever
/// the bounds are. It is on the target where the brightness that is
/// looked at is the target exactly.
pub proof fn lemma_on_target_unchanged(
    request: OptimumExposure,
    sample: Seq<u16>,
    exposure: nat,
    bin_x: nat,
    bin_y: nat,
)
    requires
        request.fault() is None,
    ensures
        request.keeps(sample) ==> request.optimum(sample, exposure, bin_x, bin_y) == (exposure, bin_x),
        request.brightness(sample) == scaled(request.pixel_tgt as nat) ==> request.keeps(sample),
{
    assert(scaled(request.pixel_uncertainty as nat) > 0) by (nonlinear_arith)
        requires
            request.pixel_uncertainty >= 16,
    ;
}

/// With the binning held (a maximum binning below 2), an image that is
/// not on the target gets the exposure that brings its brightness to the
/// target, held between the allowed bounds, and a binning of 1.
pub proof fn lemma_fixed_bin_scales(
    request: OptimumExposure,
    sample: Seq<u16>,
    exposure: nat,
    bin_x: nat,
    bin_y: nat,
)
    requires
        request.max_allowed_bin < 2,
        !request.keeps(sample),
    ensures
        request.optimum(sample, exposure, bin_x, bin_y) == (
            clamp_exposure(
                scaled_exposure(exposure, request.brightness(sample), scaled(request.pixel_tgt as nat)),
                request.min_allowed_exp as nat,
                request.max_allowed_exp as nat,
            ),
            1nat,
        ),
{
}

/// With the binning held, an image whose brightness is half the target
/// gets twice its exposure, held between the allowed bounds, and a
/// binning of 1: twice the exposure itself where that lies between the
/// bounds, and the maximum where twice the exposure is above it.
pub proof fn lemma_half_brightness_doubles(
    request: OptimumExposure,
    sample: Seq<u16>,
    exposure: nat,
    bin_x: nat,
    bin_y: nat,
)
    requires
        request.fault() is None,
        request.max_allowed_bin < 2,
        !request.keeps(sample),
        2 * request.brightness(sample) == scaled(request.pixel_tgt as nat),
    ensures
        request.optimum(sample, exposure, bin_x, bin_y) == (
            clamp_exposure(2 * exposure, request.min_allowed_exp as nat, request.max_allowed_exp as nat),
            1nat,
        ),
        request.min_allowed_exp <= 2 * exposure <= request.max_allowed_exp ==> request.optimum(
            sample,
            exposure,
            bin_x,
            bin_y,
        ).0 == 2 * exposure,
        2 * exposure >= request.max_allowed_exp ==> request.optimum(sample, exposure, bin_x, bin_y).0
            == request.max_allowed_exp,
{
    let brightness = request.brightness(sample);
    assert(scaled(request.pixel_tgt as nat) >= 16 * 65535) by (nonlinear_arith)
        requires
            request.pixel_tgt >= 16,
    ;
    assert(exposure * (2 * brightness) / brightness == 2 * exposure) by (nonlinear_arith)
        requires
            brightness > 0,
    ;
}

/// An image that is not on the target gets an exposure between the
/// allowed bounds and a binning between 1 and the maximum binning that
/// counts.
pub proof fn lemma_optimum_in_bounds(
    request: OptimumExposure,
    sample: Seq<u16>,
    exposure: nat,
    bin_x: nat,
    bin_y: nat,
)
    requires
        request.fault() is None,
        !request.keeps(sample),
    ensures
        request.min_allowed_exp <= request.optimum(sample, exposure, bin_x, bin_y).0
            <= request.max_allowed_exp,
        1 <= request.optimum(sample, exposure, bin_x, bin_y).1 <= request.max_bin(),
{
}

} // verus!
