//! Decoding of the 7-byte measurement block into a calibrated sample.
//!
//! A calibrated axis value in microteslas is the exact rational
//! `MEAS_RANGE * adjust_num(axis) * raw(axis) / (scale_divisor * ADJUST_DEN)`.
//! The decoder keeps that value as an integer numerator over a common
//! denominator, so the whole conversion is exact; a caller that wants a
//! floating-point reading divides the two.

use vstd::prelude::*;
use crate::calib::FactoryAdjust;
use crate::calib::spec_adjust_num;
use crate::modes::Sensitivity;
use crate::regs::saturated;
use crate::regs::spec_saturated;

verus! {

/// Full measurable range of the chip in microteslas.
pub const MEAS_RANGE: u16 = 4912;

/// The signed 16-bit value encoded little-endian by the two bytes.
pub open spec fn spec_i16_le(lo: u8, hi: u8) -> int {
    let v = lo + 256 * hi;
    if v < 32768 {
        v
    } else {
        v - 65536
    }
}

/// Decodes a little-endian signed 16-bit value from its two bytes.
pub fn read_i16_le(lo: u8, hi: u8) -> (r: i16)
    ensures
        r as int == spec_i16_le(lo, hi),
{
    let v: u32 = lo as u32 + 256 * (hi as u32);
    if v < 32768 {
        v as i16
    } else {
        (v as i32 - 65536) as i16
    }
}

/// The raw reading of an axis: the little-endian signed 16-bit decode of
/// byte pairs (0,1), (2,3), (4,5) of the data block.
pub open spec fn spec_axis_raw(data: Seq<u8>, axis: int) -> int {
    spec_i16_le(data[2 * axis], data[2 * axis + 1])
}

/// Numerator of the calibrated reading of an axis, over [`spec_mag_den`].
pub open spec fn spec_mag_num(
    sensitivity: Sensitivity,
    asa: Seq<u8>,
    data: Seq<u8>,
    axis: int,
) -> int {
    MEAS_RANGE * spec_adjust_num(asa[axis]) * spec_axis_raw(data, axis)
}

/// Common denominator of the calibrated readings for a sensitivity mode.
pub open spec fn spec_mag_den(sensitivity: Sensitivity) -> int {
    sensitivity.spec_scale_divisor() * 256
}

/// Output from the AK8963.
#[derive(Clone, Debug, PartialEq)]
pub struct Ak8963Sample {
    /// Numerators of the calibrated field per axis: the field on axis `i`
    /// is exactly `mag_num[i] / mag_den` microteslas.
    pub mag_num: Vec<i64>,
    /// Common denominator of the calibrated values.
    pub mag_den: u32,
    /// The raw register values.
    pub mag_raw: Vec<i16>,
    /// Whether a previous sample has been overwritten without being read.
    pub data_overrun: bool,
}

/// The mathematical content of a sample.
#[verifier::ext_equal]
pub ghost struct SampleModel {
    pub mag_num: Seq<int>,
    pub mag_den: int,
    pub mag_raw: Seq<int>,
    pub data_overrun: bool,
}

impl Ak8963Sample {
    /// The sample's mathematical content.
    pub open spec fn model(self) -> SampleModel {
        SampleModel {
            mag_num: Seq::new(self.mag_num@.len(), |i: int| self.mag_num@[i] as int),
            mag_den: self.mag_den as int,
            mag_raw: Seq::new(self.mag_raw@.len(), |i: int| self.mag_raw@[i] as int),
            data_overrun: self.data_overrun,
        }
    }
}

/// The models of an optional sample, for stating decoder contracts.
pub open spec fn opt_model(r: Option<Ak8963Sample>) -> Option<SampleModel> {
    match r {
        Some(s) => Some(s.model()),
        None => None,
    }
}

/// What decoding a 7-byte block yields: absence when the block's status byte
/// reports saturation, otherwise the raw axis decodes and their exact
/// calibrated values, with the overrun flag clear.
pub open spec fn spec_parse(
    sensitivity: Sensitivity,
    asa: Seq<u8>,
    data: Seq<u8>,
) -> Option<SampleModel> {
    if spec_saturated(data[6]) {
        None
    } else {
        Some(SampleModel {
            mag_num: Seq::new(3, |i: int| spec_mag_num(sensitivity, asa, data, i)),
            mag_den: spec_mag_den(sensitivity),
            mag_raw: Seq::new(3, |i: int| spec_axis_raw(data, i)),
            data_overrun: false,
        })
    }
}

/// Bounds the calibrated numerator so that it fits the result type.
proof fn lemma_mag_num_in_range(adj: int, raw: int)
    by (nonlinear_arith)
    requires
        128 <= adj <= 383,
        -32768 <= raw <= 32767,
    ensures
        -0x7fff_ffff_ffff_ffff <= 4912 * adj * raw <= 0x7fff_ffff_ffff_ffff,
{
}

/// Computes the calibrated numerator for one axis.
fn axis_mag_num(factory_adjust: &FactoryAdjust, axis: usize, raw: i16) -> (r: i64)
    requires
        factory_adjust.wf(),
        axis < 3,
    ensures
        r == MEAS_RANGE * spec_adjust_num(factory_adjust.asa@[axis as int]) * raw,
{
    let adj: u16 = factory_adjust.adjust_num(axis);
    proof {
        lemma_mag_num_in_range(adj as int, raw as int);
    }
    (MEAS_RANGE as i64) * (adj as i64) * (raw as i64)
}

/// Decodes a raw register block into a calibrated sample, or reports
/// saturation as absence. Pure: the result is [`spec_parse`] of the
/// sensitivity mode, the calibration bytes, and the block, and of nothing
/// else, so repeated calls on identical inputs agree.
pub fn parse_sample_helper(
    data: &[u8],
    sensitivity: Sensitivity,
    factory_adjust: &FactoryAdjust,
) -> (r: Option<Ak8963Sample>)
    requires
        data@.len() >= 7,
        factory_adjust.wf(),
    ensures
        opt_model(r) == spec_parse(sensitivity, factory_adjust.asa@, data@),
{
    if saturated(data[6]) {
        // Magnet saturation
        return None;
    }

    let x = read_i16_le(data[0], data[1]);
    let y = read_i16_le(data[2], data[3]);
    let z = read_i16_le(data[4], data[5]);
    let mut mag_raw: Vec<i16> = Vec::new();
    mag_raw.push(x);
    mag_raw.push(y);
    mag_raw.push(z);

    let mut mag_num: Vec<i64> = Vec::new();
    mag_num.push(axis_mag_num(factory_adjust, 0, x));
    mag_num.push(axis_mag_num(factory_adjust, 1, y));
    mag_num.push(axis_mag_num(factory_adjust, 2, z));

    let mag_den: u32 = sensitivity.scale_divisor() * 256;

    let s = Ak8963Sample { mag_num, mag_den, mag_raw, data_overrun: false };
    proof {
        let e = spec_parse(sensitivity, factory_adjust.asa@, data@).unwrap();
        assert(s.model().mag_raw =~= e.mag_raw);
        assert(s.model().mag_num =~= e.mag_num);
        assert(s.model() =~~= e);
    }
    Some(s)
}

/// Decoding is a pure function of the sensitivity mode, the calibration
/// bytes, and the raw block: any two decode results for identical inputs
/// carry identical samples.
pub proof fn lemma_parse_pure(
    r1: Option<Ak8963Sample>,
    r2: Option<Ak8963Sample>,
    sensitivity: Sensitivity,
    asa: Seq<u8>,
    data: Seq<u8>,
)
    requires
        opt_model(r1) == spec_parse(sensitivity, asa, data),
        opt_model(r2) == spec_parse(sensitivity, asa, data),
    ensures
        opt_model(r1) == opt_model(r2),
{
}

} // verus!
