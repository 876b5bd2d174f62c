//! Operating-mode options and the control-byte encoding that selects them.

use vstd::prelude::*;
use crate::regs::RegCntl1;

verus! {

/// Continuous-measurement sampling rate.
#[derive(Clone, Copy, Debug)]
pub enum SampleRate {
    /// Continuous measurement mode 1
    Opt8Hz,
    /// Continuous measurement mode 2
    Opt100Hz,
}

/// Output resolution of the raw axis readings.
#[derive(Clone, Copy, Debug)]
pub enum Sensitivity {
    /// 0.6 uT/LSB
    Opt14bit,
    /// 0.15 uT/LSB
    Opt16bit,
}

impl Sensitivity {
    /// Raw counts that span the full measurable range in this mode: one raw
    /// count stands for MEAS_RANGE / spec_scale_divisor() microteslas.
    pub open spec fn spec_scale_divisor(self) -> u32 {
        match self {
            Sensitivity::Opt14bit => 8192,
            Sensitivity::Opt16bit => 32768,
        }
    }

    /// Returns the raw count that spans the full measurable range.
    pub fn scale_divisor(&self) -> (r: u32)
        ensures
            r == self.spec_scale_divisor(),
    {
        match self {
            Sensitivity::Opt14bit => 8192,
            Sensitivity::Opt16bit => 32768,
        }
    }
}

/// The control-register byte that selects a sensitivity and a sampling rate:
/// the sensitivity bit is set only for 16-bit mode, and exactly one of the
/// two continuous-measurement codes is present.
pub open spec fn spec_cntl1_mode_byte(sensitivity: Sensitivity, sample_rate: SampleRate) -> u8 {
    match (sensitivity, sample_rate) {
        (Sensitivity::Opt14bit, SampleRate::Opt8Hz) => 0x02,
        (Sensitivity::Opt14bit, SampleRate::Opt100Hz) => 0x06,
        (Sensitivity::Opt16bit, SampleRate::Opt8Hz) => 0x12,
        (Sensitivity::Opt16bit, SampleRate::Opt100Hz) => 0x16,
    }
}

/// Builds the control-register byte for the chosen sensitivity and rate.
pub fn cntl1_mode_byte(sensitivity: Sensitivity, sample_rate: SampleRate) -> (r: u8)
    ensures
        r == spec_cntl1_mode_byte(sensitivity, sample_rate),
{
    let mut cntl1_byte: u8 = 0;
    match sensitivity {
        Sensitivity::Opt14bit => {}
        Sensitivity::Opt16bit => {
            cntl1_byte = cntl1_byte | RegCntl1::Sensitivity16bit.mask();
        }
    }
    match sample_rate {
        SampleRate::Opt8Hz => {
            cntl1_byte = cntl1_byte | RegCntl1::ContMeas1.mask();
        }
        SampleRate::Opt100Hz => {
            cntl1_byte = cntl1_byte | RegCntl1::ContMeas2.mask();
        }
    }
    proof {
        assert(0x00u8 | 0x10u8 == 0x10u8) by (bit_vector);
        assert(0x00u8 | 0x02u8 == 0x02u8) by (bit_vector);
        assert(0x00u8 | 0x06u8 == 0x06u8) by (bit_vector);
        assert(0x10u8 | 0x02u8 == 0x12u8) by (bit_vector);
        assert(0x10u8 | 0x06u8 == 0x16u8) by (bit_vector);
    }
    cntl1_byte
}

} // verus!
