//! Factory sensitivity-adjustment values read from the chip's fuse ROM.

use vstd::prelude::*;

verus! {

/// Denominator of the factory adjustment fraction: an adjustment is held
/// exactly as an integer numerator over this constant.
pub const ADJUST_DEN: u16 = 256;

/// Numerator of the factory sensitivity adjustment derived from a raw fuse
/// ROM byte `b`. The adjustment is `(b - 128)/256 + 1`, which equals
/// `(b + 128)/256`: this function gives the numerator over [`ADJUST_DEN`].
pub open spec fn spec_adjust_num(b: u8) -> int {
    b + 128
}

/// The per-axis factory calibration read from fuse ROM, kept as the raw
/// register bytes so that every adjustment stays an exact fraction.
#[derive(Clone, Debug, PartialEq)]
pub struct FactoryAdjust {
    /// The three sensitivity-adjustment bytes (ASAX, ASAY, ASAZ).
    pub asa: Vec<u8>,
}

impl FactoryAdjust {
    /// There is exactly one adjustment byte per axis.
    pub open spec fn wf(self) -> bool {
        self.asa@.len() == 3
    }

    /// Packages the 3-byte calibration block read from fuse ROM.
    pub fn from_rom(rom: &[u8]) -> (r: FactoryAdjust)
        requires
            rom@.len() == 3,
        ensures
            r.wf(),
            r.asa@ == rom@,
    {
        let mut asa: Vec<u8> = Vec::new();
        asa.push(rom[0]);
        asa.push(rom[1]);
        asa.push(rom[2]);
        proof {
            assert(asa@ =~= rom@);
        }
        FactoryAdjust { asa }
    }

    /// Returns the adjustment numerator for an axis: the factory adjustment
    /// for that axis is exactly the returned value over [`ADJUST_DEN`].
    /// A byte of 128 gives 256 (adjustment 1), 0 gives 128 (adjustment 1/2),
    /// 255 gives 383 (adjustment 383/256).
    pub fn adjust_num(&self, axis: usize) -> (r: u16)
        requires
            self.wf(),
            axis < 3,
        ensures
            r == spec_adjust_num(self.asa@[axis as int]),
    {
        self.asa[axis] as u16 + 128
    }
}

} // verus!
