//! The AK8963 register map, control-register codes, and status-bit layout.

use vstd::prelude::*;

verus! {

/// Registers of the AK8963 that this driver reads or writes.
#[derive(Clone, Copy, Debug)]
pub enum Ak8963Reg {
    /// Status register 1: bit 0 is data-ready (DRDY), bit 1 is data-overrun (DOR).
    St1,
    /// First byte of the 7-byte measurement block (X axis, low byte).
    Hxl,
    /// Control register 1: operating mode and sensitivity selection.
    Cntl1,
    /// First of the three factory sensitivity-adjustment bytes in fuse ROM.
    Asax,
}

impl Ak8963Reg {
    /// The register's address on the chip.
    pub open spec fn spec_addr(self) -> u8 {
        match self {
            Ak8963Reg::St1 => 0x02,
            Ak8963Reg::Hxl => 0x03,
            Ak8963Reg::Cntl1 => 0x0a,
            Ak8963Reg::Asax => 0x10,
        }
    }

    /// Returns the register's address on the chip.
    pub fn addr(&self) -> (r: u8)
        ensures
            r == self.spec_addr(),
    {
        match self {
            Ak8963Reg::St1 => 0x02,
            Ak8963Reg::Hxl => 0x03,
            Ak8963Reg::Cntl1 => 0x0a,
            Ak8963Reg::Asax => 0x10,
        }
    }
}

/// Mode codes and flag bits written into control register 1.
#[derive(Clone, Copy, Debug)]
pub enum RegCntl1 {
    /// Power-down mode.
    PowerDn,
    /// Continuous measurement mode 1: 8 Hz sampling.
    ContMeas1,
    /// Continuous measurement mode 2: 100 Hz sampling.
    ContMeas2,
    /// Fuse ROM access mode, for reading the factory calibration bytes.
    FuseRom,
    /// Output-resolution bit: set selects 16-bit output, clear 14-bit.
    Sensitivity16bit,
}

impl RegCntl1 {
    /// The code's bit pattern within the control register.
    pub open spec fn spec_mask(self) -> u8 {
        match self {
            RegCntl1::PowerDn => 0x00,
            RegCntl1::ContMeas1 => 0x02,
            RegCntl1::ContMeas2 => 0x06,
            RegCntl1::FuseRom => 0x0f,
            RegCntl1::Sensitivity16bit => 0x10,
        }
    }

    /// Returns the code's bit pattern within the control register.
    pub fn mask(&self) -> (r: u8)
        ensures
            r == self.spec_mask(),
    {
        match self {
            RegCntl1::PowerDn => 0x00,
            RegCntl1::ContMeas1 => 0x02,
            RegCntl1::ContMeas2 => 0x06,
            RegCntl1::FuseRom => 0x0f,
            RegCntl1::Sensitivity16bit => 0x10,
        }
    }
}

/// Whether status register 1 reports a fresh sample (DRDY, bit 0).
pub open spec fn spec_data_ready(st1: u8) -> bool {
    st1 & 0x01 != 0
}

/// Whether status register 1 reports a data overrun (DOR, bit 1): a sample
/// was overwritten before being read.
pub open spec fn spec_data_overrun(st1: u8) -> bool {
    st1 & 0x02 != 0
}

/// Whether the status byte that closes the 7-byte data block reports
/// magnetic-field saturation (HOFL, bit 3).
pub open spec fn spec_saturated(st2: u8) -> bool {
    st2 & 0x08 != 0
}

/// Tests the data-ready bit of status register 1.
pub fn data_ready(st1: u8) -> (r: bool)
    ensures
        r == spec_data_ready(st1),
{
    st1 & 0x01 != 0
}

/// Tests the data-overrun bit of status register 1.
pub fn data_overrun(st1: u8) -> (r: bool)
    ensures
        r == spec_data_overrun(st1),
{
    st1 & 0x02 != 0
}

/// Tests the saturation bit of the data block's closing status byte.
pub fn saturated(st2: u8) -> (r: bool)
    ensures
        r == spec_saturated(st2),
{
    st2 & 0x08 != 0
}

} // verus!
