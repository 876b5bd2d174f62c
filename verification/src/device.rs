//! The controller core: the chip configuration that decoding depends on,
//! and the decisions of the sample-retrieval protocol.
//!
//! The bus transactions themselves (open, write, read, and the settling
//! delays between initialization steps) are the caller's: this module fixes
//! which bytes each step writes, how the status register is judged, and how
//! the bytes that come back are decoded.

use vstd::prelude::*;
use crate::calib::FactoryAdjust;
use crate::modes::Sensitivity;
use crate::regs::data_overrun;
use crate::regs::spec_data_overrun;
use crate::regs::spec_data_ready;
use crate::regs::spec_saturated;
use crate::sample::Ak8963Sample;
use crate::sample::SampleModel;
use crate::sample::opt_model;
use crate::sample::parse_sample_helper;
use crate::sample::spec_parse;

verus! {

/// The device address used when the caller supplies none.
pub const DEFAULT_I2C_ADDR: u16 = 0x0c;

/// Relies on i2cdev::linux::LinuxI2CError: the bus transport's error type,
/// carried through opaquely as the payload of a bus failure.
#[verifier::external_type_specification]
#[verifier::external_body]
pub struct ExLinuxI2CError(i2cdev::linux::LinuxI2CError);

/// Errors that may occur when reading a sample.
#[derive(Debug)]
pub enum ReadSampleError {
    /// No new data is ready.
    DataNotReady,
    /// An i2c issue occurred.
    I2c(i2cdev::linux::LinuxI2CError),
}

/// Resolves the device address for construction: the caller's choice when
/// one is given, the chip's standard address otherwise.
pub fn resolve_i2c_addr(i2c_addr: Option<u16>) -> (r: u16)
    ensures
        i2c_addr is Some ==> r == i2c_addr->0,
        i2c_addr is None ==> r == DEFAULT_I2C_ADDR,
{
    match i2c_addr {
        Some(a) => a,
        None => DEFAULT_I2C_ADDR,
    }
}

/// First decision of sample retrieval, made on the byte read from status
/// register 1: with the data-ready bit clear the caller must stop without
/// touching the data block and report the not-ready condition; with it set
/// the data block is to be read.
pub fn check_data_ready(st1: u8) -> (r: Result<(), ReadSampleError>)
    ensures
        r is Ok <==> spec_data_ready(st1),
        r is Err ==> r->Err_0 is DataNotReady,
{
    if st1 & 1 == 0 {
        Err(ReadSampleError::DataNotReady)
    } else {
        Ok(())
    }
}

/// What completing sample retrieval yields, given the status byte from step
/// one and the 7-byte data block: the decoded sample with its overrun flag
/// taken from the status byte's DOR bit, or absence on saturation.
pub open spec fn spec_sample_outcome(
    sensitivity: Sensitivity,
    asa: Seq<u8>,
    st1: u8,
    data: Seq<u8>,
) -> Option<SampleModel> {
    match spec_parse(sensitivity, asa, data) {
        None => None,
        Some(m) => Some(SampleModel { data_overrun: spec_data_overrun(st1), ..m }),
    }
}

/// Saturation takes precedence over the status flags: whatever status
/// register 1 reported, a block whose closing status byte has the
/// saturation bit set never yields a sample.
pub proof fn lemma_saturation_precedence(
    sensitivity: Sensitivity,
    asa: Seq<u8>,
    st1: u8,
    data: Seq<u8>,
)
    requires
        spec_saturated(data[6]),
    ensures
        spec_sample_outcome(sensitivity, asa, st1, data) is None,
{
}

/// Magnetometer.
pub struct Ak8963 {
    pub factory_adjust: FactoryAdjust,
    pub sensitivity: Sensitivity,
}

impl Ak8963 {
    /// The configuration is complete: one calibration byte per axis.
    pub open spec fn wf(self) -> bool {
        self.factory_adjust.wf()
    }

    /// Assembles the controller core from the 3-byte calibration block read
    /// out of fuse ROM during construction and the chosen sensitivity mode.
    pub fn from_fuse_rom(rom: &[u8], sensitivity: Sensitivity) -> (r: Ak8963)
        requires
            rom@.len() == 3,
        ensures
            r.wf(),
            r.factory_adjust.asa@ == rom@,
            r.sensitivity == sensitivity,
    {
        Ak8963 { factory_adjust: FactoryAdjust::from_rom(rom), sensitivity }
    }

    /// Returns None if magnetometer reports magnetic field saturation.
    ///
    /// Decodes a raw 7-byte register block with the controller's sensitivity
    /// mode and factory calibration. Pure and side-effect free: the result
    /// is a function of the configuration and the block alone.
    pub fn parse_sample_data(&self, data: &[u8]) -> (r: Option<Ak8963Sample>)
        requires
            self.wf(),
            data@.len() >= 7,
        ensures
            opt_model(r) == spec_parse(self.sensitivity, self.factory_adjust.asa@, data@),
    {
        parse_sample_helper(data, self.sensitivity, &self.factory_adjust)
    }

    /// Completes sample retrieval once the status register reported data
    /// ready and the data block has been read: decodes the block and marks
    /// the sample's overrun flag from the status byte's DOR bit.
    pub fn finish_sample(&self, st1: u8, data: &[u8]) -> (r: Option<Ak8963Sample>)
        requires
            self.wf(),
            data@.len() >= 7,
            spec_data_ready(st1),
        ensures
            opt_model(r) == spec_sample_outcome(
                self.sensitivity,
                self.factory_adjust.asa@,
                st1,
                data@,
            ),
    {
        match self.parse_sample_data(data) {
            None => None,
            Some(mut sample) => {
                if data_overrun(st1) {
                    sample.data_overrun = true;
                }
                proof {
                    let e = spec_sample_outcome(
                        self.sensitivity,
                        self.factory_adjust.asa@,
                        st1,
                        data@,
                    ).unwrap();
                    assert(sample.model() =~~= e);
                }
                Some(sample)
            }
        }
    }
}

} // verus!
