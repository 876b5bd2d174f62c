//! Register-level driver core for the AK8963 three-axis magnetometer.
//!
//! This crate holds the chip's register map, the control-byte encoding for
//! its operating modes, the status-bit decisions of the sample-retrieval
//! protocol, and the decoder that turns a raw 7-byte register block into a
//! calibrated sample. Everything here is pure computation on bytes and
//! integers; the I2C bus transactions themselves are left to the caller,
//! who feeds register contents in and writes command bytes out.

mod calib;
mod device;
mod modes;
mod regs;
mod sample;

pub use calib::ADJUST_DEN;
pub use calib::FactoryAdjust;
pub use calib::spec_adjust_num;
pub use device::Ak8963;
pub use device::DEFAULT_I2C_ADDR;
pub use device::ReadSampleError;
pub use device::check_data_ready;
pub use device::lemma_saturation_precedence;
pub use device::resolve_i2c_addr;
pub use device::spec_sample_outcome;
pub use modes::SampleRate;
pub use modes::Sensitivity;
pub use modes::cntl1_mode_byte;
pub use modes::spec_cntl1_mode_byte;
pub use regs::Ak8963Reg;
pub use regs::RegCntl1;
pub use regs::data_overrun;
pub use regs::data_ready;
pub use regs::saturated;
pub use regs::spec_data_overrun;
pub use regs::spec_data_ready;
pub use regs::spec_saturated;
pub use sample::Ak8963Sample;
pub use sample::MEAS_RANGE;
pub use sample::SampleModel;
pub use sample::lemma_parse_pure;
pub use sample::opt_model;
pub use sample::parse_sample_helper;
pub use sample::read_i16_le;
pub use sample::spec_axis_raw;
pub use sample::spec_i16_le;
pub use sample::spec_mag_den;
pub use sample::spec_mag_num;
pub use sample::spec_parse;
