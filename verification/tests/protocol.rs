use ak8963::{
    Ak8963, Ak8963Reg, FactoryAdjust, ReadSampleError, RegCntl1, SampleRate, Sensitivity,
    check_data_ready, cntl1_mode_byte, data_overrun, data_ready, resolve_i2c_addr, saturated,
    DEFAULT_I2C_ADDR, MEAS_RANGE,
};

#[test]
fn control_byte_construction() {
    assert_eq!(cntl1_mode_byte(Sensitivity::Opt16bit, SampleRate::Opt100Hz), 0x16);
    assert_eq!(cntl1_mode_byte(Sensitivity::Opt14bit, SampleRate::Opt8Hz), 0x02);
    assert_eq!(cntl1_mode_byte(Sensitivity::Opt14bit, SampleRate::Opt100Hz), 0x06);
    assert_eq!(cntl1_mode_byte(Sensitivity::Opt16bit, SampleRate::Opt8Hz), 0x12);
}

#[test]
fn register_addresses() {
    assert_eq!(Ak8963Reg::St1.addr(), 0x02);
    assert_eq!(Ak8963Reg::Hxl.addr(), 0x03);
    assert_eq!(Ak8963Reg::Cntl1.addr(), 0x0a);
    assert_eq!(Ak8963Reg::Asax.addr(), 0x10);
}

#[test]
fn control_register_masks() {
    assert_eq!(RegCntl1::PowerDn.mask(), 0x00);
    assert_eq!(RegCntl1::ContMeas1.mask(), 0x02);
    assert_eq!(RegCntl1::ContMeas2.mask(), 0x06);
    assert_eq!(RegCntl1::FuseRom.mask(), 0x0f);
    assert_eq!(RegCntl1::Sensitivity16bit.mask(), 0x10);
}

#[test]
fn status_bits() {
    assert!(!data_ready(0x00));
    assert!(data_ready(0x01));
    assert!(data_ready(0x03));
    assert!(!data_ready(0x02));
    assert!(!data_overrun(0x00));
    assert!(!data_overrun(0x01));
    assert!(data_overrun(0x02));
    assert!(data_overrun(0x03));
    assert!(!saturated(0x00));
    assert!(saturated(0x08));
    assert!(!saturated(0x07));
    assert!(saturated(0xFF));
}

#[test]
fn not_ready_is_reported_before_any_data_read() {
    assert!(matches!(check_data_ready(0x00), Err(ReadSampleError::DataNotReady)));
    // Overrun alone does not make data ready.
    assert!(matches!(check_data_ready(0x02), Err(ReadSampleError::DataNotReady)));
    assert!(check_data_ready(0x01).is_ok());
    assert!(check_data_ready(0x03).is_ok());
}

#[test]
fn overrun_bit_marks_the_sample() {
    let rom: Vec<u8> = vec![128, 128, 128];
    let dev = Ak8963::from_fuse_rom(&rom, Sensitivity::Opt16bit);
    let data: Vec<u8> = vec![0x64, 0x00, 0xC8, 0x00, 0x2C, 0x01, 0x00];
    let sample = dev.finish_sample(0x03, &data).expect("block is not saturated");
    assert!(sample.data_overrun);
    let sample = dev.finish_sample(0x01, &data).expect("block is not saturated");
    assert!(!sample.data_overrun);
    // Saturation takes precedence over the overrun flag.
    let saturated_block: Vec<u8> = vec![0x64, 0x00, 0xC8, 0x00, 0x2C, 0x01, 0x08];
    assert!(dev.finish_sample(0x03, &saturated_block).is_none());
}

#[test]
fn factory_adjustment_formula() {
    let fa = FactoryAdjust::from_rom(&[128, 0, 255]);
    // adjustment = (b - 128)/256 + 1, held exactly as a numerator over 256.
    assert_eq!(fa.adjust_num(0), 256);
    assert_eq!(fa.adjust_num(1), 128);
    assert_eq!(fa.adjust_num(2), 383);
    assert_eq!(fa.adjust_num(0) as f32 / 256.0, 1.0);
    assert_eq!(fa.adjust_num(1) as f32 / 256.0, 0.5);
    assert!((fa.adjust_num(2) as f32 / 256.0 - 1.496).abs() < 1e-3);
}

#[test]
fn construction_keeps_configuration() {
    let rom: Vec<u8> = vec![5, 130, 255];
    let dev = Ak8963::from_fuse_rom(&rom, Sensitivity::Opt14bit);
    assert_eq!(dev.factory_adjust.asa, rom);
    assert!(matches!(dev.sensitivity, Sensitivity::Opt14bit));
}

#[test]
fn device_address_defaults() {
    assert_eq!(DEFAULT_I2C_ADDR, 0x0c);
    assert_eq!(resolve_i2c_addr(None), 0x0c);
    assert_eq!(resolve_i2c_addr(Some(0x68)), 0x68);
}

#[test]
fn scale_constants() {
    assert_eq!(MEAS_RANGE, 4912);
    assert_eq!(Sensitivity::Opt14bit.scale_divisor(), 8192);
    assert_eq!(Sensitivity::Opt16bit.scale_divisor(), 32768);
    // One LSB in microteslas: 0.6 for 14-bit mode, 0.15 for 16-bit mode.
    assert!((4912.0f32 / 8192.0 - 0.6).abs() < 1e-3);
    assert!((4912.0f32 / 32768.0 - 0.15).abs() < 1e-3);
}
