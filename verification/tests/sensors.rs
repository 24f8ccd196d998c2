use poulpe::motor_control::driver::{
    configuration_result, drv8316_configuration, drv8316_frame, drv8316_status,
    drv8316_write_confirmed, tmc6200_configuration, tmc6200_frame, tmc6200_status, DriverError,
};
use poulpe::motor_control::foc::{register_write_confirmed, tmc4671_frame};
use poulpe::sensors::ads124s0x::{
    adc_value, command_frame, datarate_with_filter, datarate_with_mode, datarate_with_rate,
    mux_register, pga_disabled, pga_enabled, pga_with_gain, power_on_reset_cleared,
    read_data_frame, read_register_frame, reference_with, reference_with_internal, status_ok,
    write_confirmed, write_register_frame, Ads124s0xCommand, Ads124s0xDataRate, Ads124s0xFilter,
    Ads124s0xGain, Ads124s0xInternalRefConf, Ads124s0xMode, Ads124s0xMuxChannel, Ads124s0xRef,
    Ads124s0xRegister,
};
use poulpe::sensors::ltc4332::{self, LTC4332Config, LTC4332Register};

#[test]
fn ads124s0x_frames() {
    assert_eq!(command_frame(Ads124s0xCommand::RESET), [0x06]);
    assert_eq!(command_frame(Ads124s0xCommand::START), [0x08]);
    assert_eq!(read_register_frame(Ads124s0xRegister::STATUS), [0x21, 0]);
    assert_eq!(read_register_frame(Ads124s0xRegister::GPIOCON), [0x31, 0]);
    assert_eq!(write_register_frame(Ads124s0xRegister::PGA, 0xAB), [0x43, 0x01, 0xAB]);
    assert_eq!(read_data_frame(), [0x12, 0, 0, 0]);
    assert_eq!(adc_value([0xFF, 0x12, 0x34, 0x56]), 0x123456);
    assert!(write_confirmed(0x5A, [0xFF, 0x5A]));
    assert!(!write_confirmed(0x5A, [0x5A, 0x5B]));
}

#[test]
fn ads124s0x_register_fields_match_the_masks() {
    let gains = [
        Ads124s0xGain::Gain1,
        Ads124s0xGain::Gain8,
        Ads124s0xGain::Gain128,
    ];
    for v in 0..=255u8 {
        assert_eq!(status_ok(v), v & (1 << 6) == 0);
        assert_eq!(power_on_reset_cleared(v), v & 0b0111_1111);
        for g in gains {
            assert_eq!(pga_with_gain(v, g), (v & 0b1111_1000) | g.to_u8());
        }
        assert_eq!(pga_enabled(v), (v & 0b1110_0111) | 0b0000_1000);
        assert_eq!(pga_disabled(v), v & 0b1110_0111);
        assert_eq!(datarate_with_mode(v, Ads124s0xMode::Continuous), v & 0b0001_0000);
        assert_eq!(datarate_with_mode(v, Ads124s0xMode::SingleShot), v | 0b0001_0000);
        assert_eq!(datarate_with_filter(v, Ads124s0xFilter::Sinc3), v & 0b0000_1000);
        assert_eq!(datarate_with_filter(v, Ads124s0xFilter::LowLatency), v | 0b0000_1000);
        assert_eq!(datarate_with_rate(v, Ads124s0xDataRate::DR400SPS), (v & 0b0000_1111) | 0b1001);
        assert_eq!(reference_with(v, Ads124s0xRef::Ref0), v & 0b11);
        assert_eq!(reference_with(v, Ads124s0xRef::Ref1), (v & 0b10) | 0b01);
        assert_eq!(reference_with(v, Ads124s0xRef::Ref2V5), (v & 0b01) | 0b10);
        assert_eq!(
            reference_with_internal(v, Ads124s0xInternalRefConf::IntRefOn),
            (v & 0b01) | 0b10
        );
    }
}

#[test]
fn ads124s0x_mux_selects_positive_then_negative_input() {
    assert_eq!(mux_register(Ads124s0xMuxChannel::AIN3, Ads124s0xMuxChannel::AINCOM), 0x3C);
    assert_eq!(mux_register(Ads124s0xMuxChannel::AIN11, Ads124s0xMuxChannel::AIN0), 0xB0);
}

#[test]
fn ltc4332_frames_and_configuration() {
    assert_eq!(LTC4332Config::Ring.to_u8(), 0b0000_0001);
    assert_eq!(LTC4332Config::Center.to_u8(), 0b0000_0001);
    assert_eq!(LTC4332Config::Donut.to_u8(), 0b0001_0101);
    assert_eq!(ltc4332::read_register_frame(LTC4332Register::STATUS), [0x03, 0, 0]);
    assert_eq!(ltc4332::read_register_frame(LTC4332Register::SCRATCH), [0x0D, 0, 0]);
    assert_eq!(ltc4332::write_register_frame(LTC4332Register::CONFIG, 0x15), [0x00, 0x15]);
    assert_eq!(ltc4332::read_register_value([0, 0x42, 0]), 0x42);
    assert!(ltc4332::write_confirmed(0x42, [0, 0x42, 0]));
    assert!(!ltc4332::write_confirmed(0x42, [0x42, 0, 0x42]));
}

#[test]
fn driver_configurations() {
    assert_eq!(tmc6200_configuration(), [(0x00, 0), (0x0A, 0)]);
    assert_eq!(drv8316_configuration(), [(0x3, 0x03), (0x4, 0x78), (0x7, 0x01)]);
    assert!(register_write_confirmed(0x1234_5678, tmc6200_frame(false, 0x0A, 0x1234_5678)));
    assert!(!register_write_confirmed(0x1234_5678, [0x0A, 0x12, 0x34, 0x56, 0x79]));
    assert!(drv8316_write_confirmed(0x78, [0x00, 0x78]));
    assert!(!drv8316_write_confirmed(0x78, drv8316_frame(false, 0x4, 0x78)));
    assert_eq!(configuration_result(&[true, true, true]), Ok(()));
    assert_eq!(configuration_result(&[true, false, true]), Err(DriverError::ConfigError));
    assert_eq!(configuration_result(&[]), Ok(()));
}

#[test]
fn driver_status_lines() {
    assert_eq!(tmc6200_status(false), Ok(()));
    assert_eq!(tmc6200_status(true), Err(DriverError::FaultState));
    assert_eq!(drv8316_status(true, true), Ok(()));
    assert_eq!(drv8316_status(false, true), Err(DriverError::FaultState));
    assert_eq!(drv8316_status(false, false), Ok(()));
}

#[test]
fn tmc4671_checked_write_reads_back() {
    assert!(register_write_confirmed(0xDEAD_BEEF, tmc4671_frame(true, 0x1B, 0xDEAD_BEEF)));
    assert!(!register_write_confirmed(0xDEAD_BEEF, tmc4671_frame(false, 0x1B, 0)));
}
