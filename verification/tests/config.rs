use poulpe::config::current_sense::{CurrentSensing, ADC_SCALE_OFFSET_DEFAULT};
use poulpe::config::motor::BrushlessMotor;
use poulpe::config::Electronics;
use poulpe::motor_control::foc::{
    alignment_encoder_sequence, alignment_open_loop_sequence, average_adc_offsets,
    pid_of_register, pid_register_value, tmc4671_init_sequence, Tmc4671Registers,
    ADC_OFFSET_SAMPLES, OPENLOOP_ACCELERATION, UQ_UD_LIMIT,
};
use poulpe::motor_control::Pid;

#[test]
fn motor_presets_carry_their_ratios() {
    let m = BrushlessMotor::ecx22();
    assert_eq!(m.motor_type_n_pole_pairs, 0x0003_0004);
    assert_eq!(m.pole_pairs(), 4);
    assert_eq!(m.gearbox_ratio, (1.0f32 / 35.0).to_bits());
    assert_eq!(m.axis_ratio, (12.0f32 / 64.0).to_bits());
    let m = BrushlessMotor::ec60();
    assert_eq!(m.pole_pairs(), 7);
    assert_eq!(m.gearbox_ratio, (1.0f32 / 25.01).to_bits());
    assert_eq!(m.axis_ratio, (28.0f32 / 52.0).to_bits());
    let m = BrushlessMotor::ec45();
    assert_eq!(m.pole_pairs(), 8);
    assert_eq!(m.gearbox_ratio, 1.0f32.to_bits());
    assert_eq!(m.axis_ratio, (20.0f32 / 38.0).to_bits());
    assert_eq!(m.pid_velocity_p_velocity_i, 0x0800_0000);
}

#[test]
fn current_sensing_presets() {
    let c = CurrentSensing::ventouse_bob();
    assert_eq!(c.resistance_shunt, 0.003f32.to_bits());
    assert_eq!(c.amp_gain, 20.0f32.to_bits());
    assert_eq!(c.amp_voltage, 5.0f32.to_bits());
    assert_eq!(c.adc_i0_scale_offset, 0x0100_0000 | 0x8000);
    assert_eq!(ADC_SCALE_OFFSET_DEFAULT, 0x0100_0000 | 0x8000);
    let c = CurrentSensing::ventouse_2d();
    assert_eq!(c.resistance_shunt, 0.01f32.to_bits());
    let c = CurrentSensing::ventouse_3d();
    assert_eq!(c.resistance_shunt, 1.0f32.to_bits());
    assert_eq!(c.amp_gain, 0.15f32.to_bits());
}

#[test]
fn adc_offsets_get_unit_scale() {
    let mut c = CurrentSensing::ventouse_3d();
    for (i0, i1) in [(0x8123u32, 0x7FFEu32), (0x0100_0042, 0), (0xFFFF_FFFF, 0xFEFF_FFFF)] {
        c.set_adc_offsets(i0, i1);
        assert_eq!(c.adc_i0_scale_offset, 0x0100_0000 | i0);
        assert_eq!(c.adc_i1_scale_offset, 0x0100_0000 | i1);
    }
    assert_eq!(c.amp_gain, 0.15f32.to_bits());
}

#[test]
fn tmc4671_initialisation_sequence_for_low_side_sensing() {
    let motor = BrushlessMotor::ecx22();
    let sensing = CurrentSensing::ventouse_3d();
    let seq = tmc4671_init_sequence(Electronics::Pvt, &motor, &sensing, 1234, 5678);
    assert_eq!(seq.len(), 22);
    assert_eq!(seq[0], (Tmc4671Registers::MOTOR_TYPE_N_POLE_PAIRS.to_u8(), 0x0003_0004));
    assert_eq!(seq[0].0, 0x1B);
    assert_eq!(seq[2], (0x18, 0x0000_0F9F));
    assert_eq!(seq[4], (0x1A, 0x0000_0107));
    assert_eq!(seq[5], (0x0A, 0x2400_0100));
    assert_eq!(seq[7], (0x05, 0x1900_0000));
    assert_eq!(seq[8], (0x06, 0x1900_0000));
    assert_eq!(seq[9], (0x07, 0x0299_0299));
    assert_eq!(seq[10], (0x08, 0x0100_8000));
    assert_eq!(seq[13], (0x26, 0x1000));
    assert_eq!(seq[15], (0x5D, UQ_UD_LIMIT));
    assert_eq!(seq[16], (0x5E, 1234));
    assert_eq!(seq[20], (0x5A, 0x0200_0000));
    assert_eq!(seq[21], (0x60, 5678));
}

#[test]
fn tmc4671_initialisation_sequence_for_beta_boards() {
    let seq = tmc4671_init_sequence(
        Electronics::Beta,
        &BrushlessMotor::ec45(),
        &CurrentSensing::ventouse_bob(),
        0,
        0,
    );
    assert_eq!(seq[2], (0x18, 0x0000_07CF));
    assert_eq!(seq[4], (0x1A, 0x0000_0007));
    assert_eq!(seq[5], (0x0A, 0x1800_0100));
    assert_eq!(seq[7], (0x05, 0x2000_0000));
    assert_eq!(seq[9], (0x07, 0x014E_014E));
    assert_eq!(seq[17], (0x54, 0x0100_0100));
}

#[test]
fn adc_offsets_average_the_calibration_samples() {
    assert_eq!(ADC_OFFSET_SAMPLES, 1000);
    let samples: Vec<(u16, u16)> = (0..1000u32)
        .map(|k| ((0x8000 + (k % 3)) as u16, if k < 500 { 0xFFFF } else { 0 }))
        .collect();
    let expected0 = samples.iter().map(|s| s.0 as u32).sum::<u32>() / 1000;
    assert_eq!(average_adc_offsets(&samples), (expected0, 0xFFFF / 2));
    assert_eq!(average_adc_offsets(&[(0xFFFF, 0xFFFF); 1000]), (0xFFFF, 0xFFFF));
}

#[test]
fn pid_registers_pack_gains_in_halves() {
    let w = pid_register_value(Pid { p: 0x0200, i: 0x0008 });
    assert_eq!(w, 0x0200_0008);
    assert_eq!(pid_of_register(w), Pid { p: 0x0200, i: 0x0008 });
    assert_eq!(pid_register_value(Pid { p: 5, i: -1 }), 0xFFFF_FFFF);
    assert_eq!(pid_of_register(0xFFFF_FFFF), Pid { p: 0x7FFF, i: 0x7FFF });
    assert_eq!(pid_of_register(BrushlessMotor::ec60().pid_velocity_p_velocity_i), Pid { p: 0x01F4, i: 0x01C2 });
}

#[test]
fn alignment_sequences() {
    let start = alignment_open_loop_sequence(Electronics::Gamma);
    assert_eq!(start[0], (0x1F, 0));
    assert_eq!(start[1], (0x20, OPENLOOP_ACCELERATION));
    assert_eq!(OPENLOOP_ACCELERATION, 0x3C);
    assert_eq!(start[3], (0x63, 8));
    assert_eq!(start[5], (0x52, 2));
    assert_eq!(start[6], (0x24, 0x1388));
    assert_eq!(alignment_open_loop_sequence(Electronics::Beta)[6], (0x24, 0x1000));
    assert_eq!(alignment_encoder_sequence(), [(0x27, 0), (0x52, 3), (0x50, 0)]);
}
