use vstd::prelude::*;

verus! {

/// The motor parameters written to the TMC4671, with the reduction ratios as the
/// IEEE-754 bit patterns of their float values.
#[derive(Debug, Clone, Copy, PartialEq, Eq, Structural)]
pub struct BrushlessMotor {
    /// Motor type and pole pairs (register MOTOR_TYPE_N_POLE_PAIRS).
    pub motor_type_n_pole_pairs: u32,
    /// Flux P and I gains (register PID_FLUX_P_FLUX_I).
    pub pid_flux_p_flux_i: u32,
    /// Torque P and I gains (register PID_TORQUE_P_TORQUE_I).
    pub pid_torque_p_torque_i: u32,
    /// Velocity P and I gains (register PID_VELOCITY_P_VELOCITY_I).
    pub pid_velocity_p_velocity_i: u32,
    /// Position P and I gains (register PID_POSITION_P_POSITION_I).
    pub pid_position_p_position_i: u32,
    /// Encoder pulses per revolution (register ABN_DECODER_PPR).
    pub abn_decoder_ppr: u32,
    /// Ratio of the motor's gearbox.
    pub gearbox_ratio: u32,
    /// Additional reduction of the axis.
    pub axis_ratio: u32,
}

impl BrushlessMotor {
    /// Maxon ECX 22: 4 pole pairs, 4096-pulse encoder, gearbox 1/35, axis 12/64.
    pub fn ecx22() -> (r: Self)
        ensures
            r == (BrushlessMotor {
                motor_type_n_pole_pairs: 0x0003_0004,
                pid_flux_p_flux_i: 0x0200_0200,
                pid_torque_p_torque_i: 0x0200_0200,
                pid_velocity_p_velocity_i: 0x0200_0008,
                pid_position_p_position_i: 0x0200_0000,
                abn_decoder_ppr: 0x0000_1000,
                gearbox_ratio: 0x3CEA_0EA1,
                axis_ratio: 0x3E40_0000,
            }),
    {
        BrushlessMotor {
            motor_type_n_pole_pairs: 0x0003_0004,
            pid_flux_p_flux_i: 0x0200_0200,
            pid_torque_p_torque_i: 0x0200_0200,
            pid_velocity_p_velocity_i: 0x0200_0008,
            pid_position_p_position_i: 0x0200_0000,
            abn_decoder_ppr: 0x0000_1000,
            gearbox_ratio: 0x3CEA_0EA1,
            axis_ratio: 0x3E40_0000,
        }
    }

    /// Maxon EC 60: 7 pole pairs, 4096-pulse encoder, gearbox 1/25.01, axis 28/52.
    pub fn ec60() -> (r: Self)
        ensures
            r == (BrushlessMotor {
                motor_type_n_pole_pairs: 0x0003_0007,
                pid_flux_p_flux_i: 0x0320_0000,
                pid_torque_p_torque_i: 0x0320_0000,
                pid_velocity_p_velocity_i: 0x01F4_01C2,
                pid_position_p_position_i: 0x0050_0000,
                abn_decoder_ppr: 0x0000_1000,
                gearbox_ratio: 0x3D23_C645,
                axis_ratio: 0x3F09_D89E,
            }),
    {
        BrushlessMotor {
            motor_type_n_pole_pairs: 0x0003_0007,
            pid_flux_p_flux_i: 0x0320_0000,
            pid_torque_p_torque_i: 0x0320_0000,
            pid_velocity_p_velocity_i: 0x01F4_01C2,
            pid_position_p_position_i: 0x0050_0000,
            abn_decoder_ppr: 0x0000_1000,
            gearbox_ratio: 0x3D23_C645,
            axis_ratio: 0x3F09_D89E,
        }
    }

    /// Maxon EC 45: 8 pole pairs, 4096-pulse encoder, no gearbox, axis 20/38.
    pub fn ec45() -> (r: Self)
        ensures
            r == (BrushlessMotor {
                motor_type_n_pole_pairs: 0x0003_0008,
                pid_flux_p_flux_i: 0x0100_0100,
                pid_torque_p_torque_i: 0x0100_0100,
                pid_velocity_p_velocity_i: 0x0800_0000,
                pid_position_p_position_i: 0x0100_0000,
                abn_decoder_ppr: 0x0000_1000,
                gearbox_ratio: 0x3F80_0000,
                axis_ratio: 0x3F06_BCA2,
            }),
    {
        BrushlessMotor {
            motor_type_n_pole_pairs: 0x0003_0008,
            pid_flux_p_flux_i: 0x0100_0100,
            pid_torque_p_torque_i: 0x0100_0100,
            pid_velocity_p_velocity_i: 0x0800_0000,
            pid_position_p_position_i: 0x0100_0000,
            abn_decoder_ppr: 0x0000_1000,
            gearbox_ratio: 0x3F80_0000,
            axis_ratio: 0x3F06_BCA2,
        }
    }

    /// The number of pole pairs, the low half of MOTOR_TYPE_N_POLE_PAIRS.
    pub fn pole_pairs(&self) -> (r: u32)
        ensures
            r == self.motor_type_n_pole_pairs % 0x1_0000,
    {
        self.motor_type_n_pole_pairs % 0x1_0000
    }
}

} // verus!
