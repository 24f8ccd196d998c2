use vstd::prelude::*;

use crate::dynamixel::conversion::{
    bits_to_i16, i16_bits, i16_of_bits, i16_to_bits, le_u32_bytes, lemma_u32_word, pid_of_word,
    pid_to_word, pid_word,
};
use crate::motor_control::Pid;

use crate::config::current_sense::CurrentSensing;
use crate::config::motor::BrushlessMotor;
use crate::config::Electronics;

verus! {

/// Motion modes of the TMC4671 (register MODE_RAMP_MODE_MOTION, low byte).
#[derive(Debug, Clone, Copy, PartialEq, Eq, Structural)]
pub enum MotionMode {
    Stopped,
    Torque,
    Velocity,
    Position,
    PrbsFlux,
    PrbsTorque,
    PrbsVelocity,
    PrbsPosition,
    UqUdExt,
    Reserved,
    AgpiATorque,
    AgpiAVelocity,
    AgpiAPosition,
    PmwITorque,
    PmwIVelocity,
    PmwIPosition,
}

impl MotionMode {
    /// Register value of the mode.
    pub open spec fn code(self) -> u8 {
        match self {
            MotionMode::Stopped => 0,
            MotionMode::Torque => 1,
            MotionMode::Velocity => 2,
            MotionMode::Position => 3,
            MotionMode::PrbsFlux => 4,
            MotionMode::PrbsTorque => 5,
            MotionMode::PrbsVelocity => 6,
            MotionMode::PrbsPosition => 7,
            MotionMode::UqUdExt => 8,
            MotionMode::Reserved => 9,
            MotionMode::AgpiATorque => 10,
            MotionMode::AgpiAVelocity => 11,
            MotionMode::AgpiAPosition => 12,
            MotionMode::PmwITorque => 13,
            MotionMode::PmwIVelocity => 14,
            MotionMode::PmwIPosition => 15,
        }
    }

    /// The mode with register value `val`, if there is one (values 0 to 15).
    pub fn from_u8(val: u8) -> (r: Option<MotionMode>)
        ensures
            val < 16 ==> (r matches Some(m) && m.code() == val),
            val >= 16 ==> r is None,
    {
        match val {
            0 => Some(MotionMode::Stopped),
            1 => Some(MotionMode::Torque),
            2 => Some(MotionMode::Velocity),
            3 => Some(MotionMode::Position),
            4 => Some(MotionMode::PrbsFlux),
            5 => Some(MotionMode::PrbsTorque),
            6 => Some(MotionMode::PrbsVelocity),
            7 => Some(MotionMode::PrbsPosition),
            8 => Some(MotionMode::UqUdExt),
            9 => Some(MotionMode::Reserved),
            10 => Some(MotionMode::AgpiATorque),
            11 => Some(MotionMode::AgpiAVelocity),
            12 => Some(MotionMode::AgpiAPosition),
            13 => Some(MotionMode::PmwITorque),
            14 => Some(MotionMode::PmwIVelocity),
            15 => Some(MotionMode::PmwIPosition),
            _ => None,
        }
    }

    /// Register value of the mode.
    pub fn to_u8(&self) -> (r: u8)
        ensures
            r == self.code(),
    {
        match self {
            MotionMode::Stopped => 0,
            MotionMode::Torque => 1,
            MotionMode::Velocity => 2,
            MotionMode::Position => 3,
            MotionMode::PrbsFlux => 4,
            MotionMode::PrbsTorque => 5,
            MotionMode::PrbsVelocity => 6,
            MotionMode::PrbsPosition => 7,
            MotionMode::UqUdExt => 8,
            MotionMode::Reserved => 9,
            MotionMode::AgpiATorque => 10,
            MotionMode::AgpiAVelocity => 11,
            MotionMode::AgpiAPosition => 12,
            MotionMode::PmwITorque => 13,
            MotionMode::PmwIVelocity => 14,
            MotionMode::PmwIPosition => 15,
        }
    }
}

/// Distinct modes have distinct register values, all below 16; so decoding the value
/// of a mode gives the mode back.
pub proof fn law_motion_mode_code(m1: MotionMode, m2: MotionMode)
    ensures
        m1.code() < 16,
        m1.code() == m2.code() ==> m1 == m2,
{
}


// ---------------------------------------------------------------------------
// SPI datagrams of the TMC4671 and register field updates
// ---------------------------------------------------------------------------

/// Registers of the TMC4671 field-oriented controller.
#[allow(non_camel_case_types)]
#[derive(Debug, Clone, Copy, PartialEq, Eq, Structural)]
pub enum Tmc4671Registers {
    CHIPINFO_DATA,
    CHIPINFO_ADDR,
    ADC_RAW_DATA,
    ADC_RAW_ADDR,
    dsADC_MCFG_B_MCFG_A,
    dsADC_MCLK_A,
    dsADC_MCLK_B,
    dsADC_MDEC_B_MDEC_A,
    ADC_I1_SCALE_OFFSET,
    ADC_I0_SCALE_OFFSET,
    ADC_I_SELECT,
    ADC_I1_I0_EXT,
    DS_ANALOG_INPUT_STAGE_CFG,
    AENC_0_SCALE_OFFSET,
    AENC_1_SCALE_OFFSET,
    AENC_2_SCALE_OFFSET,
    AENC_SELECT,
    PWM_POLARITIES,
    PWM_MAXCNT,
    PWM_BBM_H_BBM_L,
    PWM_SV_CHOP,
    MOTOR_TYPE_N_POLE_PAIRS,
    PHI_E_EXT,
    OPENLOOP_MODE,
    OPENLOOP_ACCELERATION,
    OPENLOOP_VELOCITY_TARGET,
    OPENLOOP_VELOCITY_ACTUAL,
    OPENLOOP_PHI,
    UQ_UD_EXT,
    ABN_DECODER_MODE,
    ABN_DECODER_PPR,
    ABN_DECODER_COUNT,
    ABN_DECODER_COUNT_N,
    ABN_DECODER_PHI_E_PHI_M_OFFSET,
    ABN_2_DECODER_MODE,
    ABN_2_DECODER_PPR,
    ABN_2_DECODER_COUNT,
    ABN_2_DECODER_COUNT_N,
    ABN_2_DECODER_PHI_M_OFFSET,
    HALL_MODE,
    HALL_POSITION_060_000,
    HALL_POSITION_180_120,
    HALL_POSITION_300_240,
    HALL_PHI_E_PHI_M_OFFSET,
    HALL_DPHI_MAX,
    AENC_DECODER_MODE,
    AENC_DECODER_N_THRESHOLD,
    AENC_DECODER_PHI_A_OFFSET,
    AENC_DECODER_PPR,
    AENC_DECODER_COUNT_N,
    AENC_DECODER_PHI_E_PHI_M_OFFSET,
    CONFIG_DATA,
    CONFIG_ADDR,
    VELOCITY_SELECTION,
    POSITION_SELECTION,
    PHI_E_SELECTION,
    PID_FLUX_P_FLUX_I,
    PID_TORQUE_P_TORQUE_I,
    PID_VELOCITY_P_VELOCITY_I,
    PID_POSITION_P_POSITION_I,
    PIDOUT_UQ_UD_LIMITS,
    PID_TORQUE_FLUX_LIMITS,
    PID_VELOCITY_LIMIT,
    PID_POSITION_LIMIT_LOW,
    PID_POSITION_LIMIT_HIGH,
    MODE_RAMP_MODE_MOTION,
    PID_TORQUE_FLUX_TARGET,
    PID_TORQUE_FLUX_OFFSET,
    PID_VELOCITY_TARGET,
    PID_VELOCITY_OFFSET,
    PID_POSITION_TARGET,
    PID_TORQUE_FLUX_ACTUAL,
    PID_VELOCITY_ACTUAL,
    PID_POSITION_ACTUAL,
    PID_ERROR_ADDR,
    INTERIM_DATA,
    INTERIM_ADDR,
    WATCHDOG_CFG,
    ADC_VM_LIMITS,
    STEP_WIDTH,
    UART_BPS,
    UART_ADDRS,
    GPIO_dsADCI_CONFIG,
    STATUS_FLAGS,
    STATUS_MASK,
}

impl Tmc4671Registers {
    /// The address of the register.
    pub open spec fn code(self) -> u8 {
        match self {
            Tmc4671Registers::CHIPINFO_DATA => 0x00,
            Tmc4671Registers::CHIPINFO_ADDR => 0x01,
            Tmc4671Registers::ADC_RAW_DATA => 0x02,
            Tmc4671Registers::ADC_RAW_ADDR => 0x03,
            Tmc4671Registers::dsADC_MCFG_B_MCFG_A => 0x04,
            Tmc4671Registers::dsADC_MCLK_A => 0x05,
            Tmc4671Registers::dsADC_MCLK_B => 0x06,
            Tmc4671Registers::dsADC_MDEC_B_MDEC_A => 0x07,
            Tmc4671Registers::ADC_I1_SCALE_OFFSET => 0x08,
            Tmc4671Registers::ADC_I0_SCALE_OFFSET => 0x09,
            Tmc4671Registers::ADC_I_SELECT => 0x0A,
            Tmc4671Registers::ADC_I1_I0_EXT => 0x0B,
            Tmc4671Registers::DS_ANALOG_INPUT_STAGE_CFG => 0x0C,
            Tmc4671Registers::AENC_0_SCALE_OFFSET => 0x0D,
            Tmc4671Registers::AENC_1_SCALE_OFFSET => 0x0E,
            Tmc4671Registers::AENC_2_SCALE_OFFSET => 0x0F,
            Tmc4671Registers::AENC_SELECT => 0x11,
            Tmc4671Registers::PWM_POLARITIES => 0x17,
            Tmc4671Registers::PWM_MAXCNT => 0x18,
            Tmc4671Registers::PWM_BBM_H_BBM_L => 0x19,
            Tmc4671Registers::PWM_SV_CHOP => 0x1A,
            Tmc4671Registers::MOTOR_TYPE_N_POLE_PAIRS => 0x1B,
            Tmc4671Registers::PHI_E_EXT => 0x1C,
            Tmc4671Registers::OPENLOOP_MODE => 0x1F,
            Tmc4671Registers::OPENLOOP_ACCELERATION => 0x20,
            Tmc4671Registers::OPENLOOP_VELOCITY_TARGET => 0x21,
            Tmc4671Registers::OPENLOOP_VELOCITY_ACTUAL => 0x22,
            Tmc4671Registers::OPENLOOP_PHI => 0x23,
            Tmc4671Registers::UQ_UD_EXT => 0x24,
            Tmc4671Registers::ABN_DECODER_MODE => 0x25,
            Tmc4671Registers::ABN_DECODER_PPR => 0x26,
            Tmc4671Registers::ABN_DECODER_COUNT => 0x27,
            Tmc4671Registers::ABN_DECODER_COUNT_N => 0x28,
            Tmc4671Registers::ABN_DECODER_PHI_E_PHI_M_OFFSET => 0x29,
            Tmc4671Registers::ABN_2_DECODER_MODE => 0x2C,
            Tmc4671Registers::ABN_2_DECODER_PPR => 0x2D,
            Tmc4671Registers::ABN_2_DECODER_COUNT => 0x2E,
            Tmc4671Registers::ABN_2_DECODER_COUNT_N => 0x2F,
            Tmc4671Registers::ABN_2_DECODER_PHI_M_OFFSET => 0x30,
            Tmc4671Registers::HALL_MODE => 0x33,
            Tmc4671Registers::HALL_POSITION_060_000 => 0x34,
            Tmc4671Registers::HALL_POSITION_180_120 => 0x35,
            Tmc4671Registers::HALL_POSITION_300_240 => 0x36,
            Tmc4671Registers::HALL_PHI_E_PHI_M_OFFSET => 0x37,
            Tmc4671Registers::HALL_DPHI_MAX => 0x38,
            Tmc4671Registers::AENC_DECODER_MODE => 0x3B,
            Tmc4671Registers::AENC_DECODER_N_THRESHOLD => 0x3C,
            Tmc4671Registers::AENC_DECODER_PHI_A_OFFSET => 0x3E,
            Tmc4671Registers::AENC_DECODER_PPR => 0x40,
            Tmc4671Registers::AENC_DECODER_COUNT_N => 0x42,
            Tmc4671Registers::AENC_DECODER_PHI_E_PHI_M_OFFSET => 0x45,
            Tmc4671Registers::CONFIG_DATA => 0x4D,
            Tmc4671Registers::CONFIG_ADDR => 0x4E,
            Tmc4671Registers::VELOCITY_SELECTION => 0x50,
            Tmc4671Registers::POSITION_SELECTION => 0x51,
            Tmc4671Registers::PHI_E_SELECTION => 0x52,
            Tmc4671Registers::PID_FLUX_P_FLUX_I => 0x54,
            Tmc4671Registers::PID_TORQUE_P_TORQUE_I => 0x56,
            Tmc4671Registers::PID_VELOCITY_P_VELOCITY_I => 0x58,
            Tmc4671Registers::PID_POSITION_P_POSITION_I => 0x5A,
            Tmc4671Registers::PIDOUT_UQ_UD_LIMITS => 0x5D,
            Tmc4671Registers::PID_TORQUE_FLUX_LIMITS => 0x5E,
            Tmc4671Registers::PID_VELOCITY_LIMIT => 0x60,
            Tmc4671Registers::PID_POSITION_LIMIT_LOW => 0x61,
            Tmc4671Registers::PID_POSITION_LIMIT_HIGH => 0x62,
            Tmc4671Registers::MODE_RAMP_MODE_MOTION => 0x63,
            Tmc4671Registers::PID_TORQUE_FLUX_TARGET => 0x64,
            Tmc4671Registers::PID_TORQUE_FLUX_OFFSET => 0x65,
            Tmc4671Registers::PID_VELOCITY_TARGET => 0x66,
            Tmc4671Registers::PID_VELOCITY_OFFSET => 0x67,
            Tmc4671Registers::PID_POSITION_TARGET => 0x68,
            Tmc4671Registers::PID_TORQUE_FLUX_ACTUAL => 0x69,
            Tmc4671Registers::PID_VELOCITY_ACTUAL => 0x6A,
            Tmc4671Registers::PID_POSITION_ACTUAL => 0x6B,
            Tmc4671Registers::PID_ERROR_ADDR => 0x6D,
            Tmc4671Registers::INTERIM_DATA => 0x6E,
            Tmc4671Registers::INTERIM_ADDR => 0x6F,
            Tmc4671Registers::WATCHDOG_CFG => 0x74,
            Tmc4671Registers::ADC_VM_LIMITS => 0x75,
            Tmc4671Registers::STEP_WIDTH => 0x78,
            Tmc4671Registers::UART_BPS => 0x79,
            Tmc4671Registers::UART_ADDRS => 0x7A,
            Tmc4671Registers::GPIO_dsADCI_CONFIG => 0x7B,
            Tmc4671Registers::STATUS_FLAGS => 0x7C,
            Tmc4671Registers::STATUS_MASK => 0x7D,
        }
    }

    pub fn to_u8(self) -> (r: u8)
        ensures
            r == self.code(),
            r < 0x80,
    {
        match self {
            Tmc4671Registers::CHIPINFO_DATA => 0x00,
            Tmc4671Registers::CHIPINFO_ADDR => 0x01,
            Tmc4671Registers::ADC_RAW_DATA => 0x02,
            Tmc4671Registers::ADC_RAW_ADDR => 0x03,
            Tmc4671Registers::dsADC_MCFG_B_MCFG_A => 0x04,
            Tmc4671Registers::dsADC_MCLK_A => 0x05,
            Tmc4671Registers::dsADC_MCLK_B => 0x06,
            Tmc4671Registers::dsADC_MDEC_B_MDEC_A => 0x07,
            Tmc4671Registers::ADC_I1_SCALE_OFFSET => 0x08,
            Tmc4671Registers::ADC_I0_SCALE_OFFSET => 0x09,
            Tmc4671Registers::ADC_I_SELECT => 0x0A,
            Tmc4671Registers::ADC_I1_I0_EXT => 0x0B,
            Tmc4671Registers::DS_ANALOG_INPUT_STAGE_CFG => 0x0C,
            Tmc4671Registers::AENC_0_SCALE_OFFSET => 0x0D,
            Tmc4671Registers::AENC_1_SCALE_OFFSET => 0x0E,
            Tmc4671Registers::AENC_2_SCALE_OFFSET => 0x0F,
            Tmc4671Registers::AENC_SELECT => 0x11,
            Tmc4671Registers::PWM_POLARITIES => 0x17,
            Tmc4671Registers::PWM_MAXCNT => 0x18,
            Tmc4671Registers::PWM_BBM_H_BBM_L => 0x19,
            Tmc4671Registers::PWM_SV_CHOP => 0x1A,
            Tmc4671Registers::MOTOR_TYPE_N_POLE_PAIRS => 0x1B,
            Tmc4671Registers::PHI_E_EXT => 0x1C,
            Tmc4671Registers::OPENLOOP_MODE => 0x1F,
            Tmc4671Registers::OPENLOOP_ACCELERATION => 0x20,
            Tmc4671Registers::OPENLOOP_VELOCITY_TARGET => 0x21,
            Tmc4671Registers::OPENLOOP_VELOCITY_ACTUAL => 0x22,
            Tmc4671Registers::OPENLOOP_PHI => 0x23,
            Tmc4671Registers::UQ_UD_EXT => 0x24,
            Tmc4671Registers::ABN_DECODER_MODE => 0x25,
            Tmc4671Registers::ABN_DECODER_PPR => 0x26,
            Tmc4671Registers::ABN_DECODER_COUNT => 0x27,
            Tmc4671Registers::ABN_DECODER_COUNT_N => 0x28,
            Tmc4671Registers::ABN_DECODER_PHI_E_PHI_M_OFFSET => 0x29,
            Tmc4671Registers::ABN_2_DECODER_MODE => 0x2C,
            Tmc4671Registers::ABN_2_DECODER_PPR => 0x2D,
            Tmc4671Registers::ABN_2_DECODER_COUNT => 0x2E,
            Tmc4671Registers::ABN_2_DECODER_COUNT_N => 0x2F,
            Tmc4671Registers::ABN_2_DECODER_PHI_M_OFFSET => 0x30,
            Tmc4671Registers::HALL_MODE => 0x33,
            Tmc4671Registers::HALL_POSITION_060_000 => 0x34,
            Tmc4671Registers::HALL_POSITION_180_120 => 0x35,
            Tmc4671Registers::HALL_POSITION_300_240 => 0x36,
            Tmc4671Registers::HALL_PHI_E_PHI_M_OFFSET => 0x37,
            Tmc4671Registers::HALL_DPHI_MAX => 0x38,
            Tmc4671Registers::AENC_DECODER_MODE => 0x3B,
            Tmc4671Registers::AENC_DECODER_N_THRESHOLD => 0x3C,
            Tmc4671Registers::AENC_DECODER_PHI_A_OFFSET => 0x3E,
            Tmc4671Registers::AENC_DECODER_PPR => 0x40,
            Tmc4671Registers::AENC_DECODER_COUNT_N => 0x42,
            Tmc4671Registers::AENC_DECODER_PHI_E_PHI_M_OFFSET => 0x45,
            Tmc4671Registers::CONFIG_DATA => 0x4D,
            Tmc4671Registers::CONFIG_ADDR => 0x4E,
            Tmc4671Registers::VELOCITY_SELECTION => 0x50,
            Tmc4671Registers::POSITION_SELECTION => 0x51,
            Tmc4671Registers::PHI_E_SELECTION => 0x52,
            Tmc4671Registers::PID_FLUX_P_FLUX_I => 0x54,
            Tmc4671Registers::PID_TORQUE_P_TORQUE_I => 0x56,
            Tmc4671Registers::PID_VELOCITY_P_VELOCITY_I => 0x58,
            Tmc4671Registers::PID_POSITION_P_POSITION_I => 0x5A,
            Tmc4671Registers::PIDOUT_UQ_UD_LIMITS => 0x5D,
            Tmc4671Registers::PID_TORQUE_FLUX_LIMITS => 0x5E,
            Tmc4671Registers::PID_VELOCITY_LIMIT => 0x60,
            Tmc4671Registers::PID_POSITION_LIMIT_LOW => 0x61,
            Tmc4671Registers::PID_POSITION_LIMIT_HIGH => 0x62,
            Tmc4671Registers::MODE_RAMP_MODE_MOTION => 0x63,
            Tmc4671Registers::PID_TORQUE_FLUX_TARGET => 0x64,
            Tmc4671Registers::PID_TORQUE_FLUX_OFFSET => 0x65,
            Tmc4671Registers::PID_VELOCITY_TARGET => 0x66,
            Tmc4671Registers::PID_VELOCITY_OFFSET => 0x67,
            Tmc4671Registers::PID_POSITION_TARGET => 0x68,
            Tmc4671Registers::PID_TORQUE_FLUX_ACTUAL => 0x69,
            Tmc4671Registers::PID_VELOCITY_ACTUAL => 0x6A,
            Tmc4671Registers::PID_POSITION_ACTUAL => 0x6B,
            Tmc4671Registers::PID_ERROR_ADDR => 0x6D,
            Tmc4671Registers::INTERIM_DATA => 0x6E,
            Tmc4671Registers::INTERIM_ADDR => 0x6F,
            Tmc4671Registers::WATCHDOG_CFG => 0x74,
            Tmc4671Registers::ADC_VM_LIMITS => 0x75,
            Tmc4671Registers::STEP_WIDTH => 0x78,
            Tmc4671Registers::UART_BPS => 0x79,
            Tmc4671Registers::UART_ADDRS => 0x7A,
            Tmc4671Registers::GPIO_dsADCI_CONFIG => 0x7B,
            Tmc4671Registers::STATUS_FLAGS => 0x7C,
            Tmc4671Registers::STATUS_MASK => 0x7D,
        }
    }
}

/// Datagram of a TMC4671 register access: the address with bit 7 raised for a write,
/// then the data most significant byte first (zeros for a read).
pub open spec fn spec_tmc4671_frame(write_bit: bool, addr: u8, data: u32) -> Seq<u8> {
    let d: u32 = if write_bit {
        data
    } else {
        0
    };
    seq![
        if write_bit {
            addr | 0x80
        } else {
            addr
        },
        (d / 0x100_0000) as u8,
        ((d / 0x1_0000) % 256) as u8,
        ((d / 0x100) % 256) as u8,
        (d % 256) as u8,
    ]
}

/// Builds the datagram of a TMC4671 register access.
pub fn tmc4671_frame(write_bit: bool, addr: u8, data: u32) -> (r: [u8; 5])
    ensures
        r@ == spec_tmc4671_frame(write_bit, addr, data),
{
    let d: u32 = if write_bit {
        data
    } else {
        0
    };
    let msb_data = if write_bit {
        addr | 0b1000_0000
    } else {
        addr
    };
    let r = [
        msb_data,
        (d / 0x100_0000) as u8,
        ((d / 0x1_0000) % 256) as u8,
        ((d / 0x100) % 256) as u8,
        (d % 256) as u8,
    ];
    assert(r@ =~= spec_tmc4671_frame(write_bit, addr, data));
    r
}

/// The 32-bit value shifted back in the last four bytes of a datagram, most
/// significant byte first.
pub open spec fn spec_reply_value(frame: Seq<u8>) -> u32 {
    (frame[4] + 0x100 * frame[3] + 0x1_0000 * frame[2] + 0x100_0000 * frame[1]) as u32
}

/// Reads the value returned in a 5-byte datagram.
pub fn reply_value(frame: [u8; 5]) -> (r: u32)
    ensures
        r == spec_reply_value(frame@),
{
    let mut read_data = frame[4] as u32;
    read_data += (frame[3] as u32) * 0x100;
    read_data += (frame[2] as u32) * 0x1_0000;
    read_data += (frame[1] as u32) * 0x100_0000;
    read_data
}

/// A written value sent in a datagram is read back unchanged from the same bytes.
pub proof fn law_frame_value_roundtrip(addr: u8, data: u32)
    ensures
        spec_reply_value(spec_tmc4671_frame(true, addr, data)) == data,
        spec_tmc4671_frame(true, addr, data)[0] & 0x7F == addr & 0x7F,
        spec_tmc4671_frame(false, addr, data)[0] == addr,
{
    let f = spec_tmc4671_frame(true, addr, data);
    lemma_u32_word(data);
    assert(f[1] == le_u32_bytes(data)[3] && f[2] == le_u32_bytes(data)[2] && f[3]
        == le_u32_bytes(data)[1] && f[4] == le_u32_bytes(data)[0]);
    assert((addr | 0x80) & 0x7F == addr & 0x7F) by (bit_vector);
}

/// Low half of a register as a signed value.
pub open spec fn spec_lower_i16(v: u32) -> i16 {
    i16_of_bits((v % 0x1_0000) as u16)
}

/// High half of a register as a signed value.
pub open spec fn spec_upper_i16(v: u32) -> i16 {
    i16_of_bits((v / 0x1_0000) as u16)
}

/// Low half of a register, as read by `tmc4671_get_lower_i16`.
pub fn lower_i16(v: u32) -> (r: i16)
    ensures
        r == spec_lower_i16(v),
{
    bits_to_i16((v % 0x1_0000) as u16)
}

/// High half of a register, as read by `tmc4671_get_upper_i16`.
pub fn upper_i16(v: u32) -> (r: i16)
    ensures
        r == spec_upper_i16(v),
{
    bits_to_i16((v / 0x1_0000) as u16)
}

/// Low half of a register, as read by `tmc4671_get_lower_u16`.
pub fn lower_u16(v: u32) -> (r: u16)
    ensures
        r == v % 0x1_0000,
{
    (v % 0x1_0000) as u16
}

/// High half of a register, as read by `tmc4671_get_upper_u16`.
pub fn upper_u16(v: u32) -> (r: u16)
    ensures
        r == v / 0x1_0000,
{
    (v / 0x1_0000) as u16
}

/// The two ADC channels of the raw ADC register: low half first.
pub fn adc_raw_pair(raw: u32) -> (r: (u16, u16))
    ensures
        r == ((raw % 0x1_0000) as u16, (raw / 0x1_0000) as u16),
{
    ((raw % 0x1_0000) as u16, (raw / 0x1_0000) as u16)
}

/// Register value that selects `mode`, keeping the upper bytes of `current`.
pub fn mode_register_value(current: u32, mode: MotionMode) -> (r: u32)
    ensures
        r == current - current % 256 + mode.code(),
{
    let c = mode.to_u8() as u32;
    current - current % 256 + c
}

/// The motion mode selected by a mode register value; unknown modes read as stopped.
pub fn motion_mode_of_register(v: u32) -> (r: MotionMode)
    ensures
        r.code() == v % 256 || (v % 256 >= 16 && r == MotionMode::Stopped),
{
    match MotionMode::from_u8((v % 256) as u8) {
        Some(m) => m,
        None => MotionMode::Stopped,
    }
}

/// Torque and flux target register with the torque (high half) replaced.
pub open spec fn spec_with_torque_target(current: u32, torque: i16) -> u32 {
    (current % 0x1_0000 + i16_bits(torque) * 0x1_0000) as u32
}

/// Torque and flux target register with the flux (low half) replaced; a negative flux
/// is sign-extended over the torque half.
pub open spec fn spec_with_flux_target(current: u32, flux: i16) -> u32 {
    if flux >= 0 {
        (current - current % 0x1_0000 + flux) as u32
    } else {
        (0xFFFF_0000 + i16_bits(flux)) as u32
    }
}

/// Register value written by `tmc4671_set_torque_target`.
pub fn torque_target_value(current: u32, torque: i16) -> (r: u32)
    ensures
        r == spec_with_torque_target(current, torque),
{
    current % 0x1_0000 + (i16_to_bits(torque) as u32) * 0x1_0000
}

/// Register value written by `tmc4671_set_flux_target`.
pub fn flux_target_value(current: u32, flux: i16) -> (r: u32)
    ensures
        r == spec_with_flux_target(current, flux),
{
    if flux >= 0 {
        current - current % 0x1_0000 + flux as u32
    } else {
        0xFFFF_0000 + i16_to_bits(flux) as u32
    }
}

/// Setting the torque target keeps the flux target, and the torque reads back; setting a
/// non-negative flux target keeps the torque target, and the flux reads back.
#[verifier::spinoff_prover]
#[verifier::rlimit(40)]
pub proof fn law_torque_flux_targets(current: u32, torque: i16, flux: i16)
    ensures
        spec_upper_i16(spec_with_torque_target(current, torque)) == torque,
        spec_lower_i16(spec_with_torque_target(current, torque)) == spec_lower_i16(current),
        spec_lower_i16(spec_with_flux_target(current, flux)) == flux,
        flux >= 0 ==> spec_upper_i16(spec_with_flux_target(current, flux)) == spec_upper_i16(
            current,
        ),
{
    let b = i16_bits(torque);
    assert((current % 0x1_0000 + b * 0x1_0000) / 0x1_0000 == b && (current % 0x1_0000 + b
        * 0x1_0000) % 0x1_0000 == current % 0x1_0000) by (nonlinear_arith)
        requires
            0 <= b < 0x1_0000,
    ;
    let f = i16_bits(flux);
    if flux >= 0 {
        assert((current - current % 0x1_0000 + flux) % 0x1_0000 == flux && (current - current
            % 0x1_0000 + flux) / 0x1_0000 == current / 0x1_0000) by (nonlinear_arith)
            requires
                0 <= flux < 0x8000,
        ;
    } else {
        assert((0xFFFF_0000 + f) % 0x1_0000 == f) by (nonlinear_arith)
            requires
                0 <= f < 0x1_0000,
        ;
    }
}

/// Limit register value written for the voltage limit: 15 bits of the pattern.
pub fn uq_ud_limit_value(limit: i16) -> (r: u32)
    ensures
        r == i16_bits(limit) % 0x8000,
{
    (i16_to_bits(limit) % 0x8000) as u32
}

/// Limit register value written for the torque and flux limit: 15 bits of the limit.
pub fn torque_flux_limit_value(limit: u16) -> (r: u32)
    ensures
        r == limit % 0x8000,
{
    (limit % 0x8000) as u32
}

/// Controller settings that depend on the electronics: PWM period, PWM chopper,
/// current channel selection, delta-sigma clock and decimation. Boards with low-side
/// current sensing run a slower PWM with space-vector chopping and an ADC clock and
/// decimation synchronised with it.
pub open spec fn electronics_settings(e: Electronics) -> (u32, u32, u32, u32, u32) {
    let low_side = e != Electronics::Beta;
    (
        if low_side { 0x0000_0F9F } else { 0x0000_07CF },
        if low_side { 0x0000_0107 } else { 0x0000_0007 },
        if e == Electronics::Beta { 0x1800_0100 } else { 0x2400_0100 },
        if low_side { 0x1900_0000 } else { 0x2000_0000 },
        if low_side { 0x0299_0299 } else { 0x014E_014E },
    )
}

/// Maximal voltage output of the PI controllers (register PIDOUT_UQ_UD_LIMITS).
pub const UQ_UD_LIMIT: u32 = 31000;

/// The register writes that initialise the TMC4671, in order: motor type and PWM,
/// current ADC, encoder, limits, PI gains, velocity limit. `torque_flux_limit` and
/// `velocity_limit` are the register values computed from the motor's limits.
pub open spec fn spec_init_sequence(
    e: Electronics,
    motor: BrushlessMotor,
    sensing: CurrentSensing,
    torque_flux_limit: u32,
    velocity_limit: u32,
) -> Seq<(u8, u32)> {
    let (maxcnt, sv_chop, i_select, mclk, mdec) = electronics_settings(e);
    seq![
        (Tmc4671Registers::MOTOR_TYPE_N_POLE_PAIRS.code(), motor.motor_type_n_pole_pairs),
        (Tmc4671Registers::PWM_POLARITIES.code(), 0u32),
        (Tmc4671Registers::PWM_MAXCNT.code(), maxcnt),
        (Tmc4671Registers::PWM_BBM_H_BBM_L.code(), 0x0000_1919u32),
        (Tmc4671Registers::PWM_SV_CHOP.code(), sv_chop),
        (Tmc4671Registers::ADC_I_SELECT.code(), i_select),
        (Tmc4671Registers::dsADC_MCFG_B_MCFG_A.code(), 0x0010_0010u32),
        (Tmc4671Registers::dsADC_MCLK_A.code(), mclk),
        (Tmc4671Registers::dsADC_MCLK_B.code(), mclk),
        (Tmc4671Registers::dsADC_MDEC_B_MDEC_A.code(), mdec),
        (Tmc4671Registers::ADC_I1_SCALE_OFFSET.code(), sensing.adc_i1_scale_offset),
        (Tmc4671Registers::ADC_I0_SCALE_OFFSET.code(), sensing.adc_i0_scale_offset),
        (Tmc4671Registers::ABN_DECODER_MODE.code(), 0u32),
        (Tmc4671Registers::ABN_DECODER_PPR.code(), motor.abn_decoder_ppr),
        (Tmc4671Registers::ABN_DECODER_PHI_E_PHI_M_OFFSET.code(), 0u32),
        (Tmc4671Registers::PIDOUT_UQ_UD_LIMITS.code(), UQ_UD_LIMIT),
        (Tmc4671Registers::PID_TORQUE_FLUX_LIMITS.code(), torque_flux_limit),
        (Tmc4671Registers::PID_FLUX_P_FLUX_I.code(), motor.pid_flux_p_flux_i),
        (Tmc4671Registers::PID_TORQUE_P_TORQUE_I.code(), motor.pid_torque_p_torque_i),
        (Tmc4671Registers::PID_VELOCITY_P_VELOCITY_I.code(), motor.pid_velocity_p_velocity_i),
        (Tmc4671Registers::PID_POSITION_P_POSITION_I.code(), motor.pid_position_p_position_i),
        (Tmc4671Registers::PID_VELOCITY_LIMIT.code(), velocity_limit),
    ]
}

/// The register writes that initialise the TMC4671; each is a checked write, and the
/// initialisation stops at the first one that does not read back.
pub fn tmc4671_init_sequence(
    e: Electronics,
    motor: &BrushlessMotor,
    sensing: &CurrentSensing,
    torque_flux_limit: u32,
    velocity_limit: u32,
) -> (r: [(u8, u32); 22])
    ensures
        r@ == spec_init_sequence(e, *motor, *sensing, torque_flux_limit, velocity_limit),
{
    let low_side = match e {
        Electronics::Beta => false,
        _ => true,
    };
    let maxcnt: u32 = if low_side { 0x0000_0F9F } else { 0x0000_07CF };
    let sv_chop: u32 = if low_side { 0x0000_0107 } else { 0x0000_0007 };
    let i_select: u32 = match e {
        Electronics::Beta => 0x1800_0100,
        _ => 0x2400_0100,
    };
    let mclk: u32 = if low_side { 0x1900_0000 } else { 0x2000_0000 };
    let mdec: u32 = if low_side { 0x0299_0299 } else { 0x014E_014E };
    let r = [
        (Tmc4671Registers::MOTOR_TYPE_N_POLE_PAIRS.to_u8(), motor.motor_type_n_pole_pairs),
        (Tmc4671Registers::PWM_POLARITIES.to_u8(), 0u32),
        (Tmc4671Registers::PWM_MAXCNT.to_u8(), maxcnt),
        (Tmc4671Registers::PWM_BBM_H_BBM_L.to_u8(), 0x0000_1919u32),
        (Tmc4671Registers::PWM_SV_CHOP.to_u8(), sv_chop),
        (Tmc4671Registers::ADC_I_SELECT.to_u8(), i_select),
        (Tmc4671Registers::dsADC_MCFG_B_MCFG_A.to_u8(), 0x0010_0010u32),
        (Tmc4671Registers::dsADC_MCLK_A.to_u8(), mclk),
        (Tmc4671Registers::dsADC_MCLK_B.to_u8(), mclk),
        (Tmc4671Registers::dsADC_MDEC_B_MDEC_A.to_u8(), mdec),
        (Tmc4671Registers::ADC_I1_SCALE_OFFSET.to_u8(), sensing.adc_i1_scale_offset),
        (Tmc4671Registers::ADC_I0_SCALE_OFFSET.to_u8(), sensing.adc_i0_scale_offset),
        (Tmc4671Registers::ABN_DECODER_MODE.to_u8(), 0u32),
        (Tmc4671Registers::ABN_DECODER_PPR.to_u8(), motor.abn_decoder_ppr),
        (Tmc4671Registers::ABN_DECODER_PHI_E_PHI_M_OFFSET.to_u8(), 0u32),
        (Tmc4671Registers::PIDOUT_UQ_UD_LIMITS.to_u8(), UQ_UD_LIMIT),
        (Tmc4671Registers::PID_TORQUE_FLUX_LIMITS.to_u8(), torque_flux_limit),
        (Tmc4671Registers::PID_FLUX_P_FLUX_I.to_u8(), motor.pid_flux_p_flux_i),
        (Tmc4671Registers::PID_TORQUE_P_TORQUE_I.to_u8(), motor.pid_torque_p_torque_i),
        (Tmc4671Registers::PID_VELOCITY_P_VELOCITY_I.to_u8(), motor.pid_velocity_p_velocity_i),
        (Tmc4671Registers::PID_POSITION_P_POSITION_I.to_u8(), motor.pid_position_p_position_i),
        (Tmc4671Registers::PID_VELOCITY_LIMIT.to_u8(), velocity_limit),
    ];
    assert(r@ =~= spec_init_sequence(e, *motor, *sensing, torque_flux_limit, velocity_limit));
    r
}

/// The writes `s` set register `addr`, and each of them writes `value`.
pub open spec fn sets_register(s: Seq<(u8, u32)>, addr: u8, value: u32) -> bool {
    &&& exists|k: int| 0 <= k < s.len() && s[k].0 == addr
    &&& forall|k: int| 0 <= k < s.len() && s[k].0 == addr ==> s[k].1 == value
}

/// The initialisation writes each of the 22 registers once, at its own address.
proof fn lemma_init_addresses(s: Seq<(u8, u32)>)
    requires
        s.len() == 22,
        s[0].0 == 0x1B, s[1].0 == 0x17, s[2].0 == 0x18, s[3].0 == 0x19, s[4].0 == 0x1A,
        s[5].0 == 0x0A, s[6].0 == 0x04, s[7].0 == 0x05, s[8].0 == 0x06, s[9].0 == 0x07,
        s[10].0 == 0x08, s[11].0 == 0x09, s[12].0 == 0x25, s[13].0 == 0x26,
        s[14].0 == 0x29, s[15].0 == 0x5D, s[16].0 == 0x5E, s[17].0 == 0x54,
        s[18].0 == 0x56, s[19].0 == 0x58, s[20].0 == 0x5A, s[21].0 == 0x60,
    ensures
        forall|i: int, j: int| 0 <= i < 22 && 0 <= j < 22 && s[i].0 == s[j].0 ==> i == j,
{
}

/// Addresses of the initialisation writes in the order they are made: motor type and
/// PWM first, then the current ADC, the encoder, the limits, the PI gains and last the
/// velocity limit.
pub open spec fn init_order() -> Seq<u8> {
    seq![
        0x1B, 0x17, 0x18, 0x19, 0x1A, 0x0A, 0x04, 0x05, 0x06, 0x07, 0x08, 0x09, 0x25, 0x26,
        0x29, 0x5D, 0x5E, 0x54, 0x56, 0x58, 0x5A, 0x60,
    ]
}

/// Each register of the initialisation receives its own setting: the motor's type, pole
/// pairs, encoder resolution and the PI gains of each loop go to that loop's register,
/// the current-sense scale and offset of each channel to that channel's register, the
/// computed limits to the limit registers, and the PWM and ADC clocking is the one of
/// the electronics (low-side sensing boards run the slower PWM with space-vector
/// chopping).
pub proof fn law_init_sequence_registers(
    e: Electronics,
    motor: BrushlessMotor,
    sensing: CurrentSensing,
    torque_flux_limit: u32,
    velocity_limit: u32,
)
    ensures
        ({
            let s = spec_init_sequence(e, motor, sensing, torque_flux_limit, velocity_limit);
            let beta = e == Electronics::Beta;
            &&& s.len() == 22
            &&& forall|k: int| 0 <= k < 22 ==> s[k].0 == #[trigger] init_order()[k]
            &&& sets_register(s, 0x1B, motor.motor_type_n_pole_pairs)
            &&& sets_register(s, 0x54, motor.pid_flux_p_flux_i)
            &&& sets_register(s, 0x56, motor.pid_torque_p_torque_i)
            &&& sets_register(s, 0x58, motor.pid_velocity_p_velocity_i)
            &&& sets_register(s, 0x5A, motor.pid_position_p_position_i)
            &&& sets_register(s, 0x26, motor.abn_decoder_ppr)
            &&& sets_register(s, 0x08, sensing.adc_i1_scale_offset)
            &&& sets_register(s, 0x09, sensing.adc_i0_scale_offset)
            &&& sets_register(s, 0x5E, torque_flux_limit)
            &&& sets_register(s, 0x60, velocity_limit)
            &&& sets_register(s, 0x5D, 31000)
            &&& sets_register(s, 0x17, 0)
            &&& sets_register(s, 0x19, 0x1919)
            &&& sets_register(s, 0x04, 0x0010_0010)
            &&& sets_register(s, 0x25, 0)
            &&& sets_register(s, 0x29, 0)
            &&& sets_register(s, 0x18, if beta { 0x07CF } else { 0x0F9F })
            &&& sets_register(s, 0x1A, if beta { 0x0007 } else { 0x0107 })
            &&& sets_register(s, 0x0A, if beta { 0x1800_0100 } else { 0x2400_0100 })
            &&& sets_register(s, 0x05, if beta { 0x2000_0000 } else { 0x1900_0000 })
            &&& sets_register(s, 0x06, if beta { 0x2000_0000 } else { 0x1900_0000 })
            &&& sets_register(s, 0x07, if beta { 0x014E_014E } else { 0x0299_0299 })
        }),
{
    let s = spec_init_sequence(e, motor, sensing, torque_flux_limit, velocity_limit);
    lemma_init_addresses(s);
    assert(s[0].0 == 0x1B && s[1].0 == 0x17 && s[2].0 == 0x18 && s[3].0 == 0x19);
    assert(s[4].0 == 0x1A && s[5].0 == 0x0A && s[6].0 == 0x04 && s[7].0 == 0x05);
    assert(s[8].0 == 0x06 && s[9].0 == 0x07 && s[10].0 == 0x08 && s[11].0 == 0x09);
    assert(s[12].0 == 0x25 && s[13].0 == 0x26 && s[14].0 == 0x29 && s[15].0 == 0x5D);
    assert(s[16].0 == 0x5E && s[17].0 == 0x54 && s[18].0 == 0x56 && s[19].0 == 0x58);
    assert(s[20].0 == 0x5A && s[21].0 == 0x60);
    assert(init_order() =~= s.map_values(|w: (u8, u32)| w.0));
}

/// A checked register write succeeded: the value read back from the reply datagram is
/// the value written.
pub fn register_write_confirmed(written: u32, reply: [u8; 5]) -> (r: bool)
    ensures
        r == (spec_reply_value(reply@) == written),
{
    reply_value(reply) == written
}

/// Samples of the current ADC averaged to find its offsets.
pub const ADC_OFFSET_SAMPLES: usize = 1000;

/// Sum of the first (`first`) or second channel over the samples.
pub open spec fn channel_sum(s: Seq<(u16, u16)>, first: bool) -> int
    decreases s.len(),
{
    if s.len() == 0 {
        0
    } else {
        channel_sum(s.drop_last(), first) + if first {
            s.last().0 as int
        } else {
            s.last().1 as int
        }
    }
}

proof fn lemma_channel_sum_bound(s: Seq<(u16, u16)>, first: bool)
    ensures
        0 <= channel_sum(s, first) <= 0xFFFF * s.len(),
    decreases s.len(),
{
    if s.len() > 0 {
        lemma_channel_sum_bound(s.drop_last(), first);
    }
}

/// The offsets of the two current channels: the average (rounded down) of their raw
/// values over the calibration samples.
pub fn average_adc_offsets(samples: &[(u16, u16)]) -> (r: (u32, u32))
    requires
        samples@.len() == ADC_OFFSET_SAMPLES,
    ensures
        r.0 == channel_sum(samples@, true) / ADC_OFFSET_SAMPLES as int,
        r.1 == channel_sum(samples@, false) / ADC_OFFSET_SAMPLES as int,
        r.0 <= 0xFFFF,
        r.1 <= 0xFFFF,
{
    let mut sum0: u32 = 0;
    let mut sum1: u32 = 0;
    let mut k: usize = 0;
    while k < samples.len()
        invariant
            k <= samples@.len(),
            samples@.len() == ADC_OFFSET_SAMPLES,
            sum0 == channel_sum(samples@.take(k as int), true),
            sum1 == channel_sum(samples@.take(k as int), false),
        decreases samples@.len() - k,
    {
        proof {
            assert(samples@.take(k as int + 1).drop_last() =~= samples@.take(k as int));
            lemma_channel_sum_bound(samples@.take(k as int), true);
            lemma_channel_sum_bound(samples@.take(k as int), false);
        }
        sum0 = sum0 + samples[k].0 as u32;
        sum1 = sum1 + samples[k].1 as u32;
        k = k + 1;
    }
    proof {
        assert(samples@.take(k as int) =~= samples@);
        lemma_channel_sum_bound(samples@, true);
        lemma_channel_sum_bound(samples@, false);
    }
    (sum0 / 1000, sum1 / 1000)
}

/// The PI register value written for a pair of gains: the integral gain in the low half
/// and the proportional gain in the high half (a negative integral gain, sign-extended,
/// covers the high half).
pub fn pid_register_value(pid: Pid) -> (r: u32)
    ensures
        r == pid_word(pid),
{
    pid_to_word(pid)
}

/// The gains read from a PI register: each half with its top bit cleared.
pub fn pid_of_register(word: u32) -> (r: Pid)
    ensures
        r == pid_of_word(word),
{
    Pid { p: ((word / 0x1_0000) % 0x8000) as i16, i: (word % 0x8000) as i16 }
}

/// Gains that fit in 15 bits read back from the register as written.
pub proof fn law_pid_register_roundtrip(pid: Pid)
    requires
        pid.p >= 0,
        pid.i >= 0,
    ensures
        pid_of_word(pid_word(pid)) == pid,
{
    let p = pid.p;
    let i = pid.i;
    assert(((p * 0x1_0000 + i) / 0x1_0000) % 0x8000 == p && (p * 0x1_0000 + i) % 0x8000 == i)
        by (nonlinear_arith)
        requires
            0 <= p < 0x8000,
            0 <= i < 0x8000,
    ;
}

/// Open-loop acceleration used while aligning a motor.
pub const OPENLOOP_ACCELERATION: u32 = 0x0000_003C;

/// Open-loop voltage used while aligning a motor: higher with low-side current sensing.
pub open spec fn uq_ud_ext(e: Electronics) -> u32 {
    if e == Electronics::Beta {
        0x0000_1000
    } else {
        0x0000_1388
    }
}

/// The checked writes that start the alignment of a motor, in order: positive open
/// loop, default acceleration, stopped, open-loop motion mode, encoder offset cleared,
/// open-loop electrical angle and the open-loop voltage. The motor is then enabled and
/// left to settle on a phase.
pub fn alignment_open_loop_sequence(e: Electronics) -> (r: [(u8, u32); 7])
    ensures
        r@ == seq![
            (Tmc4671Registers::OPENLOOP_MODE.code(), 0u32),
            (Tmc4671Registers::OPENLOOP_ACCELERATION.code(), OPENLOOP_ACCELERATION),
            (Tmc4671Registers::OPENLOOP_VELOCITY_TARGET.code(), 0u32),
            (Tmc4671Registers::MODE_RAMP_MODE_MOTION.code(), 8u32),
            (Tmc4671Registers::ABN_DECODER_PHI_E_PHI_M_OFFSET.code(), 0u32),
            (Tmc4671Registers::PHI_E_SELECTION.code(), 2u32),
            (Tmc4671Registers::UQ_UD_EXT.code(), uq_ud_ext(e)),
        ],
{
    let ext: u32 = match e {
        Electronics::Beta => 0x0000_1000,
        _ => 0x0000_1388,
    };
    let r = [
        (Tmc4671Registers::OPENLOOP_MODE.to_u8(), 0u32),
        (Tmc4671Registers::OPENLOOP_ACCELERATION.to_u8(), OPENLOOP_ACCELERATION),
        (Tmc4671Registers::OPENLOOP_VELOCITY_TARGET.to_u8(), 0u32),
        (Tmc4671Registers::MODE_RAMP_MODE_MOTION.to_u8(), 8u32),
        (Tmc4671Registers::ABN_DECODER_PHI_E_PHI_M_OFFSET.to_u8(), 0u32),
        (Tmc4671Registers::PHI_E_SELECTION.to_u8(), 2u32),
        (Tmc4671Registers::UQ_UD_EXT.to_u8(), ext),
    ];
    assert(r@ =~= seq![
        (Tmc4671Registers::OPENLOOP_MODE.code(), 0u32),
        (Tmc4671Registers::OPENLOOP_ACCELERATION.code(), OPENLOOP_ACCELERATION),
        (Tmc4671Registers::OPENLOOP_VELOCITY_TARGET.code(), 0u32),
        (Tmc4671Registers::MODE_RAMP_MODE_MOTION.code(), 8u32),
        (Tmc4671Registers::ABN_DECODER_PHI_E_PHI_M_OFFSET.code(), 0u32),
        (Tmc4671Registers::PHI_E_SELECTION.code(), 2u32),
        (Tmc4671Registers::UQ_UD_EXT.code(), uq_ud_ext(e)),
    ]);
    r
}

/// The checked writes that end the alignment, once the motor sits on a phase: the
/// encoder count cleared, then the encoder chosen for the electrical angle and the
/// velocity.
pub fn alignment_encoder_sequence() -> (r: [(u8, u32); 3])
    ensures
        r@ == seq![
            (Tmc4671Registers::ABN_DECODER_COUNT.code(), 0u32),
            (Tmc4671Registers::PHI_E_SELECTION.code(), 3u32),
            (Tmc4671Registers::VELOCITY_SELECTION.code(), 0u32),
        ],
{
    let r = [
        (Tmc4671Registers::ABN_DECODER_COUNT.to_u8(), 0u32),
        (Tmc4671Registers::PHI_E_SELECTION.to_u8(), 3u32),
        (Tmc4671Registers::VELOCITY_SELECTION.to_u8(), 0u32),
    ];
    assert(r@ =~= seq![
        (Tmc4671Registers::ABN_DECODER_COUNT.code(), 0u32),
        (Tmc4671Registers::PHI_E_SELECTION.code(), 3u32),
        (Tmc4671Registers::VELOCITY_SELECTION.code(), 0u32),
    ]);
    r
}

} // verus!
