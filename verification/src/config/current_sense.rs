use vstd::prelude::*;

verus! {

/// Current sensing of one power stage: shunt, amplifier gain and amplifier supply as
/// IEEE-754 bit patterns of their float values (ohms, V/V or V/A, volts), and the ADC
/// scale and offset registers.
#[derive(Debug, Clone, Copy, PartialEq, Eq, Structural)]
pub struct CurrentSensing {
    pub resistance_shunt: u32,
    pub amp_gain: u32,
    pub amp_voltage: u32,
    /// Register ADC_I0_SCALE_OFFSET.
    pub adc_i0_scale_offset: u32,
    /// Register ADC_I1_SCALE_OFFSET.
    pub adc_i1_scale_offset: u32,
}

/// Scale 1 (bit 24) and offset 0x8000, the middle of the range.
pub const ADC_SCALE_OFFSET_DEFAULT: u32 = 0x0100_8000;

/// `v` with the scale field raised to 1: bit 24 set, every other bit kept.
pub open spec fn with_unit_scale(v: u32) -> u32 {
    if (v / 0x100_0000) % 2 == 1 {
        v
    } else {
        (v + 0x100_0000) as u32
    }
}

impl CurrentSensing {
    /// Breakout board: 3 mOhm shunt, gain 20, 5 V.
    pub fn ventouse_bob() -> (r: Self)
        ensures
            r == (CurrentSensing {
                resistance_shunt: 0x3B44_9BA6,
                amp_gain: 0x41A0_0000,
                amp_voltage: 0x40A0_0000,
                adc_i0_scale_offset: ADC_SCALE_OFFSET_DEFAULT,
                adc_i1_scale_offset: ADC_SCALE_OFFSET_DEFAULT,
            }),
    {
        CurrentSensing {
            resistance_shunt: 0x3B44_9BA6,
            amp_gain: 0x41A0_0000,
            amp_voltage: 0x40A0_0000,
            adc_i0_scale_offset: ADC_SCALE_OFFSET_DEFAULT,
            adc_i1_scale_offset: ADC_SCALE_OFFSET_DEFAULT,
        }
    }

    /// Orbita2d power stage: 10 mOhm shunt, gain 20, 5 V.
    pub fn ventouse_2d() -> (r: Self)
        ensures
            r == (CurrentSensing {
                resistance_shunt: 0x3C23_D70A,
                amp_gain: 0x41A0_0000,
                amp_voltage: 0x40A0_0000,
                adc_i0_scale_offset: ADC_SCALE_OFFSET_DEFAULT,
                adc_i1_scale_offset: ADC_SCALE_OFFSET_DEFAULT,
            }),
    {
        CurrentSensing {
            resistance_shunt: 0x3C23_D70A,
            amp_gain: 0x41A0_0000,
            amp_voltage: 0x40A0_0000,
            adc_i0_scale_offset: ADC_SCALE_OFFSET_DEFAULT,
            adc_i1_scale_offset: ADC_SCALE_OFFSET_DEFAULT,
        }
    }

    /// Orbita3d power stage: no shunt (1.0), the driver's amplifier at 0.15 V/A (half
    /// its nominal gain, as measured), 5 V.
    pub fn ventouse_3d() -> (r: Self)
        ensures
            r == (CurrentSensing {
                resistance_shunt: 0x3F80_0000,
                amp_gain: 0x3E19_999A,
                amp_voltage: 0x40A0_0000,
                adc_i0_scale_offset: ADC_SCALE_OFFSET_DEFAULT,
                adc_i1_scale_offset: ADC_SCALE_OFFSET_DEFAULT,
            }),
    {
        CurrentSensing {
            resistance_shunt: 0x3F80_0000,
            amp_gain: 0x3E19_999A,
            amp_voltage: 0x40A0_0000,
            adc_i0_scale_offset: ADC_SCALE_OFFSET_DEFAULT,
            adc_i1_scale_offset: ADC_SCALE_OFFSET_DEFAULT,
        }
    }

    /// Records measured offsets, each with the scale field raised to 1.
    pub fn set_adc_offsets(&mut self, i0: u32, i1: u32)
        ensures
            final(self).adc_i0_scale_offset == with_unit_scale(i0),
            final(self).adc_i1_scale_offset == with_unit_scale(i1),
            final(self).resistance_shunt == old(self).resistance_shunt,
            final(self).amp_gain == old(self).amp_gain,
            final(self).amp_voltage == old(self).amp_voltage,
    {
        self.adc_i0_scale_offset = unit_scale(i0);
        self.adc_i1_scale_offset = unit_scale(i1);
    }
}

fn unit_scale(v: u32) -> (r: u32)
    ensures
        r == with_unit_scale(v),
{
    if (v / 0x100_0000) % 2 == 1 {
        v
    } else {
        v + 0x100_0000
    }
}

} // verus!
