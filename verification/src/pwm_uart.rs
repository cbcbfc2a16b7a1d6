//! Register arithmetic of the pulse-shaping timers that sit between the UART
//! and the line driver.

use vstd::prelude::*;

verus! {

/// Why a pulse-shaping timer could not be configured.
#[derive(Debug, Clone, Copy, PartialEq, Eq, Structural)]
pub enum PwmError {
    DividerTooLarge,
    DividerIsZero,
    Other,
}

/// The two retriggerable one-pulse output modes.
#[derive(Debug, Clone, Copy, PartialEq, Eq, Structural)]
pub enum RetriggerableOpmMode {
    Mode1,
    Mode2,
}

impl RetriggerableOpmMode {
    /// The four-bit output-compare mode code.
    pub open spec fn code(self) -> u32 {
        match self {
            RetriggerableOpmMode::Mode1 => 0b1000,
            RetriggerableOpmMode::Mode2 => 0b1001,
        }
    }

    pub fn raw(&self) -> (r: u32)
        ensures
            r == self.code(),
    {
        match self {
            RetriggerableOpmMode::Mode1 => 0b1000,
            RetriggerableOpmMode::Mode2 => 0b1001,
        }
    }
}

/// The compare value that gives a pulse of one `pulse_width_divider`-th of the
/// timer period `max_arr`.
pub open spec fn pulse_compare(max_arr: u16, pulse_width_divider: u8) -> Result<u16, PwmError> {
    if pulse_width_divider == 0 {
        Err(PwmError::DividerIsZero)
    } else if pulse_width_divider as int > max_arr as int {
        Err(PwmError::DividerTooLarge)
    } else {
        Ok((max_arr as int / pulse_width_divider as int) as u16)
    }
}

/// Validates the divider against the timer period and computes the compare
/// value of the output channel.
pub fn compare_value(max_arr: u16, pulse_width_divider: u8) -> (r: Result<u16, PwmError>)
    ensures
        r == pulse_compare(max_arr, pulse_width_divider),
        r is Ok ==> 1 <= r->Ok_0 <= max_arr,
{
    if pulse_width_divider == 0 {
        return Err(PwmError::DividerIsZero);
    }
    let divider: u16 = pulse_width_divider as u16;
    if divider > max_arr {
        return Err(PwmError::DividerTooLarge);
    }
    let value: u16 = max_arr / divider;
    assert(1 <= value <= max_arr) by (nonlinear_arith)
        requires
            value == max_arr as int / divider as int,
            1 <= divider <= max_arr,
    ;
    Ok(value)
}

/// The timer that shapes outgoing pulses: its period and the compare value
/// of its output channel.
#[derive(Debug, Clone, Copy, PartialEq, Eq, Structural)]
pub struct PwmOutputTimer {
    pub max_arr: u16,
    pub compare: u16,
}

impl PwmOutputTimer {
    /// Configures the output channel for a pulse of one
    /// `pulse_width_divider`-th of the period `max_arr`, or says why it
    /// cannot.
    pub fn try_new(max_arr: u16, pulse_width_divider: u8) -> (timer: Result<Self, PwmError>)
        ensures
            match timer {
                Ok(t) => t.max_arr == max_arr && pulse_compare(max_arr, pulse_width_divider)
                    == Ok::<u16, PwmError>(t.compare),
                Err(e) => pulse_compare(max_arr, pulse_width_divider) == Err::<u16, PwmError>(e),
            },
    {
        match compare_value(max_arr, pulse_width_divider) {
            Ok(compare) => Ok(PwmOutputTimer { max_arr, compare }),
            Err(e) => Err(e),
        }
    }
}

/// The timer that stretches incoming pulses, retriggered by each edge: its
/// period and the compare value of its output channel.
#[derive(Debug, Clone, Copy, PartialEq, Eq, Structural)]
pub struct PwmInputModulationTimer {
    pub max_arr: u16,
    pub compare: u16,
}

impl PwmInputModulationTimer {
    /// Configures the output channel for a pulse of one
    /// `pulse_width_divider`-th of the period `max_arr`, or says why it
    /// cannot.
    pub fn try_new(max_arr: u16, pulse_width_divider: u8) -> (timer: Result<Self, PwmError>)
        ensures
            match timer {
                Ok(t) => t.max_arr == max_arr && pulse_compare(max_arr, pulse_width_divider)
                    == Ok::<u16, PwmError>(t.compare),
                Err(e) => pulse_compare(max_arr, pulse_width_divider) == Err::<u16, PwmError>(e),
            },
    {
        match compare_value(max_arr, pulse_width_divider) {
            Ok(compare) => Ok(PwmInputModulationTimer { max_arr, compare }),
            Err(e) => Err(e),
        }
    }
}

/// The bit of the slave mode control register that extends the slave mode
/// field to the combined reset-and-trigger mode.
pub const SMS_EXTENSION: u32 = 0x0001_0000;

/// Sets the combined reset-and-trigger mode in a slave mode control
/// register value. Every other bit is kept.
pub fn enable_combined_reset_and_trigger(smcr: u32) -> (r: u32)
    ensures
        r & SMS_EXTENSION == SMS_EXTENSION,
        r & !SMS_EXTENSION == smcr & !SMS_EXTENSION,
{
    let r: u32 = smcr | SMS_EXTENSION;
    assert((smcr | 0x0001_0000u32) & 0x0001_0000u32 == 0x0001_0000u32) by (bit_vector);
    assert((smcr | 0x0001_0000u32) & !0x0001_0000u32 == smcr & !0x0001_0000u32) by (bit_vector);
    r
}

/// The bits of a capture/compare mode register that belong to the mode field
/// of output channel `n` of the register: three low mode bits and the
/// extension bit.
pub open spec fn ocm_field_mask(n: u32) -> u32 {
    if n == 0 {
        0x0001_0070
    } else {
        0x0100_7000
    }
}

/// The mode field of channel `n` holding `mode`, extension bit set.
pub open spec fn ocm_field_value(n: u32, mode: RetriggerableOpmMode) -> u32 {
    let low: u32 = mode.code() & 0b111;
    if n == 0 {
        (low << 4u32) | 0x0001_0000
    } else {
        (low << 12u32) | 0x0100_0000
    }
}

/// Rewrites the output-compare mode field of channel `n` (0 or 1) of a
/// capture/compare mode register to a retriggerable one-pulse mode. Every bit
/// outside the field is kept.
pub fn set_ocm_retriggerable(ccmro: u32, n: u32, mode: RetriggerableOpmMode) -> (r: u32)
    requires
        n < 2,
    ensures
        r & ocm_field_mask(n) == ocm_field_value(n, mode),
        r & !ocm_field_mask(n) == ccmro & !ocm_field_mask(n),
{
    let ocm_bit: u32 = 16 + n * 8;
    let offs: u32 = 4 + n * 8;
    let code: u32 = mode.raw();
    let low: u32 = code & 0b111;
    assert(low <= 7) by (bit_vector)
        requires
            low == code & 0b111,
    ;
    let r: u32 = (ccmro & !(0b111u32 << offs)) | (low << offs) | (1u32 << ocm_bit);
    proof {
        if n == 0 {
            assert(((ccmro & !(0b111u32 << 4u32)) | (low << 4u32) | (1u32 << 16u32)) & 0x0001_0070u32
                == (low << 4u32) | 0x0001_0000u32) by (bit_vector)
                requires
                    low <= 7,
            ;
            assert(((ccmro & !(0b111u32 << 4u32)) | (low << 4u32) | (1u32 << 16u32))
                & !0x0001_0070u32 == ccmro & !0x0001_0070u32) by (bit_vector)
                requires
                    low <= 7,
            ;
        } else {
            assert(((ccmro & !(0b111u32 << 12u32)) | (low << 12u32) | (1u32 << 24u32))
                & 0x0100_7000u32 == (low << 12u32) | 0x0100_0000u32) by (bit_vector)
                requires
                    low <= 7,
            ;
            assert(((ccmro & !(0b111u32 << 12u32)) | (low << 12u32) | (1u32 << 24u32))
                & !0x0100_7000u32 == ccmro & !0x0100_7000u32) by (bit_vector)
                requires
                    low <= 7,
            ;
        }
    }
    r
}

} // verus!
