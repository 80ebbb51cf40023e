//! The register file: machine and control registers plus the status-flag
//! bitfield, with independent boolean accessors for the individual flags.

use vstd::prelude::*;

verus! {

/// Bit of the status word holding the overflow/carry flag.
pub const FLAG_CARRY: u16 = 0x0001;
/// Bit of the status word holding the zero flag.
pub const FLAG_ZERO: u16 = 0x0002;
/// Bit of the status word holding the negative flag.
pub const FLAG_NEGATIVE: u16 = 0x0004;
/// Bit of the status word holding the interrupt-enable flag.
pub const FLAG_INTERRUPT: u16 = 0x0010;
/// Bit of the status word holding the single-tick execute mode flag.
pub const FLAG_EXECUTE_BY_TICK: u16 = 0x0020;
/// Bit of the status word receiving a device's ready state.
pub const FLAG_DEVICE_READY: u16 = 0x0040;
/// Bit of the status word holding the manual lever input.
pub const FLAG_LEVER: u16 = 0x0080;
/// Bit of the status word holding the program/step mode switch.
pub const FLAG_PROGRAM_MODE: u16 = 0x0100;

/// The command counter is 11 bits wide: every write is masked with this.
pub const COMMAND_COUNTER_MASK: u16 = 0x07FF;
/// The buffer register is 17 bits wide: every write is masked with this.
pub const BUFFER_MASK: u32 = 0x1FFFF;

/// A status word with one flag bit forced to `v` and every other bit kept.
pub open spec fn spec_set_flag(status: u16, mask: u16, v: bool) -> u16 {
    if v {
        status | mask
    } else {
        status & !mask
    }
}

/// Whether the flag bit selected by `mask` is set in `status`.
pub open spec fn spec_get_flag(status: u16, mask: u16) -> bool {
    status & mask != 0
}

/// All machine and control registers. The micro-program counter (8 bits)
/// and the buffer register (17 bits) differ in width from the uniform
/// 16-bit set and are mutated only by the microcode engine.
pub struct Registers {
    /// Micro-program counter (8 bits); selects the next control-store word.
    pub r_micro_command_counter: u8,
    /// Status word; the individual flag bits live here.
    pub r_status: u16,
    /// Micro-instruction register, loaded on every micro-fetch.
    pub r_micro_command: u16,
    /// Buffer register (17 bits effective), internal scratch of the engine.
    pub r_buffer: u32,
    /// Address register.
    pub r_address: u16,
    /// Command register.
    pub r_command: u16,
    /// Data register.
    pub r_data: u16,
    /// Command counter (macro program counter, 11 bits effective).
    pub r_command_counter: u16,
    /// Accumulator.
    pub r_counter: u16,
}

impl Registers {
    /// The same register file with only the status word replaced.
    pub open spec fn with_status(self, status: u16) -> Registers {
        Registers { r_status: status, ..self }
    }

    pub fn new() -> (r: Registers)
        ensures
            r == (Registers {
                r_micro_command_counter: 0u8,
                r_status: 0u16,
                r_micro_command: 0u16,
                r_buffer: 0u32,
                r_address: 0u16,
                r_command: 0u16,
                r_data: 0u16,
                r_command_counter: 0u16,
                r_counter: 0u16,
            }),
    {
        Registers {
            r_micro_command_counter: 0,
            r_status: 0,
            r_micro_command: 0,
            r_buffer: 0,
            r_address: 0,
            r_command: 0,
            r_data: 0,
            r_command_counter: 0,
            r_counter: 0,
        }
    }

    fn write_flag(&mut self, mask: u16, v: bool)
        ensures
            *final(self) == old(self).with_status(spec_set_flag(old(self).r_status, mask, v)),
    {
        if v {
            self.r_status = self.r_status | mask;
        } else {
            self.r_status = self.r_status & !mask;
        }
    }

    pub fn set_overflow(&mut self, v: bool)
        ensures
            *final(self) == old(self).with_status(spec_set_flag(old(self).r_status, FLAG_CARRY, v)),
    {
        self.write_flag(FLAG_CARRY, v);
    }

    pub fn get_overflow(&self) -> (r: bool)
        ensures
            r == spec_get_flag(self.r_status, FLAG_CARRY),
    {
        self.r_status & FLAG_CARRY != 0
    }

    pub fn set_null(&mut self, v: bool)
        ensures
            *final(self) == old(self).with_status(spec_set_flag(old(self).r_status, FLAG_ZERO, v)),
    {
        self.write_flag(FLAG_ZERO, v);
    }

    pub fn get_null(&self) -> (r: bool)
        ensures
            r == spec_get_flag(self.r_status, FLAG_ZERO),
    {
        self.r_status & FLAG_ZERO != 0
    }

    pub fn set_negative(&mut self, v: bool)
        ensures
            *final(self) == old(self).with_status(
                spec_set_flag(old(self).r_status, FLAG_NEGATIVE, v),
            ),
    {
        self.write_flag(FLAG_NEGATIVE, v);
    }

    pub fn get_negative(&self) -> (r: bool)
        ensures
            r == spec_get_flag(self.r_status, FLAG_NEGATIVE),
    {
        self.r_status & FLAG_NEGATIVE != 0
    }

    pub fn set_allow_interrupt(&mut self, v: bool)
        ensures
            *final(self) == old(self).with_status(
                spec_set_flag(old(self).r_status, FLAG_INTERRUPT, v),
            ),
    {
        self.write_flag(FLAG_INTERRUPT, v);
    }

    pub fn get_allow_interupt(&self) -> (r: bool)
        ensures
            r == spec_get_flag(self.r_status, FLAG_INTERRUPT),
    {
        self.r_status & FLAG_INTERRUPT != 0
    }

    pub fn set_execute_by_tick(&mut self, v: bool)
        ensures
            *final(self) == old(self).with_status(
                spec_set_flag(old(self).r_status, FLAG_EXECUTE_BY_TICK, v),
            ),
    {
        self.write_flag(FLAG_EXECUTE_BY_TICK, v);
    }

    pub fn get_execute_by_tick(&self) -> (r: bool)
        ensures
            r == spec_get_flag(self.r_status, FLAG_EXECUTE_BY_TICK),
    {
        self.r_status & FLAG_EXECUTE_BY_TICK != 0
    }

    pub fn set_lever(&mut self, v: bool)
        ensures
            *final(self) == old(self).with_status(spec_set_flag(old(self).r_status, FLAG_LEVER, v)),
    {
        self.write_flag(FLAG_LEVER, v);
    }

    pub fn get_lever(&self) -> (r: bool)
        ensures
            r == spec_get_flag(self.r_status, FLAG_LEVER),
    {
        self.r_status & FLAG_LEVER != 0
    }

    pub fn set_program_mode(&mut self, v: bool)
        ensures
            *final(self) == old(self).with_status(
                spec_set_flag(old(self).r_status, FLAG_PROGRAM_MODE, v),
            ),
    {
        self.write_flag(FLAG_PROGRAM_MODE, v);
    }

    pub fn get_program_mode(&self) -> (r: bool)
        ensures
            r == spec_get_flag(self.r_status, FLAG_PROGRAM_MODE),
    {
        self.r_status & FLAG_PROGRAM_MODE != 0
    }
}

/// A flag write disturbs no other bit of the status word: after setting
/// the overflow flag and then clearing the negative flag, the zero and
/// interrupt-enable flags still read as they did at the start, whatever
/// the initial status word was.
pub proof fn lemma_flag_writes_are_independent(status: u16)
    ensures
        spec_get_flag(
            spec_set_flag(spec_set_flag(status, FLAG_CARRY, true), FLAG_NEGATIVE, false),
            FLAG_ZERO,
        ) == spec_get_flag(status, FLAG_ZERO),
        spec_get_flag(
            spec_set_flag(spec_set_flag(status, FLAG_CARRY, true), FLAG_NEGATIVE, false),
            FLAG_INTERRUPT,
        ) == spec_get_flag(status, FLAG_INTERRUPT),
{
    assert(((status | 0x1u16) & !0x4u16) & 0x2u16 == status & 0x2u16) by (bit_vector);
    assert(((status | 0x1u16) & !0x4u16) & 0x10u16 == status & 0x10u16) by (bit_vector);
}

} // verus!
