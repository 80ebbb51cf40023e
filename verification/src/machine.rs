//! The machine: register file, the two memory banks and the device
//! bank, an append-only execution log, and the stepping contract. The
//! whole behaviour of a micro-step is a mathematical function on the
//! machine state; every stepping granularity is derived from that one
//! function.

use vstd::prelude::*;
use crate::general::{CommandParser, GeneralCommandInfo};
use crate::memory::{fresh_cell, Memory};
use crate::micro::{ExecutionResult, MicroCommandInfo, MicroParser};
use crate::parse::Parser;
use crate::registers::{
    Registers, FLAG_CARRY, FLAG_DEVICE_READY, FLAG_NEGATIVE, FLAG_ZERO,
};

verus! {

/// Cells of the general (macro) address space: 11-bit addressing.
pub const GENERAL_MEMORY_SIZE: usize = 2048;
/// Cells of the microcode control store: 8-bit addressing.
pub const MICRO_MEMORY_SIZE: usize = 256;
/// Addressable devices: 4-bit device numbers.
pub const DEVICE_COUNT: usize = 16;

/// One attached device: a data register and a ready flag.
#[derive(Clone, Copy, PartialEq, Eq, Structural, Debug)]
pub struct Device {
    /// The device's data register.
    pub data: u16,
    /// Whether the device reports itself ready.
    pub ready: bool,
}

/// One diagnostic record: where the machine stood and a free-form note.
pub struct LogEntry {
    /// The command counter at the time of the note.
    pub command_counter: u16,
    /// The micro-program counter at the time of the note.
    pub micro_counter: u8,
    /// Whether the note concerns the micro level.
    pub micro_command: bool,
    /// The note itself.
    pub info: String,
}

/// The machine state that stepping reads and writes: the registers,
/// the words of both memory banks, and the devices. Cell timestamps,
/// annotations and the log stand outside it.
#[verifier::ext_equal]
pub struct MachineState {
    /// The register file.
    pub regs: Registers,
    /// The words of the general memory bank.
    pub gen: Seq<u16>,
    /// The words of the microcode control store.
    pub mc: Seq<u16>,
    /// The devices.
    pub devs: Seq<Device>,
}

impl MachineState {
    /// The banks have their fixed sizes.
    pub open spec fn wf(self) -> bool {
        &&& self.gen.len() == GENERAL_MEMORY_SIZE
        &&& self.mc.len() == MICRO_MEMORY_SIZE
        &&& self.devs.len() == DEVICE_COUNT
    }
}

/// The value a micro-operation's register selector reads.
pub open spec fn sel_read(r: Registers, sel: u16) -> u16 {
    if sel == 0 {
        r.r_counter
    } else if sel == 1 {
        r.r_data
    } else if sel == 2 {
        r.r_command
    } else if sel == 3 {
        r.r_command_counter
    } else if sel == 4 {
        r.r_address
    } else if sel == 5 {
        r.r_status
    } else if sel == 6 {
        (r.r_buffer & 0xFFFF) as u16
    } else {
        0u16
    }
}

/// The register file after a micro-operation's register selector
/// writes `v`; a command-counter write masks to 11 bits, a buffer
/// write zero-extends, an invalid selector writes nowhere.
pub open spec fn sel_write(r: Registers, sel: u16, v: u16) -> Registers {
    if sel == 0 {
        Registers { r_counter: v, ..r }
    } else if sel == 1 {
        Registers { r_data: v, ..r }
    } else if sel == 2 {
        Registers { r_command: v, ..r }
    } else if sel == 3 {
        Registers { r_command_counter: v & 0x7FF, ..r }
    } else if sel == 4 {
        Registers { r_address: v, ..r }
    } else if sel == 5 {
        Registers { r_status: v, ..r }
    } else if sel == 6 {
        Registers { r_buffer: v as u32, ..r }
    } else {
        r
    }
}

/// The status word with the zero and negative flags set from `res`.
pub open spec fn status_with_nz(st: u16, res: u16) -> u16 {
    let st1: u16 = if res == 0 {
        st | FLAG_ZERO
    } else {
        st & !FLAG_ZERO
    };
    if res & 0x8000 != 0 {
        st1 | FLAG_NEGATIVE
    } else {
        st1 & !FLAG_NEGATIVE
    }
}

/// The status word with the carry flag forced to `c`.
pub open spec fn status_with_carry(st: u16, c: bool) -> u16 {
    if c {
        st | FLAG_CARRY
    } else {
        st & !FLAG_CARRY
    }
}

/// Whether a micro-jump condition holds of the status word.
pub open spec fn jump_taken(cond: u16, st: u16) -> bool {
    ||| cond == 0
    ||| (cond == 1 && st & FLAG_CARRY != 0)
    ||| (cond == 2 && st & FLAG_CARRY == 0)
    ||| (cond == 3 && st & FLAG_ZERO != 0)
    ||| (cond == 4 && st & FLAG_ZERO == 0)
    ||| (cond == 5 && st & FLAG_NEGATIVE != 0)
    ||| (cond == 6 && st & FLAG_NEGATIVE == 0)
}

/// The effect of executing the already-fetched control-store word `w`
/// on state `s`: the next state and the reported outcome. The field
/// layout is the fixed table documented with the microcode codec.
pub open spec fn spec_micro_effect(s: MachineState, w: u16) -> (MachineState, ExecutionResult) {
    let cls = w >> 12;
    if cls == 0 {
        let dst = (w >> 8) & 0xF;
        let src = (w >> 4) & 0xF;
        (
            MachineState { regs: sel_write(s.regs, dst, sel_read(s.regs, src)), ..s },
            ExecutionResult::Continued,
        )
    } else if cls == 1 || cls == 2 {
        let src = (w >> 4) & 0xF;
        let operand: u16 = if cls == 1 {
            sel_read(s.regs, src)
        } else {
            !sel_read(s.regs, src)
        };
        let cin: u32 = if w & 1 == 1 {
            if s.regs.r_status & FLAG_CARRY != 0 {
                1
            } else {
                0
            }
        } else {
            if cls == 2 {
                1
            } else {
                0
            }
        };
        let sum: u32 = (s.regs.r_counter as u32 + operand as u32 + cin) as u32;
        let res: u16 = (sum & 0xFFFF) as u16;
        let st = status_with_carry(status_with_nz(s.regs.r_status, res), sum >> 16 != 0);
        (
            MachineState {
                regs: Registers {
                    r_counter: res,
                    r_buffer: (sum & 0x1FFFF) as u32,
                    r_status: st,
                    ..s.regs
                },
                ..s
            },
            ExecutionResult::Continued,
        )
    } else if cls == 3 {
        let src = (w >> 4) & 0xF;
        let res = s.regs.r_counter & sel_read(s.regs, src);
        (
            MachineState {
                regs: Registers {
                    r_counter: res,
                    r_status: status_with_nz(s.regs.r_status, res),
                    ..s.regs
                },
                ..s
            },
            ExecutionResult::Continued,
        )
    } else if cls == 4 {
        let cin: u16 = if s.regs.r_status & FLAG_CARRY != 0 {
            1
        } else {
            0
        };
        let res = (s.regs.r_counter << 1) | cin;
        let st = status_with_carry(
            status_with_nz(s.regs.r_status, res),
            s.regs.r_counter & 0x8000 != 0,
        );
        (
            MachineState { regs: Registers { r_counter: res, r_status: st, ..s.regs }, ..s },
            ExecutionResult::Continued,
        )
    } else if cls == 5 {
        let cin: u16 = if s.regs.r_status & FLAG_CARRY != 0 {
            0x8000
        } else {
            0
        };
        let res = (s.regs.r_counter >> 1) | cin;
        let st = status_with_carry(status_with_nz(s.regs.r_status, res), s.regs.r_counter & 1 != 0);
        (
            MachineState { regs: Registers { r_counter: res, r_status: st, ..s.regs }, ..s },
            ExecutionResult::Continued,
        )
    } else if cls == 6 || cls == 7 {
        let dst = (w >> 8) & 0xF;
        let cur = sel_read(s.regs, dst);
        let res: u16 = if cls == 6 {
            if cur == 0xFFFF {
                0u16
            } else {
                (cur + 1) as u16
            }
        } else {
            if cur == 0 {
                0xFFFFu16
            } else {
                (cur - 1) as u16
            }
        };
        (
            MachineState { regs: sel_write(s.regs, dst, res), ..s },
            ExecutionResult::Continued,
        )
    } else if cls == 8 {
        let cond = (w >> 8) & 0xF;
        if jump_taken(cond, s.regs.r_status) {
            (
                MachineState {
                    regs: Registers { r_micro_command_counter: (w & 0xFF) as u8, ..s.regs },
                    ..s
                },
                ExecutionResult::Jumped,
            )
        } else {
            (s, ExecutionResult::Continued)
        }
    } else if cls == 9 {
        let addr = (s.regs.r_address & 0x7FF) as int;
        (
            MachineState { regs: Registers { r_data: s.gen[addr], ..s.regs }, ..s },
            ExecutionResult::Continued,
        )
    } else if cls == 10 {
        let addr = (s.regs.r_address & 0x7FF) as int;
        (
            MachineState { gen: s.gen.update(addr, s.regs.r_data), ..s },
            ExecutionResult::Continued,
        )
    } else if cls == 11 {
        let sub = (w >> 8) & 0x3;
        let d = (w & 0xF) as int;
        if sub == 0 {
            (
                MachineState { devs: s.devs.update(d, Device { ready: false, ..s.devs[d] }), ..s },
                ExecutionResult::Continued,
            )
        } else if sub == 1 {
            let st: u16 = if s.devs[d].ready {
                s.regs.r_status | FLAG_DEVICE_READY
            } else {
                s.regs.r_status & !FLAG_DEVICE_READY
            };
            (
                MachineState { regs: Registers { r_status: st, ..s.regs }, ..s },
                ExecutionResult::Continued,
            )
        } else if sub == 2 {
            let res = (s.regs.r_counter & 0xFF00) | (s.devs[d].data & 0xFF);
            (
                MachineState { regs: Registers { r_counter: res, ..s.regs }, ..s },
                ExecutionResult::Continued,
            )
        } else {
            (
                MachineState {
                    devs: s.devs.update(d, Device { data: s.regs.r_counter, ..s.devs[d] }),
                    ..s
                },
                ExecutionResult::Continued,
            )
        }
    } else if cls == 14 {
        (s, ExecutionResult::Cycle)
    } else if cls == 15 {
        (s, ExecutionResult::Halted)
    } else {
        (s, ExecutionResult::Continued)
    }
}

/// One whole micro-step: fetch the word the micro-program counter
/// addresses into the micro-instruction register, execute its effect,
/// and auto-increment the micro-program counter (wrapping at 8 bits)
/// unless the operation was a taken jump.
pub open spec fn spec_step(s: MachineState) -> (MachineState, ExecutionResult) {
    let w = s.mc[s.regs.r_micro_command_counter as int];
    let s1 = MachineState { regs: Registers { r_micro_command: w, ..s.regs }, ..s };
    let (s2, res) = spec_micro_effect(s1, w);
    if res is Jumped {
        (s2, res)
    } else {
        let mcc = s2.regs.r_micro_command_counter;
        let nm: u8 = if mcc == 255 {
            0u8
        } else {
            (mcc + 1) as u8
        };
        (
            MachineState { regs: Registers { r_micro_command_counter: nm, ..s2.regs }, ..s2 },
            res,
        )
    }
}

/// The state after one micro-step.
pub open spec fn spec_step_state(s: MachineState) -> MachineState {
    spec_step(s).0
}

/// The outcome of one micro-step.
pub open spec fn spec_step_outcome(s: MachineState) -> ExecutionResult {
    spec_step(s).1
}

/// The state after `k` micro-steps.
pub open spec fn spec_steps(s: MachineState, k: nat) -> MachineState
    decreases k,
{
    if k == 0 {
        s
    } else {
        spec_step_state(spec_steps(s, (k - 1) as nat))
    }
}

/// The masked address fields fit their banks.
proof fn lemma_mask_bounds(x: u16)
    by (bit_vector)
    ensures
        x & 0x7FF < 2048,
        x & 0xFF < 256,
        x & 0xF < 16,
{
}

/// A micro-operation's effect keeps the banks at their fixed sizes.
#[verifier::rlimit(60)]
proof fn lemma_effect_preserves_wf(s: MachineState, w: u16)
    requires
        s.wf(),
    ensures
        spec_micro_effect(s, w).0.wf(),
{
    lemma_mask_bounds(s.regs.r_address);
    lemma_mask_bounds(w);
}

/// A micro-step keeps the banks at their fixed sizes.
pub proof fn lemma_step_preserves_wf(s: MachineState)
    requires
        s.wf(),
    ensures
        spec_step_state(s).wf(),
{
    let w = s.mc[s.regs.r_micro_command_counter as int];
    let s1 = MachineState { regs: Registers { r_micro_command: w, ..s.regs }, ..s };
    lemma_effect_preserves_wf(s1, w);
}

/// Advancing by zero extra micro-steps is exactly one micro-step: the
/// state after it is the single-step state, and the outcome returned
/// is the single-step outcome.
pub proof fn lemma_step_n_zero_is_step_one(s: MachineState)
    ensures
        spec_steps(s, 1) == spec_step_state(s),
        spec_step_outcome(spec_steps(s, 0)) == spec_step_outcome(s),
{
}

/// The six uniformly-addressable 16-bit registers, as exposed to debug
/// and tooling. The micro-program counter and the buffer register are
/// deliberately absent: their widths differ from the uniform set and
/// only the microcode engine mutates them.
#[derive(Clone, Copy, PartialEq, Eq, Structural, Debug)]
pub enum Register {
    /// The status word.
    Status,
    /// The micro-instruction register.
    MicroCommand,
    /// The address register.
    Address,
    /// The command register.
    Command,
    /// The data register.
    Data,
    /// The command counter; writes are masked to 11 bits.
    CommandCounter,
    /// The accumulator.
    Counter,
}

/// The value a user-settable register reads.
pub open spec fn spec_register_read(r: Registers, reg: Register) -> u16 {
    match reg {
        Register::Status => r.r_status,
        Register::MicroCommand => r.r_micro_command,
        Register::Address => r.r_address,
        Register::Command => r.r_command,
        Register::Data => r.r_data,
        Register::CommandCounter => r.r_command_counter,
        Register::Counter => r.r_counter,
    }
}

/// The register file after a user-settable register is written; the
/// command counter masks every write to 11 bits, silently wrapping the
/// macro address space.
pub open spec fn spec_register_write(r: Registers, reg: Register, v: u16) -> Registers {
    match reg {
        Register::Status => Registers { r_status: v, ..r },
        Register::MicroCommand => Registers { r_micro_command: v, ..r },
        Register::Address => Registers { r_address: v, ..r },
        Register::Command => Registers { r_command: v, ..r },
        Register::Data => Registers { r_data: v, ..r },
        Register::CommandCounter => Registers { r_command_counter: v & 0x7FF, ..r },
        Register::Counter => Registers { r_counter: v, ..r },
    }
}

/// The display name of a user-settable register.
pub open spec fn spec_register_mnemonic(reg: Register) -> Seq<char> {
    match reg {
        Register::Status => "РС"@,
        Register::MicroCommand => "РМК"@,
        Register::Address => "РА"@,
        Register::Command => "РК"@,
        Register::Data => "РД"@,
        Register::CommandCounter => "СК"@,
        Register::Counter => "А"@,
    }
}

impl Register {
    /// The display name of the register.
    pub fn mnemonic(&self) -> (r: String)
        ensures
            r@ == spec_register_mnemonic(*self),
    {
        match self {
            Register::Status => "РС".to_owned(),
            Register::MicroCommand => "РМК".to_owned(),
            Register::Address => "РА".to_owned(),
            Register::Command => "РК".to_owned(),
            Register::Data => "РД".to_owned(),
            Register::CommandCounter => "СК".to_owned(),
            Register::Counter => "А".to_owned(),
        }
    }

    /// Writes the register in `computer`; a command-counter write is
    /// masked to 11 bits, and nothing else of the machine moves.
    pub fn set(&self, computer: &mut Computer, data: u16)
        ensures
            final(computer).registers == spec_register_write(
                old(computer).registers,
                *self,
                data,
            ),
            final(computer).general_memory == old(computer).general_memory,
            final(computer).mc_memory == old(computer).mc_memory,
            final(computer).spec_devices() == old(computer).spec_devices(),
            final(computer).spec_logs() == old(computer).spec_logs(),
    {
        match self {
            Register::Status => computer.registers.r_status = data,
            Register::MicroCommand => computer.registers.r_micro_command = data,
            Register::Address => computer.registers.r_address = data,
            Register::Command => computer.registers.r_command = data,
            Register::Data => computer.registers.r_data = data,
            Register::CommandCounter => computer.registers.r_command_counter = data & 0x7FF,
            Register::Counter => computer.registers.r_counter = data,
        }
    }

    /// Reads the register from `computer`.
    pub fn get(&self, computer: &Computer) -> (r: u16)
        ensures
            r == spec_register_read(computer.registers, *self),
    {
        match self {
            Register::Status => computer.registers.r_status,
            Register::MicroCommand => computer.registers.r_micro_command,
            Register::Address => computer.registers.r_address,
            Register::Command => computer.registers.r_command,
            Register::Data => computer.registers.r_data,
            Register::CommandCounter => computer.registers.r_command_counter,
            Register::Counter => computer.registers.r_counter,
        }
    }
}

/// The machine: registers, the two banks, the devices, and the log.
pub struct Computer {
    /// The register file.
    pub registers: Registers,
    /// The general (macro) memory bank, rendered by the macro codec.
    pub general_memory: Memory<CommandParser>,
    /// The microcode control store, rendered by the microcode codec.
    pub mc_memory: Memory<MicroParser>,
    /// The devices, by device number.
    pub devices: Vec<Device>,
    /// The diagnostic log; append-only, owned by the machine.
    pub logs: Vec<LogEntry>,
}

impl View for Computer {
    type V = MachineState;

    open spec fn view(&self) -> MachineState {
        MachineState {
            regs: self.registers,
            gen: self.general_memory@,
            mc: self.mc_memory@,
            devs: self.devices@,
        }
    }
}

impl Computer {
    /// The diagnostic log, oldest entry first.
    pub open spec fn spec_logs(&self) -> Seq<LogEntry> {
        self.logs@
    }

    /// The devices, by device number.
    pub open spec fn spec_devices(&self) -> Seq<Device> {
        self.devices@
    }

    /// The banks have their fixed sizes and the codecs their tables.
    pub open spec fn wf(&self) -> bool {
        &&& self@.wf()
        &&& <CommandParser as Parser<GeneralCommandInfo>>::wf(&self.general_memory.spec_parser())
        &&& <MicroParser as Parser<MicroCommandInfo>>::wf(&self.mc_memory.spec_parser())
    }

    /// A fresh machine: all registers zero, both banks zeroed with
    /// fresh cells (epoch timestamp, no annotations), every device
    /// idle, the log empty.
    pub fn new() -> (r: Computer)
        ensures
            r.wf(),
            forall|i: int|
                0 <= i < GENERAL_MEMORY_SIZE ==> fresh_cell(
                    #[trigger] r.general_memory.spec_cells()[i],
                ),
            forall|i: int|
                0 <= i < MICRO_MEMORY_SIZE ==> fresh_cell(#[trigger] r.mc_memory.spec_cells()[i]),
            r@.regs == (Registers {
                r_micro_command_counter: 0u8,
                r_status: 0u16,
                r_micro_command: 0u16,
                r_buffer: 0u32,
                r_address: 0u16,
                r_command: 0u16,
                r_data: 0u16,
                r_command_counter: 0u16,
                r_counter: 0u16,
            }),
            forall|i: int| 0 <= i < GENERAL_MEMORY_SIZE ==> r@.gen[i] == 0u16,
            forall|i: int| 0 <= i < MICRO_MEMORY_SIZE ==> r@.mc[i] == 0u16,
            forall|i: int|
                0 <= i < DEVICE_COUNT ==> r@.devs[i] == (Device { data: 0u16, ready: false }),
            r.spec_logs().len() == 0,
    {
        let mut devices: Vec<Device> = Vec::new();
        let mut i: usize = 0;
        while i < DEVICE_COUNT
            invariant
                i <= DEVICE_COUNT,
                devices@.len() == i,
                forall|j: int|
                    0 <= j < i ==> devices@[j] == (Device { data: 0u16, ready: false }),
            decreases DEVICE_COUNT - i,
        {
            devices.push(Device { data: 0, ready: false });
            i = i + 1;
        }
        Computer {
            registers: Registers::new(),
            general_memory: Memory::new_bank(CommandParser::new(), GENERAL_MEMORY_SIZE),
            mc_memory: Memory::new_bank(MicroParser::new(), MICRO_MEMORY_SIZE),
            devices,
            logs: Vec::new(),
        }
    }

    /// Appends one diagnostic note, stamped with where the machine
    /// stands; the log is append-only and nothing else moves.
    pub fn log(&mut self, micro_command: bool, info: String)
        ensures
            final(self).registers == old(self).registers,
            final(self).general_memory == old(self).general_memory,
            final(self).mc_memory == old(self).mc_memory,
            final(self).spec_devices() == old(self).spec_devices(),
            final(self)@ == old(self)@,
            final(self).spec_logs() =~= old(self).spec_logs().push(
                LogEntry {
                    command_counter: old(self).registers.r_command_counter,
                    micro_counter: old(self).registers.r_micro_command_counter,
                    micro_command,
                    info,
                },
            ),
    {
        let entry = LogEntry {
            command_counter: self.registers.r_command_counter,
            micro_counter: self.registers.r_micro_command_counter,
            micro_command,
            info,
        };
        self.logs.push(entry);
    }

    /// The whole log, oldest entry first.
    pub fn logs(&self) -> (r: &Vec<LogEntry>)
        ensures
            r@ == self.spec_logs(),
    {
        &self.logs
    }

    /// The device with number `d`.
    pub fn device(&self, d: usize) -> (r: Device)
        requires
            self.wf(),
            d < DEVICE_COUNT,
        ensures
            r == self@.devs[d as int],
    {
        self.devices[d]
    }

    /// Replaces the device with number `d`; nothing else moves.
    pub fn set_device(&mut self, d: usize, dev: Device)
        requires
            old(self).wf(),
            d < DEVICE_COUNT,
        ensures
            final(self).wf(),
            final(self)@ =~= (MachineState { devs: old(self)@.devs.update(d as int, dev), ..old(self)@ }),
            final(self).registers == old(self).registers,
            final(self).general_memory == old(self).general_memory,
            final(self).mc_memory == old(self).mc_memory,
            final(self).spec_logs() == old(self).spec_logs(),
    {
        self.devices[d] = dev;
    }

    fn read_sel(&self, sel: u16) -> (r: u16)
        ensures
            r == sel_read(self.registers, sel),
    {
        if sel == 0 {
            self.registers.r_counter
        } else if sel == 1 {
            self.registers.r_data
        } else if sel == 2 {
            self.registers.r_command
        } else if sel == 3 {
            self.registers.r_command_counter
        } else if sel == 4 {
            self.registers.r_address
        } else if sel == 5 {
            self.registers.r_status
        } else if sel == 6 {
            proof {
                let b = self.registers.r_buffer;
                assert(b & 0xFFFF <= 0xFFFF) by (bit_vector);
            }
            (self.registers.r_buffer & 0xFFFF) as u16
        } else {
            0
        }
    }

    fn write_sel(&mut self, sel: u16, v: u16)
        ensures
            final(self).registers == sel_write(old(self).registers, sel, v),
            final(self).general_memory == old(self).general_memory,
            final(self).mc_memory == old(self).mc_memory,
            final(self).spec_devices() == old(self).spec_devices(),
            final(self).spec_logs() == old(self).spec_logs(),
    {
        if sel == 0 {
            self.registers.r_counter = v;
        } else if sel == 1 {
            self.registers.r_data = v;
        } else if sel == 2 {
            self.registers.r_command = v;
        } else if sel == 3 {
            self.registers.r_command_counter = v & 0x7FF;
        } else if sel == 4 {
            self.registers.r_address = v;
        } else if sel == 5 {
            self.registers.r_status = v;
        } else if sel == 6 {
            self.registers.r_buffer = v as u32;
        }
    }

    /// Executes the effect of the already-fetched word `w`.
    fn apply_effect(&mut self, w: u16) -> (r: ExecutionResult)
        requires
            old(self).wf(),
        ensures
            final(self)@ == spec_micro_effect(old(self)@, w).0,
            r == spec_micro_effect(old(self)@, w).1,
            final(self).general_memory.spec_parser() == old(self).general_memory.spec_parser(),
            final(self).mc_memory.spec_parser() == old(self).mc_memory.spec_parser(),
            final(self).spec_logs() == old(self).spec_logs(),
    {
        let ghost s = self@;
        proof {
            lemma_mask_bounds(self.registers.r_address);
            lemma_mask_bounds(w);
        }
        let cls = w >> 12;
        if cls == 0 {
            let v = self.read_sel((w >> 4) & 0xF);
            self.write_sel((w >> 8) & 0xF, v);
            proof {
                assert(self@ =~= spec_micro_effect(s, w).0);
            }
            ExecutionResult::Continued
        } else if cls == 1 || cls == 2 {
            let srcv = self.read_sel((w >> 4) & 0xF);
            let operand: u16 = if cls == 1 {
                srcv
            } else {
                !srcv
            };
            let cin: u32 = if w & 1 == 1 {
                if self.registers.r_status & FLAG_CARRY != 0 {
                    1
                } else {
                    0
                }
            } else {
                if cls == 2 {
                    1
                } else {
                    0
                }
            };
            let sum: u32 = self.registers.r_counter as u32 + operand as u32 + cin;
            proof {
                assert(sum & 0xFFFF <= 0xFFFF && sum & 0x1FFFF <= 0x1FFFF) by (bit_vector);
            }
            let res: u16 = (sum & 0xFFFF) as u16;
            let mut st = self.registers.r_status;
            st = if res == 0 {
                st | FLAG_ZERO
            } else {
                st & !FLAG_ZERO
            };
            st = if res & 0x8000 != 0 {
                st | FLAG_NEGATIVE
            } else {
                st & !FLAG_NEGATIVE
            };
            st = if sum >> 16 != 0 {
                st | FLAG_CARRY
            } else {
                st & !FLAG_CARRY
            };
            self.registers.r_counter = res;
            self.registers.r_buffer = sum & 0x1FFFF;
            self.registers.r_status = st;
            proof {
                assert(self@ =~= spec_micro_effect(s, w).0);
            }
            ExecutionResult::Continued
        } else if cls == 3 {
            let srcv = self.read_sel((w >> 4) & 0xF);
            let res = self.registers.r_counter & srcv;
            let mut st = self.registers.r_status;
            st = if res == 0 {
                st | FLAG_ZERO
            } else {
                st & !FLAG_ZERO
            };
            st = if res & 0x8000 != 0 {
                st | FLAG_NEGATIVE
            } else {
                st & !FLAG_NEGATIVE
            };
            self.registers.r_counter = res;
            self.registers.r_status = st;
            proof {
                assert(self@ =~= spec_micro_effect(s, w).0);
            }
            ExecutionResult::Continued
        } else if cls == 4 {
            let cin: u16 = if self.registers.r_status & FLAG_CARRY != 0 {
                1
            } else {
                0
            };
            let cout = self.registers.r_counter & 0x8000 != 0;
            let res = (self.registers.r_counter << 1) | cin;
            let mut st = self.registers.r_status;
            st = if res == 0 {
                st | FLAG_ZERO
            } else {
                st & !FLAG_ZERO
            };
            st = if res & 0x8000 != 0 {
                st | FLAG_NEGATIVE
            } else {
                st & !FLAG_NEGATIVE
            };
            st = if cout {
                st | FLAG_CARRY
            } else {
                st & !FLAG_CARRY
            };
            self.registers.r_counter = res;
            self.registers.r_status = st;
            proof {
                assert(self@ =~= spec_micro_effect(s, w).0);
            }
            ExecutionResult::Continued
        } else if cls == 5 {
            let cin: u16 = if self.registers.r_status & FLAG_CARRY != 0 {
                0x8000
            } else {
                0
            };
            let cout = self.registers.r_counter & 1 != 0;
            let res = (self.registers.r_counter >> 1) | cin;
            let mut st = self.registers.r_status;
            st = if res == 0 {
                st | FLAG_ZERO
            } else {
                st & !FLAG_ZERO
            };
            st = if res & 0x8000 != 0 {
                st | FLAG_NEGATIVE
            } else {
                st & !FLAG_NEGATIVE
            };
            st = if cout {
                st | FLAG_CARRY
            } else {
                st & !FLAG_CARRY
            };
            self.registers.r_counter = res;
            self.registers.r_status = st;
            proof {
                assert(self@ =~= spec_micro_effect(s, w).0);
            }
            ExecutionResult::Continued
        } else if cls == 6 || cls == 7 {
            let dst = (w >> 8) & 0xF;
            let cur = self.read_sel(dst);
            let res: u16 = if cls == 6 {
                if cur == 0xFFFF {
                    0
                } else {
                    cur + 1
                }
            } else {
                if cur == 0 {
                    0xFFFF
                } else {
                    cur - 1
                }
            };
            self.write_sel(dst, res);
            proof {
                assert(self@ =~= spec_micro_effect(s, w).0);
            }
            ExecutionResult::Continued
        } else if cls == 8 {
            let cond = (w >> 8) & 0xF;
            let c = self.registers.r_status & FLAG_CARRY != 0;
            let z = self.registers.r_status & FLAG_ZERO != 0;
            let n = self.registers.r_status & FLAG_NEGATIVE != 0;
            let taken = cond == 0 || (cond == 1 && c) || (cond == 2 && !c) || (cond == 3 && z) || (
            cond == 4 && !z) || (cond == 5 && n) || (cond == 6 && !n);
            if taken {
                self.registers.r_micro_command_counter = (w & 0xFF) as u8;
                proof {
                    assert(self@ =~= spec_micro_effect(s, w).0);
                }
                ExecutionResult::Jumped
            } else {
                proof {
                    assert(self@ =~= spec_micro_effect(s, w).0);
                }
                ExecutionResult::Continued
            }
        } else if cls == 9 {
            let addr = (self.registers.r_address & 0x7FF) as usize;
            let val = self.general_memory.get(addr);
            self.registers.r_data = val;
            proof {
                assert(self@ =~= spec_micro_effect(s, w).0);
            }
            ExecutionResult::Continued
        } else if cls == 10 {
            let addr = (self.registers.r_address & 0x7FF) as usize;
            let val = self.registers.r_data;
            self.general_memory.set(addr, val);
            proof {
                assert(self@ =~= spec_micro_effect(s, w).0);
            }
            ExecutionResult::Continued
        } else if cls == 11 {
            let sub = (w >> 8) & 0x3;
            let d = (w & 0xF) as usize;
            if sub == 0 {
                let cur = self.devices[d];
                self.devices[d] = Device { data: cur.data, ready: false };
                proof {
                    assert(self@ =~= spec_micro_effect(s, w).0);
                }
                ExecutionResult::Continued
            } else if sub == 1 {
                let ready = self.devices[d].ready;
                self.registers.r_status = if ready {
                    self.registers.r_status | FLAG_DEVICE_READY
                } else {
                    self.registers.r_status & !FLAG_DEVICE_READY
                };
                proof {
                    assert(self@ =~= spec_micro_effect(s, w).0);
                }
                ExecutionResult::Continued
            } else if sub == 2 {
                let dv = self.devices[d].data;
                self.registers.r_counter = (self.registers.r_counter & 0xFF00) | (dv & 0xFF);
                proof {
                    assert(self@ =~= spec_micro_effect(s, w).0);
                }
                ExecutionResult::Continued
            } else {
                let cur = self.devices[d];
                self.devices[d] = Device { data: self.registers.r_counter, ready: cur.ready };
                proof {
                    assert(self@ =~= spec_micro_effect(s, w).0);
                }
                ExecutionResult::Continued
            }
        } else if cls == 14 {
            proof {
                assert(self@ =~= spec_micro_effect(s, w).0);
            }
            ExecutionResult::Cycle
        } else if cls == 15 {
            proof {
                assert(self@ =~= spec_micro_effect(s, w).0);
            }
            ExecutionResult::Halted
        } else {
            proof {
                assert(self@ =~= spec_micro_effect(s, w).0);
            }
            ExecutionResult::Continued
        }
    }

    /// Advances the machine by exactly one micro-step: fetches the word
    /// the micro-program counter addresses, executes it, and
    /// auto-increments the micro-program counter unless the operation
    /// was a taken jump. The new machine state and the outcome are
    /// exactly what the step function of the model gives.
    pub fn micro_step(&mut self) -> (r: ExecutionResult)
        requires
            old(self).wf(),
        ensures
            final(self).wf(),
            final(self)@ == spec_step_state(old(self)@),
            r == spec_step_outcome(old(self)@),
            final(self).general_memory.spec_parser() == old(self).general_memory.spec_parser(),
            final(self).mc_memory.spec_parser() == old(self).mc_memory.spec_parser(),
            final(self).spec_logs() == old(self).spec_logs(),
    {
        let ghost s0 = self@;
        let pos = self.registers.r_micro_command_counter;
        let w = self.mc_memory.get(pos as usize);
        self.registers.r_micro_command = w;
        let ghost s1 = self@;
        proof {
            assert(s1 =~= (MachineState { regs: Registers { r_micro_command: w, ..s0.regs }, ..s0 }));
        }
        let result = self.apply_effect(w);
        if !matches!(result, ExecutionResult::Jumped) {
            let mcc = self.registers.r_micro_command_counter;
            self.registers.r_micro_command_counter = if mcc == 255 {
                0
            } else {
                mcc + 1
            };
        }
        proof {
            lemma_step_preserves_wf(s0);
            assert(self@ =~= spec_step_state(s0));
        }
        result
    }

    /// `step_one` is the stepping primitive under its interface name:
    /// one micro-step, as `micro_step` performs it.
    pub fn step_one(&mut self) -> (r: ExecutionResult)
        requires
            old(self).wf(),
        ensures
            final(self).wf(),
            final(self)@ == spec_step_state(old(self)@),
            r == spec_step_outcome(old(self)@),
            final(self).general_memory.spec_parser() == old(self).general_memory.spec_parser(),
            final(self).mc_memory.spec_parser() == old(self).mc_memory.spec_parser(),
            final(self).spec_logs() == old(self).spec_logs(),
    {
        self.micro_step()
    }

    /// Advances by `n + 1` micro-steps and returns the last outcome:
    /// the first `n` outcomes are consumed and discarded. `step_n(0)`
    /// is one single micro-step.
    pub fn step_n(&mut self, n: u64) -> (r: ExecutionResult)
        requires
            old(self).wf(),
        ensures
            final(self).wf(),
            final(self)@ == spec_steps(old(self)@, n as nat + 1),
            r == spec_step_outcome(spec_steps(old(self)@, n as nat)),
            final(self).general_memory.spec_parser() == old(self).general_memory.spec_parser(),
            final(self).mc_memory.spec_parser() == old(self).mc_memory.spec_parser(),
            final(self).spec_logs() == old(self).spec_logs(),
    {
        let ghost s0 = self@;
        let mut r = self.micro_step();
        let mut i: u64 = 0;
        while i < n
            invariant
                s0 == old(self)@,
                i <= n,
                self.wf(),
                self@ == spec_steps(s0, i as nat + 1),
                r == spec_step_outcome(spec_steps(s0, i as nat)),
                self.general_memory.spec_parser() == old(self).general_memory.spec_parser(),
                self.mc_memory.spec_parser() == old(self).mc_memory.spec_parser(),
                self.spec_logs() == old(self).spec_logs(),
            decreases n - i,
        {
            r = self.micro_step();
            i = i + 1;
        }
        r
    }

    /// Consumes outcomes one micro-step at a time until the predicate
    /// accepts one, which is returned, or until `budget` steps have
    /// run, in which case `None` is returned. Every stepping
    /// granularity above single stepping is this or `step_n`; there is
    /// no separate fast path. A predicate that never accepts bounds the
    /// run only by `budget`: liveness is the caller's concern.
    #[verifier::rlimit(100)]
    pub fn run_until<F: Fn(ExecutionResult) -> bool>(&mut self, pred: F, budget: u64) -> (r:
        Option<ExecutionResult>)
        requires
            old(self).wf(),
            forall|res: ExecutionResult| #[trigger] pred.requires((res,)),
        ensures
            final(self).wf(),
            final(self).spec_logs() == old(self).spec_logs(),
            final(self).general_memory.spec_parser() == old(self).general_memory.spec_parser(),
            final(self).mc_memory.spec_parser() == old(self).mc_memory.spec_parser(),
            match r {
                Some(res) => exists|k: nat|
                    k < budget as nat && #[trigger] accepts_at(pred, old(self)@, final(self)@, res, k),
                None => final(self)@ == spec_steps(old(self)@, budget as nat) && rejects_before(
                    pred,
                    old(self)@,
                    budget as nat,
                ),
            },
    {
        let ghost s0 = self@;
        let mut i: u64 = 0;
        while i < budget
            invariant
                s0 == old(self)@,
                i <= budget,
                self.wf(),
                self@ == spec_steps(s0, i as nat),
                forall|res: ExecutionResult| #[trigger] pred.requires((res,)),
                rejects_before(pred, s0, i as nat),
                self.general_memory.spec_parser() == old(self).general_memory.spec_parser(),
                self.mc_memory.spec_parser() == old(self).mc_memory.spec_parser(),
                self.spec_logs() == old(self).spec_logs(),
            decreases budget - i,
        {
            let res = self.micro_step();
            if pred(res) {
                proof {
                    let k: nat = i as nat;
                    assert(k < budget as nat && accepts_at(pred, s0, self@, res, k));
                }
                return Some(res);
            }
            proof {
                assert(rejects_before(pred, s0, i as nat + 1)) by {
                    assert forall|j: nat|
                        j < i as nat + 1 implies pred.ensures(
                        (spec_step_outcome(#[trigger] spec_steps(s0, j)),),
                        false,
                    ) by {
                        if j < i as nat {
                            assert(rejects_before(pred, s0, i as nat));
                        }
                    }
                }
            }
            i = i + 1;
        }
        None
    }
}

/// Every outcome of the first `k` micro-steps from `s0` was refused by
/// the predicate.
pub open spec fn rejects_before<F: Fn(ExecutionResult) -> bool>(
    pred: F,
    s0: MachineState,
    k: nat,
) -> bool {
    forall|j: nat|
        j < k ==> pred.ensures((spec_step_outcome(#[trigger] spec_steps(s0, j)),), false)
}

/// Starting from `s0`, the predicate refused the first `k` outcomes
/// and accepted the `k + 1`-th, which is `res`; `s1` is the state
/// after those `k + 1` micro-steps.
pub open spec fn accepts_at<F: Fn(ExecutionResult) -> bool>(
    pred: F,
    s0: MachineState,
    s1: MachineState,
    res: ExecutionResult,
    k: nat,
) -> bool {
    &&& s1 == spec_steps(s0, k + 1)
    &&& res == spec_step_outcome(spec_steps(s0, k))
    &&& pred.ensures((res,), true)
    &&& rejects_before(pred, s0, k)
}

} // verus!
