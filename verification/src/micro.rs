//! The microcode codec: the outcome alphabet of a micro-step, the fixed
//! field layout of a control-store word, and the codec that renders
//! control-store cells as text.
//!
//! A control-store word is 16 bits; its top four bits select the
//! operation class:
//!
//! | class | operation                                                   |
//! |-------|-------------------------------------------------------------|
//! | 0x0   | move: register `(w >> 4) & 0xF` into register `(w >> 8) & 0xF` |
//! | 0x1   | add source register to the accumulator; bit 0 chains carry  |
//! | 0x2   | subtract source register; bit 0 chains the borrow           |
//! | 0x3   | bitwise AND of source register into the accumulator         |
//! | 0x4   | rotate the accumulator left through the carry flag          |
//! | 0x5   | rotate the accumulator right through the carry flag         |
//! | 0x6   | increment register `(w >> 8) & 0xF`                         |
//! | 0x7   | decrement register `(w >> 8) & 0xF`                         |
//! | 0x8   | jump to micro-address `w & 0xFF` when condition `(w >> 8) & 0xF` holds |
//! | 0x9   | memory read: the addressed general cell into the data register |
//! | 0xA   | memory write: the data register into the addressed general cell |
//! | 0xB   | device transfer `(w >> 8) & 0x3` with device `w & 0xF`      |
//! | 0xC,D | reserved: no effect                                         |
//! | 0xE   | macro-instruction cycle boundary                            |
//! | 0xF   | halt                                                        |
//!
//! Register selectors: 0 accumulator, 1 data, 2 command, 3 command
//! counter, 4 address, 5 status, 6 buffer; any other selector reads
//! zero and writes nowhere. Jump conditions: 0 always, 1 carry set,
//! 2 carry clear, 3 zero set, 4 zero clear, 5 negative set, 6 negative
//! clear; any other condition never holds. Device transfers: 0 clears
//! the device's ready flag, 1 copies it into the status word's
//! device-ready bit, 2 reads the device's low byte into the
//! accumulator's low byte, 3 writes the accumulator to the device.

use vstd::prelude::*;
use crate::parse::{CommandInfo, EncodeError, Parser};
use crate::text::{push_hex4, spec_hex4};

verus! {

/// What one micro-step reported.
#[derive(Clone, Copy, PartialEq, Eq, Structural, Debug)]
pub enum ExecutionResult {
    /// Straight-line progression: the micro-program counter was
    /// auto-incremented after the operation.
    Continued,
    /// A control transfer wrote the micro-program counter itself; no
    /// auto-increment happened.
    Jumped,
    /// The microprogram of the current macro instruction completed,
    /// logically returning control to the fetch stage.
    Cycle,
    /// The machine signalled a halt.
    Halted,
}

/// The display name of a control-store word's operation class.
pub open spec fn spec_micro_name(w: u16) -> Seq<char> {
    let cls = w >> 12;
    if cls == 0 {
        "MOV"@
    } else if cls == 1 {
        "ADD"@
    } else if cls == 2 {
        "SUB"@
    } else if cls == 3 {
        "AND"@
    } else if cls == 4 {
        "ROL"@
    } else if cls == 5 {
        "ROR"@
    } else if cls == 6 {
        "INC"@
    } else if cls == 7 {
        "DEC"@
    } else if cls == 8 {
        "JMP"@
    } else if cls == 9 {
        "RD"@
    } else if cls == 10 {
        "WR"@
    } else if cls == 11 {
        "IO"@
    } else if cls == 14 {
        "END"@
    } else if cls == 15 {
        "HLT"@
    } else {
        "NOP"@
    }
}

fn micro_name(w: u16) -> (r: &'static str)
    ensures
        r@ == spec_micro_name(w),
{
    let cls = w >> 12;
    if cls == 0 {
        "MOV"
    } else if cls == 1 {
        "ADD"
    } else if cls == 2 {
        "SUB"
    } else if cls == 3 {
        "AND"
    } else if cls == 4 {
        "ROL"
    } else if cls == 5 {
        "ROR"
    } else if cls == 6 {
        "INC"
    } else if cls == 7 {
        "DEC"
    } else if cls == 8 {
        "JMP"
    } else if cls == 9 {
        "RD"
    } else if cls == 10 {
        "WR"
    } else if cls == 11 {
        "IO"
    } else if cls == 14 {
        "END"
    } else if cls == 15 {
        "HLT"
    } else {
        "NOP"
    }
}

/// One control-store word, decoded for display.
#[derive(Clone, Copy)]
pub struct MicroCommandInfo {
    /// The raw control-store word.
    pub opcode: u16,
}

impl CommandInfo for MicroCommandInfo {
    open spec fn wf(&self) -> bool {
        true
    }

    open spec fn spec_opcode(&self) -> u16 {
        self.opcode
    }

    open spec fn spec_mnemonic(&self) -> Seq<char> {
        spec_micro_name(self.opcode) + " "@ + spec_hex4(self.opcode)
    }

    open spec fn spec_file_string(&self) -> Seq<char> {
        spec_hex4(self.opcode)
    }

    /// The operation-class name followed by the raw word.
    fn mnemonic(&self) -> (r: String) {
        proof {
            reveal_strlit(" ");
        }
        let mut s = micro_name(self.opcode).to_owned();
        s.append(" ");
        push_hex4(&mut s, self.opcode);
        assert(s@ =~= spec_micro_name(self.opcode) + " "@ + spec_hex4(self.opcode));
        s
    }

    /// Control-store cells dump as four raw hexadecimal digits.
    fn file_string(&self) -> (r: String) {
        let mut s = String::new();
        push_hex4(&mut s, self.opcode);
        assert(s@ =~= spec_hex4(self.opcode));
        s
    }
}

/// The control-store codec: renders micro-words, assembles nothing.
#[derive(Clone)]
pub struct MicroParser {
}

impl MicroParser {
    pub fn new() -> (r: MicroParser)
        ensures
            <MicroParser as Parser<MicroCommandInfo>>::wf(&r),
    {
        MicroParser {  }
    }
}

impl Parser<MicroCommandInfo> for MicroParser {
    open spec fn wf(&self) -> bool {
        true
    }

    open spec fn spec_mnemonic_render(&self, opcode: u16) -> Seq<char> {
        spec_micro_name(opcode) + " "@ + spec_hex4(opcode)
    }

    open spec fn spec_file_render(&self, opcode: u16) -> Seq<char> {
        spec_hex4(opcode)
    }

    open spec fn spec_rev_parse(&self, s: Seq<char>) -> Result<u16, EncodeError> {
        Err(EncodeError::Unsupported)
    }

    open spec fn spec_supports_rev_parse(&self) -> bool {
        false
    }

    fn parse(&self, opcode: u16) -> (r: MicroCommandInfo) {
        MicroCommandInfo { opcode }
    }

    /// The control store has no assembler direction.
    fn supports_rev_parse(&self) -> bool {
        false
    }

    fn rev_parse(&self, s: &str) -> (r: Result<u16, EncodeError>) {
        Err(EncodeError::Unsupported)
    }
}

} // verus!
