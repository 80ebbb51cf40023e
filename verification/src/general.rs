//! The macro instruction codec: a fixed, priority-ordered table of
//! opcode patterns, a disassembler over it, and the assembler direction
//! that translates mnemonic text back into opcodes.
//!
//! An opcode `v` matches a pattern `mask` iff `v & mask == mask`: the
//! mask names required bits. Since address and device patterns require
//! fewer bits than the no-operand ones, the table is held in descending
//! order of mask bit-count and the first match wins; that order decides
//! every decode.

use vstd::prelude::*;
use crate::parse::{CommandInfo, EncodeError, Parser};
use crate::text::{
    push_hex3, push_hex4, spec_hex3, spec_hex4, spec_parse_hex, spec_split, spec_to_upper,
    spec_trim, chars_eq_str, parse_hex, split_spaces, str_chars, sub_vec, trim_chars, upper_chars,
    is_space_char, lemma_first_space_is, lemma_hex3_round_trip, lemma_hex_digit_round_trip,
    spec_trim_end, spec_trim_start,
};

verus! {

/// How many patterns the instruction table holds.
pub const TABLE_LEN: usize = 34;

/// The three pattern variants of the instruction set.
#[derive(Clone, Copy, PartialEq, Eq, Structural, Debug)]
pub enum CommandType {
    /// A no-operand instruction; every mask bit is required, no payload.
    Simple,
    /// An instruction taking an 11-bit memory address operand.
    Address,
    /// An instruction taking a 4-bit device number operand.
    IO,
}

/// One pattern of the table: required bits, mnemonic and variant.
#[derive(Clone, Copy)]
pub struct Command {
    /// The instruction's mnemonic.
    pub name: &'static str,
    /// The required bits of the opcode.
    pub mask: u16,
    /// Which of the three pattern variants this is.
    pub command_type: CommandType,
}

/// The mask of the `i`-th pattern, in decoding priority order.
pub open spec fn table_mask(i: int) -> u16 {
    if i == 0 {
        0xFF00u16
    } else if i == 1 {
        0xFE00u16
    } else if i == 2 {
        0xFD00u16
    } else if i == 3 {
        0xF700u16
    } else if i == 4 {
        0xFB00u16
    } else if i == 5 {
        0xFC00u16
    } else if i == 6 {
        0xF300u16
    } else if i == 7 {
        0xF500u16
    } else if i == 8 {
        0xF600u16
    } else if i == 9 {
        0xF900u16
    } else if i == 10 {
        0xFA00u16
    } else if i == 11 {
        0xF200u16
    } else if i == 12 {
        0xF400u16
    } else if i == 13 {
        0xF800u16
    } else if i == 14 {
        0xF100u16
    } else if i == 15 {
        0xE300u16
    } else if i == 16 {
        0xF000u16
    } else if i == 17 {
        0xE100u16
    } else if i == 18 {
        0xE200u16
    } else if i == 19 {
        0xB000u16
    } else if i == 20 {
        0xE000u16
    } else if i == 21 {
        0x7000u16
    } else if i == 22 {
        0xD000u16
    } else if i == 23 {
        0x3000u16
    } else if i == 24 {
        0x5000u16
    } else if i == 25 {
        0x6000u16
    } else if i == 26 {
        0x9000u16
    } else if i == 27 {
        0xA000u16
    } else if i == 28 {
        0xC000u16
    } else if i == 29 {
        0x1000u16
    } else if i == 30 {
        0x4000u16
    } else if i == 31 {
        0x8000u16
    } else if i == 32 {
        0x2000u16
    } else {
        0x0000u16
    }
}

/// The mnemonic of the `i`-th pattern, in decoding priority order.
pub open spec fn table_name(i: int) -> Seq<char> {
    if i == 0 {
        "HZF"@
    } else if i == 1 {
        "HZE"@
    } else if i == 2 {
        "HZD"@
    } else if i == 3 {
        "ROR"@
    } else if i == 4 {
        "DI"@
    } else if i == 5 {
        "HZC"@
    } else if i == 6 {
        "CLC"@
    } else if i == 7 {
        "CMC"@
    } else if i == 8 {
        "ROL"@
    } else if i == 9 {
        "DEC"@
    } else if i == 10 {
        "EI"@
    } else if i == 11 {
        "CLA"@
    } else if i == 12 {
        "CMA"@
    } else if i == 13 {
        "INC"@
    } else if i == 14 {
        "NOP"@
    } else if i == 15 {
        "OUT"@
    } else if i == 16 {
        "HLT"@
    } else if i == 17 {
        "TSF"@
    } else if i == 18 {
        "IN"@
    } else if i == 19 {
        "BEQ"@
    } else if i == 20 {
        "CLF"@
    } else if i == 21 {
        "HZA7"@
    } else if i == 22 {
        "HZAD"@
    } else if i == 23 {
        "MOV"@
    } else if i == 24 {
        "ADC"@
    } else if i == 25 {
        "SUB"@
    } else if i == 26 {
        "BPL"@
    } else if i == 27 {
        "BMI"@
    } else if i == 28 {
        "BR"@
    } else if i == 29 {
        "AND"@
    } else if i == 30 {
        "ADD"@
    } else if i == 31 {
        "BCS"@
    } else if i == 32 {
        "JSR"@
    } else {
        "ISZ"@
    }
}

/// The variant of the `i`-th pattern, in decoding priority order.
pub open spec fn table_kind(i: int) -> CommandType {
    if i == 0 {
        CommandType::Simple
    } else if i == 1 {
        CommandType::Simple
    } else if i == 2 {
        CommandType::Simple
    } else if i == 3 {
        CommandType::Simple
    } else if i == 4 {
        CommandType::Simple
    } else if i == 5 {
        CommandType::Simple
    } else if i == 6 {
        CommandType::Simple
    } else if i == 7 {
        CommandType::Simple
    } else if i == 8 {
        CommandType::Simple
    } else if i == 9 {
        CommandType::Simple
    } else if i == 10 {
        CommandType::Simple
    } else if i == 11 {
        CommandType::Simple
    } else if i == 12 {
        CommandType::Simple
    } else if i == 13 {
        CommandType::Simple
    } else if i == 14 {
        CommandType::Simple
    } else if i == 15 {
        CommandType::IO
    } else if i == 16 {
        CommandType::Simple
    } else if i == 17 {
        CommandType::IO
    } else if i == 18 {
        CommandType::IO
    } else if i == 19 {
        CommandType::Address
    } else if i == 20 {
        CommandType::IO
    } else if i == 21 {
        CommandType::Address
    } else if i == 22 {
        CommandType::Address
    } else if i == 23 {
        CommandType::Address
    } else if i == 24 {
        CommandType::Address
    } else if i == 25 {
        CommandType::Address
    } else if i == 26 {
        CommandType::Address
    } else if i == 27 {
        CommandType::Address
    } else if i == 28 {
        CommandType::Address
    } else if i == 29 {
        CommandType::Address
    } else if i == 30 {
        CommandType::Address
    } else if i == 31 {
        CommandType::Address
    } else if i == 32 {
        CommandType::Address
    } else {
        CommandType::Address
    }
}

/// Whether opcode `v` has every required bit of the `i`-th pattern.
pub open spec fn spec_match_at(v: u16, i: int) -> bool {
    v & table_mask(i) == table_mask(i)
}

/// The first pattern index at or after `i` that `v` matches, or the
/// table length when none is left.
pub open spec fn spec_first_match_from(v: u16, i: int) -> int
    decreases TABLE_LEN as int - i,
{
    if i < 0 || i >= TABLE_LEN as int {
        TABLE_LEN as int
    } else if spec_match_at(v, i) {
        i
    } else {
        spec_first_match_from(v, i + 1)
    }
}

/// The decoding of `v`: the highest-priority pattern it matches.
pub open spec fn spec_first_match(v: u16) -> int {
    spec_first_match_from(v, 0)
}

proof fn lemma_first_match_from_is(v: u16, k: int, i: int)
    requires
        0 <= k <= i <= TABLE_LEN as int,
        forall|j: int| k <= j < i ==> !spec_match_at(v, j),
        i < TABLE_LEN as int ==> spec_match_at(v, i),
    ensures
        spec_first_match_from(v, k) == i,
    decreases i - k,
{
    if k < i {
        lemma_first_match_from_is(v, k + 1, i);
    }
}

/// Every opcode decodes: the lowest-priority pattern requires no bits.
pub proof fn lemma_first_match_props(v: u16)
    ensures
        0 <= spec_first_match(v) < TABLE_LEN as int,
        spec_match_at(v, spec_first_match(v)),
        forall|j: int| 0 <= j < spec_first_match(v) ==> !spec_match_at(v, j),
    decreases TABLE_LEN as int,
{
    assert(v & 0x0000u16 == 0x0000u16) by (bit_vector);
    assert(spec_match_at(v, 33));
    lemma_first_match_monotone(v, 0);
}

proof fn lemma_first_match_monotone(v: u16, k: int)
    requires
        0 <= k <= TABLE_LEN as int,
        k <= 33,
        spec_match_at(v, 33),
    ensures
        k <= spec_first_match_from(v, k) <= 33,
        spec_match_at(v, spec_first_match_from(v, k)),
        forall|j: int| k <= j < spec_first_match_from(v, k) ==> !spec_match_at(v, j),
    decreases TABLE_LEN as int - k,
{
    if k < 33 && !spec_match_at(v, k) {
        lemma_first_match_monotone(v, k + 1);
    }
}

/// Whether a concrete pattern is the `i`-th entry of the table.
pub open spec fn entry_ok(c: Command, i: int) -> bool {
    c.mask == table_mask(i) && c.name@ == table_name(i) && c.command_type == table_kind(i)
}

impl Command {
    fn mnemonic(&self) -> (r: &str)
        ensures
            r@ == self.name@,
    {
        self.name
    }

    /// Whether `cmd` has every bit this pattern requires.
    fn matching(&self, cmd: u16) -> (r: bool)
        ensures
            r == (cmd & self.mask == self.mask),
    {
        cmd & self.mask == self.mask
    }
}

/// The rendered operand: the mnemonic, a space, and three hexadecimal
/// digits, the digits in parentheses when addressing is indirect.
pub open spec fn spec_render_operand(name: Seq<char>, a: u16, indirect: bool) -> Seq<char> {
    if indirect {
        name + " ("@ + spec_hex3(a) + ")"@
    } else {
        name + " "@ + spec_hex3(a)
    }
}

/// The display text of opcode `v` under a pattern: the mnemonic alone
/// for a no-operand instruction; mnemonic and 11-bit address for an
/// address instruction; mnemonic and 4-bit device for a device one.
/// Bit 0x0800 marks indirect addressing.
pub open spec fn spec_render_mnemonic(name: Seq<char>, kind: CommandType, v: u16) -> Seq<char> {
    match kind {
        CommandType::Simple => name,
        CommandType::Address => spec_render_operand(name, v & 0x7FF, v & 0x800 != 0),
        CommandType::IO => spec_render_operand(name, v & 0xF, v & 0x800 != 0),
    }
}

/// The file-dump text of opcode `v` under a pattern. A no-operand
/// pattern with stray bits outside its mask is not truly that
/// instruction: it is rendered as four raw hexadecimal digits instead.
pub open spec fn spec_render_file(name: Seq<char>, kind: CommandType, mask: u16, v: u16) -> Seq<
    char,
> {
    match kind {
        CommandType::Simple => if v & !mask == 0 {
            name
        } else {
            spec_hex4(v)
        },
        _ => spec_render_mnemonic(name, kind, v),
    }
}

impl Command {
    /// Renders an opcode that matches this pattern as display text.
    fn parse(&self, data: u16) -> (r: String)
        requires
            data & self.mask == self.mask,
        ensures
            r@ == spec_render_mnemonic(self.name@, self.command_type, data),
    {
        proof {
            reveal_strlit(" ");
            reveal_strlit(" (");
            reveal_strlit(")");
        }
        match self.command_type {
            CommandType::Simple => self.name.to_owned(),
            CommandType::Address => {
                let address = data & 0x7FF;
                let mut s = self.name.to_owned();
                if data & 0x800 != 0 {
                    s.append(" (");
                    push_hex3(&mut s, address);
                    s.append(")");
                } else {
                    s.append(" ");
                    push_hex3(&mut s, address);
                }
                assert(s@ =~= spec_render_mnemonic(self.name@, self.command_type, data));
                s
            },
            CommandType::IO => {
                let address = data & 0xF;
                let mut s = self.name.to_owned();
                if data & 0x800 != 0 {
                    s.append(" (");
                    push_hex3(&mut s, address);
                    s.append(")");
                } else {
                    s.append(" ");
                    push_hex3(&mut s, address);
                }
                assert(s@ =~= spec_render_mnemonic(self.name@, self.command_type, data));
                s
            },
        }
    }

    /// Renders an opcode that matches this pattern in the file-dump form.
    fn file_string(&self, cmd: u16) -> (r: String)
        requires
            cmd & self.mask == self.mask,
        ensures
            r@ == spec_render_file(self.name@, self.command_type, self.mask, cmd),
    {
        match self.command_type {
            CommandType::Simple => {
                let excessive = cmd & !self.mask;
                if excessive == 0 {
                    self.name.to_owned()
                } else {
                    let mut s = String::new();
                    push_hex4(&mut s, cmd);
                    assert(s@ =~= spec_hex4(cmd));
                    s
                }
            },
            CommandType::Address => self.parse(cmd),
            CommandType::IO => self.parse(cmd),
        }
    }
}

/// One decoded macro instruction: the pattern that won the priority
/// scan, kept beside the raw opcode it decodes.
#[derive(Clone, Copy)]
pub struct GeneralCommandInfo {
    /// The pattern that won the priority scan for `opcode`.
    pub info: Command,
    /// The raw opcode this value decodes.
    pub opcode: u16,
}

impl GeneralCommandInfo {
    fn new(info: Command, opcode: u16) -> (r: GeneralCommandInfo)
        requires
            0 <= spec_first_match(opcode) < TABLE_LEN as int,
            entry_ok(info, spec_first_match(opcode)),
        ensures
            r.wf(),
            r == (GeneralCommandInfo { info, opcode }),
    {
        GeneralCommandInfo { info, opcode }
    }

    /// The raw opcode this value decodes.
    pub fn opcode(&self) -> (r: u16)
        ensures
            r == self.spec_opcode(),
    {
        self.opcode
    }
}

impl CommandInfo for GeneralCommandInfo {
    /// The held pattern is the one the priority scan gives the opcode.
    open spec fn wf(&self) -> bool {
        &&& 0 <= spec_first_match(self.opcode) < TABLE_LEN as int
        &&& entry_ok(self.info, spec_first_match(self.opcode))
    }

    open spec fn spec_opcode(&self) -> u16 {
        self.opcode
    }

    open spec fn spec_mnemonic(&self) -> Seq<char> {
        spec_render_mnemonic(self.info.name@, self.info.command_type, self.opcode)
    }

    open spec fn spec_file_string(&self) -> Seq<char> {
        spec_render_file(self.info.name@, self.info.command_type, self.info.mask, self.opcode)
    }

    fn mnemonic(&self) -> (r: String) {
        proof {
            lemma_first_match_props(self.opcode);
        }
        self.info.parse(self.opcode)
    }

    fn file_string(&self) -> (r: String) {
        proof {
            lemma_first_match_props(self.opcode);
        }
        self.info.file_string(self.opcode)
    }
}

/// The macro instruction codec: the fixed pattern table, held in
/// descending order of mask bit-count, most specific first.
#[derive(Clone)]
pub struct CommandParser {
    commands: Vec<Command>,
}

impl CommandParser {
    /// Builds the instruction table, already in decoding priority order.
    #[verifier::rlimit(100)]
    pub fn new() -> (r: CommandParser)
        ensures
            <CommandParser as Parser<GeneralCommandInfo>>::wf(&r),
    {
        let mut commands: Vec<Command> = Vec::new();
        commands.push(Command { mask: 0xFF00, name: "HZF", command_type: CommandType::Simple });
        commands.push(Command { mask: 0xFE00, name: "HZE", command_type: CommandType::Simple });
        commands.push(Command { mask: 0xFD00, name: "HZD", command_type: CommandType::Simple });
        commands.push(Command { mask: 0xF700, name: "ROR", command_type: CommandType::Simple });
        commands.push(Command { mask: 0xFB00, name: "DI", command_type: CommandType::Simple });
        commands.push(Command { mask: 0xFC00, name: "HZC", command_type: CommandType::Simple });
        commands.push(Command { mask: 0xF300, name: "CLC", command_type: CommandType::Simple });
        commands.push(Command { mask: 0xF500, name: "CMC", command_type: CommandType::Simple });
        commands.push(Command { mask: 0xF600, name: "ROL", command_type: CommandType::Simple });
        commands.push(Command { mask: 0xF900, name: "DEC", command_type: CommandType::Simple });
        commands.push(Command { mask: 0xFA00, name: "EI", command_type: CommandType::Simple });
        commands.push(Command { mask: 0xF200, name: "CLA", command_type: CommandType::Simple });
        commands.push(Command { mask: 0xF400, name: "CMA", command_type: CommandType::Simple });
        commands.push(Command { mask: 0xF800, name: "INC", command_type: CommandType::Simple });
        commands.push(Command { mask: 0xF100, name: "NOP", command_type: CommandType::Simple });
        commands.push(Command { mask: 0xE300, name: "OUT", command_type: CommandType::IO });
        commands.push(Command { mask: 0xF000, name: "HLT", command_type: CommandType::Simple });
        commands.push(Command { mask: 0xE100, name: "TSF", command_type: CommandType::IO });
        commands.push(Command { mask: 0xE200, name: "IN", command_type: CommandType::IO });
        commands.push(Command { mask: 0xB000, name: "BEQ", command_type: CommandType::Address });
        commands.push(Command { mask: 0xE000, name: "CLF", command_type: CommandType::IO });
        commands.push(Command { mask: 0x7000, name: "HZA7", command_type: CommandType::Address });
        commands.push(Command { mask: 0xD000, name: "HZAD", command_type: CommandType::Address });
        commands.push(Command { mask: 0x3000, name: "MOV", command_type: CommandType::Address });
        commands.push(Command { mask: 0x5000, name: "ADC", command_type: CommandType::Address });
        commands.push(Command { mask: 0x6000, name: "SUB", command_type: CommandType::Address });
        commands.push(Command { mask: 0x9000, name: "BPL", command_type: CommandType::Address });
        commands.push(Command { mask: 0xA000, name: "BMI", command_type: CommandType::Address });
        commands.push(Command { mask: 0xC000, name: "BR", command_type: CommandType::Address });
        commands.push(Command { mask: 0x1000, name: "AND", command_type: CommandType::Address });
        commands.push(Command { mask: 0x4000, name: "ADD", command_type: CommandType::Address });
        commands.push(Command { mask: 0x8000, name: "BCS", command_type: CommandType::Address });
        commands.push(Command { mask: 0x2000, name: "JSR", command_type: CommandType::Address });
        commands.push(Command { mask: 0x0000, name: "ISZ", command_type: CommandType::Address });
        let r = CommandParser { commands };
        proof {
            assert forall|i: int| 0 <= i < TABLE_LEN as int implies entry_ok(
                #[trigger] r.commands@[i],
                i,
            ) by {
            }
        }
        r
    }

    /// The index of the pattern whose mnemonic is `mn`, where one is.
    fn mnemonic_to_command(&self, mn: &Vec<char>) -> (r: Option<usize>)
        requires
            <CommandParser as Parser<GeneralCommandInfo>>::wf(self),
        ensures
            r is Some ==> 0 <= spec_find_name(mn@) < TABLE_LEN as int && r == Some(
                spec_find_name(mn@) as usize,
            ),
            r is None ==> spec_find_name(mn@) == TABLE_LEN as int,
    {
        let n = self.commands.len();
        let mut i: usize = 0;
        while i < n
            invariant
                i <= n,
                n == TABLE_LEN,
                <CommandParser as Parser<GeneralCommandInfo>>::wf(self),
                forall|j: int| 0 <= j < i ==> table_name(j) != mn@,
            decreases n - i,
        {
            if chars_eq_str(mn, self.commands[i].mnemonic()) {
                proof {
                    lemma_find_name_is(mn@, i as int);
                }
                return Some(i);
            }
            i = i + 1;
        }
        proof {
            lemma_find_name_is(mn@, TABLE_LEN as int);
        }
        None
    }
}

/// The first pattern index at or after `i` whose mnemonic is `n`, or
/// the table length when none is.
pub open spec fn spec_find_name_from(n: Seq<char>, i: int) -> int
    decreases TABLE_LEN as int - i,
{
    if i < 0 || i >= TABLE_LEN as int {
        TABLE_LEN as int
    } else if table_name(i) == n {
        i
    } else {
        spec_find_name_from(n, i + 1)
    }
}

/// The pattern index of the mnemonic `n`, or the table length.
pub open spec fn spec_find_name(n: Seq<char>) -> int {
    spec_find_name_from(n, 0)
}

proof fn lemma_find_name_is(n: Seq<char>, i: int)
    requires
        0 <= i <= TABLE_LEN as int,
        forall|j: int| 0 <= j < i ==> table_name(j) != n,
        i < TABLE_LEN as int ==> table_name(i) == n,
    ensures
        spec_find_name(n) == i,
{
    lemma_find_name_from_is(n, 0, i);
}

proof fn lemma_find_name_from_is(n: Seq<char>, k: int, i: int)
    requires
        0 <= k <= i <= TABLE_LEN as int,
        forall|j: int| k <= j < i ==> table_name(j) != n,
        i < TABLE_LEN as int ==> table_name(i) == n,
    ensures
        spec_find_name_from(n, k) == i,
    decreases i - k,
{
    if k < i {
        lemma_find_name_from_is(n, k + 1, i);
    }
}

impl Parser<GeneralCommandInfo> for CommandParser {
    /// The held table is the instruction table, entry for entry.
    closed spec fn wf(&self) -> bool {
        &&& self.commands@.len() == TABLE_LEN as int
        &&& forall|i: int|
            0 <= i < TABLE_LEN as int ==> entry_ok(#[trigger] self.commands@[i], i)
    }

    open spec fn spec_mnemonic_render(&self, opcode: u16) -> Seq<char> {
        spec_render_mnemonic(
            table_name(spec_first_match(opcode)),
            table_kind(spec_first_match(opcode)),
            opcode,
        )
    }

    open spec fn spec_file_render(&self, opcode: u16) -> Seq<char> {
        spec_render_file(
            table_name(spec_first_match(opcode)),
            table_kind(spec_first_match(opcode)),
            table_mask(spec_first_match(opcode)),
            opcode,
        )
    }

    open spec fn spec_rev_parse(&self, s: Seq<char>) -> Result<u16, EncodeError> {
        spec_rev_parse_general(s)
    }

    open spec fn spec_supports_rev_parse(&self) -> bool {
        true
    }

    /// Scans the table in priority order and returns the first match;
    /// the scan always finds one, since the last pattern requires no
    /// bits at all.
    fn parse(&self, opcode: u16) -> (r: GeneralCommandInfo) {
        let n = self.commands.len();
        let mut i: usize = 0;
        while i < n
            invariant
                i <= n,
                n == TABLE_LEN,
                <CommandParser as Parser<GeneralCommandInfo>>::wf(self),
                forall|j: int| 0 <= j < i ==> !spec_match_at(opcode, j),
            decreases n - i,
        {
            let cmd = self.commands[i];
            if cmd.matching(opcode) {
                proof {
                    lemma_first_match_from_is(opcode, 0, i as int);
                }
                return GeneralCommandInfo::new(cmd, opcode);
            }
            i = i + 1;
        }
        proof {
            lemma_first_match_props(opcode);
        }
        vstd::pervasive::unreached()
    }

    fn supports_rev_parse(&self) -> bool {
        true
    }

    fn rev_parse(&self, s: &str) -> (r: Result<u16, EncodeError>) {
        rev_parse_chars(self, s)
    }
}

/// What the assembler direction returns for one pattern, given the
/// already-trimmed input line `t`.
///
/// A no-operand pattern takes the whole line, upper-cased, as its
/// mnemonic and rejects anything else. An operand pattern wants exactly
/// a mnemonic and one operand token; the operand, itself trimmed, may
/// stand in parentheses for indirect addressing, and reads as a
/// hexadecimal number bounded by the pattern's operand range. A valid
/// operand is OR'd into the mask, with bit 0x0800 added when indirect.
pub open spec fn spec_cmd_rev_parse(
    kind: CommandType,
    mask: u16,
    name: Seq<char>,
    t: Seq<char>,
) -> Result<u16, EncodeError> {
    match kind {
        CommandType::Simple => if spec_to_upper(t) == name {
            Ok(mask)
        } else {
            Err(EncodeError::TakesNoArguments)
        },
        _ => {
            let toks = spec_split(t);
            if toks.len() > 2 {
                Err(EncodeError::ExtraTokens)
            } else if toks.len() < 2 {
                Err(EncodeError::MissingParameter)
            } else {
                let op = spec_trim(toks[1]);
                let ind = op.len() > 0 && op[0] == '(';
                if ind && op.last() != ')' {
                    Err(EncodeError::UnclosedParenthesis)
                } else {
                    let digits = if ind {
                        op.subrange(1, op.len() - 1)
                    } else {
                        op
                    };
                    match spec_parse_hex(digits) {
                        None => Err(EncodeError::BadNumber),
                        Some(p) => {
                            let limit: u16 = if kind is IO {
                                0xF
                            } else {
                                0x7FF
                            };
                            if p > limit {
                                if kind is IO {
                                    Err(EncodeError::DeviceTooLarge)
                                } else {
                                    Err(EncodeError::AddressTooLarge)
                                }
                            } else if ind {
                                Ok(mask | p | 0x800)
                            } else {
                                Ok(mask | p)
                            }
                        },
                    }
                }
            }
        },
    }
}

/// What the assembler direction returns on the raw input `s`: an error
/// on blank input; else the first space-separated token, upper-cased,
/// picks the pattern, and the pattern reads the trimmed line.
pub open spec fn spec_rev_parse_general(s: Seq<char>) -> Result<u16, EncodeError> {
    if spec_trim(s).len() == 0 {
        Err(EncodeError::EmptyInput)
    } else {
        let mn = spec_to_upper(spec_split(s)[0]);
        let i = spec_find_name(mn);
        if i == TABLE_LEN as int {
            Err(EncodeError::UnknownMnemonic)
        } else {
            spec_cmd_rev_parse(table_kind(i), table_mask(i), table_name(i), spec_trim(s))
        }
    }
}

impl Command {
    /// Reads the trimmed input line `t` back into an opcode under this
    /// pattern.
    fn rev_parse_text(&self, t: &Vec<char>) -> (r: Result<u16, EncodeError>)
        ensures
            r == spec_cmd_rev_parse(self.command_type, self.mask, self.name@, t@),
    {
        match self.command_type {
            CommandType::Simple => {
                let up = upper_chars(t);
                if chars_eq_str(&up, self.name) {
                    Ok(self.mask)
                } else {
                    Err(EncodeError::TakesNoArguments)
                }
            },
            _ => {
                let toks = split_spaces(t);
                proof {
                    assert(toks.deep_view().len() == toks@.len());
                }
                if toks.len() > 2 {
                    return Err(EncodeError::ExtraTokens);
                }
                if toks.len() < 2 {
                    return Err(EncodeError::MissingParameter);
                }
                let op = trim_chars(&toks[1]);
                proof {
                    assert(toks@[1]@ == toks.deep_view()[1]);
                }
                let ind = op.len() > 0 && {
                    let c = op[0];
                    c == '('
                };
                if ind {
                    let lastc = op[op.len() - 1];
                    if lastc != ')' {
                        return Err(EncodeError::UnclosedParenthesis);
                    }
                }
                let digits = if ind {
                    sub_vec(&op, 1, op.len() - 1)
                } else {
                    sub_vec(&op, 0, op.len())
                };
                proof {
                    if !ind {
                        assert(digits@ =~= op@);
                    }
                }
                let parsed = match parse_hex(&digits) {
                    Some(p) => p,
                    None => {
                        return Err(EncodeError::BadNumber);
                    },
                };
                let is_io = match self.command_type {
                    CommandType::IO => true,
                    _ => false,
                };
                let limit: u16 = if is_io {
                    0xF
                } else {
                    0x7FF
                };
                if parsed > limit {
                    if is_io {
                        Err(EncodeError::DeviceTooLarge)
                    } else {
                        Err(EncodeError::AddressTooLarge)
                    }
                } else if ind {
                    Ok(self.mask | parsed | 0x800)
                } else {
                    Ok(self.mask | parsed)
                }
            },
        }
    }
}

/// The assembler direction over the raw input string.
fn rev_parse_chars(parser: &CommandParser, s: &str) -> (r: Result<u16, EncodeError>)
    requires
        <CommandParser as Parser<GeneralCommandInfo>>::wf(parser),
    ensures
        r == spec_rev_parse_general(s@),
{
    let cs = str_chars(s);
    let trimmed = trim_chars(&cs);
    if trimmed.len() == 0 {
        return Err(EncodeError::EmptyInput);
    }
    let toks = split_spaces(&cs);
    let mn = upper_chars(&toks[0]);
    proof {
        assert(toks@[0]@ == toks.deep_view()[0]);
    }
    let idx = match parser.mnemonic_to_command(&mn) {
        Some(i) => i,
        None => {
            return Err(EncodeError::UnknownMnemonic);
        },
    };
    proof {
        assert(0 <= spec_find_name(mn@) < TABLE_LEN as int);
    }
    let cmd = parser.commands[idx];
    cmd.rev_parse_text(&trimmed)
}

/// Encoding round-trips through decoding: take any operand-taking
/// pattern of the table, any operand within its range and either
/// addressing mode; OR-ing operand and indirect bit into the mask, as
/// the assembler direction does, yields an opcode that the priority
/// scan decodes as exactly that pattern, with the same operand and the
/// same addressing mode.
pub proof fn lemma_encode_decode_round_trip(i: int, addr: u16, indirect: bool)
    requires
        0 <= i < TABLE_LEN as int,
        !(table_kind(i) is Simple),
        table_kind(i) is Address ==> addr <= 0x7FF,
        table_kind(i) is IO ==> addr <= 0xF,
    ensures
        ({
            let v = table_mask(i) | addr | (if indirect { 0x800u16 } else { 0u16 });
            &&& spec_first_match(v) == i
            &&& (table_kind(i) is Address ==> v & 0x7FF == addr)
            &&& (table_kind(i) is IO ==> v & 0xF == addr)
            &&& ((v & 0x800 != 0) == indirect)
        }),
{
    let a = addr;
    let b: u16 = if indirect { 0x800 } else { 0 };
    let v = table_mask(i) | addr | b;
    if i == 15 {
        assert((0xE300u16 | a | b) & 0xFF00u16 != 0xFF00u16
            && (0xE300u16 | a | b) & 0xFE00u16 != 0xFE00u16
            && (0xE300u16 | a | b) & 0xFD00u16 != 0xFD00u16
            && (0xE300u16 | a | b) & 0xF700u16 != 0xF700u16
            && (0xE300u16 | a | b) & 0xFB00u16 != 0xFB00u16
            && (0xE300u16 | a | b) & 0xFC00u16 != 0xFC00u16
            && (0xE300u16 | a | b) & 0xF300u16 != 0xF300u16
            && (0xE300u16 | a | b) & 0xF500u16 != 0xF500u16
            && (0xE300u16 | a | b) & 0xF600u16 != 0xF600u16
            && (0xE300u16 | a | b) & 0xF900u16 != 0xF900u16
            && (0xE300u16 | a | b) & 0xFA00u16 != 0xFA00u16
            && (0xE300u16 | a | b) & 0xF200u16 != 0xF200u16
            && (0xE300u16 | a | b) & 0xF400u16 != 0xF400u16
            && (0xE300u16 | a | b) & 0xF800u16 != 0xF800u16
            && (0xE300u16 | a | b) & 0xF100u16 != 0xF100u16
            && (0xE300u16 | a | b) & 0xE300u16 == 0xE300u16
            && (0xE300u16 | a | b) & 0x00Fu16 == a
            && ((0xE300u16 | a | b) & 0x800u16 != 0) == (b == 0x800u16)) by (bit_vector)
            requires
                a <= 0x00Fu16,
                b == 0x800u16 || b == 0u16,
        ;
        assert forall|j: int| 0 <= j < 15 implies !spec_match_at(v, j) by {}
        lemma_first_match_from_is(v, 0, 15);
    } else if i == 17 {
        assert((0xE100u16 | a | b) & 0xFF00u16 != 0xFF00u16
            && (0xE100u16 | a | b) & 0xFE00u16 != 0xFE00u16
            && (0xE100u16 | a | b) & 0xFD00u16 != 0xFD00u16
            && (0xE100u16 | a | b) & 0xF700u16 != 0xF700u16
            && (0xE100u16 | a | b) & 0xFB00u16 != 0xFB00u16
            && (0xE100u16 | a | b) & 0xFC00u16 != 0xFC00u16
            && (0xE100u16 | a | b) & 0xF300u16 != 0xF300u16
            && (0xE100u16 | a | b) & 0xF500u16 != 0xF500u16
            && (0xE100u16 | a | b) & 0xF600u16 != 0xF600u16
            && (0xE100u16 | a | b) & 0xF900u16 != 0xF900u16
            && (0xE100u16 | a | b) & 0xFA00u16 != 0xFA00u16
            && (0xE100u16 | a | b) & 0xF200u16 != 0xF200u16
            && (0xE100u16 | a | b) & 0xF400u16 != 0xF400u16
            && (0xE100u16 | a | b) & 0xF800u16 != 0xF800u16
            && (0xE100u16 | a | b) & 0xF100u16 != 0xF100u16
            && (0xE100u16 | a | b) & 0xE300u16 != 0xE300u16
            && (0xE100u16 | a | b) & 0xF000u16 != 0xF000u16
            && (0xE100u16 | a | b) & 0xE100u16 == 0xE100u16
            && (0xE100u16 | a | b) & 0x00Fu16 == a
            && ((0xE100u16 | a | b) & 0x800u16 != 0) == (b == 0x800u16)) by (bit_vector)
            requires
                a <= 0x00Fu16,
                b == 0x800u16 || b == 0u16,
        ;
        assert forall|j: int| 0 <= j < 17 implies !spec_match_at(v, j) by {}
        lemma_first_match_from_is(v, 0, 17);
    } else if i == 18 {
        assert((0xE200u16 | a | b) & 0xFF00u16 != 0xFF00u16
            && (0xE200u16 | a | b) & 0xFE00u16 != 0xFE00u16
            && (0xE200u16 | a | b) & 0xFD00u16 != 0xFD00u16
            && (0xE200u16 | a | b) & 0xF700u16 != 0xF700u16
            && (0xE200u16 | a | b) & 0xFB00u16 != 0xFB00u16
            && (0xE200u16 | a | b) & 0xFC00u16 != 0xFC00u16
            && (0xE200u16 | a | b) & 0xF300u16 != 0xF300u16
            && (0xE200u16 | a | b) & 0xF500u16 != 0xF500u16
            && (0xE200u16 | a | b) & 0xF600u16 != 0xF600u16
            && (0xE200u16 | a | b) & 0xF900u16 != 0xF900u16
            && (0xE200u16 | a | b) & 0xFA00u16 != 0xFA00u16
            && (0xE200u16 | a | b) & 0xF200u16 != 0xF200u16
            && (0xE200u16 | a | b) & 0xF400u16 != 0xF400u16
            && (0xE200u16 | a | b) & 0xF800u16 != 0xF800u16
            && (0xE200u16 | a | b) & 0xF100u16 != 0xF100u16
            && (0xE200u16 | a | b) & 0xE300u16 != 0xE300u16
            && (0xE200u16 | a | b) & 0xF000u16 != 0xF000u16
            && (0xE200u16 | a | b) & 0xE100u16 != 0xE100u16
            && (0xE200u16 | a | b) & 0xE200u16 == 0xE200u16
            && (0xE200u16 | a | b) & 0x00Fu16 == a
            && ((0xE200u16 | a | b) & 0x800u16 != 0) == (b == 0x800u16)) by (bit_vector)
            requires
                a <= 0x00Fu16,
                b == 0x800u16 || b == 0u16,
        ;
        assert forall|j: int| 0 <= j < 18 implies !spec_match_at(v, j) by {}
        lemma_first_match_from_is(v, 0, 18);
    } else if i == 19 {
        assert((0xB000u16 | a | b) & 0xFF00u16 != 0xFF00u16
            && (0xB000u16 | a | b) & 0xFE00u16 != 0xFE00u16
            && (0xB000u16 | a | b) & 0xFD00u16 != 0xFD00u16
            && (0xB000u16 | a | b) & 0xF700u16 != 0xF700u16
            && (0xB000u16 | a | b) & 0xFB00u16 != 0xFB00u16
            && (0xB000u16 | a | b) & 0xFC00u16 != 0xFC00u16
            && (0xB000u16 | a | b) & 0xF300u16 != 0xF300u16
            && (0xB000u16 | a | b) & 0xF500u16 != 0xF500u16
            && (0xB000u16 | a | b) & 0xF600u16 != 0xF600u16
            && (0xB000u16 | a | b) & 0xF900u16 != 0xF900u16
            && (0xB000u16 | a | b) & 0xFA00u16 != 0xFA00u16
            && (0xB000u16 | a | b) & 0xF200u16 != 0xF200u16
            && (0xB000u16 | a | b) & 0xF400u16 != 0xF400u16
            && (0xB000u16 | a | b) & 0xF800u16 != 0xF800u16
            && (0xB000u16 | a | b) & 0xF100u16 != 0xF100u16
            && (0xB000u16 | a | b) & 0xE300u16 != 0xE300u16
            && (0xB000u16 | a | b) & 0xF000u16 != 0xF000u16
            && (0xB000u16 | a | b) & 0xE100u16 != 0xE100u16
            && (0xB000u16 | a | b) & 0xE200u16 != 0xE200u16
            && (0xB000u16 | a | b) & 0xB000u16 == 0xB000u16
            && (0xB000u16 | a | b) & 0x7FFu16 == a
            && ((0xB000u16 | a | b) & 0x800u16 != 0) == (b == 0x800u16)) by (bit_vector)
            requires
                a <= 0x7FFu16,
                b == 0x800u16 || b == 0u16,
        ;
        assert forall|j: int| 0 <= j < 19 implies !spec_match_at(v, j) by {}
        lemma_first_match_from_is(v, 0, 19);
    } else if i == 20 {
        assert((0xE000u16 | a | b) & 0xFF00u16 != 0xFF00u16
            && (0xE000u16 | a | b) & 0xFE00u16 != 0xFE00u16
            && (0xE000u16 | a | b) & 0xFD00u16 != 0xFD00u16
            && (0xE000u16 | a | b) & 0xF700u16 != 0xF700u16
            && (0xE000u16 | a | b) & 0xFB00u16 != 0xFB00u16
            && (0xE000u16 | a | b) & 0xFC00u16 != 0xFC00u16
            && (0xE000u16 | a | b) & 0xF300u16 != 0xF300u16
            && (0xE000u16 | a | b) & 0xF500u16 != 0xF500u16
            && (0xE000u16 | a | b) & 0xF600u16 != 0xF600u16
            && (0xE000u16 | a | b) & 0xF900u16 != 0xF900u16
            && (0xE000u16 | a | b) & 0xFA00u16 != 0xFA00u16
            && (0xE000u16 | a | b) & 0xF200u16 != 0xF200u16
            && (0xE000u16 | a | b) & 0xF400u16 != 0xF400u16
            && (0xE000u16 | a | b) & 0xF800u16 != 0xF800u16
            && (0xE000u16 | a | b) & 0xF100u16 != 0xF100u16
            && (0xE000u16 | a | b) & 0xE300u16 != 0xE300u16
            && (0xE000u16 | a | b) & 0xF000u16 != 0xF000u16
            && (0xE000u16 | a | b) & 0xE100u16 != 0xE100u16
            && (0xE000u16 | a | b) & 0xE200u16 != 0xE200u16
            && (0xE000u16 | a | b) & 0xB000u16 != 0xB000u16
            && (0xE000u16 | a | b) & 0xE000u16 == 0xE000u16
            && (0xE000u16 | a | b) & 0x00Fu16 == a
            && ((0xE000u16 | a | b) & 0x800u16 != 0) == (b == 0x800u16)) by (bit_vector)
            requires
                a <= 0x00Fu16,
                b == 0x800u16 || b == 0u16,
        ;
        assert forall|j: int| 0 <= j < 20 implies !spec_match_at(v, j) by {}
        lemma_first_match_from_is(v, 0, 20);
    } else if i == 21 {
        assert((0x7000u16 | a | b) & 0xFF00u16 != 0xFF00u16
            && (0x7000u16 | a | b) & 0xFE00u16 != 0xFE00u16
            && (0x7000u16 | a | b) & 0xFD00u16 != 0xFD00u16
            && (0x7000u16 | a | b) & 0xF700u16 != 0xF700u16
            && (0x7000u16 | a | b) & 0xFB00u16 != 0xFB00u16
            && (0x7000u16 | a | b) & 0xFC00u16 != 0xFC00u16
            && (0x7000u16 | a | b) & 0xF300u16 != 0xF300u16
            && (0x7000u16 | a | b) & 0xF500u16 != 0xF500u16
            && (0x7000u16 | a | b) & 0xF600u16 != 0xF600u16
            && (0x7000u16 | a | b) & 0xF900u16 != 0xF900u16
            && (0x7000u16 | a | b) & 0xFA00u16 != 0xFA00u16
            && (0x7000u16 | a | b) & 0xF200u16 != 0xF200u16
            && (0x7000u16 | a | b) & 0xF400u16 != 0xF400u16
            && (0x7000u16 | a | b) & 0xF800u16 != 0xF800u16
            && (0x7000u16 | a | b) & 0xF100u16 != 0xF100u16
            && (0x7000u16 | a | b) & 0xE300u16 != 0xE300u16
            && (0x7000u16 | a | b) & 0xF000u16 != 0xF000u16
            && (0x7000u16 | a | b) & 0xE100u16 != 0xE100u16
            && (0x7000u16 | a | b) & 0xE200u16 != 0xE200u16
            && (0x7000u16 | a | b) & 0xB000u16 != 0xB000u16
            && (0x7000u16 | a | b) & 0xE000u16 != 0xE000u16
            && (0x7000u16 | a | b) & 0x7000u16 == 0x7000u16
            && (0x7000u16 | a | b) & 0x7FFu16 == a
            && ((0x7000u16 | a | b) & 0x800u16 != 0) == (b == 0x800u16)) by (bit_vector)
            requires
                a <= 0x7FFu16,
                b == 0x800u16 || b == 0u16,
        ;
        assert forall|j: int| 0 <= j < 21 implies !spec_match_at(v, j) by {}
        lemma_first_match_from_is(v, 0, 21);
    } else if i == 22 {
        assert((0xD000u16 | a | b) & 0xFF00u16 != 0xFF00u16
            && (0xD000u16 | a | b) & 0xFE00u16 != 0xFE00u16
            && (0xD000u16 | a | b) & 0xFD00u16 != 0xFD00u16
            && (0xD000u16 | a | b) & 0xF700u16 != 0xF700u16
            && (0xD000u16 | a | b) & 0xFB00u16 != 0xFB00u16
            && (0xD000u16 | a | b) & 0xFC00u16 != 0xFC00u16
            && (0xD000u16 | a | b) & 0xF300u16 != 0xF300u16
            && (0xD000u16 | a | b) & 0xF500u16 != 0xF500u16
            && (0xD000u16 | a | b) & 0xF600u16 != 0xF600u16
            && (0xD000u16 | a | b) & 0xF900u16 != 0xF900u16
            && (0xD000u16 | a | b) & 0xFA00u16 != 0xFA00u16
            && (0xD000u16 | a | b) & 0xF200u16 != 0xF200u16
            && (0xD000u16 | a | b) & 0xF400u16 != 0xF400u16
            && (0xD000u16 | a | b) & 0xF800u16 != 0xF800u16
            && (0xD000u16 | a | b) & 0xF100u16 != 0xF100u16
            && (0xD000u16 | a | b) & 0xE300u16 != 0xE300u16
            && (0xD000u16 | a | b) & 0xF000u16 != 0xF000u16
            && (0xD000u16 | a | b) & 0xE100u16 != 0xE100u16
            && (0xD000u16 | a | b) & 0xE200u16 != 0xE200u16
            && (0xD000u16 | a | b) & 0xB000u16 != 0xB000u16
            && (0xD000u16 | a | b) & 0xE000u16 != 0xE000u16
            && (0xD000u16 | a | b) & 0x7000u16 != 0x7000u16
            && (0xD000u16 | a | b) & 0xD000u16 == 0xD000u16
            && (0xD000u16 | a | b) & 0x7FFu16 == a
            && ((0xD000u16 | a | b) & 0x800u16 != 0) == (b == 0x800u16)) by (bit_vector)
            requires
                a <= 0x7FFu16,
                b == 0x800u16 || b == 0u16,
        ;
        assert forall|j: int| 0 <= j < 22 implies !spec_match_at(v, j) by {}
        lemma_first_match_from_is(v, 0, 22);
    } else if i == 23 {
        assert((0x3000u16 | a | b) & 0xFF00u16 != 0xFF00u16
            && (0x3000u16 | a | b) & 0xFE00u16 != 0xFE00u16
            && (0x3000u16 | a | b) & 0xFD00u16 != 0xFD00u16
            && (0x3000u16 | a | b) & 0xF700u16 != 0xF700u16
            && (0x3000u16 | a | b) & 0xFB00u16 != 0xFB00u16
            && (0x3000u16 | a | b) & 0xFC00u16 != 0xFC00u16
            && (0x3000u16 | a | b) & 0xF300u16 != 0xF300u16
            && (0x3000u16 | a | b) & 0xF500u16 != 0xF500u16
            && (0x3000u16 | a | b) & 0xF600u16 != 0xF600u16
            && (0x3000u16 | a | b) & 0xF900u16 != 0xF900u16
            && (0x3000u16 | a | b) & 0xFA00u16 != 0xFA00u16
            && (0x3000u16 | a | b) & 0xF200u16 != 0xF200u16
            && (0x3000u16 | a | b) & 0xF400u16 != 0xF400u16
            && (0x3000u16 | a | b) & 0xF800u16 != 0xF800u16
            && (0x3000u16 | a | b) & 0xF100u16 != 0xF100u16
            && (0x3000u16 | a | b) & 0xE300u16 != 0xE300u16
            && (0x3000u16 | a | b) & 0xF000u16 != 0xF000u16
            && (0x3000u16 | a | b) & 0xE100u16 != 0xE100u16
            && (0x3000u16 | a | b) & 0xE200u16 != 0xE200u16
            && (0x3000u16 | a | b) & 0xB000u16 != 0xB000u16
            && (0x3000u16 | a | b) & 0xE000u16 != 0xE000u16
            && (0x3000u16 | a | b) & 0x7000u16 != 0x7000u16
            && (0x3000u16 | a | b) & 0xD000u16 != 0xD000u16
            && (0x3000u16 | a | b) & 0x3000u16 == 0x3000u16
            && (0x3000u16 | a | b) & 0x7FFu16 == a
            && ((0x3000u16 | a | b) & 0x800u16 != 0) == (b == 0x800u16)) by (bit_vector)
            requires
                a <= 0x7FFu16,
                b == 0x800u16 || b == 0u16,
        ;
        assert forall|j: int| 0 <= j < 23 implies !spec_match_at(v, j) by {}
        lemma_first_match_from_is(v, 0, 23);
    } else if i == 24 {
        assert((0x5000u16 | a | b) & 0xFF00u16 != 0xFF00u16
            && (0x5000u16 | a | b) & 0xFE00u16 != 0xFE00u16
            && (0x5000u16 | a | b) & 0xFD00u16 != 0xFD00u16
            && (0x5000u16 | a | b) & 0xF700u16 != 0xF700u16
            && (0x5000u16 | a | b) & 0xFB00u16 != 0xFB00u16
            && (0x5000u16 | a | b) & 0xFC00u16 != 0xFC00u16
            && (0x5000u16 | a | b) & 0xF300u16 != 0xF300u16
            && (0x5000u16 | a | b) & 0xF500u16 != 0xF500u16
            && (0x5000u16 | a | b) & 0xF600u16 != 0xF600u16
            && (0x5000u16 | a | b) & 0xF900u16 != 0xF900u16
            && (0x5000u16 | a | b) & 0xFA00u16 != 0xFA00u16
            && (0x5000u16 | a | b) & 0xF200u16 != 0xF200u16
            && (0x5000u16 | a | b) & 0xF400u16 != 0xF400u16
            && (0x5000u16 | a | b) & 0xF800u16 != 0xF800u16
            && (0x5000u16 | a | b) & 0xF100u16 != 0xF100u16
            && (0x5000u16 | a | b) & 0xE300u16 != 0xE300u16
            && (0x5000u16 | a | b) & 0xF000u16 != 0xF000u16
            && (0x5000u16 | a | b) & 0xE100u16 != 0xE100u16
            && (0x5000u16 | a | b) & 0xE200u16 != 0xE200u16
            && (0x5000u16 | a | b) & 0xB000u16 != 0xB000u16
            && (0x5000u16 | a | b) & 0xE000u16 != 0xE000u16
            && (0x5000u16 | a | b) & 0x7000u16 != 0x7000u16
            && (0x5000u16 | a | b) & 0xD000u16 != 0xD000u16
            && (0x5000u16 | a | b) & 0x3000u16 != 0x3000u16
            && (0x5000u16 | a | b) & 0x5000u16 == 0x5000u16
            && (0x5000u16 | a | b) & 0x7FFu16 == a
            && ((0x5000u16 | a | b) & 0x800u16 != 0) == (b == 0x800u16)) by (bit_vector)
            requires
                a <= 0x7FFu16,
                b == 0x800u16 || b == 0u16,
        ;
        assert forall|j: int| 0 <= j < 24 implies !spec_match_at(v, j) by {}
        lemma_first_match_from_is(v, 0, 24);
    } else if i == 25 {
        assert((0x6000u16 | a | b) & 0xFF00u16 != 0xFF00u16
            && (0x6000u16 | a | b) & 0xFE00u16 != 0xFE00u16
            && (0x6000u16 | a | b) & 0xFD00u16 != 0xFD00u16
            && (0x6000u16 | a | b) & 0xF700u16 != 0xF700u16
            && (0x6000u16 | a | b) & 0xFB00u16 != 0xFB00u16
            && (0x6000u16 | a | b) & 0xFC00u16 != 0xFC00u16
            && (0x6000u16 | a | b) & 0xF300u16 != 0xF300u16
            && (0x6000u16 | a | b) & 0xF500u16 != 0xF500u16
            && (0x6000u16 | a | b) & 0xF600u16 != 0xF600u16
            && (0x6000u16 | a | b) & 0xF900u16 != 0xF900u16
            && (0x6000u16 | a | b) & 0xFA00u16 != 0xFA00u16
            && (0x6000u16 | a | b) & 0xF200u16 != 0xF200u16
            && (0x6000u16 | a | b) & 0xF400u16 != 0xF400u16
            && (0x6000u16 | a | b) & 0xF800u16 != 0xF800u16
            && (0x6000u16 | a | b) & 0xF100u16 != 0xF100u16
            && (0x6000u16 | a | b) & 0xE300u16 != 0xE300u16
            && (0x6000u16 | a | b) & 0xF000u16 != 0xF000u16
            && (0x6000u16 | a | b) & 0xE100u16 != 0xE100u16
            && (0x6000u16 | a | b) & 0xE200u16 != 0xE200u16
            && (0x6000u16 | a | b) & 0xB000u16 != 0xB000u16
            && (0x6000u16 | a | b) & 0xE000u16 != 0xE000u16
            && (0x6000u16 | a | b) & 0x7000u16 != 0x7000u16
            && (0x6000u16 | a | b) & 0xD000u16 != 0xD000u16
            && (0x6000u16 | a | b) & 0x3000u16 != 0x3000u16
            && (0x6000u16 | a | b) & 0x5000u16 != 0x5000u16
            && (0x6000u16 | a | b) & 0x6000u16 == 0x6000u16
            && (0x6000u16 | a | b) & 0x7FFu16 == a
            && ((0x6000u16 | a | b) & 0x800u16 != 0) == (b == 0x800u16)) by (bit_vector)
            requires
                a <= 0x7FFu16,
                b == 0x800u16 || b == 0u16,
        ;
        assert forall|j: int| 0 <= j < 25 implies !spec_match_at(v, j) by {}
        lemma_first_match_from_is(v, 0, 25);
    } else if i == 26 {
        assert((0x9000u16 | a | b) & 0xFF00u16 != 0xFF00u16
            && (0x9000u16 | a | b) & 0xFE00u16 != 0xFE00u16
            && (0x9000u16 | a | b) & 0xFD00u16 != 0xFD00u16
            && (0x9000u16 | a | b) & 0xF700u16 != 0xF700u16
            && (0x9000u16 | a | b) & 0xFB00u16 != 0xFB00u16
            && (0x9000u16 | a | b) & 0xFC00u16 != 0xFC00u16
            && (0x9000u16 | a | b) & 0xF300u16 != 0xF300u16
            && (0x9000u16 | a | b) & 0xF500u16 != 0xF500u16
            && (0x9000u16 | a | b) & 0xF600u16 != 0xF600u16
            && (0x9000u16 | a | b) & 0xF900u16 != 0xF900u16
            && (0x9000u16 | a | b) & 0xFA00u16 != 0xFA00u16
            && (0x9000u16 | a | b) & 0xF200u16 != 0xF200u16
            && (0x9000u16 | a | b) & 0xF400u16 != 0xF400u16
            && (0x9000u16 | a | b) & 0xF800u16 != 0xF800u16
            && (0x9000u16 | a | b) & 0xF100u16 != 0xF100u16
            && (0x9000u16 | a | b) & 0xE300u16 != 0xE300u16
            && (0x9000u16 | a | b) & 0xF000u16 != 0xF000u16
            && (0x9000u16 | a | b) & 0xE100u16 != 0xE100u16
            && (0x9000u16 | a | b) & 0xE200u16 != 0xE200u16
            && (0x9000u16 | a | b) & 0xB000u16 != 0xB000u16
            && (0x9000u16 | a | b) & 0xE000u16 != 0xE000u16
            && (0x9000u16 | a | b) & 0x7000u16 != 0x7000u16
            && (0x9000u16 | a | b) & 0xD000u16 != 0xD000u16
            && (0x9000u16 | a | b) & 0x3000u16 != 0x3000u16
            && (0x9000u16 | a | b) & 0x5000u16 != 0x5000u16
            && (0x9000u16 | a | b) & 0x6000u16 != 0x6000u16
            && (0x9000u16 | a | b) & 0x9000u16 == 0x9000u16
            && (0x9000u16 | a | b) & 0x7FFu16 == a
            && ((0x9000u16 | a | b) & 0x800u16 != 0) == (b == 0x800u16)) by (bit_vector)
            requires
                a <= 0x7FFu16,
                b == 0x800u16 || b == 0u16,
        ;
        assert forall|j: int| 0 <= j < 26 implies !spec_match_at(v, j) by {}
        lemma_first_match_from_is(v, 0, 26);
    } else if i == 27 {
        assert((0xA000u16 | a | b) & 0xFF00u16 != 0xFF00u16
            && (0xA000u16 | a | b) & 0xFE00u16 != 0xFE00u16
            && (0xA000u16 | a | b) & 0xFD00u16 != 0xFD00u16
            && (0xA000u16 | a | b) & 0xF700u16 != 0xF700u16
            && (0xA000u16 | a | b) & 0xFB00u16 != 0xFB00u16
            && (0xA000u16 | a | b) & 0xFC00u16 != 0xFC00u16
            && (0xA000u16 | a | b) & 0xF300u16 != 0xF300u16
            && (0xA000u16 | a | b) & 0xF500u16 != 0xF500u16
            && (0xA000u16 | a | b) & 0xF600u16 != 0xF600u16
            && (0xA000u16 | a | b) & 0xF900u16 != 0xF900u16
            && (0xA000u16 | a | b) & 0xFA00u16 != 0xFA00u16
            && (0xA000u16 | a | b) & 0xF200u16 != 0xF200u16
            && (0xA000u16 | a | b) & 0xF400u16 != 0xF400u16
            && (0xA000u16 | a | b) & 0xF800u16 != 0xF800u16
            && (0xA000u16 | a | b) & 0xF100u16 != 0xF100u16
            && (0xA000u16 | a | b) & 0xE300u16 != 0xE300u16
            && (0xA000u16 | a | b) & 0xF000u16 != 0xF000u16
            && (0xA000u16 | a | b) & 0xE100u16 != 0xE100u16
            && (0xA000u16 | a | b) & 0xE200u16 != 0xE200u16
            && (0xA000u16 | a | b) & 0xB000u16 != 0xB000u16
            && (0xA000u16 | a | b) & 0xE000u16 != 0xE000u16
            && (0xA000u16 | a | b) & 0x7000u16 != 0x7000u16
            && (0xA000u16 | a | b) & 0xD000u16 != 0xD000u16
            && (0xA000u16 | a | b) & 0x3000u16 != 0x3000u16
            && (0xA000u16 | a | b) & 0x5000u16 != 0x5000u16
            && (0xA000u16 | a | b) & 0x6000u16 != 0x6000u16
            && (0xA000u16 | a | b) & 0x9000u16 != 0x9000u16
            && (0xA000u16 | a | b) & 0xA000u16 == 0xA000u16
            && (0xA000u16 | a | b) & 0x7FFu16 == a
            && ((0xA000u16 | a | b) & 0x800u16 != 0) == (b == 0x800u16)) by (bit_vector)
            requires
                a <= 0x7FFu16,
                b == 0x800u16 || b == 0u16,
        ;
        assert forall|j: int| 0 <= j < 27 implies !spec_match_at(v, j) by {}
        lemma_first_match_from_is(v, 0, 27);
    } else if i == 28 {
        assert((0xC000u16 | a | b) & 0xFF00u16 != 0xFF00u16
            && (0xC000u16 | a | b) & 0xFE00u16 != 0xFE00u16
            && (0xC000u16 | a | b) & 0xFD00u16 != 0xFD00u16
            && (0xC000u16 | a | b) & 0xF700u16 != 0xF700u16
            && (0xC000u16 | a | b) & 0xFB00u16 != 0xFB00u16
            && (0xC000u16 | a | b) & 0xFC00u16 != 0xFC00u16
            && (0xC000u16 | a | b) & 0xF300u16 != 0xF300u16
            && (0xC000u16 | a | b) & 0xF500u16 != 0xF500u16
            && (0xC000u16 | a | b) & 0xF600u16 != 0xF600u16
            && (0xC000u16 | a | b) & 0xF900u16 != 0xF900u16
            && (0xC000u16 | a | b) & 0xFA00u16 != 0xFA00u16
            && (0xC000u16 | a | b) & 0xF200u16 != 0xF200u16
            && (0xC000u16 | a | b) & 0xF400u16 != 0xF400u16
            && (0xC000u16 | a | b) & 0xF800u16 != 0xF800u16
            && (0xC000u16 | a | b) & 0xF100u16 != 0xF100u16
            && (0xC000u16 | a | b) & 0xE300u16 != 0xE300u16
            && (0xC000u16 | a | b) & 0xF000u16 != 0xF000u16
            && (0xC000u16 | a | b) & 0xE100u16 != 0xE100u16
            && (0xC000u16 | a | b) & 0xE200u16 != 0xE200u16
            && (0xC000u16 | a | b) & 0xB000u16 != 0xB000u16
            && (0xC000u16 | a | b) & 0xE000u16 != 0xE000u16
            && (0xC000u16 | a | b) & 0x7000u16 != 0x7000u16
            && (0xC000u16 | a | b) & 0xD000u16 != 0xD000u16
            && (0xC000u16 | a | b) & 0x3000u16 != 0x3000u16
            && (0xC000u16 | a | b) & 0x5000u16 != 0x5000u16
            && (0xC000u16 | a | b) & 0x6000u16 != 0x6000u16
            && (0xC000u16 | a | b) & 0x9000u16 != 0x9000u16
            && (0xC000u16 | a | b) & 0xA000u16 != 0xA000u16
            && (0xC000u16 | a | b) & 0xC000u16 == 0xC000u16
            && (0xC000u16 | a | b) & 0x7FFu16 == a
            && ((0xC000u16 | a | b) & 0x800u16 != 0) == (b == 0x800u16)) by (bit_vector)
            requires
                a <= 0x7FFu16,
                b == 0x800u16 || b == 0u16,
        ;
        assert forall|j: int| 0 <= j < 28 implies !spec_match_at(v, j) by {}
        lemma_first_match_from_is(v, 0, 28);
    } else if i == 29 {
        assert((0x1000u16 | a | b) & 0xFF00u16 != 0xFF00u16
            && (0x1000u16 | a | b) & 0xFE00u16 != 0xFE00u16
            && (0x1000u16 | a | b) & 0xFD00u16 != 0xFD00u16
            && (0x1000u16 | a | b) & 0xF700u16 != 0xF700u16
            && (0x1000u16 | a | b) & 0xFB00u16 != 0xFB00u16
            && (0x1000u16 | a | b) & 0xFC00u16 != 0xFC00u16
            && (0x1000u16 | a | b) & 0xF300u16 != 0xF300u16
            && (0x1000u16 | a | b) & 0xF500u16 != 0xF500u16
            && (0x1000u16 | a | b) & 0xF600u16 != 0xF600u16
            && (0x1000u16 | a | b) & 0xF900u16 != 0xF900u16
            && (0x1000u16 | a | b) & 0xFA00u16 != 0xFA00u16
            && (0x1000u16 | a | b) & 0xF200u16 != 0xF200u16
            && (0x1000u16 | a | b) & 0xF400u16 != 0xF400u16
            && (0x1000u16 | a | b) & 0xF800u16 != 0xF800u16
            && (0x1000u16 | a | b) & 0xF100u16 != 0xF100u16
            && (0x1000u16 | a | b) & 0xE300u16 != 0xE300u16
            && (0x1000u16 | a | b) & 0xF000u16 != 0xF000u16
            && (0x1000u16 | a | b) & 0xE100u16 != 0xE100u16
            && (0x1000u16 | a | b) & 0xE200u16 != 0xE200u16
            && (0x1000u16 | a | b) & 0xB000u16 != 0xB000u16
            && (0x1000u16 | a | b) & 0xE000u16 != 0xE000u16
            && (0x1000u16 | a | b) & 0x7000u16 != 0x7000u16
            && (0x1000u16 | a | b) & 0xD000u16 != 0xD000u16
            && (0x1000u16 | a | b) & 0x3000u16 != 0x3000u16
            && (0x1000u16 | a | b) & 0x5000u16 != 0x5000u16
            && (0x1000u16 | a | b) & 0x6000u16 != 0x6000u16
            && (0x1000u16 | a | b) & 0x9000u16 != 0x9000u16
            && (0x1000u16 | a | b) & 0xA000u16 != 0xA000u16
            && (0x1000u16 | a | b) & 0xC000u16 != 0xC000u16
            && (0x1000u16 | a | b) & 0x1000u16 == 0x1000u16
            && (0x1000u16 | a | b) & 0x7FFu16 == a
            && ((0x1000u16 | a | b) & 0x800u16 != 0) == (b == 0x800u16)) by (bit_vector)
            requires
                a <= 0x7FFu16,
                b == 0x800u16 || b == 0u16,
        ;
        assert forall|j: int| 0 <= j < 29 implies !spec_match_at(v, j) by {}
        lemma_first_match_from_is(v, 0, 29);
    } else if i == 30 {
        assert((0x4000u16 | a | b) & 0xFF00u16 != 0xFF00u16
            && (0x4000u16 | a | b) & 0xFE00u16 != 0xFE00u16
            && (0x4000u16 | a | b) & 0xFD00u16 != 0xFD00u16
            && (0x4000u16 | a | b) & 0xF700u16 != 0xF700u16
            && (0x4000u16 | a | b) & 0xFB00u16 != 0xFB00u16
            && (0x4000u16 | a | b) & 0xFC00u16 != 0xFC00u16
            && (0x4000u16 | a | b) & 0xF300u16 != 0xF300u16
            && (0x4000u16 | a | b) & 0xF500u16 != 0xF500u16
            && (0x4000u16 | a | b) & 0xF600u16 != 0xF600u16
            && (0x4000u16 | a | b) & 0xF900u16 != 0xF900u16
            && (0x4000u16 | a | b) & 0xFA00u16 != 0xFA00u16
            && (0x4000u16 | a | b) & 0xF200u16 != 0xF200u16
            && (0x4000u16 | a | b) & 0xF400u16 != 0xF400u16
            && (0x4000u16 | a | b) & 0xF800u16 != 0xF800u16
            && (0x4000u16 | a | b) & 0xF100u16 != 0xF100u16
            && (0x4000u16 | a | b) & 0xE300u16 != 0xE300u16
            && (0x4000u16 | a | b) & 0xF000u16 != 0xF000u16
            && (0x4000u16 | a | b) & 0xE100u16 != 0xE100u16
            && (0x4000u16 | a | b) & 0xE200u16 != 0xE200u16
            && (0x4000u16 | a | b) & 0xB000u16 != 0xB000u16
            && (0x4000u16 | a | b) & 0xE000u16 != 0xE000u16
            && (0x4000u16 | a | b) & 0x7000u16 != 0x7000u16
            && (0x4000u16 | a | b) & 0xD000u16 != 0xD000u16
            && (0x4000u16 | a | b) & 0x3000u16 != 0x3000u16
            && (0x4000u16 | a | b) & 0x5000u16 != 0x5000u16
            && (0x4000u16 | a | b) & 0x6000u16 != 0x6000u16
            && (0x4000u16 | a | b) & 0x9000u16 != 0x9000u16
            && (0x4000u16 | a | b) & 0xA000u16 != 0xA000u16
            && (0x4000u16 | a | b) & 0xC000u16 != 0xC000u16
            && (0x4000u16 | a | b) & 0x1000u16 != 0x1000u16
            && (0x4000u16 | a | b) & 0x4000u16 == 0x4000u16
            && (0x4000u16 | a | b) & 0x7FFu16 == a
            && ((0x4000u16 | a | b) & 0x800u16 != 0) == (b == 0x800u16)) by (bit_vector)
            requires
                a <= 0x7FFu16,
                b == 0x800u16 || b == 0u16,
        ;
        assert forall|j: int| 0 <= j < 30 implies !spec_match_at(v, j) by {}
        lemma_first_match_from_is(v, 0, 30);
    } else if i == 31 {
        assert((0x8000u16 | a | b) & 0xFF00u16 != 0xFF00u16
            && (0x8000u16 | a | b) & 0xFE00u16 != 0xFE00u16
            && (0x8000u16 | a | b) & 0xFD00u16 != 0xFD00u16
            && (0x8000u16 | a | b) & 0xF700u16 != 0xF700u16
            && (0x8000u16 | a | b) & 0xFB00u16 != 0xFB00u16
            && (0x8000u16 | a | b) & 0xFC00u16 != 0xFC00u16
            && (0x8000u16 | a | b) & 0xF300u16 != 0xF300u16
            && (0x8000u16 | a | b) & 0xF500u16 != 0xF500u16
            && (0x8000u16 | a | b) & 0xF600u16 != 0xF600u16
            && (0x8000u16 | a | b) & 0xF900u16 != 0xF900u16
            && (0x8000u16 | a | b) & 0xFA00u16 != 0xFA00u16
            && (0x8000u16 | a | b) & 0xF200u16 != 0xF200u16
            && (0x8000u16 | a | b) & 0xF400u16 != 0xF400u16
            && (0x8000u16 | a | b) & 0xF800u16 != 0xF800u16
            && (0x8000u16 | a | b) & 0xF100u16 != 0xF100u16
            && (0x8000u16 | a | b) & 0xE300u16 != 0xE300u16
            && (0x8000u16 | a | b) & 0xF000u16 != 0xF000u16
            && (0x8000u16 | a | b) & 0xE100u16 != 0xE100u16
            && (0x8000u16 | a | b) & 0xE200u16 != 0xE200u16
            && (0x8000u16 | a | b) & 0xB000u16 != 0xB000u16
            && (0x8000u16 | a | b) & 0xE000u16 != 0xE000u16
            && (0x8000u16 | a | b) & 0x7000u16 != 0x7000u16
            && (0x8000u16 | a | b) & 0xD000u16 != 0xD000u16
            && (0x8000u16 | a | b) & 0x3000u16 != 0x3000u16
            && (0x8000u16 | a | b) & 0x5000u16 != 0x5000u16
            && (0x8000u16 | a | b) & 0x6000u16 != 0x6000u16
            && (0x8000u16 | a | b) & 0x9000u16 != 0x9000u16
            && (0x8000u16 | a | b) & 0xA000u16 != 0xA000u16
            && (0x8000u16 | a | b) & 0xC000u16 != 0xC000u16
            && (0x8000u16 | a | b) & 0x1000u16 != 0x1000u16
            && (0x8000u16 | a | b) & 0x4000u16 != 0x4000u16
            && (0x8000u16 | a | b) & 0x8000u16 == 0x8000u16
            && (0x8000u16 | a | b) & 0x7FFu16 == a
            && ((0x8000u16 | a | b) & 0x800u16 != 0) == (b == 0x800u16)) by (bit_vector)
            requires
                a <= 0x7FFu16,
                b == 0x800u16 || b == 0u16,
        ;
        assert forall|j: int| 0 <= j < 31 implies !spec_match_at(v, j) by {}
        lemma_first_match_from_is(v, 0, 31);
    } else if i == 32 {
        assert((0x2000u16 | a | b) & 0xFF00u16 != 0xFF00u16
            && (0x2000u16 | a | b) & 0xFE00u16 != 0xFE00u16
            && (0x2000u16 | a | b) & 0xFD00u16 != 0xFD00u16
            && (0x2000u16 | a | b) & 0xF700u16 != 0xF700u16
            && (0x2000u16 | a | b) & 0xFB00u16 != 0xFB00u16
            && (0x2000u16 | a | b) & 0xFC00u16 != 0xFC00u16
            && (0x2000u16 | a | b) & 0xF300u16 != 0xF300u16
            && (0x2000u16 | a | b) & 0xF500u16 != 0xF500u16
            && (0x2000u16 | a | b) & 0xF600u16 != 0xF600u16
            && (0x2000u16 | a | b) & 0xF900u16 != 0xF900u16
            && (0x2000u16 | a | b) & 0xFA00u16 != 0xFA00u16
            && (0x2000u16 | a | b) & 0xF200u16 != 0xF200u16
            && (0x2000u16 | a | b) & 0xF400u16 != 0xF400u16
            && (0x2000u16 | a | b) & 0xF800u16 != 0xF800u16
            && (0x2000u16 | a | b) & 0xF100u16 != 0xF100u16
            && (0x2000u16 | a | b) & 0xE300u16 != 0xE300u16
            && (0x2000u16 | a | b) & 0xF000u16 != 0xF000u16
            && (0x2000u16 | a | b) & 0xE100u16 != 0xE100u16
            && (0x2000u16 | a | b) & 0xE200u16 != 0xE200u16
            && (0x2000u16 | a | b) & 0xB000u16 != 0xB000u16
            && (0x2000u16 | a | b) & 0xE000u16 != 0xE000u16
            && (0x2000u16 | a | b) & 0x7000u16 != 0x7000u16
            && (0x2000u16 | a | b) & 0xD000u16 != 0xD000u16
            && (0x2000u16 | a | b) & 0x3000u16 != 0x3000u16
            && (0x2000u16 | a | b) & 0x5000u16 != 0x5000u16
            && (0x2000u16 | a | b) & 0x6000u16 != 0x6000u16
            && (0x2000u16 | a | b) & 0x9000u16 != 0x9000u16
            && (0x2000u16 | a | b) & 0xA000u16 != 0xA000u16
            && (0x2000u16 | a | b) & 0xC000u16 != 0xC000u16
            && (0x2000u16 | a | b) & 0x1000u16 != 0x1000u16
            && (0x2000u16 | a | b) & 0x4000u16 != 0x4000u16
            && (0x2000u16 | a | b) & 0x8000u16 != 0x8000u16
            && (0x2000u16 | a | b) & 0x2000u16 == 0x2000u16
            && (0x2000u16 | a | b) & 0x7FFu16 == a
            && ((0x2000u16 | a | b) & 0x800u16 != 0) == (b == 0x800u16)) by (bit_vector)
            requires
                a <= 0x7FFu16,
                b == 0x800u16 || b == 0u16,
        ;
        assert forall|j: int| 0 <= j < 32 implies !spec_match_at(v, j) by {}
        lemma_first_match_from_is(v, 0, 32);
    } else if i == 33 {
        assert((0x0000u16 | a | b) & 0xFF00u16 != 0xFF00u16
            && (0x0000u16 | a | b) & 0xFE00u16 != 0xFE00u16
            && (0x0000u16 | a | b) & 0xFD00u16 != 0xFD00u16
            && (0x0000u16 | a | b) & 0xF700u16 != 0xF700u16
            && (0x0000u16 | a | b) & 0xFB00u16 != 0xFB00u16
            && (0x0000u16 | a | b) & 0xFC00u16 != 0xFC00u16
            && (0x0000u16 | a | b) & 0xF300u16 != 0xF300u16
            && (0x0000u16 | a | b) & 0xF500u16 != 0xF500u16
            && (0x0000u16 | a | b) & 0xF600u16 != 0xF600u16
            && (0x0000u16 | a | b) & 0xF900u16 != 0xF900u16
            && (0x0000u16 | a | b) & 0xFA00u16 != 0xFA00u16
            && (0x0000u16 | a | b) & 0xF200u16 != 0xF200u16
            && (0x0000u16 | a | b) & 0xF400u16 != 0xF400u16
            && (0x0000u16 | a | b) & 0xF800u16 != 0xF800u16
            && (0x0000u16 | a | b) & 0xF100u16 != 0xF100u16
            && (0x0000u16 | a | b) & 0xE300u16 != 0xE300u16
            && (0x0000u16 | a | b) & 0xF000u16 != 0xF000u16
            && (0x0000u16 | a | b) & 0xE100u16 != 0xE100u16
            && (0x0000u16 | a | b) & 0xE200u16 != 0xE200u16
            && (0x0000u16 | a | b) & 0xB000u16 != 0xB000u16
            && (0x0000u16 | a | b) & 0xE000u16 != 0xE000u16
            && (0x0000u16 | a | b) & 0x7000u16 != 0x7000u16
            && (0x0000u16 | a | b) & 0xD000u16 != 0xD000u16
            && (0x0000u16 | a | b) & 0x3000u16 != 0x3000u16
            && (0x0000u16 | a | b) & 0x5000u16 != 0x5000u16
            && (0x0000u16 | a | b) & 0x6000u16 != 0x6000u16
            && (0x0000u16 | a | b) & 0x9000u16 != 0x9000u16
            && (0x0000u16 | a | b) & 0xA000u16 != 0xA000u16
            && (0x0000u16 | a | b) & 0xC000u16 != 0xC000u16
            && (0x0000u16 | a | b) & 0x1000u16 != 0x1000u16
            && (0x0000u16 | a | b) & 0x4000u16 != 0x4000u16
            && (0x0000u16 | a | b) & 0x8000u16 != 0x8000u16
            && (0x0000u16 | a | b) & 0x2000u16 != 0x2000u16
            && (0x0000u16 | a | b) & 0x0000u16 == 0x0000u16
            && (0x0000u16 | a | b) & 0x7FFu16 == a
            && ((0x0000u16 | a | b) & 0x800u16 != 0) == (b == 0x800u16)) by (bit_vector)
            requires
                a <= 0x7FFu16,
                b == 0x800u16 || b == 0u16,
        ;
        assert forall|j: int| 0 <= j < 33 implies !spec_match_at(v, j) by {}
        lemma_first_match_from_is(v, 0, 33);
    } else {
        assert(false);
    }
}

/// The number of set bits in a 4-bit value.
pub open spec fn nibble_ones(x: u16) -> nat {
    if x == 0 {
        0
    } else if x == 1 {
        1
    } else if x == 2 {
        1
    } else if x == 3 {
        2
    } else if x == 4 {
        1
    } else if x == 5 {
        2
    } else if x == 6 {
        2
    } else if x == 7 {
        3
    } else if x == 8 {
        1
    } else if x == 9 {
        2
    } else if x == 10 {
        2
    } else if x == 11 {
        3
    } else if x == 12 {
        2
    } else if x == 13 {
        3
    } else if x == 14 {
        3
    } else {
        4
    }
}

/// The number of set bits in a 16-bit word, nibble by nibble.
pub open spec fn popcount16(x: u16) -> nat {
    nibble_ones((x >> 12) & 0xF) + nibble_ones((x >> 8) & 0xF) + nibble_ones((x >> 4) & 0xF)
        + nibble_ones(x & 0xF)
}

/// The table stands in decoding priority order: sorted by descending
/// popcount of the mask, most specific first, ties resolved by the
/// fixed order.
#[verifier::rlimit(100)]
pub proof fn lemma_table_sorted_by_popcount(i: int, j: int)
    requires
        0 <= i <= j < TABLE_LEN as int,
    ensures
        popcount16(table_mask(i)) >= popcount16(table_mask(j)),
{
    assert((0xFF00u16 >> 12) & 0xF == 15 && (0xFF00u16 >> 8) & 0xF == 15 && (0xFF00u16 >> 4) & 0xF == 0 && 0xFF00u16 & 0xF == 0
            && (0xFE00u16 >> 12) & 0xF == 15 && (0xFE00u16 >> 8) & 0xF == 14 && (0xFE00u16 >> 4) & 0xF == 0 && 0xFE00u16 & 0xF == 0
            && (0xFD00u16 >> 12) & 0xF == 15 && (0xFD00u16 >> 8) & 0xF == 13 && (0xFD00u16 >> 4) & 0xF == 0 && 0xFD00u16 & 0xF == 0
            && (0xF700u16 >> 12) & 0xF == 15 && (0xF700u16 >> 8) & 0xF == 7 && (0xF700u16 >> 4) & 0xF == 0 && 0xF700u16 & 0xF == 0
            && (0xFB00u16 >> 12) & 0xF == 15 && (0xFB00u16 >> 8) & 0xF == 11 && (0xFB00u16 >> 4) & 0xF == 0 && 0xFB00u16 & 0xF == 0
            && (0xFC00u16 >> 12) & 0xF == 15 && (0xFC00u16 >> 8) & 0xF == 12 && (0xFC00u16 >> 4) & 0xF == 0 && 0xFC00u16 & 0xF == 0
            && (0xF300u16 >> 12) & 0xF == 15 && (0xF300u16 >> 8) & 0xF == 3 && (0xF300u16 >> 4) & 0xF == 0 && 0xF300u16 & 0xF == 0
            && (0xF500u16 >> 12) & 0xF == 15 && (0xF500u16 >> 8) & 0xF == 5 && (0xF500u16 >> 4) & 0xF == 0 && 0xF500u16 & 0xF == 0
            && (0xF600u16 >> 12) & 0xF == 15 && (0xF600u16 >> 8) & 0xF == 6 && (0xF600u16 >> 4) & 0xF == 0 && 0xF600u16 & 0xF == 0
            && (0xF900u16 >> 12) & 0xF == 15 && (0xF900u16 >> 8) & 0xF == 9 && (0xF900u16 >> 4) & 0xF == 0 && 0xF900u16 & 0xF == 0
            && (0xFA00u16 >> 12) & 0xF == 15 && (0xFA00u16 >> 8) & 0xF == 10 && (0xFA00u16 >> 4) & 0xF == 0 && 0xFA00u16 & 0xF == 0
            && (0xF200u16 >> 12) & 0xF == 15 && (0xF200u16 >> 8) & 0xF == 2 && (0xF200u16 >> 4) & 0xF == 0 && 0xF200u16 & 0xF == 0
            && (0xF400u16 >> 12) & 0xF == 15 && (0xF400u16 >> 8) & 0xF == 4 && (0xF400u16 >> 4) & 0xF == 0 && 0xF400u16 & 0xF == 0
            && (0xF800u16 >> 12) & 0xF == 15 && (0xF800u16 >> 8) & 0xF == 8 && (0xF800u16 >> 4) & 0xF == 0 && 0xF800u16 & 0xF == 0
            && (0xF100u16 >> 12) & 0xF == 15 && (0xF100u16 >> 8) & 0xF == 1 && (0xF100u16 >> 4) & 0xF == 0 && 0xF100u16 & 0xF == 0
            && (0xE300u16 >> 12) & 0xF == 14 && (0xE300u16 >> 8) & 0xF == 3 && (0xE300u16 >> 4) & 0xF == 0 && 0xE300u16 & 0xF == 0
            && (0xF000u16 >> 12) & 0xF == 15 && (0xF000u16 >> 8) & 0xF == 0 && (0xF000u16 >> 4) & 0xF == 0 && 0xF000u16 & 0xF == 0
            && (0xE100u16 >> 12) & 0xF == 14 && (0xE100u16 >> 8) & 0xF == 1 && (0xE100u16 >> 4) & 0xF == 0 && 0xE100u16 & 0xF == 0
            && (0xE200u16 >> 12) & 0xF == 14 && (0xE200u16 >> 8) & 0xF == 2 && (0xE200u16 >> 4) & 0xF == 0 && 0xE200u16 & 0xF == 0
            && (0xB000u16 >> 12) & 0xF == 11 && (0xB000u16 >> 8) & 0xF == 0 && (0xB000u16 >> 4) & 0xF == 0 && 0xB000u16 & 0xF == 0
            && (0xE000u16 >> 12) & 0xF == 14 && (0xE000u16 >> 8) & 0xF == 0 && (0xE000u16 >> 4) & 0xF == 0 && 0xE000u16 & 0xF == 0
            && (0x7000u16 >> 12) & 0xF == 7 && (0x7000u16 >> 8) & 0xF == 0 && (0x7000u16 >> 4) & 0xF == 0 && 0x7000u16 & 0xF == 0
            && (0xD000u16 >> 12) & 0xF == 13 && (0xD000u16 >> 8) & 0xF == 0 && (0xD000u16 >> 4) & 0xF == 0 && 0xD000u16 & 0xF == 0
            && (0x3000u16 >> 12) & 0xF == 3 && (0x3000u16 >> 8) & 0xF == 0 && (0x3000u16 >> 4) & 0xF == 0 && 0x3000u16 & 0xF == 0
            && (0x5000u16 >> 12) & 0xF == 5 && (0x5000u16 >> 8) & 0xF == 0 && (0x5000u16 >> 4) & 0xF == 0 && 0x5000u16 & 0xF == 0
            && (0x6000u16 >> 12) & 0xF == 6 && (0x6000u16 >> 8) & 0xF == 0 && (0x6000u16 >> 4) & 0xF == 0 && 0x6000u16 & 0xF == 0
            && (0x9000u16 >> 12) & 0xF == 9 && (0x9000u16 >> 8) & 0xF == 0 && (0x9000u16 >> 4) & 0xF == 0 && 0x9000u16 & 0xF == 0
            && (0xA000u16 >> 12) & 0xF == 10 && (0xA000u16 >> 8) & 0xF == 0 && (0xA000u16 >> 4) & 0xF == 0 && 0xA000u16 & 0xF == 0
            && (0xC000u16 >> 12) & 0xF == 12 && (0xC000u16 >> 8) & 0xF == 0 && (0xC000u16 >> 4) & 0xF == 0 && 0xC000u16 & 0xF == 0
            && (0x1000u16 >> 12) & 0xF == 1 && (0x1000u16 >> 8) & 0xF == 0 && (0x1000u16 >> 4) & 0xF == 0 && 0x1000u16 & 0xF == 0
            && (0x4000u16 >> 12) & 0xF == 4 && (0x4000u16 >> 8) & 0xF == 0 && (0x4000u16 >> 4) & 0xF == 0 && 0x4000u16 & 0xF == 0
            && (0x8000u16 >> 12) & 0xF == 8 && (0x8000u16 >> 8) & 0xF == 0 && (0x8000u16 >> 4) & 0xF == 0 && 0x8000u16 & 0xF == 0
            && (0x2000u16 >> 12) & 0xF == 2 && (0x2000u16 >> 8) & 0xF == 0 && (0x2000u16 >> 4) & 0xF == 0 && 0x2000u16 & 0xF == 0
            && (0x0000u16 >> 12) & 0xF == 0 && (0x0000u16 >> 8) & 0xF == 0 && (0x0000u16 >> 4) & 0xF == 0 && 0x0000u16 & 0xF == 0) by (bit_vector);
}

/// Decoding precedence: the pattern the priority scan picks has the
/// greatest mask popcount among all patterns the opcode matches (with
/// the fixed order deciding ties), and no earlier pattern matches.
pub proof fn lemma_first_match_most_specific(v: u16, j: int)
    requires
        0 <= j < TABLE_LEN as int,
        spec_match_at(v, j),
    ensures
        spec_first_match(v) <= j,
        popcount16(table_mask(spec_first_match(v))) >= popcount16(table_mask(j)),
{
    lemma_first_match_props(v);
    lemma_table_sorted_by_popcount(spec_first_match(v), j);
}

/// Every table mnemonic is non-empty and contains no whitespace.
#[verifier::rlimit(100)]
pub proof fn lemma_table_name_wellformed(i: int)
    requires
        0 <= i < TABLE_LEN as int,
    ensures
        table_name(i).len() > 0,
        forall|j: int| 0 <= j < table_name(i).len() ==> !is_space_char(#[trigger] table_name(i)[j]),
{
    reveal_strlit("HZF");
    reveal_strlit("HZE");
    reveal_strlit("HZD");
    reveal_strlit("ROR");
    reveal_strlit("DI");
    reveal_strlit("HZC");
    reveal_strlit("CLC");
    reveal_strlit("CMC");
    reveal_strlit("ROL");
    reveal_strlit("DEC");
    reveal_strlit("EI");
    reveal_strlit("CLA");
    reveal_strlit("CMA");
    reveal_strlit("INC");
    reveal_strlit("NOP");
    reveal_strlit("OUT");
    reveal_strlit("HLT");
    reveal_strlit("TSF");
    reveal_strlit("IN");
    reveal_strlit("BEQ");
    reveal_strlit("CLF");
    reveal_strlit("HZA7");
    reveal_strlit("HZAD");
    reveal_strlit("MOV");
    reveal_strlit("ADC");
    reveal_strlit("SUB");
    reveal_strlit("BPL");
    reveal_strlit("BMI");
    reveal_strlit("BR");
    reveal_strlit("AND");
    reveal_strlit("ADD");
    reveal_strlit("BCS");
    reveal_strlit("JSR");
    reveal_strlit("ISZ");
}

/// The assembler direction inverts the rendered operand line for one
/// operand-taking pattern: trimming, splitting, the parenthesis rule
/// and hexadecimal reading give back exactly the opcode the encoder
/// builds from mask, operand and addressing mode.
proof fn lemma_operand_line_rev_parse(
    kind: CommandType,
    mask: u16,
    name: Seq<char>,
    a: u16,
    indirect: bool,
)
    requires
        !(kind is Simple),
        name.len() > 0,
        forall|j: int| 0 <= j < name.len() ==> !is_space_char(#[trigger] name[j]),
        kind is Address ==> a <= 0x7FF,
        kind is IO ==> a <= 0xF,
    ensures
        spec_cmd_rev_parse(kind, mask, name, spec_render_operand(name, a, indirect)) == Ok::<
            u16,
            EncodeError,
        >(mask | a | (if indirect { 0x800u16 } else { 0u16 })),
        spec_trim(spec_render_operand(name, a, indirect)) == spec_render_operand(
            name,
            a,
            indirect,
        ),
        spec_split(spec_render_operand(name, a, indirect)).len() >= 1,
        spec_split(spec_render_operand(name, a, indirect))[0] == name,
{
    reveal_strlit(" ");
    reveal_strlit(" (");
    reveal_strlit(")");
    let t = spec_render_operand(name, a, indirect);
    let h = spec_hex3(a);
    let n = name.len() as int;
    assert((a >> 8) & 0xF < 16 && (a >> 4) & 0xF < 16 && a & 0xF < 16) by (bit_vector);
    lemma_hex_digit_round_trip((a >> 8) & 0xF);
    lemma_hex_digit_round_trip((a >> 4) & 0xF);
    lemma_hex_digit_round_trip(a & 0xF);
    lemma_hex3_round_trip(a);
    let opnd: Seq<char> = if indirect {
        seq!['('] + h + seq![')']
    } else {
        h
    };
    assert(t =~= name + seq![' '] + opnd);
    // No character of the line past the mnemonic is a space, and the
    // mnemonic itself has none: the first space splits name from operand.
    assert forall|j: int| 0 <= j < opnd.len() implies !is_space_char(#[trigger] opnd[j]) by {
        if indirect {
            if 1 <= j < 4 {
                assert(opnd[j] == h[j - 1]);
            }
        }
    }
    assert(forall|j: int| 0 <= j < n ==> t[j] == name[j]);
    assert(t[n] == ' ');
    assert(forall|j: int| n + 1 <= j < t.len() ==> t[j] == opnd[j - n - 1]);
    // The line is already trimmed.
    assert(!is_space_char(t[0]));
    assert(spec_trim_start(t) == t);
    assert(t.last() == opnd.last());
    assert(!is_space_char(t.last()));
    assert(spec_trim_end(t) == t);
    assert(spec_trim(t) == t);
    // It splits into exactly the mnemonic and the operand token.
    assert forall|j: int| 0 <= j < n implies t[j] != ' ' by {
        assert(!is_space_char(name[j]));
    }
    lemma_first_space_is(t, n);
    assert(t.subrange(0, n) =~= name);
    let rest = t.subrange(n + 1, t.len() as int);
    assert(rest =~= opnd);
    assert forall|j: int| 0 <= j < opnd.len() implies opnd[j] != ' ' by {
        assert(!is_space_char(opnd[j]));
    }
    lemma_first_space_is(opnd, opnd.len() as int);
    assert(spec_split(opnd) =~~= seq![opnd]);
    let toks = spec_split(t);
    assert(toks =~~= seq![name, opnd]);
    // The operand token is itself trimmed, and the parenthesis rule
    // recognises the addressing mode.
    assert(spec_trim_start(opnd) == opnd);
    assert(spec_trim_end(opnd) == opnd);
    assert(spec_trim(toks[1]) == opnd);
    if indirect {
        assert(opnd[0] == '(');
        assert(opnd.last() == ')');
        assert(opnd.subrange(1, opnd.len() - 1) =~= h);
        assert(spec_parse_hex(opnd.subrange(1, opnd.len() - 1)) == Some(a));
    } else {
        assert(opnd[0] == h[0]);
        assert(opnd[0] != '(');
        assert(spec_parse_hex(opnd) == Some(a));
    }
    assert(mask | a | 0u16 == mask | a) by (bit_vector);
}

/// Every table mnemonic is its own upper-case form: upper-casing the
/// first token of an input line cannot miss it.
#[verifier::rlimit(100)]
pub proof fn lemma_table_name_uppercase(i: int)
    requires
        0 <= i < TABLE_LEN as int,
    ensures
        spec_to_upper(table_name(i)) == table_name(i),
{
    reveal_strlit("HZF");
    reveal_strlit("HZE");
    reveal_strlit("HZD");
    reveal_strlit("ROR");
    reveal_strlit("DI");
    reveal_strlit("HZC");
    reveal_strlit("CLC");
    reveal_strlit("CMC");
    reveal_strlit("ROL");
    reveal_strlit("DEC");
    reveal_strlit("EI");
    reveal_strlit("CLA");
    reveal_strlit("CMA");
    reveal_strlit("INC");
    reveal_strlit("NOP");
    reveal_strlit("OUT");
    reveal_strlit("HLT");
    reveal_strlit("TSF");
    reveal_strlit("IN");
    reveal_strlit("BEQ");
    reveal_strlit("CLF");
    reveal_strlit("HZA7");
    reveal_strlit("HZAD");
    reveal_strlit("MOV");
    reveal_strlit("ADC");
    reveal_strlit("SUB");
    reveal_strlit("BPL");
    reveal_strlit("BMI");
    reveal_strlit("BR");
    reveal_strlit("AND");
    reveal_strlit("ADD");
    reveal_strlit("BCS");
    reveal_strlit("JSR");
    reveal_strlit("ISZ");
    let n = table_name(i);
    assert forall|j: int| 0 <= j < n.len() implies spec_to_upper(n)[j] == n[j] by {
        assert(spec_to_upper(n)[j] == crate::text::spec_upper_char(n[j]));
    }
    assert(spec_to_upper(n) =~= n);
}

/// No two table entries share a mnemonic.
#[verifier::rlimit(100)]
proof fn lemma_table_names_distinct(i: int, j: int)
    requires
        0 <= i < TABLE_LEN as int,
        0 <= j < TABLE_LEN as int,
        i != j,
    ensures
        table_name(i) != table_name(j),
{
    reveal_strlit("HZF");
    reveal_strlit("HZE");
    reveal_strlit("HZD");
    reveal_strlit("ROR");
    reveal_strlit("DI");
    reveal_strlit("HZC");
    reveal_strlit("CLC");
    reveal_strlit("CMC");
    reveal_strlit("ROL");
    reveal_strlit("DEC");
    reveal_strlit("EI");
    reveal_strlit("CLA");
    reveal_strlit("CMA");
    reveal_strlit("INC");
    reveal_strlit("NOP");
    reveal_strlit("OUT");
    reveal_strlit("HLT");
    reveal_strlit("TSF");
    reveal_strlit("IN");
    reveal_strlit("BEQ");
    reveal_strlit("CLF");
    reveal_strlit("HZA7");
    reveal_strlit("HZAD");
    reveal_strlit("MOV");
    reveal_strlit("ADC");
    reveal_strlit("SUB");
    reveal_strlit("BPL");
    reveal_strlit("BMI");
    reveal_strlit("BR");
    reveal_strlit("AND");
    reveal_strlit("ADD");
    reveal_strlit("BCS");
    reveal_strlit("JSR");
    reveal_strlit("ISZ");
    let ni = table_name(i);
    let nj = table_name(j);
    if ni == nj {
        assert(ni.len() == nj.len());
        assert(ni[0] == nj[0]);
        assert(ni[1] == nj[1]);
        assert(ni[2] == nj[2]);
        assert(ni[3] == nj[3]);
        assert(false);
    }
}

/// The table's mnemonics are distinct: looking a mnemonic up finds
/// exactly the entry that carries it.
#[verifier::rlimit(100)]
pub proof fn lemma_find_table_name(i: int)
    requires
        0 <= i < TABLE_LEN as int,
    ensures
        spec_find_name(table_name(i)) == i,
{
    assert forall|j: int| 0 <= j < i implies table_name(j) != table_name(i) by {
        lemma_table_names_distinct(j, i);
    }
    lemma_find_name_is(table_name(i), i);
}

/// The round trip at the text level, through the whole assembler
/// direction: rendering an operand-taking instruction and handing the
/// line back to the codec returns exactly the encoded opcode — the
/// mnemonic lookup finds the same pattern, and the operand and
/// addressing mode are read back unchanged. With the opcode-level
/// round-trip law, decode and encode invert each other on every
/// operand-taking pattern, in-range operand and addressing mode.
pub proof fn lemma_encode_line_round_trip(i: int, addr: u16, indirect: bool)
    requires
        0 <= i < TABLE_LEN as int,
        !(table_kind(i) is Simple),
        table_kind(i) is Address ==> addr <= 0x7FF,
        table_kind(i) is IO ==> addr <= 0xF,
    ensures
        spec_rev_parse_general(spec_render_operand(table_name(i), addr, indirect)) == Ok::<
            u16,
            EncodeError,
        >(table_mask(i) | addr | (if indirect { 0x800u16 } else { 0u16 })),
{
    lemma_table_name_wellformed(i);
    lemma_operand_line_rev_parse(table_kind(i), table_mask(i), table_name(i), addr, indirect);
    lemma_table_name_uppercase(i);
    lemma_find_table_name(i);
    let t = spec_render_operand(table_name(i), addr, indirect);
    assert(spec_trim(t).len() > 0);
    assert(spec_to_upper(spec_split(t)[0]) == table_name(i));
}

} // verus!
