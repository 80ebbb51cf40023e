//! The codec interface: a parser renders a raw opcode as text, and may
//! also translate text back into an opcode (the assembler direction).

use vstd::prelude::*;

verus! {

/// Why the assembler direction rejected its input.
#[derive(Clone, Copy, PartialEq, Eq, Structural, Debug)]
pub enum EncodeError {
    /// The input held nothing but whitespace.
    EmptyInput,
    /// The first token names no instruction of the table.
    UnknownMnemonic,
    /// A no-operand instruction was given an operand.
    TakesNoArguments,
    /// An operand-taking instruction was given none.
    MissingParameter,
    /// More than one operand token was given.
    ExtraTokens,
    /// An operand opened a parenthesis it never closed.
    UnclosedParenthesis,
    /// The operand is not a hexadecimal number that fits 16 bits.
    BadNumber,
    /// The address operand exceeds the 11-bit address space.
    AddressTooLarge,
    /// The device operand exceeds the 4-bit device range.
    DeviceTooLarge,
    /// This codec has no assembler direction.
    Unsupported,
}

/// The description `message` returns for each error.
pub open spec fn spec_message(e: EncodeError) -> Seq<char> {
    match e {
        EncodeError::EmptyInput => "empty input"@,
        EncodeError::UnknownMnemonic => "unknown mnemonic"@,
        EncodeError::TakesNoArguments => "this instruction takes no arguments"@,
        EncodeError::MissingParameter => "expected a mnemonic and one operand"@,
        EncodeError::ExtraTokens => "unexpected extra tokens"@,
        EncodeError::UnclosedParenthesis => "unclosed parenthesis"@,
        EncodeError::BadNumber => "the operand is not a hexadecimal number"@,
        EncodeError::AddressTooLarge => "the largest addressable cell is 7FF"@,
        EncodeError::DeviceTooLarge => "the largest addressable device is F"@,
        EncodeError::Unsupported => "this codec cannot assemble text"@,
    }
}

impl EncodeError {
    /// A short description of the error, for display.
    pub fn message(&self) -> (r: &'static str)
        ensures
            r@ == spec_message(*self),
    {
        match self {
            EncodeError::EmptyInput => "empty input",
            EncodeError::UnknownMnemonic => "unknown mnemonic",
            EncodeError::TakesNoArguments => "this instruction takes no arguments",
            EncodeError::MissingParameter => "expected a mnemonic and one operand",
            EncodeError::ExtraTokens => "unexpected extra tokens",
            EncodeError::UnclosedParenthesis => "unclosed parenthesis",
            EncodeError::BadNumber => "the operand is not a hexadecimal number",
            EncodeError::AddressTooLarge => "the largest addressable cell is 7FF",
            EncodeError::DeviceTooLarge => "the largest addressable device is F",
            EncodeError::Unsupported => "this codec cannot assemble text",
        }
    }
}

/// One decoded instruction: enough to render itself as display text or
/// in the memory-dump file form.
pub trait CommandInfo: Sized {
    /// The decoded value is consistent with the codec that produced it.
    spec fn wf(&self) -> bool;

    /// The raw opcode this value decodes.
    spec fn spec_opcode(&self) -> u16;

    /// The display text, as a sequence of characters.
    spec fn spec_mnemonic(&self) -> Seq<char>;

    /// The file-dump text, as a sequence of characters.
    spec fn spec_file_string(&self) -> Seq<char>;

    /// The display text: mnemonic, and the operand where there is one.
    fn mnemonic(&self) -> (r: String)
        requires
            self.wf(),
        ensures
            r@ == self.spec_mnemonic(),
    ;

    /// The file-dump text of the instruction.
    fn file_string(&self) -> (r: String)
        requires
            self.wf(),
        ensures
            r@ == self.spec_file_string(),
    ;
}

/// A bidirectional instruction codec over 16-bit opcodes.
pub trait Parser<T: CommandInfo>: Sized {
    /// The codec's own tables are as constructed.
    spec fn wf(&self) -> bool;

    /// The display text this codec gives to `opcode`.
    spec fn spec_mnemonic_render(&self, opcode: u16) -> Seq<char>;

    /// The file-dump text this codec gives to `opcode`.
    spec fn spec_file_render(&self, opcode: u16) -> Seq<char>;

    /// What the assembler direction returns on input `s`.
    spec fn spec_rev_parse(&self, s: Seq<char>) -> Result<u16, EncodeError>;

    /// Whether this codec has an assembler direction.
    spec fn spec_supports_rev_parse(&self) -> bool;

    /// Decodes a raw opcode; total over all 16-bit words.
    fn parse(&self, opcode: u16) -> (r: T)
        requires
            self.wf(),
        ensures
            r.wf(),
            r.spec_opcode() == opcode,
            r.spec_mnemonic() == self.spec_mnemonic_render(opcode),
            r.spec_file_string() == self.spec_file_render(opcode),
    ;

    /// Whether the codec has an assembler direction.
    fn supports_rev_parse(&self) -> (r: bool)
        ensures
            r == self.spec_supports_rev_parse(),
    ;

    /// Translates text back into an opcode.
    fn rev_parse(&self, s: &str) -> (r: Result<u16, EncodeError>)
        requires
            self.wf(),
        ensures
            r == self.spec_rev_parse(s@),
    ;
}

} // verus!
