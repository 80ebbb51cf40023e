use bevm::general::CommandParser;
use bevm::micro::MicroParser;
use bevm::parse::{CommandInfo, EncodeError, Parser};

#[test]
fn test() {
    let parser = CommandParser::new();

    assert_eq!(parser.parse(0xF700).mnemonic(), "ROR");
    assert_eq!(parser.parse(0x3024).mnemonic(), "MOV 024");
}

#[test]
fn decode_priority_ror_wins() {
    let parser = CommandParser::new();
    // 0xF700 also has every bit of the broader address masks set, but
    // the most specific pattern must win.
    assert_eq!(parser.parse(0xF700).mnemonic(), "ROR");
    assert_eq!(parser.parse(0xF700).file_string(), "ROR");
}

#[test]
fn decode_keeps_the_raw_opcode() {
    let parser = CommandParser::new();
    assert_eq!(parser.parse(0x3024).opcode(), 0x3024);
    assert_eq!(parser.parse(0xF700).opcode(), 0xF700);
}

#[test]
fn decode_all_simple_mnemonics() {
    let parser = CommandParser::new();
    let cases: Vec<(u16, &str)> = vec![
        (0xF000, "HLT"),
        (0xF100, "NOP"),
        (0xF200, "CLA"),
        (0xF300, "CLC"),
        (0xF400, "CMA"),
        (0xF500, "CMC"),
        (0xF600, "ROL"),
        (0xF700, "ROR"),
        (0xF800, "INC"),
        (0xF900, "DEC"),
        (0xFA00, "EI"),
        (0xFB00, "DI"),
        (0xFC00, "HZC"),
        (0xFD00, "HZD"),
        (0xFE00, "HZE"),
        (0xFF00, "HZF"),
    ];
    for (opcode, name) in cases {
        assert_eq!(parser.parse(opcode).mnemonic(), name);
    }
}

#[test]
fn round_trip_address_and_io() {
    let parser = CommandParser::new();
    let addr_mnemonics = vec![
        "ISZ", "AND", "JSR", "MOV", "ADD", "ADC", "SUB", "HZA7", "BCS", "BPL", "BMI", "BEQ",
        "BR", "HZAD",
    ];
    let io_mnemonics = vec!["CLF", "TSF", "IN", "OUT"];
    for name in addr_mnemonics {
        for addr in [0u16, 1, 0x24, 0x7FF] {
            let direct = format!("{} {:X}", name, addr);
            let opcode = parser.rev_parse(&direct).unwrap();
            assert_eq!(
                parser.parse(opcode).mnemonic(),
                format!("{} {:0>3X}", name, addr)
            );
            let indirect = format!("{} ({:X})", name, addr);
            let opcode = parser.rev_parse(&indirect).unwrap();
            assert_eq!(
                parser.parse(opcode).mnemonic(),
                format!("{} ({:0>3X})", name, addr)
            );
        }
    }
    for name in io_mnemonics {
        for dev in [0u16, 1, 0xF] {
            let direct = format!("{} {:X}", name, dev);
            let opcode = parser.rev_parse(&direct).unwrap();
            assert_eq!(
                parser.parse(opcode).mnemonic(),
                format!("{} {:0>3X}", name, dev)
            );
        }
    }
}

#[test]
fn encode_concrete_opcodes() {
    let parser = CommandParser::new();
    assert_eq!(parser.rev_parse("MOV 24"), Ok(0x3024));
    assert_eq!(parser.rev_parse("MOV (24)"), Ok(0x3824));
    assert_eq!(parser.rev_parse("ROR"), Ok(0xF700));
    assert_eq!(parser.rev_parse("HLT"), Ok(0xF000));
    assert_eq!(parser.rev_parse("OUT 3"), Ok(0xE303));
    assert_eq!(parser.rev_parse("ISZ 7FF"), Ok(0x07FF));
}

#[test]
fn encode_is_case_insensitive_in_mnemonic_and_operand() {
    let parser = CommandParser::new();
    assert_eq!(parser.rev_parse("mov 7ff"), Ok(0x37FF));
    assert_eq!(parser.rev_parse("ror"), Ok(0xF700));
}

#[test]
fn encode_missing_parameter() {
    let parser = CommandParser::new();
    assert_eq!(parser.rev_parse("MOV"), Err(EncodeError::MissingParameter));
}

#[test]
fn encode_device_out_of_range() {
    let parser = CommandParser::new();
    assert_eq!(parser.rev_parse("OUT 10"), Err(EncodeError::DeviceTooLarge));
}

#[test]
fn encode_simple_takes_no_arguments() {
    let parser = CommandParser::new();
    assert_eq!(parser.rev_parse("HLT 1"), Err(EncodeError::TakesNoArguments));
}

#[test]
fn encode_address_out_of_range() {
    let parser = CommandParser::new();
    assert_eq!(parser.rev_parse("MOV 800"), Err(EncodeError::AddressTooLarge));
}

#[test]
fn encode_unknown_and_empty() {
    let parser = CommandParser::new();
    assert_eq!(parser.rev_parse("FOO 1"), Err(EncodeError::UnknownMnemonic));
    assert_eq!(parser.rev_parse(""), Err(EncodeError::EmptyInput));
    assert_eq!(parser.rev_parse("   "), Err(EncodeError::EmptyInput));
}

#[test]
fn encode_malformed_operands() {
    let parser = CommandParser::new();
    assert_eq!(
        parser.rev_parse("MOV (24"),
        Err(EncodeError::UnclosedParenthesis)
    );
    assert_eq!(parser.rev_parse("MOV XYZ"), Err(EncodeError::BadNumber));
    assert_eq!(parser.rev_parse("MOV ()"), Err(EncodeError::BadNumber));
    assert_eq!(parser.rev_parse("MOV 1 2"), Err(EncodeError::ExtraTokens));
}

#[test]
fn file_string_falls_back_to_raw_hex() {
    let parser = CommandParser::new();
    // 0xF701 matches the ROR pattern but carries a stray bit: the file
    // form must keep the raw word, while display still names ROR.
    let info = parser.parse(0xF701);
    assert_eq!(info.mnemonic(), "ROR");
    assert_eq!(info.file_string(), "F701");
    // A clean simple opcode dumps as its mnemonic.
    assert_eq!(parser.parse(0xF700).file_string(), "ROR");
    // Address patterns always dump via their display form.
    assert_eq!(parser.parse(0x3024).file_string(), "MOV 024");
}

#[test]
fn error_messages_are_descriptive() {
    assert_eq!(
        EncodeError::MissingParameter.message(),
        "expected a mnemonic and one operand"
    );
    assert_eq!(
        EncodeError::DeviceTooLarge.message(),
        "the largest addressable device is F"
    );
    assert_eq!(
        EncodeError::TakesNoArguments.message(),
        "this instruction takes no arguments"
    );
}

#[test]
fn micro_codec_renders_words() {
    let parser = MicroParser::new();
    assert_eq!(parser.parse(0x6000).mnemonic(), "INC 6000");
    assert_eq!(parser.parse(0xF000).mnemonic(), "HLT F000");
    assert_eq!(parser.parse(0x1234).file_string(), "1234");
    assert!(!parser.supports_rev_parse());
    assert_eq!(parser.rev_parse("MOV"), Err(EncodeError::Unsupported));
}
