use bevm::dump::dump_string;
use bevm::general::GeneralCommandInfo;
use bevm::machine::Computer;
use bevm::memory::MemoryCell;
use bevm::micro::MicroCommandInfo;

#[test]
fn memory_cell_starts_empty() {
    let cell = MemoryCell::new();
    assert_eq!(cell.get(), 0);
    assert_eq!(cell.last_touched(), 0);
    assert!(cell.mnemonic().is_none());
    assert!(cell.name().is_none());
}

#[test]
fn memory_cell_set_keeps_annotations() {
    let mut computer = Computer::new();
    computer
        .general_memory
        .annotate(7, Some(String::from("loop")), None);
    computer.general_memory.set(7, 0x1234);
    assert_eq!(computer.general_memory.get(7), 0x1234);
    assert_eq!(
        computer.general_memory.cell(7).mnemonic().as_deref(),
        Some("loop")
    );
    assert!(computer.general_memory.cell(7).name().is_none());
}

#[test]
fn bank_sizes_are_fixed() {
    let computer = Computer::new();
    assert_eq!(computer.general_memory.size(), 2048);
    assert_eq!(computer.mc_memory.size(), 256);
}

#[test]
fn dump_skips_zero_runs_with_markers() {
    let mut computer = Computer::new();
    computer.general_memory.set(1, 0x3024);
    computer.general_memory.set(2, 0xF700);
    computer.general_memory.set(5, 0x4001);
    let text = dump_string::<GeneralCommandInfo, _>(&computer.general_memory);
    assert_eq!(text, "@0001\nMOV 024\nROR\n@0005\nADD 001\n");
}

#[test]
fn dump_of_empty_bank_is_empty() {
    let computer = Computer::new();
    let text = dump_string::<GeneralCommandInfo, _>(&computer.general_memory);
    assert_eq!(text, "");
}

#[test]
fn dump_marks_a_leading_cell() {
    let mut computer = Computer::new();
    computer.general_memory.set(0, 0xF000);
    let text = dump_string::<GeneralCommandInfo, _>(&computer.general_memory);
    assert_eq!(text, "@0000\nHLT\n");
}

#[test]
fn microcode_bank_dumps_raw_words() {
    let mut computer = Computer::new();
    computer.mc_memory.set(3, 0x6000);
    let text = dump_string::<MicroCommandInfo, _>(&computer.mc_memory);
    assert_eq!(text, "@0003\n6000\n");
}
