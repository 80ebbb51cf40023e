use bevm::machine::{Computer, Device, Register};
use bevm::micro::ExecutionResult;
use bevm::registers::Registers;

#[test]
fn flag_writes_leave_other_flags_alone() {
    // Setting overflow then clearing negative must leave zero and
    // interrupt-enable as they were, for every initial status word.
    for status in 0u32..=0xFFFF {
        let mut regs = Registers::new();
        regs.r_status = status as u16;
        let zero_before = regs.get_null();
        let interrupt_before = regs.get_allow_interupt();
        regs.set_overflow(true);
        regs.set_negative(false);
        assert_eq!(regs.get_null(), zero_before);
        assert_eq!(regs.get_allow_interupt(), interrupt_before);
        assert!(regs.get_overflow());
        assert!(!regs.get_negative());
    }
}

#[test]
fn command_counter_masks_to_eleven_bits() {
    let mut computer = Computer::new();
    Register::CommandCounter.set(&mut computer, 0xFFFF);
    assert_eq!(Register::CommandCounter.get(&computer), 0x7FF);
}

#[test]
fn register_set_get_round_trip() {
    let mut computer = Computer::new();
    for reg in [
        Register::Status,
        Register::MicroCommand,
        Register::Address,
        Register::Command,
        Register::Data,
        Register::Counter,
    ] {
        reg.set(&mut computer, 0xBEEF);
        assert_eq!(reg.get(&computer), 0xBEEF);
    }
    assert_eq!(Register::Counter.mnemonic(), "А");
    assert_eq!(Register::CommandCounter.mnemonic(), "СК");
}

fn with_microcode(words: &[u16]) -> Computer {
    let mut computer = Computer::new();
    for (i, w) in words.iter().enumerate() {
        computer.mc_memory.set(i, *w);
    }
    computer
}

#[test]
fn step_n_zero_equals_step_one() {
    // On a fresh machine with the same program, advancing exactly once
    // and a single micro-step are observationally identical.
    let program = [0x6000u16, 0x1000, 0xF000];
    let mut a = with_microcode(&program);
    let mut b = with_microcode(&program);
    let ra = a.step_n(0);
    let rb = b.step_one();
    assert_eq!(ra, rb);
    assert_eq!(a.registers.r_counter, b.registers.r_counter);
    assert_eq!(a.registers.r_status, b.registers.r_status);
    assert_eq!(
        a.registers.r_micro_command_counter,
        b.registers.r_micro_command_counter
    );
    assert_eq!(a.registers.r_micro_command, b.registers.r_micro_command);
}

#[test]
fn increment_micro_op_and_auto_increment() {
    let mut computer = with_microcode(&[0x6000]);
    let r = computer.micro_step();
    assert_eq!(r, ExecutionResult::Continued);
    assert_eq!(computer.registers.r_counter, 1);
    assert_eq!(computer.registers.r_micro_command_counter, 1);
    assert_eq!(computer.registers.r_micro_command, 0x6000);
}

#[test]
fn add_sets_carry_and_flags() {
    // ADD of the accumulator to itself at 0xFFFF: result 0xFFFE with a
    // carry out, negative set, zero clear.
    let mut computer = with_microcode(&[0x1000]);
    computer.registers.r_counter = 0xFFFF;
    computer.micro_step();
    assert_eq!(computer.registers.r_counter, 0xFFFE);
    assert!(computer.registers.get_overflow());
    assert!(computer.registers.get_negative());
    assert!(!computer.registers.get_null());
    assert_eq!(computer.registers.r_buffer, 0x1FFFE);
}

#[test]
fn subtract_reaches_zero() {
    // SUB of the data register from an equal accumulator gives zero.
    let mut computer = with_microcode(&[0x2010]);
    computer.registers.r_counter = 0x1234;
    computer.registers.r_data = 0x1234;
    computer.micro_step();
    assert_eq!(computer.registers.r_counter, 0);
    assert!(computer.registers.get_null());
    assert!(!computer.registers.get_negative());
}

#[test]
fn rotate_right_through_carry() {
    let mut computer = with_microcode(&[0x5000, 0x5000]);
    computer.registers.r_counter = 1;
    computer.micro_step();
    // The low bit went into carry; the accumulator is now zero.
    assert_eq!(computer.registers.r_counter, 0);
    assert!(computer.registers.get_overflow());
    assert!(computer.registers.get_null());
    computer.micro_step();
    // The carry re-enters at the top.
    assert_eq!(computer.registers.r_counter, 0x8000);
    assert!(!computer.registers.get_overflow());
    assert!(computer.registers.get_negative());
}

#[test]
fn rotate_left_through_carry() {
    let mut computer = with_microcode(&[0x4000]);
    computer.registers.r_counter = 0x8001;
    computer.micro_step();
    assert_eq!(computer.registers.r_counter, 0x0002);
    assert!(computer.registers.get_overflow());
}

#[test]
fn taken_jump_suppresses_auto_increment() {
    let mut computer = with_microcode(&[0x8042]);
    let r = computer.micro_step();
    assert_eq!(r, ExecutionResult::Jumped);
    assert_eq!(computer.registers.r_micro_command_counter, 0x42);
}

#[test]
fn untaken_jump_continues() {
    // Condition 3 (zero flag set) does not hold on a fresh machine.
    let mut computer = with_microcode(&[0x8342]);
    let r = computer.micro_step();
    assert_eq!(r, ExecutionResult::Continued);
    assert_eq!(computer.registers.r_micro_command_counter, 1);
}

#[test]
fn memory_write_and_read_back() {
    let mut computer = with_microcode(&[0xA000, 0x9000]);
    computer.registers.r_address = 0x10;
    computer.registers.r_data = 0x1234;
    computer.micro_step();
    assert_eq!(computer.general_memory.get(0x10), 0x1234);
    computer.registers.r_data = 0;
    computer.micro_step();
    assert_eq!(computer.registers.r_data, 0x1234);
}

#[test]
fn move_into_command_counter_masks() {
    // A register move into the command counter wraps the macro address
    // space silently.
    let mut computer = with_microcode(&[0x0310]);
    computer.registers.r_data = 0xFFFF;
    computer.micro_step();
    assert_eq!(computer.registers.r_command_counter, 0x7FF);
}

#[test]
fn device_transfers() {
    let mut computer = with_microcode(&[0xB103, 0xB203, 0xB303, 0xB003]);
    computer.set_device(3, Device { data: 0xAB, ready: true });
    // TSF: the ready state lands in the status word's device-ready bit.
    computer.micro_step();
    assert_ne!(computer.registers.r_status & 0x40, 0);
    // IN: the device's low byte lands in the accumulator's low byte.
    computer.registers.r_counter = 0xFF00;
    computer.micro_step();
    assert_eq!(computer.registers.r_counter, 0xFFAB);
    // OUT: the accumulator lands in the device's data register.
    computer.registers.r_counter = 0x1234;
    computer.micro_step();
    assert_eq!(computer.device(3).data, 0x1234);
    // CLF: the ready flag is cleared.
    computer.micro_step();
    assert!(!computer.device(3).ready);
}

#[test]
fn halt_and_cycle_outcomes_are_distinct() {
    let mut computer = with_microcode(&[0xE000, 0xF000]);
    assert_eq!(computer.micro_step(), ExecutionResult::Cycle);
    assert_eq!(computer.micro_step(), ExecutionResult::Halted);
}

#[test]
fn step_n_advances_n_plus_one_steps() {
    let mut computer = with_microcode(&[0x6000, 0x6000, 0x6000, 0x6000, 0x6000, 0x6000]);
    let r = computer.step_n(4);
    assert_eq!(r, ExecutionResult::Continued);
    assert_eq!(computer.registers.r_counter, 5);
    assert_eq!(computer.registers.r_micro_command_counter, 5);
}

#[test]
fn run_until_finds_halt() {
    let mut computer = with_microcode(&[0x6000, 0x6000, 0xF000]);
    let r = computer.run_until(|res| matches!(res, ExecutionResult::Halted), 10);
    assert_eq!(r, Some(ExecutionResult::Halted));
    assert_eq!(computer.registers.r_counter, 2);
}

#[test]
fn run_until_exhausts_its_budget() {
    let mut computer = with_microcode(&[0x6000]);
    let r = computer.run_until(|res| matches!(res, ExecutionResult::Halted), 5);
    assert_eq!(r, None);
    assert_eq!(computer.registers.r_micro_command_counter, 5);
}

#[test]
fn log_records_machine_position() {
    let mut computer = Computer::new();
    Register::CommandCounter.set(&mut computer, 0x42);
    computer.log(true, String::from("fetch"));
    assert_eq!(computer.logs().len(), 1);
    assert_eq!(computer.logs()[0].command_counter, 0x42);
    assert_eq!(computer.logs()[0].micro_counter, 0);
    assert!(computer.logs()[0].micro_command);
    assert_eq!(computer.logs()[0].info, "fetch");
}

#[test]
fn micro_counter_wraps_at_eight_bits() {
    let mut computer = Computer::new();
    computer.registers.r_micro_command_counter = 255;
    computer.micro_step();
    assert_eq!(computer.registers.r_micro_command_counter, 0);
}
