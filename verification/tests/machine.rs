use cpu_emulation::cpu::CPU;
use cpu_emulation::fault::Fault;
use cpu_emulation::fault::State;

#[test]
fn new_machine_is_zeroed_and_running() {
    let cpu = CPU::new();
    assert_eq!(cpu.state, State::Running);
    assert_eq!(cpu.position_in_memory, 0);
    assert_eq!(cpu.stack_pointer, 0);
    assert_eq!(cpu.registers, vec![0u8; 16]);
    assert_eq!(cpu.memory.len(), 4096);
    assert!(cpu.memory.iter().all(|&b| b == 0));
    assert_eq!(cpu.stack, vec![0u16; 16]);
}

#[test]
fn read_opcode_assembles_high_byte_first() {
    let mut cpu = CPU::new();
    cpu.write_memory(0, 0x12).unwrap();
    cpu.write_memory(1, 0x34).unwrap();
    assert_eq!(cpu.read_opcode(), Ok(0x1234));
}

#[test]
fn read_opcode_out_of_bounds() {
    let mut cpu = CPU::new();
    cpu.position_in_memory = 4095;
    assert_eq!(cpu.read_opcode(), Err(Fault::OutOfBounds));
    cpu.position_in_memory = 4096;
    assert_eq!(cpu.read_opcode(), Err(Fault::OutOfBounds));
}

#[test]
fn load_places_program_and_rejects_overrun() {
    let mut cpu = CPU::new();
    cpu.write_memory(0x0FF, 0xAA).unwrap();
    cpu.load(0x100, &[0x80, 0x14, 0x00, 0xEE]).unwrap();
    assert_eq!(cpu.memory[0x0FF], 0xAA);
    assert_eq!(cpu.memory[0x100], 0x80);
    assert_eq!(cpu.memory[0x101], 0x14);
    assert_eq!(cpu.memory[0x102], 0x00);
    assert_eq!(cpu.memory[0x103], 0xEE);
    assert_eq!(cpu.memory[0x104], 0x00);
    assert_eq!(cpu.load(4095, &[1, 2]), Err(Fault::IndexOutOfRange));
    assert_eq!(cpu.memory[4095], 0);
}

#[test]
fn write_memory_rejects_bad_address() {
    let mut cpu = CPU::new();
    assert_eq!(cpu.write_memory(4096, 1), Err(Fault::IndexOutOfRange));
    assert_eq!(cpu.write_memory(4095, 7), Ok(()));
    assert_eq!(cpu.memory[4095], 7);
}

#[test]
fn register_access_rejects_bad_index() {
    let mut cpu = CPU::new();
    assert_eq!(cpu.read_register(16), Err(Fault::IndexOutOfRange));
    assert_eq!(cpu.write_register(16, 1), Err(Fault::IndexOutOfRange));
    assert_eq!(cpu.write_register(15, 9), Ok(()));
    assert_eq!(cpu.read_register(15), Ok(9));
}

#[test]
fn scenario_single_add() {
    let mut cpu = CPU::new();
    cpu.write_register(0, 5).unwrap();
    cpu.write_register(1, 10).unwrap();
    cpu.load(0, &[0x80, 0x14]).unwrap();
    cpu.step();
    assert_eq!(cpu.state, State::Running);
    assert_eq!(cpu.read_register(0), Ok(15));
    assert_eq!(cpu.read_register(15), Ok(0));
    cpu.step();
    assert_eq!(cpu.state, State::Halted);
}

#[test]
fn scenario_iterated_add() {
    let mut cpu = CPU::new();
    cpu.write_register(0, 5).unwrap();
    cpu.write_register(1, 10).unwrap();
    cpu.write_register(2, 10).unwrap();
    cpu.write_register(3, 10).unwrap();
    cpu.load(0, &[0x80, 0x14, 0x80, 0x24, 0x80, 0x34]).unwrap();
    cpu.run();
    assert_eq!(cpu.read_register(0), Ok(35));
    assert_eq!(cpu.state, State::Halted);
}

#[test]
fn scenario_call_ret_twice() {
    let mut cpu = CPU::new();
    cpu.write_register(0, 5).unwrap();
    cpu.write_register(1, 10).unwrap();
    cpu.load(0x000, &[0x21, 0x00, 0x21, 0x00, 0x00, 0x00]).unwrap();
    cpu.load(0x100, &[0x80, 0x14, 0x80, 0x14, 0x00, 0xEE]).unwrap();
    cpu.run();
    assert_eq!(cpu.read_register(0), Ok(45));
    assert_eq!(cpu.state, State::Halted);
}

#[test]
fn scenario_overflow_add() {
    let mut cpu = CPU::new();
    cpu.write_register(0, 250).unwrap();
    cpu.write_register(1, 10).unwrap();
    cpu.load(0, &[0x80, 0x14]).unwrap();
    cpu.step();
    assert_eq!(cpu.read_register(0), Ok(4));
    assert_eq!(cpu.read_register(15), Ok(1));
}

#[test]
fn scenario_return_on_empty_stack_faults() {
    let mut cpu = CPU::new();
    cpu.write_register(0, 5).unwrap();
    cpu.write_register(1, 10).unwrap();
    cpu.load(0, &[0x00, 0xEE]).unwrap();
    cpu.run();
    assert_eq!(cpu.state, State::Faulted(Fault::StackUnderflow));
    assert_eq!(cpu.read_register(0), Ok(5));
    assert_eq!(cpu.read_register(1), Ok(10));
    assert_eq!(cpu.stack_pointer, 0);
}

#[test]
fn call_then_ret_restores_program_counter() {
    let mut cpu = CPU::new();
    cpu.position_in_memory = 0x202;
    assert_eq!(cpu.call(0x300), Ok(()));
    assert_eq!(cpu.position_in_memory, 0x300);
    assert_eq!(cpu.stack_pointer, 1);
    assert_eq!(cpu.ret(), Ok(()));
    assert_eq!(cpu.position_in_memory, 0x202);
    assert_eq!(cpu.stack_pointer, 0);
}

#[test]
fn call_beyond_capacity_faults() {
    let mut cpu = CPU::new();
    for _ in 0..16 {
        assert_eq!(cpu.call(0x100), Ok(()));
    }
    assert_eq!(cpu.call(0x100), Err(Fault::StackOverflow));
}

#[test]
fn ret_on_empty_stack_faults() {
    let mut cpu = CPU::new();
    assert_eq!(cpu.ret(), Err(Fault::StackUnderflow));
}

#[test]
fn scenario_recursive_call_overflows_stack() {
    let mut cpu = CPU::new();
    // A call instruction that targets its own address loops until the
    // sixteen stack slots are exhausted.
    cpu.load(0, &[0x20, 0x00]).unwrap();
    cpu.run();
    assert_eq!(cpu.state, State::Faulted(Fault::StackOverflow));
    assert_eq!(cpu.stack_pointer, 16);
}

#[test]
fn unimplemented_opcode_faults_with_instruction() {
    let mut cpu = CPU::new();
    cpu.load(0, &[0xF0, 0x65]).unwrap();
    cpu.run();
    assert_eq!(cpu.state, State::Faulted(Fault::UnimplementedOpcode(0xF065)));
}

#[test]
fn fetch_past_end_of_memory_faults() {
    let mut cpu = CPU::new();
    cpu.position_in_memory = 4095;
    cpu.step();
    assert_eq!(cpu.state, State::Faulted(Fault::OutOfBounds));
    assert_eq!(cpu.position_in_memory, 4095);
}

#[test]
fn run_with_limit_stops_at_budget() {
    let mut cpu = CPU::new();
    cpu.write_register(0, 5).unwrap();
    cpu.write_register(1, 10).unwrap();
    cpu.write_register(2, 10).unwrap();
    cpu.write_register(3, 10).unwrap();
    cpu.load(0, &[0x80, 0x14, 0x80, 0x24, 0x80, 0x34]).unwrap();
    let taken = cpu.run_with_limit(2);
    assert_eq!(taken, 2);
    assert_eq!(cpu.state, State::Running);
    assert_eq!(cpu.read_register(0), Ok(25));
    let rest = cpu.run_with_limit(100);
    assert_eq!(rest, 2);
    assert_eq!(cpu.state, State::Halted);
    assert_eq!(cpu.read_register(0), Ok(35));
}

#[test]
fn step_does_nothing_once_halted() {
    let mut cpu = CPU::new();
    cpu.run();
    assert_eq!(cpu.state, State::Halted);
    let pc = cpu.position_in_memory;
    cpu.step();
    assert_eq!(cpu.state, State::Halted);
    assert_eq!(cpu.position_in_memory, pc);
}
