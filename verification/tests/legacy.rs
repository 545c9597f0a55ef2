use vcpu::legacy::cpu::instruction::jmp::JMP;
use vcpu::legacy::cpu::instruction::lda::{self, LDA};
use vcpu::legacy::cpu::instruction::nop::NOP;
use vcpu::legacy::cpu::instruction::Instruction;
use vcpu::legacy::cpu::CPU;
use vcpu::legacy::error::{CpuError, MemoryError};
use vcpu::legacy::memory::{Memory, MemoryIO, SIZE_64KB};

fn board() -> Memory<SIZE_64KB> {
    // The small demonstration program of the earlier generation: two
    // immediate loads at the reset target and a jump back to its start.
    let mut bytes = [0xEAu8; SIZE_64KB];
    bytes[0x8000] = 0xA9; // LDA
    bytes[0x8001] = 0x69; // $69
    bytes[0x8002] = 0xA9; // LDA
    bytes[0x8003] = 0x34; // $34
    bytes[0x8004] = 0x4C; // JMP
    bytes[0x8005] = 0x00; // $00
    bytes[0x8006] = 0x80; // $80
    Memory::new(bytes, 0x8000)
}

#[test]
fn legacy_memory_reads_writes_and_protects_its_tail() {
    let mut memory: Memory<SIZE_64KB> = board();
    assert_eq!(memory.read(0x8000), Ok(&0xA9));
    assert_eq!(memory.write(0x0100, 0x55), Ok(()));
    assert_eq!(memory.read(0x0100), Ok(&0x55));
    assert_eq!(memory.write(0x8000, 0x00), Err(MemoryError::WriteToRomAddress(0x8000)));
    assert_eq!(memory.read(0x8000), Ok(&0xA9));
}

#[test]
fn legacy_memory_rejects_addresses_past_its_end() {
    let mut memory: Memory<16> = Memory::new([7u8; 16], 8);
    assert_eq!(memory.read(16), Err(MemoryError::InvalidAddress(16)));
    assert_eq!(memory.write(16, 0), Err(MemoryError::InvalidAddress(16)));
    assert_eq!(memory.write(8, 0), Err(MemoryError::WriteToRomAddress(8)));
}

#[test]
fn legacy_zero_clears_only_the_writable_prefix() {
    let mut memory: Memory<16> = Memory::new([7u8; 16], 8);
    memory.zero();
    for address in 0u16..8 {
        assert_eq!(memory.read(address), Ok(&0));
    }
    for address in 8u16..16 {
        assert_eq!(memory.read(address), Ok(&7));
    }
}

#[test]
fn legacy_reset_points_the_counter_at_the_reset_vector() {
    let mut memory = board();
    let mut cpu = CPU::new(0x8000);
    assert_eq!(cpu.program_counter, 0xFFFC);
    cpu.reset(&mut memory);
    assert_eq!(cpu.program_counter, 0x8000);
    assert_eq!(cpu.accumulator, 0);
    // The program lives in the read-only tail and survives the reset.
    assert_eq!(memory.read(0x8000), Ok(&0xA9));
    assert_eq!(memory.read(0x0100), Ok(&0));
}

#[test]
fn legacy_program_loads_and_jumps() {
    let mut memory = board();
    let mut cpu = CPU::new(0x8000);
    cpu.reset(&mut memory);

    assert_eq!(cpu.step(&mut memory), Ok(2)); // LDA #$69
    assert_eq!(cpu.accumulator, 0x69);
    assert_eq!(cpu.program_counter, 0x8002);

    assert_eq!(cpu.step(&mut memory), Ok(2)); // LDA #$34
    assert_eq!(cpu.accumulator, 0x34);

    assert_eq!(cpu.step(&mut memory), Ok(3)); // JMP $8000
    assert_eq!(cpu.program_counter, 0x8000);

    // Around the loop once more.
    assert_eq!(cpu.step(&mut memory), Ok(2));
    assert_eq!(cpu.accumulator, 0x69);
}

#[test]
fn legacy_step_runs_nop_and_rejects_unknown_opcodes() {
    let mut bytes = [0x00u8; SIZE_64KB];
    bytes[0x8000] = 0xEA; // NOP
    bytes[0x8001] = 0x02; // no such instruction
    let mut memory: Memory<SIZE_64KB> = Memory::new(bytes, 0x8000);
    let mut cpu = CPU::new(0x8000);
    cpu.reset(&mut memory);
    assert_eq!(cpu.step(&mut memory), Ok(2));
    assert_eq!(cpu.step(&mut memory), Err(CpuError::InvalidOpCode(0x02)));
    // The counter stands just past the byte that failed to decode.
    assert_eq!(cpu.program_counter, 0x8002);
}

#[test]
fn legacy_fetch_at_the_top_of_memory_overflows() {
    let memory: Memory<SIZE_64KB> = board();
    let mut cpu = CPU::new(0x8000);
    cpu.program_counter = 0xFFFF;
    assert_eq!(cpu.fetch(&memory), Err(CpuError::ProgramCounterOverflow));
    assert_eq!(cpu.program_counter, 0xFFFF);
}

#[test]
fn legacy_fetch_past_a_small_device_is_invalid() {
    let memory: Memory<16> = Memory::new([0xEAu8; 16], 8);
    let mut cpu = CPU::new(0);
    cpu.program_counter = 16;
    assert_eq!(
        cpu.fetch(&memory),
        Err(CpuError::MemoryError(MemoryError::InvalidAddress(16)))
    );
}

#[test]
fn legacy_instruction_costs_and_opcodes() {
    assert_eq!(NOP.cycles(), 2);
    assert_eq!(NOP.opcode(), 0xEA);
    assert_eq!(JMP::Absolute(0x8000).cycles(), 3);
    assert_eq!(JMP::Indirect(0x8000).cycles(), 5);
    assert_eq!(JMP::Absolute(0x8000).opcode(), 0x4C);
    assert_eq!(JMP::Indirect(0x8000).opcode(), 0x6C);
    assert_eq!(LDA::Immediate(1).cycles(), 2);
    assert_eq!(LDA::IndirectX(1).cycles(), 6);
    assert_eq!(LDA::Immediate(1).opcode(), lda::OPCODE_IMMEDIATE);
    assert_eq!(LDA::Absolute(1).opcode(), lda::OPCODE_ABSOLUTE);
}

#[test]
fn legacy_unfinished_addressing_modes_report_unspecified() {
    let mut memory = board();
    let mut cpu = CPU::new(0x8000);
    cpu.reset(&mut memory);
    let before = cpu.accumulator;
    assert_eq!(
        LDA::ZeroPage(0x10).execute(&mut cpu, &mut memory),
        Err(CpuError::Unspecified)
    );
    assert_eq!(cpu.accumulator, before);
}
