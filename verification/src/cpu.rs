use vstd::prelude::*;

use crate::cpu::status::{cleared_status, Status};
use crate::error::CpuError;
use crate::instruction::{cycles_spec, decode_spec, set_high, set_low, Instruction};
use crate::memory::mmu::{same_contents, MMU};
use crate::memory::{
    byte_written, bytes_written, le_bytes, le_value, lemma_le_value_bound, lemma_pow256_16,
    memory_unchanged, read_range_spec, read_u128, write_span_result, write_u128, MemoryRead,
    MemoryWrite,
};

pub mod status;

verus! {

/// Each instruction word is 16 bytes wide; a fetch advances the program
/// counter by this much.
pub const INSTRUCTION_WIDTH: u64 = 16;

/// The number of general-purpose registers, indexed 0 to 25.
pub const REGISTER_COUNT: u8 = 26;

// The three special read-only constant registers sit apart from the
// general indices, marked by the high bit of the 8-bit register field.

pub const REGISTER_ZERO: u8 = 0x80;

pub const REGISTER_ONE: u8 = 0x81;

pub const REGISTER_TWO: u8 = 0x82;

/// The stack lives in one 256-byte page of the mutable segment: the page
/// one above the segment base, selected by a fixed high byte of the
/// segment-relative address.
pub const STACK_PAGE_OFFSET: u64 = 0x100;

/// The global address of the bottom of the stack page.
pub const STACK_PAGE: u64 = crate::memory::mmu::RAM_BEGIN + STACK_PAGE_OFFSET;

/// Paces the fetch-execute loop to a target cycle frequency.  On each poll
/// with the current time it reports whether the elapsed time since the last
/// granted cycle has crossed the per-cycle duration; the smoothing buffer
/// bounds how many owed cycles may pile up, capping long-run drift.
#[derive(Debug, Clone, Copy, PartialEq, Eq, Structural)]
pub struct Clock {
    /// The duration of one cycle, in nanoseconds.
    pub period_nanos: u64,
    /// How many owed periods the controller may remember at most.
    pub buffer_periods: u64,
    /// When the last granted cycle was scheduled, in nanoseconds.
    pub last_grant_nanos: u64,
    /// Whether any cycle has been granted yet.
    pub primed: bool,
}

/// Observes clock edges; wiring for a bus to come.
pub trait ClockObserver {

}

/// Carries data between units on the clock tick; wiring for a bus to come.
pub struct DataBus {

}

/// Observes traffic on the data bus; wiring for a bus to come.
pub trait DataBusObserver {

}

pub const NANOS_PER_SECOND: u64 = 1_000_000_000;

/// Whether a poll at time `now` grants a cycle: the first poll always
/// does, and later polls do once the per-cycle duration has elapsed since
/// the last granted cycle.
pub open spec fn poll_grants(pre: Clock, now_nanos: u64) -> bool {
    !pre.primed || now_nanos >= pre.last_grant_nanos + pre.period_nanos
}

/// The controller after a poll at time `now`: on a grant the schedule
/// advances by one period, except that a backlog of more than
/// `buffer_periods` owed periods is dropped down to exactly that many.
pub open spec fn poll_next(pre: Clock, now_nanos: u64) -> Clock {
    if !pre.primed {
        Clock { primed: true, last_grant_nanos: now_nanos, ..pre }
    } else if now_nanos < pre.last_grant_nanos + pre.period_nanos {
        pre
    } else {
        let scheduled = pre.last_grant_nanos + pre.period_nanos;
        let backlog_limit = pre.buffer_periods * pre.period_nanos;
        if now_nanos - scheduled > backlog_limit {
            Clock { last_grant_nanos: (now_nanos - backlog_limit) as u64, ..pre }
        } else {
            Clock { last_grant_nanos: scheduled as u64, ..pre }
        }
    }
}

impl Clock {
    /// Build a controller for `frequency_hz` cycles per second with a
    /// smoothing buffer of `buffer_periods` owed cycles.
    pub fn new(frequency_hz: u64, buffer_periods: u64) -> (r: Clock)
        requires
            1 <= frequency_hz <= NANOS_PER_SECOND,
        ensures
            r.period_nanos == NANOS_PER_SECOND / frequency_hz,
            r.period_nanos >= 1,
            r.buffer_periods == buffer_periods,
            !r.primed,
    {
        proof {
            assert(NANOS_PER_SECOND / frequency_hz >= 1) by (nonlinear_arith)
                requires
                    1 <= frequency_hz <= NANOS_PER_SECOND,
            ;
        }
        Clock {
            period_nanos: NANOS_PER_SECOND / frequency_hz,
            buffer_periods,
            last_grant_nanos: 0,
            primed: false,
        }
    }

    /// Poll at time `now_nanos`: report whether one cycle is owed, and
    /// account for it.
    pub fn should_execute_next_cycle(&mut self, now_nanos: u64) -> (r: bool)
        ensures
            r == poll_grants(*old(self), now_nanos),
            *final(self) == poll_next(*old(self), now_nanos),
    {
        if !self.primed {
            self.primed = true;
            self.last_grant_nanos = now_nanos;
            return true;
        }
        match self.last_grant_nanos.checked_add(self.period_nanos) {
            None => false,
            Some(scheduled) => {
                if now_nanos < scheduled {
                    false
                } else {
                    proof {
                        assert((self.buffer_periods as int) * (self.period_nanos as int)
                            <= 0xFFFF_FFFF_FFFF_FFFF * 0xFFFF_FFFF_FFFF_FFFF) by (nonlinear_arith)
                            requires
                                self.buffer_periods <= 0xFFFF_FFFF_FFFF_FFFF
                                    && self.period_nanos <= 0xFFFF_FFFF_FFFF_FFFF,
                        ;
                    }
                    let backlog_limit: u128 = (self.buffer_periods as u128) * (
                    self.period_nanos as u128);
                    if ((now_nanos - scheduled) as u128) > backlog_limit {
                        self.last_grant_nanos = now_nanos - (backlog_limit as u64);
                    } else {
                        self.last_grant_nanos = scheduled;
                    }
                    true
                }
            },
        }
    }
}

/// The CPU-resident state: general and special registers, program
/// counter, instruction register, stack machinery and status flags.
#[derive(Debug)]
pub struct CPU {
    pub status: Status,
    /// Special register: always holds zero.
    pub zero_register: u128,
    /// Special register: always holds one.
    pub one_register: u128,
    /// Special register: always holds two.
    pub two_register: u128,
    /// Each memory address points to one byte, so a fetch advances this by
    /// the 16-byte instruction width.
    pub program_counter: u64,
    /// The most recently fetched raw instruction word.
    pub instruction_register: u128,
    pub stack_pointer: u64,
    /// Base of the current stack frame.
    pub frame_pointer: u64,
    /// Address to return to after a subroutine.
    pub return_address: u64,
    /// The 26 general-purpose 128-bit registers.
    pub registers: [u128; 26],
    /// Where the program counter is pointed on reset.
    pub reset_address: u64,
}

/// The two states agree on everything but the stack pointer.
pub open spec fn same_except_stack_pointer(pre: CPU, post: CPU) -> bool {
    &&& post.status == pre.status
    &&& post.zero_register == pre.zero_register
    &&& post.one_register == pre.one_register
    &&& post.two_register == pre.two_register
    &&& post.program_counter == pre.program_counter
    &&& post.instruction_register == pre.instruction_register
    &&& post.frame_pointer == pre.frame_pointer
    &&& post.return_address == pre.return_address
    &&& post.reset_address == pre.reset_address
    &&& post.registers@ == pre.registers@
}

/// The two states agree on everything but the general register file.
pub open spec fn same_except_registers(pre: CPU, post: CPU) -> bool {
    &&& post.status == pre.status
    &&& post.zero_register == pre.zero_register
    &&& post.one_register == pre.one_register
    &&& post.two_register == pre.two_register
    &&& post.program_counter == pre.program_counter
    &&& post.instruction_register == pre.instruction_register
    &&& post.stack_pointer == pre.stack_pointer
    &&& post.frame_pointer == pre.frame_pointer
    &&& post.return_address == pre.return_address
    &&& post.reset_address == pre.reset_address
}

/// The two states agree on everything visible.
pub open spec fn cpu_same(pre: CPU, post: CPU) -> bool {
    same_except_registers(pre, post) && post.registers@ == pre.registers@
}

/// What fetching leaves behind on success: the counter advanced by one
/// instruction width and the raw word latched.
pub open spec fn cpu_after_fetch(pre: CPU, word: u128) -> CPU {
    CPU {
        program_counter: (pre.program_counter + INSTRUCTION_WIDTH) as u64,
        instruction_register: word,
        ..pre
    }
}

/// The 128-bit little-endian word at `address`, as the unit serves it.
pub open spec fn word_at(memory: MMU, address: u64) -> Result<u128, crate::error::MemoryError> {
    match read_range_spec(memory, address as int, 16) {
        Err(e) => Err(e),
        Ok(bytes) => Ok(le_value(bytes) as u128),
    }
}

/// What executing one decoded instruction does to the registers, the
/// memory, and the reported outcome.
pub open spec fn execute_rel(
    pre: CPU,
    pre_mem: MMU,
    instruction: Instruction,
    post: CPU,
    post_mem: MMU,
    r: Result<(), CpuError>,
) -> bool {
    match instruction {
        Instruction::Null => r is Ok && cpu_same(pre, post) && same_contents(pre_mem, post_mem),
        Instruction::SetLo { opcode: _, register, immediate } => match pre.register_read_spec(
            register,
        ) {
            Err(e) => r == Err::<(), CpuError>(e) && cpu_same(pre, post) && same_contents(
                pre_mem,
                post_mem,
            ),
            Ok(value) => write_back_rel(
                pre,
                pre_mem,
                register,
                set_low(value, immediate),
                post,
                post_mem,
                r,
            ),
        },
        Instruction::SetHi { opcode: _, register, immediate } => match pre.register_read_spec(
            register,
        ) {
            Err(e) => r == Err::<(), CpuError>(e) && cpu_same(pre, post) && same_contents(
                pre_mem,
                post_mem,
            ),
            Ok(value) => write_back_rel(
                pre,
                pre_mem,
                register,
                set_high(value, immediate),
                post,
                post_mem,
                r,
            ),
        },
        Instruction::Load { opcode: _, register, address } => match word_at(pre_mem, address) {
            Err(e) => r == Err::<(), CpuError>(CpuError::MemoryError(e)) && cpu_same(pre, post)
                && same_contents(pre_mem, post_mem),
            Ok(word) => write_back_rel(pre, pre_mem, register, word, post, post_mem, r),
        },
        Instruction::Store { opcode: _, register, address } => match pre.register_read_spec(
            register,
        ) {
            Err(e) => r == Err::<(), CpuError>(e) && cpu_same(pre, post) && same_contents(
                pre_mem,
                post_mem,
            ),
            Ok(value) => {
                &&& cpu_same(pre, post)
                &&& bytes_written(pre_mem, post_mem, address, le_bytes(value as nat, 16))
                &&& r == (match write_span_result(pre_mem, address as int, 16) {
                    Ok(done) => Ok::<(), CpuError>(()),
                    Err(e) => Err::<(), CpuError>(CpuError::MemoryError(e)),
                })
            },
        },
    }
}

/// Writing `value` back into a register: refused for a special or invalid
/// index with the registers untouched, and an update of exactly one slot
/// otherwise.  Memory is untouched either way.
pub open spec fn write_back_rel(
    pre: CPU,
    pre_mem: MMU,
    register: u8,
    value: u128,
    post: CPU,
    post_mem: MMU,
    r: Result<(), CpuError>,
) -> bool {
    &&& same_contents(pre_mem, post_mem)
    &&& match pre.register_write_result_spec(register) {
        Err(e) => r == Err::<(), CpuError>(e) && cpu_same(pre, post),
        Ok(accepted) => r is Ok && same_except_registers(pre, post) && post.registers@
            == pre.registers@.update(register as int, value),
    }
}

impl CPU {
    /// The special constant registers hold their constants and the stack
    /// pointer stays within its one-page window.
    pub open spec fn wf(&self) -> bool {
        &&& self.zero_register == 0
        &&& self.one_register == 1
        &&& self.two_register == 2
        &&& self.stack_pointer <= 0xFF
    }

    /// What reading a register field yields: a general register's value
    /// for 0 to 25, the constant of a special register, and
    /// `InvalidRegister` for every other index.
    pub open spec fn register_read_spec(&self, index: u8) -> Result<u128, CpuError> {
        if index < REGISTER_COUNT {
            Ok(self.registers@[index as int])
        } else if index == REGISTER_ZERO {
            Ok(self.zero_register)
        } else if index == REGISTER_ONE {
            Ok(self.one_register)
        } else if index == REGISTER_TWO {
            Ok(self.two_register)
        } else {
            Err(CpuError::InvalidRegister(index))
        }
    }

    /// Whether a register field accepts a write: only the general indices
    /// do; a special register refuses with `WriteToSpecialRegister`, any
    /// other index with `InvalidRegister`.
    pub open spec fn register_write_result_spec(&self, index: u8) -> Result<(), CpuError> {
        if index < REGISTER_COUNT {
            Ok(())
        } else if index == REGISTER_ZERO || index == REGISTER_ONE || index == REGISTER_TWO {
            Err(CpuError::WriteToSpecialRegister(index))
        } else {
            Err(CpuError::InvalidRegister(index))
        }
    }

    /// The global address the stack pointer names inside the stack page.
    pub open spec fn stack_address_spec(&self) -> u64 {
        (STACK_PAGE + self.stack_pointer) as u64
    }

    /// Build a CPU whose state is as after a reset, with the program
    /// counter pointed at `reset_address`.
    pub fn new(reset_address: u64) -> (r: CPU)
        ensures
            r.wf(),
            r.reset_address == reset_address,
            r.program_counter == reset_address,
            r.instruction_register == 0,
            r.stack_pointer == 0,
            r.frame_pointer == 0,
            r.return_address == 0,
            r.status == cleared_status(),
            forall|i: int| 0 <= i < 26 ==> r.registers@[i] == 0,
    {
        CPU {
            status: Status {
                carry: false,
                zero: false,
                interrupt_disable: false,
                decimal: false,
                break_command: false,
                overflow: false,
                negative: false,
            },
            zero_register: 0,
            one_register: 1,
            two_register: 2,
            program_counter: reset_address,
            instruction_register: 0,
            stack_pointer: 0,
            frame_pointer: 0,
            return_address: 0,
            registers: [0u128; 26],
            reset_address,
        }
    }

    /// Whether the state is well-formed, decided at run time.
    pub fn is_well_formed(&self) -> (r: bool)
        ensures
            r == self.wf(),
    {
        self.zero_register == 0 && self.one_register == 1 && self.two_register == 2
            && self.stack_pointer <= 0xFF
    }

    /// Return to a clean state: the program counter back at the configured
    /// reset address, general registers, stack machinery and status flags
    /// zeroed, and the mutable memory cleared.  The read-only image is
    /// untouched.  Idempotent: a second reset leaves the same state.
    pub fn reset(&mut self, memory: &mut MMU)
        ensures
            final(self).wf(),
            final(self).reset_address == old(self).reset_address,
            final(self).program_counter == old(self).reset_address,
            final(self).instruction_register == 0,
            final(self).stack_pointer == 0,
            final(self).frame_pointer == 0,
            final(self).return_address == 0,
            final(self).status == cleared_status(),
            forall|i: int| 0 <= i < 26 ==> final(self).registers@[i] == 0,
            final(memory).rom_bytes() == old(memory).rom_bytes(),
            final(memory).ram_bytes().len() == old(memory).ram_bytes().len(),
            forall|i: int|
                0 <= i < final(memory).ram_bytes().len() ==> final(memory).ram_bytes()[i] == 0,
    {
        self.program_counter = self.reset_address;
        self.zero_register = 0;
        self.one_register = 1;
        self.two_register = 2;
        self.instruction_register = 0;
        self.stack_pointer = 0;
        self.frame_pointer = 0;
        self.return_address = 0;
        self.status.reset();
        self.registers = [0u128; 26];
        memory.zero();
    }

    /// Read the register the 8-bit field names.
    pub fn read_register(&self, index: u8) -> (r: Result<u128, CpuError>)
        ensures
            r == self.register_read_spec(index),
    {
        if index < REGISTER_COUNT {
            Ok(self.registers[index as usize])
        } else if index == REGISTER_ZERO {
            Ok(self.zero_register)
        } else if index == REGISTER_ONE {
            Ok(self.one_register)
        } else if index == REGISTER_TWO {
            Ok(self.two_register)
        } else {
            Err(CpuError::InvalidRegister(index))
        }
    }

    /// Write the register the 8-bit field names; writes to the special
    /// constant registers fail rather than silently succeed.
    pub fn write_register(&mut self, index: u8, value: u128) -> (r: Result<(), CpuError>)
        ensures
            r == old(self).register_write_result_spec(index),
            same_except_registers(*old(self), *final(self)),
            r is Ok ==> final(self).registers@ == old(self).registers@.update(
                index as int,
                value,
            ),
            r is Err ==> final(self).registers@ == old(self).registers@,
    {
        if index < REGISTER_COUNT {
            self.registers[index as usize] = value;
            Ok(())
        } else if index == REGISTER_ZERO || index == REGISTER_ONE || index == REGISTER_TWO {
            Err(CpuError::WriteToSpecialRegister(index))
        } else {
            Err(CpuError::InvalidRegister(index))
        }
    }

    /// Fetch the instruction word at the program counter, latch it, and
    /// advance the counter by one instruction width with a checked
    /// addition: overflow is `ProgramCounterOverflow`, never a silent
    /// wraparound, and a failed fetch leaves the state untouched.
    pub fn fetch(&mut self, memory: &MMU) -> (r: Result<u128, CpuError>)
        ensures
            old(self).program_counter > u64::MAX - INSTRUCTION_WIDTH ==> r == Err::<
                u128,
                CpuError,
            >(CpuError::ProgramCounterOverflow) && cpu_same(*old(self), *final(self)),
            old(self).program_counter <= u64::MAX - INSTRUCTION_WIDTH ==> match word_at(
                *memory,
                old(self).program_counter,
            ) {
                Err(e) => r == Err::<u128, CpuError>(CpuError::MemoryError(e)) && cpu_same(
                    *old(self),
                    *final(self),
                ),
                Ok(word) => r == Ok::<u128, CpuError>(word) && cpu_same(
                    cpu_after_fetch(*old(self), word),
                    *final(self),
                ),
            },
    {
        let pc = self.program_counter;
        if pc > u64::MAX - INSTRUCTION_WIDTH {
            return Err(CpuError::ProgramCounterOverflow);
        }
        match read_u128(memory, pc) {
            Err(e) => Err(CpuError::MemoryError(e)),
            Ok(word) => {
                proof {
                    crate::memory::lemma_read_range_len(*memory, pc as int, 16);
                    if read_range_spec(*memory, pc as int, 16) is Ok {
                        lemma_le_value_bound(read_range_spec(*memory, pc as int, 16)->Ok_0);
                        lemma_pow256_16();
                    }
                }
                self.instruction_register = word;
                self.program_counter = pc + INSTRUCTION_WIDTH;
                Ok(word)
            },
        }
    }

    /// Apply one decoded instruction to the registers and the memory.
    pub fn execute(&mut self, memory: &mut MMU, instruction: Instruction) -> (r: Result<
        (),
        CpuError,
    >)
        ensures
            execute_rel(*old(self), *old(memory), instruction, *final(self), *final(memory), r),
    {
        match instruction {
            Instruction::Null => Ok(()),
            Instruction::SetLo { opcode: _, register, immediate } => {
                match self.read_register(register) {
                    Err(e) => Err(e),
                    Ok(value) => {
                        let updated = set_low_exec(value, immediate);
                        self.write_register(register, updated)
                    },
                }
            },
            Instruction::SetHi { opcode: _, register, immediate } => {
                match self.read_register(register) {
                    Err(e) => Err(e),
                    Ok(value) => {
                        let updated = set_high_exec(value, immediate);
                        self.write_register(register, updated)
                    },
                }
            },
            Instruction::Load { opcode: _, register, address } => {
                match read_u128(memory, address) {
                    Err(e) => Err(CpuError::MemoryError(e)),
                    Ok(word) => {
                        proof {
                            crate::memory::lemma_read_range_len(*memory, address as int, 16);
                            if read_range_spec(*memory, address as int, 16) is Ok {
                                lemma_le_value_bound(
                                    read_range_spec(*memory, address as int, 16)->Ok_0,
                                );
                                lemma_pow256_16();
                            }
                        }
                        self.write_register(register, word)
                    },
                }
            },
            Instruction::Store { opcode: _, register, address } => {
                match self.read_register(register) {
                    Err(e) => Err(e),
                    Ok(value) => {
                        match write_u128(memory, address, value) {
                            Err(e) => Err(CpuError::MemoryError(e)),
                            Ok(done) => Ok(()),
                        }
                    },
                }
            },
        }
    }

    /// Execute exactly one instruction: fetch the word at the program
    /// counter through the unit, advance the counter, decode, execute, and
    /// report the instruction's cycle cost.
    pub fn step(&mut self, memory: &mut MMU) -> (r: Result<u32, CpuError>)
        ensures
            old(self).program_counter > u64::MAX - INSTRUCTION_WIDTH ==> r == Err::<
                u32,
                CpuError,
            >(CpuError::ProgramCounterOverflow) && cpu_same(*old(self), *final(self))
                && same_contents(*old(memory), *final(memory)),
            old(self).program_counter <= u64::MAX - INSTRUCTION_WIDTH ==> match word_at(
                *old(memory),
                old(self).program_counter,
            ) {
                Err(e) => r == Err::<u32, CpuError>(CpuError::MemoryError(e)) && cpu_same(
                    *old(self),
                    *final(self),
                ) && same_contents(*old(memory), *final(memory)),
                Ok(word) => match decode_spec(word) {
                    Err(e) => r == Err::<u32, CpuError>(CpuError::InstructionError(e)) && cpu_same(
                        cpu_after_fetch(*old(self), word),
                        *final(self),
                    ) && same_contents(*old(memory), *final(memory)),
                    Ok(instruction) => {
                        &&& (r is Ok ==> execute_rel(
                            cpu_after_fetch(*old(self), word),
                            *old(memory),
                            instruction,
                            *final(self),
                            *final(memory),
                            Ok(()),
                        ) && r == Ok::<u32, CpuError>(cycles_spec(instruction)))
                        &&& (r is Err ==> execute_rel(
                            cpu_after_fetch(*old(self), word),
                            *old(memory),
                            instruction,
                            *final(self),
                            *final(memory),
                            Err(r->Err_0),
                        ))
                    },
                },
            },
            r matches Ok(cycles) ==> cycles >= 1,
            old(self).wf() ==> final(self).wf(),
    {
        let word = match self.fetch(memory) {
            Err(e) => {
                return Err(e);
            },
            Ok(word) => word,
        };
        let instruction = match Instruction::decode(word) {
            Err(e) => {
                return Err(CpuError::InstructionError(e));
            },
            Ok(instruction) => instruction,
        };
        match self.execute(memory, instruction) {
            Err(e) => Err(e),
            Ok(done) => Ok(instruction.cycles()),
        }
    }
}

impl CPU {
    /// Push one byte: write it at the current stack address, then advance
    /// the pointer.  Advancing past the one-page window is a fatal
    /// `StackOverflow`; the byte is already committed when that is
    /// reported, since the state is left exactly as far as the push
    /// progressed.
    pub fn push(&mut self, memory: &mut MMU, value: u8) -> (r: Result<(), CpuError>)
        requires
            old(self).wf(),
        ensures
            final(self).wf(),
            push_rel(*old(self), *old(memory), value, *final(self), *final(memory), r),
    {
        let at = self.stack_address();
        match memory.write_u8(at, value) {
            Err(e) => Err(CpuError::MemoryError(e)),
            Ok(done) => {
                if self.stack_pointer == 0xFF {
                    Err(CpuError::StackOverflow)
                } else {
                    self.stack_pointer = self.stack_pointer + 1;
                    Ok(())
                }
            },
        }
    }

    /// Pull one byte: step the pointer back, then read at the address it
    /// now names.  Stepping below the bottom of the window is a fatal
    /// `StackUnderflow`.
    pub fn pull(&mut self, memory: &MMU) -> (r: Result<u8, CpuError>)
        requires
            old(self).wf(),
        ensures
            final(self).wf(),
            old(self).stack_pointer == 0 ==> r == Err::<u8, CpuError>(CpuError::StackUnderflow)
                && cpu_same(*old(self), *final(self)),
            old(self).stack_pointer > 0 ==> {
                &&& same_except_stack_pointer(*old(self), *final(self))
                &&& final(self).stack_pointer == old(self).stack_pointer - 1
                &&& match memory.read_spec((STACK_PAGE + old(self).stack_pointer - 1) as u64) {
                    Err(e) => r == Err::<u8, CpuError>(CpuError::MemoryError(e)),
                    Ok(byte) => r == Ok::<u8, CpuError>(byte),
                }
            },
    {
        if self.stack_pointer == 0 {
            return Err(CpuError::StackUnderflow);
        }
        self.stack_pointer = self.stack_pointer - 1;
        match memory.read_u8(STACK_PAGE + self.stack_pointer) {
            Err(e) => Err(CpuError::MemoryError(e)),
            Ok(byte) => Ok(byte),
        }
    }

    /// Push a 16-bit word: low byte first, then high byte, so the high
    /// byte ends up on top of the stack.
    pub fn push_word(&mut self, memory: &mut MMU, value: u16) -> (r: Result<(), CpuError>)
        requires
            old(self).wf(),
        ensures
            final(self).wf(),
            ({
                let lo = (value % 256) as u8;
                let hi = (value / 256) as u8;
                let at0 = old(self).stack_address_spec();
                let at1 = (STACK_PAGE + old(self).stack_pointer + 1) as u64;
                match old(memory).write_result_spec(at0) {
                    Err(e) => r == Err::<(), CpuError>(CpuError::MemoryError(e)) && cpu_same(
                        *old(self),
                        *final(self),
                    ) && memory_unchanged(*old(memory), *final(memory)),
                    Ok(first_accepted) => {
                        if old(self).stack_pointer == 0xFF {
                            r == Err::<(), CpuError>(CpuError::StackOverflow) && cpu_same(
                                *old(self),
                                *final(self),
                            ) && byte_written(*old(memory), *final(memory), at0, lo)
                        } else {
                            match old(memory).write_result_spec(at1) {
                                Err(e) => r == Err::<(), CpuError>(CpuError::MemoryError(e))
                                    && same_except_stack_pointer(*old(self), *final(self))
                                    && final(self).stack_pointer == old(self).stack_pointer + 1
                                    && byte_written(*old(memory), *final(memory), at0, lo),
                                Ok(second_accepted) => {
                                    &&& forall|a: u64| #[trigger]
                                        final(memory).write_result_spec(a)
                                            == old(memory).write_result_spec(a)
                                    &&& forall|a: u64|
                                        a != at0 && a != at1
                                            ==> #[trigger] final(memory).read_spec(a)
                                            == old(memory).read_spec(a)
                                    &&& final(memory).read_spec(at0) == Ok::<
                                        u8,
                                        crate::error::MemoryError,
                                    >(lo)
                                    &&& final(memory).read_spec(at1) == Ok::<
                                        u8,
                                        crate::error::MemoryError,
                                    >(hi)
                                    &&& same_except_stack_pointer(*old(self), *final(self))
                                    &&& if old(self).stack_pointer + 1 == 0xFF {
                                        r == Err::<(), CpuError>(CpuError::StackOverflow)
                                            && final(self).stack_pointer
                                            == old(self).stack_pointer + 1
                                    } else {
                                        r is Ok && final(self).stack_pointer
                                            == old(self).stack_pointer + 2
                                    }
                                },
                            }
                        }
                    },
                }
            }),
    {
        let lo: u8 = (value % 256) as u8;
        let hi: u8 = (value / 256) as u8;
        match self.push(memory, lo) {
            Err(e) => Err(e),
            Ok(done) => self.push(memory, hi),
        }
    }

    /// Pull a 16-bit word: high byte first, then low byte, reconstructing
    /// the little-endian value a matching `push_word` stored.
    pub fn pull_word(&mut self, memory: &MMU) -> (r: Result<u16, CpuError>)
        requires
            old(self).wf(),
        ensures
            final(self).wf(),
            old(self).stack_pointer == 0 ==> r == Err::<u16, CpuError>(CpuError::StackUnderflow)
                && cpu_same(*old(self), *final(self)),
            old(self).stack_pointer > 0 ==> match memory.read_spec(
                (STACK_PAGE + old(self).stack_pointer - 1) as u64,
            ) {
                Err(e) => r == Err::<u16, CpuError>(CpuError::MemoryError(e))
                    && same_except_stack_pointer(*old(self), *final(self))
                    && final(self).stack_pointer == old(self).stack_pointer - 1,
                Ok(hi) => {
                    if old(self).stack_pointer == 1 {
                        r == Err::<u16, CpuError>(CpuError::StackUnderflow)
                            && same_except_stack_pointer(*old(self), *final(self))
                            && final(self).stack_pointer == 0
                    } else {
                        &&& same_except_stack_pointer(*old(self), *final(self))
                        &&& final(self).stack_pointer == old(self).stack_pointer - 2
                        &&& match memory.read_spec(
                            (STACK_PAGE + old(self).stack_pointer - 2) as u64,
                        ) {
                            Err(e) => r == Err::<u16, CpuError>(CpuError::MemoryError(e)),
                            Ok(lo) => r == Ok::<u16, CpuError>((lo + 256 * hi) as u16),
                        }
                    }
                },
            },
    {
        let hi = match self.pull(memory) {
            Err(e) => {
                return Err(e);
            },
            Ok(byte) => byte,
        };
        let lo = match self.pull(memory) {
            Err(e) => {
                return Err(e);
            },
            Ok(byte) => byte,
        };
        Ok((lo as u16) + 256 * (hi as u16))
    }

    /// The global address the stack pointer currently names: the stack
    /// page base combined with the pointer.
    pub fn stack_address(&self) -> (r: u64)
        requires
            self.wf(),
        ensures
            r == self.stack_address_spec(),
    {
        STACK_PAGE + self.stack_pointer
    }

}

impl Default for CPU {
    /// A CPU reset to address zero.
    fn default() -> (r: CPU)
        ensures
            r.wf(),
            r.reset_address == 0,
            r.program_counter == 0,
            r.instruction_register == 0,
            r.stack_pointer == 0,
            r.frame_pointer == 0,
            r.return_address == 0,
            r.status == cleared_status(),
            forall|i: int| 0 <= i < 26 ==> r.registers@[i] == 0,
    {
        CPU::new(0)
    }
}

/// What one push does: the byte is committed at the old stack address
/// whenever that address accepts writes, and the pointer advances unless
/// it already sat at the top of the window, which is `StackOverflow`.
pub open spec fn push_rel(
    pre: CPU,
    pre_mem: MMU,
    value: u8,
    post: CPU,
    post_mem: MMU,
    r: Result<(), CpuError>,
) -> bool {
    let at = pre.stack_address_spec();
    match pre_mem.write_result_spec(at) {
        Err(e) => r == Err::<(), CpuError>(CpuError::MemoryError(e)) && cpu_same(pre, post)
            && memory_unchanged(pre_mem, post_mem),
        Ok(accepted) => byte_written(pre_mem, post_mem, at, value) && if pre.stack_pointer
            == 0xFF {
            r == Err::<(), CpuError>(CpuError::StackOverflow) && cpu_same(pre, post)
        } else {
            r is Ok && same_except_stack_pointer(pre, post) && post.stack_pointer
                == pre.stack_pointer + 1
        },
    }
}

/// The offset, relative to the base of the mutable segment, of the stack
/// slot a pointer value names.
pub open spec fn stack_slot(stack_pointer: u64) -> int {
    STACK_PAGE_OFFSET + stack_pointer
}

/// The mutable bytes and the stack pointer after pushing a run of bytes
/// in order, as the push contract commits them.
pub open spec fn stack_push_seq(ram: Seq<u8>, stack_pointer: u64, values: Seq<u8>) -> (
    Seq<u8>,
    u64,
)
    decreases values.len(),
{
    if values.len() == 0 {
        (ram, stack_pointer)
    } else {
        stack_push_seq(
            ram.update(stack_slot(stack_pointer), values[0]),
            (stack_pointer + 1) as u64,
            values.drop_first(),
        )
    }
}

/// The bytes a run of pulls returns, in pull order, and the stack pointer
/// afterwards, as the pull contract reads them.
pub open spec fn stack_pull_seq(ram: Seq<u8>, stack_pointer: u64, count: nat) -> (Seq<u8>, u64)
    decreases count,
{
    if count == 0 {
        (Seq::empty(), stack_pointer)
    } else {
        let byte = ram[stack_slot((stack_pointer - 1) as u64)];
        let rest = stack_pull_seq(ram, (stack_pointer - 1) as u64, (count - 1) as nat);
        (seq![byte] + rest.0, rest.1)
    }
}

proof fn lemma_push_seq_contents(ram: Seq<u8>, stack_pointer: u64, values: Seq<u8>)
    requires
        stack_pointer + values.len() <= 0x100,
        STACK_PAGE_OFFSET + 0x100 <= ram.len(),
    ensures
        ({
            let (after, sp2) = stack_push_seq(ram, stack_pointer, values);
            &&& sp2 == stack_pointer + values.len()
            &&& after.len() == ram.len()
            &&& forall|i: int|
                0 <= i < values.len() ==> #[trigger] after[stack_slot(stack_pointer) + i]
                    == values[i]
            &&& forall|j: int|
                0 <= j < ram.len() && !(stack_slot(stack_pointer) <= j < stack_slot(stack_pointer)
                    + values.len()) ==> #[trigger] after[j] == ram[j]
        }),
    decreases values.len(),
{
    if values.len() > 0 {
        let ram2 = ram.update(stack_slot(stack_pointer), values[0]);
        let sp1 = (stack_pointer + 1) as u64;
        let rest = values.drop_first();
        lemma_push_seq_contents(ram2, sp1, rest);
        let (after, sp2) = stack_push_seq(ram, stack_pointer, values);
        assert forall|i: int| 0 <= i < values.len() implies #[trigger] after[stack_slot(
            stack_pointer,
        ) + i] == values[i] by {
            if i == 0 {
                assert(after[stack_slot(stack_pointer)] == ram2[stack_slot(stack_pointer)]);
            } else {
                assert(after[stack_slot(sp1) + (i - 1)] == rest[i - 1]);
            }
        }
        assert forall|j: int|
            0 <= j < ram.len() && !(stack_slot(stack_pointer) <= j < stack_slot(stack_pointer)
                + values.len()) implies #[trigger] after[j] == ram[j] by {
            assert(after[j] == ram2[j]);
        }
    }
}

proof fn lemma_pull_seq_reads(ram: Seq<u8>, stack_pointer: u64, count: nat)
    requires
        count <= stack_pointer,
    ensures
        ({
            let (pulled, sp2) = stack_pull_seq(ram, stack_pointer, count);
            &&& sp2 == stack_pointer - count
            &&& pulled.len() == count
            &&& forall|i: int|
                0 <= i < count ==> #[trigger] pulled[i] == ram[stack_slot(
                    ((stack_pointer - 1 - i) as u64),
                )]
        }),
    decreases count,
{
    if count > 0 {
        lemma_pull_seq_reads(ram, (stack_pointer - 1) as u64, (count - 1) as nat);
    }
}

/// Stack discipline: pushing a run of bytes and then pulling as many
/// returns exactly the pushed bytes, most recently pushed first, and
/// brings the stack pointer back to where it started.  Callers that push
/// and pull symmetrically therefore recover what they stored.
pub proof fn lemma_stack_round_trip(ram: Seq<u8>, stack_pointer: u64, values: Seq<u8>)
    requires
        stack_pointer + values.len() <= 0x100,
        STACK_PAGE_OFFSET + 0x100 <= ram.len(),
    ensures
        ({
            let (after, sp2) = stack_push_seq(ram, stack_pointer, values);
            let (pulled, sp3) = stack_pull_seq(after, sp2, values.len() as nat);
            &&& pulled.len() == values.len()
            &&& forall|i: int|
                0 <= i < values.len() ==> #[trigger] pulled[i] == values[values.len() - 1 - i]
            &&& sp3 == stack_pointer
        }),
{
    lemma_push_seq_contents(ram, stack_pointer, values);
    let (after, sp2) = stack_push_seq(ram, stack_pointer, values);
    lemma_pull_seq_reads(after, sp2, values.len() as nat);
    let (pulled, sp3) = stack_pull_seq(after, sp2, values.len() as nat);
    assert forall|i: int| 0 <= i < values.len() implies #[trigger] pulled[i] == values[values.len()
        - 1 - i] by {
        assert(pulled[i] == after[stack_slot(((sp2 - 1 - i) as u64))]);
        assert(after[stack_slot(stack_pointer) + (values.len() - 1 - i)] == values[values.len() - 1
            - i]);
        assert(stack_slot(((sp2 - 1 - i) as u64)) == stack_slot(stack_pointer) + (values.len() - 1
            - i));
    }
}

/// Replace the low 64 bits of a register value with the immediate; the
/// high 64 bits are unchanged.
pub fn set_low_exec(value: u128, immediate: u64) -> (r: u128)
    ensures
        r == set_low(value, immediate),
{
    (value & 0xFFFF_FFFF_FFFF_FFFF_0000_0000_0000_0000) | (immediate as u128)
}

/// Replace the high 64 bits of a register value with the immediate; the
/// low 64 bits are unchanged.
pub fn set_high_exec(value: u128, immediate: u64) -> (r: u128)
    ensures
        r == set_high(value, immediate),
{
    (value & 0xFFFF_FFFF_FFFF_FFFF) | ((immediate as u128) << 64u128)
}

} // verus!
