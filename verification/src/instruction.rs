use vstd::prelude::*;

use crate::error::InstructionError;

verus! {

// A 128-bit instruction word has a fixed bit layout (bit 0 = least
// significant):
//
//   bits   0..=63   immediate
//   bits  64..=79   reserved
//   bits  80..=87   shift_amount
//   bits  88..=95   target_register
//   bits  96..=103  operand_register_b
//   bits 104..=111  operand_register_a
//   bits 112..=127  opcode

pub const IMMEDIATE_WIDTH: u128 = 64;
pub const RESERVED_WIDTH: u128 = 16;
pub const SHIFT_OFFSET: u128 = IMMEDIATE_WIDTH + RESERVED_WIDTH;
pub const TARGET_OFFSET: u128 = SHIFT_OFFSET + 8;
pub const OPERAND_B_OFFSET: u128 = TARGET_OFFSET + 8;
pub const OPERAND_A_OFFSET: u128 = OPERAND_B_OFFSET + 8;
pub const OPCODE_OFFSET: u128 = OPERAND_A_OFFSET + 8;

pub const OPCODE_NULL: u16 = 0x0000;
pub const OPCODE_SET_LO: u16 = 0xF010;
pub const OPCODE_SET_HI: u16 = 0xF011;
pub const OPCODE_LOAD: u16 = 0xF013;
pub const OPCODE_STORE: u16 = 0xF020;

/// The value of the opcode field of an instruction word.
pub open spec fn opcode_of(word: u128) -> u16 {
    (word >> OPCODE_OFFSET) as u16
}

/// The value of the operand_register_a field of an instruction word.
pub open spec fn operand_a_of(word: u128) -> u8 {
    (word >> OPERAND_A_OFFSET) as u8
}

/// The value of the operand_register_b field of an instruction word.
pub open spec fn operand_b_of(word: u128) -> u8 {
    (word >> OPERAND_B_OFFSET) as u8
}

/// The value of the target_register field of an instruction word.
pub open spec fn target_of(word: u128) -> u8 {
    (word >> TARGET_OFFSET) as u8
}

/// The value of the shift_amount field of an instruction word.
pub open spec fn shift_of(word: u128) -> u8 {
    (word >> SHIFT_OFFSET) as u8
}

/// The value of the reserved field of an instruction word.
pub open spec fn reserved_of(word: u128) -> u16 {
    (word >> IMMEDIATE_WIDTH) as u16
}

/// The value of the immediate field of an instruction word.
pub open spec fn immediate_of(word: u128) -> u64 {
    word as u64
}

/// The instruction word whose six fields hold the given values and whose
/// reserved bits are zero.
pub open spec fn assemble(
    opcode: u16,
    operand_a: u8,
    operand_b: u8,
    target: u8,
    shift: u8,
    immediate: u64,
) -> u128 {
    ((opcode as u128) << OPCODE_OFFSET) | ((operand_a as u128) << OPERAND_A_OFFSET) | ((
    operand_b as u128) << OPERAND_B_OFFSET) | ((target as u128) << TARGET_OFFSET) | ((
    shift as u128) << SHIFT_OFFSET) | (immediate as u128)
}

/// The six fields of an instruction word, as the decoder reads them.
#[derive(Debug, Clone, Copy, PartialEq, Eq, Structural)]
pub struct Fields {
    pub opcode: u16,
    pub operand_register_a: u8,
    pub operand_register_b: u8,
    pub target_register: u8,
    pub shift_amount: u8,
    pub immediate: u64,
}

/// The fields of a word, gathered into one record.
pub open spec fn fields_of(word: u128) -> Fields {
    Fields {
        opcode: opcode_of(word),
        operand_register_a: operand_a_of(word),
        operand_register_b: operand_b_of(word),
        target_register: target_of(word),
        shift_amount: shift_of(word),
        immediate: immediate_of(word),
    }
}

/// A decoded instruction: a closed variant set keyed by the opcode field.
#[derive(Debug, Clone, Copy, PartialEq, Eq, Structural)]
pub enum Instruction {
    /// No operation.
    Null,
    /// Replace the low 64 bits of the target register with the immediate.
    SetLo { opcode: u16, register: u8, immediate: u64 },
    /// Replace the high 64 bits of the target register with the immediate.
    SetHi { opcode: u16, register: u8, immediate: u64 },
    /// Read a 128-bit value from memory into the target register.
    Load { opcode: u16, register: u8, address: u64 },
    /// Write the target register's 128-bit value to memory.
    Store { opcode: u16, register: u8, address: u64 },
}

/// What decoding a word yields: exactly one variant for each of the five
/// known opcodes, and `InvalidOpCode` with the raw opcode for every other.
pub open spec fn decode_spec(word: u128) -> Result<Instruction, InstructionError> {
    let fields = fields_of(word);
    if fields.opcode == OPCODE_NULL {
        Ok(Instruction::Null)
    } else if fields.opcode == OPCODE_SET_LO {
        Ok(
            Instruction::SetLo {
                opcode: fields.opcode,
                register: fields.target_register,
                immediate: fields.immediate,
            },
        )
    } else if fields.opcode == OPCODE_SET_HI {
        Ok(
            Instruction::SetHi {
                opcode: fields.opcode,
                register: fields.target_register,
                immediate: fields.immediate,
            },
        )
    } else if fields.opcode == OPCODE_LOAD {
        Ok(
            Instruction::Load {
                opcode: fields.opcode,
                register: fields.target_register,
                address: fields.immediate,
            },
        )
    } else if fields.opcode == OPCODE_STORE {
        Ok(
            Instruction::Store {
                opcode: fields.opcode,
                register: fields.target_register,
                address: fields.immediate,
            },
        )
    } else {
        Err(InstructionError::InvalidOpCode(fields.opcode))
    }
}

impl Instruction {
    /// Decode one 128-bit word: pure, total, and deterministic.  Succeeds on
    /// the five known opcodes with the fields extracted exactly; fails with
    /// `InvalidOpCode` carrying the raw 16-bit opcode on every other word.
    pub fn decode(instruction: u128) -> (r: Result<Instruction, InstructionError>)
        ensures
            r == decode_spec(instruction),
    {
        let fields = Self::extract_fields(instruction);
        match fields.opcode {
            OPCODE_NULL => Ok(Instruction::Null),
            OPCODE_SET_LO => Ok(
                Instruction::SetLo {
                    opcode: fields.opcode,
                    register: fields.target_register,
                    immediate: fields.immediate,
                },
            ),
            OPCODE_SET_HI => Ok(
                Instruction::SetHi {
                    opcode: fields.opcode,
                    register: fields.target_register,
                    immediate: fields.immediate,
                },
            ),
            OPCODE_LOAD => Ok(
                Instruction::Load {
                    opcode: fields.opcode,
                    register: fields.target_register,
                    address: fields.immediate,
                },
            ),
            OPCODE_STORE => Ok(
                Instruction::Store {
                    opcode: fields.opcode,
                    register: fields.target_register,
                    address: fields.immediate,
                },
            ),
            _ => Err(InstructionError::InvalidOpCode(fields.opcode)),
        }
    }

    /// Extract the six fields of a word by fixed shifts and truncations;
    /// decoding never consumes a word partially.
    pub fn extract_fields(instruction: u128) -> (r: Fields)
        ensures
            r == fields_of(instruction),
    {
        Fields {
            opcode: (instruction >> OPCODE_OFFSET) as u16,
            operand_register_a: (instruction >> OPERAND_A_OFFSET) as u8,
            operand_register_b: (instruction >> OPERAND_B_OFFSET) as u8,
            target_register: (instruction >> TARGET_OFFSET) as u8,
            shift_amount: (instruction >> SHIFT_OFFSET) as u8,
            immediate: instruction as u64,
        }
    }
}

impl Fields {
    /// Assemble a word from the six fields, leaving the reserved bits zero.
    pub fn encode(&self) -> (r: u128)
        ensures
            r == assemble(
                self.opcode,
                self.operand_register_a,
                self.operand_register_b,
                self.target_register,
                self.shift_amount,
                self.immediate,
            ),
    {
        ((self.opcode as u128) << OPCODE_OFFSET) | ((self.operand_register_a as u128)
            << OPERAND_A_OFFSET) | ((self.operand_register_b as u128) << OPERAND_B_OFFSET) | ((
        self.target_register as u128) << TARGET_OFFSET) | ((self.shift_amount as u128)
            << SHIFT_OFFSET) | (self.immediate as u128)
    }
}

/// The fixed cycle cost of each instruction.
pub open spec fn cycles_spec(instruction: Instruction) -> u32 {
    match instruction {
        Instruction::Null => 1,
        Instruction::SetLo { .. } => 2,
        Instruction::SetHi { .. } => 2,
        Instruction::Load { .. } => 4,
        Instruction::Store { .. } => 4,
    }
}

/// The register value after `SetLo`: the low 64 bits replaced by the
/// immediate, the high 64 bits unchanged.
pub open spec fn set_low(value: u128, immediate: u64) -> u128 {
    (value & 0xFFFF_FFFF_FFFF_FFFF_0000_0000_0000_0000) | (immediate as u128)
}

/// The register value after `SetHi`: the high 64 bits replaced by the
/// immediate, the low 64 bits unchanged.
pub open spec fn set_high(value: u128, immediate: u64) -> u128 {
    (value & 0xFFFF_FFFF_FFFF_FFFF) | ((immediate as u128) << 64u128)
}

impl Instruction {
    /// The instruction's fixed cycle cost, at least one cycle each.
    pub fn cycles(&self) -> (r: u32)
        ensures
            r == cycles_spec(*self),
            r >= 1,
    {
        match self {
            Instruction::Null => 1,
            Instruction::SetLo { .. } => 2,
            Instruction::SetHi { .. } => 2,
            Instruction::Load { .. } => 4,
            Instruction::Store { .. } => 4,
        }
    }
}

/// Whether an instruction's stored opcode field is the canonical opcode
/// of its variant, as decoding always leaves it.
pub open spec fn wf_instruction(instruction: Instruction) -> bool {
    match instruction {
        Instruction::Null => true,
        Instruction::SetLo { opcode, .. } => opcode == OPCODE_SET_LO,
        Instruction::SetHi { opcode, .. } => opcode == OPCODE_SET_HI,
        Instruction::Load { opcode, .. } => opcode == OPCODE_LOAD,
        Instruction::Store { opcode, .. } => opcode == OPCODE_STORE,
    }
}

/// The canonical word of an instruction: its fields in place, and every
/// field its variant does not carry zero.
pub open spec fn instruction_word(instruction: Instruction) -> u128 {
    match instruction {
        Instruction::Null => assemble(OPCODE_NULL, 0, 0, 0, 0, 0),
        Instruction::SetLo { opcode, register, immediate } => assemble(
            opcode,
            0,
            0,
            register,
            0,
            immediate,
        ),
        Instruction::SetHi { opcode, register, immediate } => assemble(
            opcode,
            0,
            0,
            register,
            0,
            immediate,
        ),
        Instruction::Load { opcode, register, address } => assemble(
            opcode,
            0,
            0,
            register,
            0,
            address,
        ),
        Instruction::Store { opcode, register, address } => assemble(
            opcode,
            0,
            0,
            register,
            0,
            address,
        ),
    }
}

impl Instruction {
    /// Assemble this instruction's canonical word.
    pub fn encode(&self) -> (r: u128)
        ensures
            r == instruction_word(*self),
    {
        let fields = match self {
            Instruction::Null => Fields {
                opcode: OPCODE_NULL,
                operand_register_a: 0,
                operand_register_b: 0,
                target_register: 0,
                shift_amount: 0,
                immediate: 0,
            },
            Instruction::SetLo { opcode, register, immediate } => Fields {
                opcode: *opcode,
                operand_register_a: 0,
                operand_register_b: 0,
                target_register: *register,
                shift_amount: 0,
                immediate: *immediate,
            },
            Instruction::SetHi { opcode, register, immediate } => Fields {
                opcode: *opcode,
                operand_register_a: 0,
                operand_register_b: 0,
                target_register: *register,
                shift_amount: 0,
                immediate: *immediate,
            },
            Instruction::Load { opcode, register, address } => Fields {
                opcode: *opcode,
                operand_register_a: 0,
                operand_register_b: 0,
                target_register: *register,
                shift_amount: 0,
                immediate: *address,
            },
            Instruction::Store { opcode, register, address } => Fields {
                opcode: *opcode,
                operand_register_a: 0,
                operand_register_b: 0,
                target_register: *register,
                shift_amount: 0,
                immediate: *address,
            },
        };
        fields.encode()
    }
}

/// Decode inverts encode: decoding the canonical word of an instruction
/// whose opcode field is canonical yields the instruction back, exactly.
pub proof fn lemma_decode_inverts_encode(instruction: Instruction)
    requires
        wf_instruction(instruction),
    ensures
        decode_spec(instruction_word(instruction)) == Ok::<Instruction, InstructionError>(
            instruction,
        ),
{
    match instruction {
        Instruction::Null => {
            lemma_field_isolation(OPCODE_NULL, 0, 0, 0, 0, 0);
        },
        Instruction::SetLo { opcode, register, immediate } => {
            lemma_field_isolation(opcode, 0, 0, register, 0, immediate);
        },
        Instruction::SetHi { opcode, register, immediate } => {
            lemma_field_isolation(opcode, 0, 0, register, 0, immediate);
        },
        Instruction::Load { opcode, register, address } => {
            lemma_field_isolation(opcode, 0, 0, register, 0, address);
        },
        Instruction::Store { opcode, register, address } => {
            lemma_field_isolation(opcode, 0, 0, register, 0, address);
        },
    }
}

/// Encode inverts decode on every word whose unused fields are zero:
/// decoding keeps only the fields its instruction carries, so a word is
/// reproduced exactly when the discarded fields held nothing.
pub proof fn lemma_encode_inverts_decode(word: u128)
    requires
        decode_spec(word) is Ok,
        operand_a_of(word) == 0,
        operand_b_of(word) == 0,
        shift_of(word) == 0,
        reserved_of(word) == 0,
        opcode_of(word) == OPCODE_NULL ==> target_of(word) == 0 && immediate_of(word) == 0,
    ensures
        instruction_word(decode_spec(word)->Ok_0) == word,
{
    lemma_word_round_trip(word);
}

/// Field isolation: each field read back from an assembled word is exactly
/// the value that was put in, whatever the other five fields hold, and the
/// reserved bits of an assembled word are zero.
pub proof fn lemma_field_isolation(
    opcode: u16,
    operand_a: u8,
    operand_b: u8,
    target: u8,
    shift: u8,
    immediate: u64,
)
    ensures
        opcode_of(assemble(opcode, operand_a, operand_b, target, shift, immediate)) == opcode,
        operand_a_of(assemble(opcode, operand_a, operand_b, target, shift, immediate))
            == operand_a,
        operand_b_of(assemble(opcode, operand_a, operand_b, target, shift, immediate))
            == operand_b,
        target_of(assemble(opcode, operand_a, operand_b, target, shift, immediate)) == target,
        shift_of(assemble(opcode, operand_a, operand_b, target, shift, immediate)) == shift,
        immediate_of(assemble(opcode, operand_a, operand_b, target, shift, immediate))
            == immediate,
        reserved_of(assemble(opcode, operand_a, operand_b, target, shift, immediate)) == 0,
{
    assert(opcode_of(assemble(opcode, operand_a, operand_b, target, shift, immediate)) == opcode
        && operand_a_of(assemble(opcode, operand_a, operand_b, target, shift, immediate))
        == operand_a && operand_b_of(
        assemble(opcode, operand_a, operand_b, target, shift, immediate),
    ) == operand_b && target_of(assemble(opcode, operand_a, operand_b, target, shift, immediate))
        == target && shift_of(assemble(opcode, operand_a, operand_b, target, shift, immediate))
        == shift && immediate_of(assemble(opcode, operand_a, operand_b, target, shift, immediate))
        == immediate && reserved_of(
        assemble(opcode, operand_a, operand_b, target, shift, immediate),
    ) == 0) by (bit_vector);
}

/// Round trip from fields to word and back: extracting the fields of an
/// assembled word recovers the record exactly.
pub proof fn lemma_fields_round_trip(fields: Fields)
    ensures
        fields_of(
            assemble(
                fields.opcode,
                fields.operand_register_a,
                fields.operand_register_b,
                fields.target_register,
                fields.shift_amount,
                fields.immediate,
            ),
        ) == fields,
{
    lemma_field_isolation(
        fields.opcode,
        fields.operand_register_a,
        fields.operand_register_b,
        fields.target_register,
        fields.shift_amount,
        fields.immediate,
    );
}

/// Round trip from word to fields and back: a word whose reserved bits are
/// zero is reassembled from its six fields exactly.
pub proof fn lemma_word_round_trip(word: u128)
    requires
        reserved_of(word) == 0,
    ensures
        assemble(
            opcode_of(word),
            operand_a_of(word),
            operand_b_of(word),
            target_of(word),
            shift_of(word),
            immediate_of(word),
        ) == word,
{
    assert(assemble(
        opcode_of(word),
        operand_a_of(word),
        operand_b_of(word),
        target_of(word),
        shift_of(word),
        immediate_of(word),
    ) == word) by (bit_vector)
        requires
            reserved_of(word) == 0,
    ;
}

} // verus!
