use vcpu::error::InstructionError;
use vcpu::instruction::{Fields, Instruction};

fn word(opcode: u16, operand_a: u8, operand_b: u8, target: u8, shift: u8, immediate: u64) -> u128 {
    ((opcode as u128) << 112)
        | ((operand_a as u128) << 104)
        | ((operand_b as u128) << 96)
        | ((target as u128) << 88)
        | ((shift as u128) << 80)
        | (immediate as u128)
}

#[test]
fn decode_null() {
    assert_eq!(Instruction::decode(0), Ok(Instruction::Null));
}

#[test]
fn decode_set_lo() {
    let w = word(0xF010, 0, 0, 7, 0, 0xDEAD_BEEF);
    assert_eq!(
        Instruction::decode(w),
        Ok(Instruction::SetLo { opcode: 0xF010, register: 7, immediate: 0xDEAD_BEEF })
    );
}

#[test]
fn decode_set_hi() {
    let w = word(0xF011, 0, 0, 25, 0, 0x1234_5678_9ABC_DEF0);
    assert_eq!(
        Instruction::decode(w),
        Ok(Instruction::SetHi { opcode: 0xF011, register: 25, immediate: 0x1234_5678_9ABC_DEF0 })
    );
}

#[test]
fn decode_load() {
    let w = word(0xF013, 0, 0, 3, 0, 0x3_0000_0000);
    assert_eq!(
        Instruction::decode(w),
        Ok(Instruction::Load { opcode: 0xF013, register: 3, address: 0x3_0000_0000 })
    );
}

#[test]
fn decode_store() {
    let w = word(0xF020, 0, 0, 0, 0, 0x3_0000_0010);
    assert_eq!(
        Instruction::decode(w),
        Ok(Instruction::Store { opcode: 0xF020, register: 0, address: 0x3_0000_0010 })
    );
}

#[test]
fn decode_rejects_unknown_opcodes() {
    for opcode in [0x0001u16, 0xF012, 0xF014, 0xF021, 0xFFFF, 0x8000] {
        let w = word(opcode, 1, 2, 3, 4, 5);
        assert_eq!(Instruction::decode(w), Err(InstructionError::InvalidOpCode(opcode)));
    }
}

#[test]
fn decode_scenario_set_lo_register_5() {
    // Opcode 0xF010 with target register 5 and immediate 0x1234.
    let w = word(0xF010, 0, 0, 5, 0, 0x1234);
    assert_eq!(
        Instruction::decode(w),
        Ok(Instruction::SetLo { opcode: 0xF010, register: 5, immediate: 0x1234 })
    );
}

#[test]
fn extract_fields_reads_every_field() {
    let w = word(0xF010, 0xAA, 0xBB, 0xCC, 0xDD, 0x1122_3344_5566_7788);
    let fields = Instruction::extract_fields(w);
    assert_eq!(fields.opcode, 0xF010);
    assert_eq!(fields.operand_register_a, 0xAA);
    assert_eq!(fields.operand_register_b, 0xBB);
    assert_eq!(fields.target_register, 0xCC);
    assert_eq!(fields.shift_amount, 0xDD);
    assert_eq!(fields.immediate, 0x1122_3344_5566_7788);
}

#[test]
fn field_isolation_each_field_alone_against_zeroes() {
    let cases = [
        word(0xFFFF, 0, 0, 0, 0, 0),
        word(0, 0xFF, 0, 0, 0, 0),
        word(0, 0, 0xFF, 0, 0, 0),
        word(0, 0, 0, 0xFF, 0, 0),
        word(0, 0, 0, 0, 0xFF, 0),
        word(0, 0, 0, 0, 0, u64::MAX),
    ];
    let expected = [
        (0xFFFFu16, 0u8, 0u8, 0u8, 0u8, 0u64),
        (0, 0xFF, 0, 0, 0, 0),
        (0, 0, 0xFF, 0, 0, 0),
        (0, 0, 0, 0xFF, 0, 0),
        (0, 0, 0, 0, 0xFF, 0),
        (0, 0, 0, 0, 0, u64::MAX),
    ];
    for (w, want) in cases.iter().zip(expected.iter()) {
        let fields = Instruction::extract_fields(*w);
        assert_eq!(fields.opcode, want.0);
        assert_eq!(fields.operand_register_a, want.1);
        assert_eq!(fields.operand_register_b, want.2);
        assert_eq!(fields.target_register, want.3);
        assert_eq!(fields.shift_amount, want.4);
        assert_eq!(fields.immediate, want.5);
    }
}

#[test]
fn field_isolation_each_field_zero_against_ones() {
    // All fields at their all-ones extreme, except one field at zero: the
    // zero must not bleed into a neighbour.
    let all = word(0xFFFF, 0xFF, 0xFF, 0xFF, 0xFF, u64::MAX);
    let fields = Instruction::extract_fields(all);
    assert_eq!(fields.opcode, 0xFFFF);
    assert_eq!(fields.immediate, u64::MAX);

    let no_target = word(0xFFFF, 0xFF, 0xFF, 0, 0xFF, u64::MAX);
    let fields = Instruction::extract_fields(no_target);
    assert_eq!(fields.target_register, 0);
    assert_eq!(fields.operand_register_b, 0xFF);
    assert_eq!(fields.shift_amount, 0xFF);

    let no_shift = word(0xFFFF, 0xFF, 0xFF, 0xFF, 0, u64::MAX);
    let fields = Instruction::extract_fields(no_shift);
    assert_eq!(fields.shift_amount, 0);
    assert_eq!(fields.target_register, 0xFF);
    assert_eq!(fields.immediate, u64::MAX);
}

#[test]
fn fields_encode_round_trip() {
    let fields = Fields {
        opcode: 0xF013,
        operand_register_a: 0x12,
        operand_register_b: 0x34,
        target_register: 0x56,
        shift_amount: 0x78,
        immediate: 0x0123_4567_89AB_CDEF,
    };
    let w = fields.encode();
    assert_eq!(Instruction::extract_fields(w), fields);
}

#[test]
fn encode_decode_round_trip() {
    let instructions = [
        Instruction::Null,
        Instruction::SetLo { opcode: 0xF010, register: 5, immediate: 0x1234 },
        Instruction::SetHi { opcode: 0xF011, register: 0, immediate: u64::MAX },
        Instruction::Load { opcode: 0xF013, register: 25, address: 0x3_0000_0000 },
        Instruction::Store { opcode: 0xF020, register: 1, address: 0x10_0000 },
    ];
    for instruction in instructions {
        assert_eq!(Instruction::decode(instruction.encode()), Ok(instruction));
    }
}

#[test]
fn decode_encode_round_trip_on_words_with_unused_fields_zero() {
    for w in [
        word(0xF010, 0, 0, 9, 0, 42),
        word(0xF011, 0, 0, 9, 0, 42),
        word(0xF013, 0, 0, 9, 0, 42),
        word(0xF020, 0, 0, 9, 0, 42),
        0u128,
    ] {
        let decoded = Instruction::decode(w).unwrap();
        assert_eq!(decoded.encode(), w);
    }
}

#[test]
fn cycles_are_fixed_per_instruction() {
    assert_eq!(Instruction::Null.cycles(), 1);
    assert_eq!(Instruction::SetLo { opcode: 0xF010, register: 0, immediate: 0 }.cycles(), 2);
    assert_eq!(Instruction::SetHi { opcode: 0xF011, register: 0, immediate: 0 }.cycles(), 2);
    assert_eq!(Instruction::Load { opcode: 0xF013, register: 0, address: 0 }.cycles(), 4);
    assert_eq!(Instruction::Store { opcode: 0xF020, register: 0, address: 0 }.cycles(), 4);
}
