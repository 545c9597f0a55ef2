use vstd::prelude::*;

pub mod jmp;
pub mod lda;
pub mod nop;

verus! {

/// What every instruction of the earlier generation answers for: a fixed
/// cycle cost and the opcode byte that selects it.  Decoding dispatches
/// by one exhaustive match over the opcode, so each instruction type
/// also offers its own `decode` and `execute` with exact contracts.
pub trait Instruction {
    /// The instruction's fixed cycle cost.
    spec fn cycles_spec(&self) -> u32;

    /// The opcode byte that selects this instruction.
    spec fn opcode_spec(&self) -> u8;

    /// Report the cycle cost.
    fn cycles(&self) -> (r: u32)
        ensures
            r == self.cycles_spec(),
    ;

    /// Report the opcode byte.
    fn opcode(&self) -> (r: u8)
        ensures
            r == self.opcode_spec(),
    ;
}

} // verus!
