use vstd::prelude::*;

verus! {

/// CPU status flags, retained for forward compatibility though unused by
/// the current opcode set.
#[derive(Debug, Clone, Copy, PartialEq, Eq, Structural)]
pub struct Status {
    pub carry: bool,
    pub zero: bool,
    pub interrupt_disable: bool,
    pub decimal: bool,
    pub break_command: bool,
    pub overflow: bool,
    pub negative: bool,
}

/// The state of every flag after a reset: all cleared.
pub open spec fn cleared_status() -> Status {
    Status {
        carry: false,
        zero: false,
        interrupt_disable: false,
        decimal: false,
        break_command: false,
        overflow: false,
        negative: false,
    }
}

impl Status {
    /// Clear every flag.
    pub fn reset(&mut self)
        ensures
            *final(self) == cleared_status(),
    {
        self.carry = false;
        self.zero = false;
        self.interrupt_disable = false;
        self.decimal = false;
        self.break_command = false;
        self.overflow = false;
        self.negative = false;
    }
}

} // verus!
