use vstd::prelude::*;

verus! {

/// Number of interrupt priority registers.
pub const PRIORITY_REGISTERS: usize = 8;

/// Registers of the nested vectored interrupt controller.
#[derive(Clone, Debug)]
pub struct RegisterBlock {
    /// Interrupt Set-enable Register
    pub SETENA: u32,
    /// Interrupt Clear-enable Register
    pub CLRENA: u32,
    /// Interrupt Set-pending Register
    pub SETPEND: u32,
    /// Interrupt Clear-pending Register
    pub CLRPEND: u32,
    /// Interrupt Priority Registers
    pub IP: Vec<u32>,
}

/// Nested vectored interrupt controller, over its registers held as values.
pub struct NestedVectoredInterruptController {
    pub reg: RegisterBlock,
}

impl NestedVectoredInterruptController {
    /// The controller over the registers `reg`, or `None` when a controller
    /// exists already (`slot_free` is false).
    pub fn new(slot_free: bool, reg: RegisterBlock) -> (c: Option<Self>)
        requires
            reg.IP@.len() == PRIORITY_REGISTERS,
        ensures
            c is Some <==> slot_free,
            c matches Some(c) ==> c.reg == reg,
    {
        if slot_free {
            Some(NestedVectoredInterruptController { reg })
        } else {
            None
        }
    }
}

} // verus!
