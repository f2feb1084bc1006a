use vstd::prelude::*;

verus! {

/// Registers of the system control block.
#[derive(Clone, Debug)]
pub struct RegisterBlock {
    /// CPUID Register
    pub CPUID: u32,
    /// Interrupt Control and State Register
    pub ICSR: u32,
    /// Application Interrupt and Reset Control Register
    pub AIRCR: u32,
    /// System Control Register
    pub SCR: u32,
    /// Configuration and Control Register
    pub CCR: u32,
    /// System Handler Priority Register 2
    pub SHPR2: u32,
    /// System Handler Priority Register 3
    pub SHPR3: u32,
}

/// System control block, over its registers held as values.
pub struct SystemControlBlock {
    pub reg: RegisterBlock,
}

impl SystemControlBlock {
    /// The controller over the registers `reg`, or `None` when a controller
    /// exists already (`slot_free` is false).
    pub fn new(slot_free: bool, reg: RegisterBlock) -> (c: Option<Self>)
        ensures
            c is Some <==> slot_free,
            c matches Some(c) ==> c.reg == reg,
    {
        if slot_free {
            Some(SystemControlBlock { reg })
        } else {
            None
        }
    }
}

} // verus!
