use vstd::prelude::*;

verus! {

/// Registers of the system control block.
#[derive(Clone, Debug)]
pub struct RegisterBlock {
    /// CPUID Register
    pub CPUID: u32,
    /// Interrupt Control and State Register
    pub ICSR: u32,
    /// Vector Table Offset Register
    pub VTOR: u32,
    /// Application Interrupt and Reset Control Register
    pub AIRCR: u32,
    /// System Control Register
    pub SCR: u32,
    /// Configuration and Control Register
    pub CCR: u32,
    /// System Handler Priority Register 2
    pub SHPR2: u32,
    /// System Handler Priority Register 3
    pub SHPR3: u32,
}

/// Value written to ICSR to pend the context-switch exception.
pub const ICSR_PENDSVSET: u32 = 1 << 28;

/// Bits of VTOR that hold the vector table offset (it is 64-byte aligned).
pub const VTOR_TBLOFF_MASK: u32 = 0xFFFF_FFC0;

/// System control block.
///
/// The registers are held as values; each operation computes the new
/// register contents that the device is to receive.
pub struct SystemControlBlock {
    pub reg: RegisterBlock,
}

impl SystemControlBlock {
    /// The controller over the registers `reg`, or `None` when a controller
    /// for this device exists already (`slot_free` is false).
    pub fn new(slot_free: bool, reg: RegisterBlock) -> (c: Option<Self>)
        ensures
            c is Some <==> slot_free,
            c matches Some(c) ==> c.reg == reg,
    {
        if slot_free {
            Some(SystemControlBlock { reg })
        } else {
            None
        }
    }

    /// Pends the context-switch exception.
    pub fn Set_PendSV(&mut self)
        ensures
            final(self).reg == (RegisterBlock { ICSR: ICSR_PENDSVSET, ..old(self).reg }),
    {
        self.reg.ICSR = 1 << 28;
    }

    /// Moves the vector table to `tbloff`, dropping the low six address bits.
    pub fn Set_VectorTableOffset(&mut self, tbloff: u32)
        ensures
            final(self).reg == (RegisterBlock { VTOR: tbloff & VTOR_TBLOFF_MASK, ..old(self).reg }),
    {
        self.reg.VTOR = tbloff & 0xFFFFFFC0;
    }
}

} // verus!
