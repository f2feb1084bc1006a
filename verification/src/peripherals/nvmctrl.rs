use vstd::prelude::*;

use super::field::{field_u32, set_field_u32};

verus! {

/// Registers of the non-volatile memory controller.
#[derive(Clone, Debug)]
pub struct RegisterBlock {
    pub CTRLA: u16,
    pub CTRLB: u32,
    pub PARAM: u32,
    pub INTENCLR: u8,
}

/// Number of flash read wait states.
#[derive(Copy, Clone, Debug, PartialEq, Eq, Structural)]
pub enum RWSSelect {
    SINGLE,
    HALF,
    DUAL,
}

impl RWSSelect {
    /// Encoding of the selection in its register field.
    pub open spec fn encoded(self) -> u32 {
        match self {
            RWSSelect::SINGLE => 0,
            RWSSelect::HALF => 1,
            RWSSelect::DUAL => 2,
        }
    }

    /// Encoding of the selection in its register field.
    pub fn encode(self) -> (r: u32)
        ensures
            r == self.encoded(),
    {
        match self {
            RWSSelect::SINGLE => 0,
            RWSSelect::HALF => 1,
            RWSSelect::DUAL => 2,
        }
    }

    /// The field value of each selection: `SINGLE` as 0, `HALF` as 1, `DUAL` as 2.
    /// Distinct selections are written as distinct values.
    pub proof fn lemma_field_values()
        ensures
            RWSSelect::SINGLE.encoded() == 0,
            RWSSelect::HALF.encoded() == 1,
            RWSSelect::DUAL.encoded() == 2,
            forall|a: RWSSelect, b: RWSSelect| #![trigger a.encoded(), b.encoded()] a.encoded() == b.encoded() ==> a == b,
    {
    }
}

/// Non-volatile memory controller.
///
/// The registers are held as values; each operation computes the new
/// register contents that the device is to receive.
pub struct NVMController {
    pub reg: RegisterBlock,
}

impl NVMController {
    /// The controller over the registers `reg`, or `None` when a controller
    /// for this device exists already (`slot_free` is false).
    pub fn new(slot_free: bool, reg: RegisterBlock) -> (c: Option<Self>)
        ensures
            c is Some <==> slot_free,
            c matches Some(c) ==> c.reg == reg,
    {
        if slot_free {
            Some(NVMController { reg })
        } else {
            None
        }
    }

    /// Sets the read wait states (bits 1 to 4 of CTRLB), keeping the other bits.
    pub fn Set_ReadWaitStates(&mut self, rws: RWSSelect)
        ensures
            final(self).reg == (RegisterBlock {
                CTRLB: field_u32(old(self).reg.CTRLB, 0b1111u32 << 1u32, 1, rws.encoded()),
                ..old(self).reg
            }),
    {
        self.reg.CTRLB = set_field_u32(self.reg.CTRLB, 0b1111 << 1, 1, rws.encode());
    }
}

} // verus!
