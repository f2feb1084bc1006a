use vstd::prelude::*;

use super::field::{field_u32, set_field_u32};

verus! {

/// Registers of the system timer.
#[derive(Clone, Debug)]
pub struct RegisterGroup {
    /// SysTick Control and Status Register
    pub CSR: u32,
    /// SysTick Reload Value Register
    pub RVR: u32,
    /// SysTick Current Value Register
    pub CVR: u32,
    /// SysTick Calibration Value Register
    pub CALIB: u32,
}

/// System timer.
///
/// The registers are held as values; each operation computes the new
/// register contents that the device is to receive.
pub struct SystemTimer {
    pub reg: RegisterGroup,
}

impl SystemTimer {
    /// The controller over the registers `reg`, or `None` when a controller
    /// for this device exists already (`slot_free` is false).
    pub fn new(slot_free: bool, reg: RegisterGroup) -> (c: Option<Self>)
        ensures
            c is Some <==> slot_free,
            c matches Some(c) ==> c.reg == reg,
    {
        if slot_free {
            Some(SystemTimer { reg })
        } else {
            None
        }
    }

    /// Writes `val` into the bits `0x1` of `CSR`, keeping the other bits.
    pub fn Set_ENABLE(&mut self, val: SysTick_CSR__ENABLE)
        ensures
            final(self).reg == (RegisterGroup {
                CSR: field_u32(old(self).reg.CSR, 0x1, 0, (val.encoded() as u32)),
                ..old(self).reg
            }),
    {
        self.reg.CSR = set_field_u32(self.reg.CSR, 0x1, 0, (val.encode() as u32));
    }

    /// Writes `val` into the bits `0x2` of `CSR`, keeping the other bits.
    pub fn Set_TICKINT(&mut self, val: SysTick_CSR__TICKINT)
        ensures
            final(self).reg == (RegisterGroup {
                CSR: field_u32(old(self).reg.CSR, 0x2, 1, (val.encoded() as u32)),
                ..old(self).reg
            }),
    {
        self.reg.CSR = set_field_u32(self.reg.CSR, 0x2, 1, (val.encode() as u32));
    }

    /// Writes `val` into the bits `0x4` of `CSR`, keeping the other bits.
    pub fn Set_CLKSOURCE(&mut self, val: SysTick_CSR__CLKSOURCE)
        ensures
            final(self).reg == (RegisterGroup {
                CSR: field_u32(old(self).reg.CSR, 0x4, 2, (val.encoded() as u32)),
                ..old(self).reg
            }),
    {
        self.reg.CSR = set_field_u32(self.reg.CSR, 0x4, 2, (val.encode() as u32));
    }

    /// Writes `val` into the bits `0x10000` of `CSR`, keeping the other bits.
    pub fn Set_COUNTFLAG(&mut self, val: u32)
        ensures
            final(self).reg == (RegisterGroup {
                CSR: field_u32(old(self).reg.CSR, 0x10000, 16, val),
                ..old(self).reg
            }),
    {
        self.reg.CSR = set_field_u32(self.reg.CSR, 0x10000, 16, val);
    }

    /// Writes `val` into the bits `0xFFFFFF` of `RVR`, keeping the other bits.
    pub fn Set_RELOAD(&mut self, val: u32)
        ensures
            final(self).reg == (RegisterGroup {
                RVR: field_u32(old(self).reg.RVR, 0xFFFFFF, 0, val),
                ..old(self).reg
            }),
    {
        self.reg.RVR = set_field_u32(self.reg.RVR, 0xFFFFFF, 0, val);
    }

    /// Writes `val` into the bits `0xFFFFFF` of `CVR`, keeping the other bits.
    pub fn Set_CURRENT(&mut self, val: u32)
        ensures
            final(self).reg == (RegisterGroup {
                CVR: field_u32(old(self).reg.CVR, 0xFFFFFF, 0, val),
                ..old(self).reg
            }),
    {
        self.reg.CVR = set_field_u32(self.reg.CVR, 0xFFFFFF, 0, val);
    }


}

#[derive(Copy, Clone, Debug, PartialEq, Eq, Structural)]
pub enum SysTick_CSR__CLKSOURCE {
    /// External clock
    VALUE_0,
    /// Processor clock
    VALUE_1,
}

impl SysTick_CSR__CLKSOURCE {
    /// Encoding of the selection in its register field.
    pub open spec fn encoded(self) -> u32 {
        match self {
            SysTick_CSR__CLKSOURCE::VALUE_0 => 0,
            SysTick_CSR__CLKSOURCE::VALUE_1 => 1,
        }
    }

    /// Encoding of the selection in its register field.
    pub fn encode(self) -> (r: u32)
        ensures
            r == self.encoded(),
    {
        match self {
            SysTick_CSR__CLKSOURCE::VALUE_0 => 0,
            SysTick_CSR__CLKSOURCE::VALUE_1 => 1,
        }
    }

    /// The field value of each selection: `VALUE_0` as 0, `VALUE_1` as 1.
    /// Distinct selections are written as distinct values.
    pub proof fn lemma_field_values()
        ensures
            SysTick_CSR__CLKSOURCE::VALUE_0.encoded() == 0,
            SysTick_CSR__CLKSOURCE::VALUE_1.encoded() == 1,
            forall|a: SysTick_CSR__CLKSOURCE, b: SysTick_CSR__CLKSOURCE| #![trigger a.encoded(), b.encoded()] a.encoded() == b.encoded() ==> a == b,
    {
    }
}

#[derive(Copy, Clone, Debug, PartialEq, Eq, Structural)]
pub enum SysTick_CSR__ENABLE {
    /// Counter disabled
    VALUE_0,
    /// Counter enabled
    VALUE_1,
}

impl SysTick_CSR__ENABLE {
    /// Encoding of the selection in its register field.
    pub open spec fn encoded(self) -> u32 {
        match self {
            SysTick_CSR__ENABLE::VALUE_0 => 0,
            SysTick_CSR__ENABLE::VALUE_1 => 1,
        }
    }

    /// Encoding of the selection in its register field.
    pub fn encode(self) -> (r: u32)
        ensures
            r == self.encoded(),
    {
        match self {
            SysTick_CSR__ENABLE::VALUE_0 => 0,
            SysTick_CSR__ENABLE::VALUE_1 => 1,
        }
    }

    /// The field value of each selection: `VALUE_0` as 0, `VALUE_1` as 1.
    /// Distinct selections are written as distinct values.
    pub proof fn lemma_field_values()
        ensures
            SysTick_CSR__ENABLE::VALUE_0.encoded() == 0,
            SysTick_CSR__ENABLE::VALUE_1.encoded() == 1,
            forall|a: SysTick_CSR__ENABLE, b: SysTick_CSR__ENABLE| #![trigger a.encoded(), b.encoded()] a.encoded() == b.encoded() ==> a == b,
    {
    }
}

#[derive(Copy, Clone, Debug, PartialEq, Eq, Structural)]
pub enum SysTick_CSR__TICKINT {
    /// Counting down to 0 does not assert the SysTick exception request
    VALUE_0,
    /// Counting down to 0 asserts the SysTick exception request
    VALUE_1,
}

impl SysTick_CSR__TICKINT {
    /// Encoding of the selection in its register field.
    pub open spec fn encoded(self) -> u32 {
        match self {
            SysTick_CSR__TICKINT::VALUE_0 => 0,
            SysTick_CSR__TICKINT::VALUE_1 => 1,
        }
    }

    /// Encoding of the selection in its register field.
    pub fn encode(self) -> (r: u32)
        ensures
            r == self.encoded(),
    {
        match self {
            SysTick_CSR__TICKINT::VALUE_0 => 0,
            SysTick_CSR__TICKINT::VALUE_1 => 1,
        }
    }

    /// The field value of each selection: `VALUE_0` as 0, `VALUE_1` as 1.
    /// Distinct selections are written as distinct values.
    pub proof fn lemma_field_values()
        ensures
            SysTick_CSR__TICKINT::VALUE_0.encoded() == 0,
            SysTick_CSR__TICKINT::VALUE_1.encoded() == 1,
            forall|a: SysTick_CSR__TICKINT, b: SysTick_CSR__TICKINT| #![trigger a.encoded(), b.encoded()] a.encoded() == b.encoded() ==> a == b,
    {
    }
}

#[derive(Copy, Clone, Debug, PartialEq, Eq, Structural)]
pub enum SysTick_CALIB__NOREF {
    /// The reference clock is provided
    VALUE_0,
    /// The reference clock is not provided
    VALUE_1,
}

impl SysTick_CALIB__NOREF {
    /// Encoding of the selection in its register field.
    pub open spec fn encoded(self) -> u32 {
        match self {
            SysTick_CALIB__NOREF::VALUE_0 => 0,
            SysTick_CALIB__NOREF::VALUE_1 => 1,
        }
    }

    /// Encoding of the selection in its register field.
    pub fn encode(self) -> (r: u32)
        ensures
            r == self.encoded(),
    {
        match self {
            SysTick_CALIB__NOREF::VALUE_0 => 0,
            SysTick_CALIB__NOREF::VALUE_1 => 1,
        }
    }

    /// The field value of each selection: `VALUE_0` as 0, `VALUE_1` as 1.
    /// Distinct selections are written as distinct values.
    pub proof fn lemma_field_values()
        ensures
            SysTick_CALIB__NOREF::VALUE_0.encoded() == 0,
            SysTick_CALIB__NOREF::VALUE_1.encoded() == 1,
            forall|a: SysTick_CALIB__NOREF, b: SysTick_CALIB__NOREF| #![trigger a.encoded(), b.encoded()] a.encoded() == b.encoded() ==> a == b,
    {
    }
}

#[derive(Copy, Clone, Debug, PartialEq, Eq, Structural)]
pub enum SysTick_CALIB__SKEW {
    /// 10ms calibration value is exact
    VALUE_0,
    /// 10ms calibration value is inexact, because of the clock frequency
    VALUE_1,
}

impl SysTick_CALIB__SKEW {
    /// Encoding of the selection in its register field.
    pub open spec fn encoded(self) -> u32 {
        match self {
            SysTick_CALIB__SKEW::VALUE_0 => 0,
            SysTick_CALIB__SKEW::VALUE_1 => 1,
        }
    }

    /// Encoding of the selection in its register field.
    pub fn encode(self) -> (r: u32)
        ensures
            r == self.encoded(),
    {
        match self {
            SysTick_CALIB__SKEW::VALUE_0 => 0,
            SysTick_CALIB__SKEW::VALUE_1 => 1,
        }
    }

    /// The field value of each selection: `VALUE_0` as 0, `VALUE_1` as 1.
    /// Distinct selections are written as distinct values.
    pub proof fn lemma_field_values()
        ensures
            SysTick_CALIB__SKEW::VALUE_0.encoded() == 0,
            SysTick_CALIB__SKEW::VALUE_1.encoded() == 1,
            forall|a: SysTick_CALIB__SKEW, b: SysTick_CALIB__SKEW| #![trigger a.encoded(), b.encoded()] a.encoded() == b.encoded() ==> a == b,
    {
    }
}

} // verus!
