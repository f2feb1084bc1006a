use vstd::prelude::*;

use super::field::{field_u8, field_u32, set_field_u8, set_field_u32};

verus! {

/// Registers of the generic clock controller.
#[derive(Clone, Debug)]
pub struct RegisterGroup {
    /// Control
    pub CTRLA: u8,
    /// Synchronization Busy
    pub SYNCBUSY: u32,
    /// Generic Clock Generator Control
    pub GENCTRL: Vec<u32>,
    /// Peripheral Clock Control
    pub PCHCTRL: Vec<u32>,
}

/// Generic clock controller (clock generators and peripheral channels).
///
/// The registers are held as values; each operation computes the new
/// register contents that the device is to receive.
pub struct GenericClockGenerator {
    pub reg: RegisterGroup,
}

impl GenericClockGenerator {
    /// The controller over the registers `reg`, or `None` when a controller
    /// for this device exists already (`slot_free` is false).
    pub fn new(slot_free: bool, reg: RegisterGroup) -> (c: Option<Self>)
        requires
            reg.GENCTRL@.len() == 9,
            reg.PCHCTRL@.len() == 41,
        ensures
            c is Some <==> slot_free,
            c matches Some(c) ==> c.reg == reg,
    {
        if slot_free {
            Some(GenericClockGenerator { reg })
        } else {
            None
        }
    }

    /// Writes `val` into the bits `0x1` of `CTRLA`, keeping the other bits.
    pub fn Set_CTRLA_SWRST(&mut self, val: u8)
        ensures
            final(self).reg == (RegisterGroup {
                CTRLA: field_u8(old(self).reg.CTRLA, 0x1, 0, val),
                ..old(self).reg
            }),
    {
        self.reg.CTRLA = set_field_u8(self.reg.CTRLA, 0x1, 0, val);
    }

    /// Writes `val` into the bits `0x7` of `GENCTRL` number `regIdx`, keeping the other bits.
    pub fn Set_GENCTRL_SRC(&mut self, regIdx: usize, val: GCLK_GENCTRL__SRC)
        requires
            regIdx < old(self).reg.GENCTRL@.len(),
        ensures
            final(self).reg.GENCTRL@ == old(self).reg.GENCTRL@.update(
                regIdx as int,
                field_u32(old(self).reg.GENCTRL@[regIdx as int], 0x7, 0, (val.encoded() as u32)),
            ),
            final(self).reg.CTRLA == old(self).reg.CTRLA,
            final(self).reg.SYNCBUSY == old(self).reg.SYNCBUSY,
            final(self).reg.PCHCTRL == old(self).reg.PCHCTRL,
    {
        let v = set_field_u32(self.reg.GENCTRL[regIdx], 0x7, 0, (val.encode() as u32));
        self.reg.GENCTRL.set(regIdx, v);
    }

    /// Writes `val` into the bits `0x100` of `GENCTRL` number `regIdx`, keeping the other bits.
    pub fn Set_GENCTRL_GENEN(&mut self, regIdx: usize, val: u32)
        requires
            regIdx < old(self).reg.GENCTRL@.len(),
        ensures
            final(self).reg.GENCTRL@ == old(self).reg.GENCTRL@.update(
                regIdx as int,
                field_u32(old(self).reg.GENCTRL@[regIdx as int], 0x100, 8, val),
            ),
            final(self).reg.CTRLA == old(self).reg.CTRLA,
            final(self).reg.SYNCBUSY == old(self).reg.SYNCBUSY,
            final(self).reg.PCHCTRL == old(self).reg.PCHCTRL,
    {
        let v = set_field_u32(self.reg.GENCTRL[regIdx], 0x100, 8, val);
        self.reg.GENCTRL.set(regIdx, v);
    }

    /// Writes `val` into the bits `0x200` of `GENCTRL` number `regIdx`, keeping the other bits.
    pub fn Set_GENCTRL_IDC(&mut self, regIdx: usize, val: u32)
        requires
            regIdx < old(self).reg.GENCTRL@.len(),
        ensures
            final(self).reg.GENCTRL@ == old(self).reg.GENCTRL@.update(
                regIdx as int,
                field_u32(old(self).reg.GENCTRL@[regIdx as int], 0x200, 9, val),
            ),
            final(self).reg.CTRLA == old(self).reg.CTRLA,
            final(self).reg.SYNCBUSY == old(self).reg.SYNCBUSY,
            final(self).reg.PCHCTRL == old(self).reg.PCHCTRL,
    {
        let v = set_field_u32(self.reg.GENCTRL[regIdx], 0x200, 9, val);
        self.reg.GENCTRL.set(regIdx, v);
    }

    /// Writes `val` into the bits `0x400` of `GENCTRL` number `regIdx`, keeping the other bits.
    pub fn Set_GENCTRL_OOV(&mut self, regIdx: usize, val: u32)
        requires
            regIdx < old(self).reg.GENCTRL@.len(),
        ensures
            final(self).reg.GENCTRL@ == old(self).reg.GENCTRL@.update(
                regIdx as int,
                field_u32(old(self).reg.GENCTRL@[regIdx as int], 0x400, 10, val),
            ),
            final(self).reg.CTRLA == old(self).reg.CTRLA,
            final(self).reg.SYNCBUSY == old(self).reg.SYNCBUSY,
            final(self).reg.PCHCTRL == old(self).reg.PCHCTRL,
    {
        let v = set_field_u32(self.reg.GENCTRL[regIdx], 0x400, 10, val);
        self.reg.GENCTRL.set(regIdx, v);
    }

    /// Writes `val` into the bits `0x800` of `GENCTRL` number `regIdx`, keeping the other bits.
    pub fn Set_GENCTRL_OE(&mut self, regIdx: usize, val: u32)
        requires
            regIdx < old(self).reg.GENCTRL@.len(),
        ensures
            final(self).reg.GENCTRL@ == old(self).reg.GENCTRL@.update(
                regIdx as int,
                field_u32(old(self).reg.GENCTRL@[regIdx as int], 0x800, 11, val),
            ),
            final(self).reg.CTRLA == old(self).reg.CTRLA,
            final(self).reg.SYNCBUSY == old(self).reg.SYNCBUSY,
            final(self).reg.PCHCTRL == old(self).reg.PCHCTRL,
    {
        let v = set_field_u32(self.reg.GENCTRL[regIdx], 0x800, 11, val);
        self.reg.GENCTRL.set(regIdx, v);
    }

    /// Writes `val` into the bits `0x1000` of `GENCTRL` number `regIdx`, keeping the other bits.
    pub fn Set_GENCTRL_DIVSEL(&mut self, regIdx: usize, val: GCLK_GENCTRL__DIVSEL)
        requires
            regIdx < old(self).reg.GENCTRL@.len(),
        ensures
            final(self).reg.GENCTRL@ == old(self).reg.GENCTRL@.update(
                regIdx as int,
                field_u32(old(self).reg.GENCTRL@[regIdx as int], 0x1000, 12, (val.encoded() as u32)),
            ),
            final(self).reg.CTRLA == old(self).reg.CTRLA,
            final(self).reg.SYNCBUSY == old(self).reg.SYNCBUSY,
            final(self).reg.PCHCTRL == old(self).reg.PCHCTRL,
    {
        let v = set_field_u32(self.reg.GENCTRL[regIdx], 0x1000, 12, (val.encode() as u32));
        self.reg.GENCTRL.set(regIdx, v);
    }

    /// Writes `val` into the bits `0x2000` of `GENCTRL` number `regIdx`, keeping the other bits.
    pub fn Set_GENCTRL_RUNSTDBY(&mut self, regIdx: usize, val: u32)
        requires
            regIdx < old(self).reg.GENCTRL@.len(),
        ensures
            final(self).reg.GENCTRL@ == old(self).reg.GENCTRL@.update(
                regIdx as int,
                field_u32(old(self).reg.GENCTRL@[regIdx as int], 0x2000, 13, val),
            ),
            final(self).reg.CTRLA == old(self).reg.CTRLA,
            final(self).reg.SYNCBUSY == old(self).reg.SYNCBUSY,
            final(self).reg.PCHCTRL == old(self).reg.PCHCTRL,
    {
        let v = set_field_u32(self.reg.GENCTRL[regIdx], 0x2000, 13, val);
        self.reg.GENCTRL.set(regIdx, v);
    }

    /// Writes `val` into the bits `0xFFFF0000` of `GENCTRL` number `regIdx`, keeping the other bits.
    pub fn Set_GENCTRL_DIV(&mut self, regIdx: usize, val: u32)
        requires
            regIdx < old(self).reg.GENCTRL@.len(),
        ensures
            final(self).reg.GENCTRL@ == old(self).reg.GENCTRL@.update(
                regIdx as int,
                field_u32(old(self).reg.GENCTRL@[regIdx as int], 0xFFFF0000, 16, val),
            ),
            final(self).reg.CTRLA == old(self).reg.CTRLA,
            final(self).reg.SYNCBUSY == old(self).reg.SYNCBUSY,
            final(self).reg.PCHCTRL == old(self).reg.PCHCTRL,
    {
        let v = set_field_u32(self.reg.GENCTRL[regIdx], 0xFFFF0000, 16, val);
        self.reg.GENCTRL.set(regIdx, v);
    }

    /// Writes `val` into the bits `0xF` of `PCHCTRL` number `regIdx`, keeping the other bits.
    pub fn Set_PCHCTRL_GEN(&mut self, regIdx: usize, val: GCLK_PCHCTRL__GEN)
        requires
            regIdx < old(self).reg.PCHCTRL@.len(),
        ensures
            final(self).reg.PCHCTRL@ == old(self).reg.PCHCTRL@.update(
                regIdx as int,
                field_u32(old(self).reg.PCHCTRL@[regIdx as int], 0xF, 0, (val.encoded() as u32)),
            ),
            final(self).reg.CTRLA == old(self).reg.CTRLA,
            final(self).reg.SYNCBUSY == old(self).reg.SYNCBUSY,
            final(self).reg.GENCTRL == old(self).reg.GENCTRL,
    {
        let v = set_field_u32(self.reg.PCHCTRL[regIdx], 0xF, 0, (val.encode() as u32));
        self.reg.PCHCTRL.set(regIdx, v);
    }

    /// Writes `val` into the bits `0x40` of `PCHCTRL` number `regIdx`, keeping the other bits.
    pub fn Set_PCHCTRL_CHEN(&mut self, regIdx: usize, val: u32)
        requires
            regIdx < old(self).reg.PCHCTRL@.len(),
        ensures
            final(self).reg.PCHCTRL@ == old(self).reg.PCHCTRL@.update(
                regIdx as int,
                field_u32(old(self).reg.PCHCTRL@[regIdx as int], 0x40, 6, val),
            ),
            final(self).reg.CTRLA == old(self).reg.CTRLA,
            final(self).reg.SYNCBUSY == old(self).reg.SYNCBUSY,
            final(self).reg.GENCTRL == old(self).reg.GENCTRL,
    {
        let v = set_field_u32(self.reg.PCHCTRL[regIdx], 0x40, 6, val);
        self.reg.PCHCTRL.set(regIdx, v);
    }

    /// Writes `val` into the bits `0x80` of `PCHCTRL` number `regIdx`, keeping the other bits.
    pub fn Set_PCHCTRL_WRTLOCK(&mut self, regIdx: usize, val: u32)
        requires
            regIdx < old(self).reg.PCHCTRL@.len(),
        ensures
            final(self).reg.PCHCTRL@ == old(self).reg.PCHCTRL@.update(
                regIdx as int,
                field_u32(old(self).reg.PCHCTRL@[regIdx as int], 0x80, 7, val),
            ),
            final(self).reg.CTRLA == old(self).reg.CTRLA,
            final(self).reg.SYNCBUSY == old(self).reg.SYNCBUSY,
            final(self).reg.GENCTRL == old(self).reg.GENCTRL,
    {
        let v = set_field_u32(self.reg.PCHCTRL[regIdx], 0x80, 7, val);
        self.reg.PCHCTRL.set(regIdx, v);
    }


}

#[derive(Copy, Clone, Debug, PartialEq, Eq, Structural)]
pub enum GCLK_SYNCBUSY__GENCTRL {
    /// Generic clock generator 0
    GCLK0,
    /// Generic clock generator 1
    GCLK1,
    /// Generic clock generator 2
    GCLK2,
    /// Generic clock generator 3
    GCLK3,
    /// Generic clock generator 4
    GCLK4,
    /// Generic clock generator 5
    GCLK5,
    /// Generic clock generator 6
    GCLK6,
    /// Generic clock generator 7
    GCLK7,
    /// Generic clock generator 8
    GCLK8,
}

impl GCLK_SYNCBUSY__GENCTRL {
    /// Encoding of the selection in its register field.
    pub open spec fn encoded(self) -> u32 {
        match self {
            GCLK_SYNCBUSY__GENCTRL::GCLK0 => 1,
            GCLK_SYNCBUSY__GENCTRL::GCLK1 => 2,
            GCLK_SYNCBUSY__GENCTRL::GCLK2 => 4,
            GCLK_SYNCBUSY__GENCTRL::GCLK3 => 8,
            GCLK_SYNCBUSY__GENCTRL::GCLK4 => 0x10,
            GCLK_SYNCBUSY__GENCTRL::GCLK5 => 0x20,
            GCLK_SYNCBUSY__GENCTRL::GCLK6 => 0x40,
            GCLK_SYNCBUSY__GENCTRL::GCLK7 => 0x80,
            GCLK_SYNCBUSY__GENCTRL::GCLK8 => 0x100,
        }
    }

    /// Encoding of the selection in its register field.
    pub fn encode(self) -> (r: u32)
        ensures
            r == self.encoded(),
    {
        match self {
            GCLK_SYNCBUSY__GENCTRL::GCLK0 => 1,
            GCLK_SYNCBUSY__GENCTRL::GCLK1 => 2,
            GCLK_SYNCBUSY__GENCTRL::GCLK2 => 4,
            GCLK_SYNCBUSY__GENCTRL::GCLK3 => 8,
            GCLK_SYNCBUSY__GENCTRL::GCLK4 => 0x10,
            GCLK_SYNCBUSY__GENCTRL::GCLK5 => 0x20,
            GCLK_SYNCBUSY__GENCTRL::GCLK6 => 0x40,
            GCLK_SYNCBUSY__GENCTRL::GCLK7 => 0x80,
            GCLK_SYNCBUSY__GENCTRL::GCLK8 => 0x100,
        }
    }

    /// The field value of each selection: `GCLK0` as 1, `GCLK1` as 2, `GCLK2` as 4, `GCLK3` as 8,
    /// `GCLK4` as 0x10, `GCLK5` as 0x20, `GCLK6` as 0x40, `GCLK7` as 0x80, `GCLK8` as 0x100.
    /// Distinct selections are written as distinct values.
    pub proof fn lemma_field_values()
        ensures
            GCLK_SYNCBUSY__GENCTRL::GCLK0.encoded() == 1,
            GCLK_SYNCBUSY__GENCTRL::GCLK1.encoded() == 2,
            GCLK_SYNCBUSY__GENCTRL::GCLK2.encoded() == 4,
            GCLK_SYNCBUSY__GENCTRL::GCLK3.encoded() == 8,
            GCLK_SYNCBUSY__GENCTRL::GCLK4.encoded() == 0x10,
            GCLK_SYNCBUSY__GENCTRL::GCLK5.encoded() == 0x20,
            GCLK_SYNCBUSY__GENCTRL::GCLK6.encoded() == 0x40,
            GCLK_SYNCBUSY__GENCTRL::GCLK7.encoded() == 0x80,
            GCLK_SYNCBUSY__GENCTRL::GCLK8.encoded() == 0x100,
            forall|a: GCLK_SYNCBUSY__GENCTRL, b: GCLK_SYNCBUSY__GENCTRL| #![trigger a.encoded(), b.encoded()] a.encoded() == b.encoded() ==> a == b,
    {
    }
}

#[derive(Copy, Clone, Debug, PartialEq, Eq, Structural)]
pub enum GCLK_GENCTRL__SRC {
    /// XOSC oscillator output
    XOSC,
    /// Generator input pad
    GCLKIN,
    /// Generic clock generator 1 output
    GCLKGEN1,
    /// OSCULP32K oscillator output
    OSCULP32K,
    /// OSC32K oscillator output
    OSC32K,
    /// XOSC32K oscillator output
    XOSC32K,
    /// OSC48M oscillator output
    OSC48M,
    /// DPLL96M output
    DPLL96M,
}

impl GCLK_GENCTRL__SRC {
    /// Encoding of the selection in its register field.
    pub open spec fn encoded(self) -> u32 {
        match self {
            GCLK_GENCTRL__SRC::XOSC => 0,
            GCLK_GENCTRL__SRC::GCLKIN => 1,
            GCLK_GENCTRL__SRC::GCLKGEN1 => 2,
            GCLK_GENCTRL__SRC::OSCULP32K => 3,
            GCLK_GENCTRL__SRC::OSC32K => 4,
            GCLK_GENCTRL__SRC::XOSC32K => 5,
            GCLK_GENCTRL__SRC::OSC48M => 6,
            GCLK_GENCTRL__SRC::DPLL96M => 7,
        }
    }

    /// Encoding of the selection in its register field.
    pub fn encode(self) -> (r: u32)
        ensures
            r == self.encoded(),
    {
        match self {
            GCLK_GENCTRL__SRC::XOSC => 0,
            GCLK_GENCTRL__SRC::GCLKIN => 1,
            GCLK_GENCTRL__SRC::GCLKGEN1 => 2,
            GCLK_GENCTRL__SRC::OSCULP32K => 3,
            GCLK_GENCTRL__SRC::OSC32K => 4,
            GCLK_GENCTRL__SRC::XOSC32K => 5,
            GCLK_GENCTRL__SRC::OSC48M => 6,
            GCLK_GENCTRL__SRC::DPLL96M => 7,
        }
    }

    /// The field value of each selection: `XOSC` as 0, `GCLKIN` as 1, `GCLKGEN1` as 2, `OSCULP32K`
    /// as 3, `OSC32K` as 4, `XOSC32K` as 5, `OSC48M` as 6, `DPLL96M` as 7.
    /// Distinct selections are written as distinct values.
    pub proof fn lemma_field_values()
        ensures
            GCLK_GENCTRL__SRC::XOSC.encoded() == 0,
            GCLK_GENCTRL__SRC::GCLKIN.encoded() == 1,
            GCLK_GENCTRL__SRC::GCLKGEN1.encoded() == 2,
            GCLK_GENCTRL__SRC::OSCULP32K.encoded() == 3,
            GCLK_GENCTRL__SRC::OSC32K.encoded() == 4,
            GCLK_GENCTRL__SRC::XOSC32K.encoded() == 5,
            GCLK_GENCTRL__SRC::OSC48M.encoded() == 6,
            GCLK_GENCTRL__SRC::DPLL96M.encoded() == 7,
            forall|a: GCLK_GENCTRL__SRC, b: GCLK_GENCTRL__SRC| #![trigger a.encoded(), b.encoded()] a.encoded() == b.encoded() ==> a == b,
    {
    }
}

#[derive(Copy, Clone, Debug, PartialEq, Eq, Structural)]
pub enum GCLK_PCHCTRL__GEN {
    /// Generic clock generator 0
    GCLK0,
    /// Generic clock generator 1
    GCLK1,
    /// Generic clock generator 2
    GCLK2,
    /// Generic clock generator 3
    GCLK3,
    /// Generic clock generator 4
    GCLK4,
    /// Generic clock generator 5
    GCLK5,
    /// Generic clock generator 6
    GCLK6,
    /// Generic clock generator 7
    GCLK7,
    /// Generic clock generator 8
    GCLK8,
}

impl GCLK_PCHCTRL__GEN {
    /// Encoding of the selection in its register field.
    pub open spec fn encoded(self) -> u32 {
        match self {
            GCLK_PCHCTRL__GEN::GCLK0 => 0,
            GCLK_PCHCTRL__GEN::GCLK1 => 1,
            GCLK_PCHCTRL__GEN::GCLK2 => 2,
            GCLK_PCHCTRL__GEN::GCLK3 => 3,
            GCLK_PCHCTRL__GEN::GCLK4 => 4,
            GCLK_PCHCTRL__GEN::GCLK5 => 5,
            GCLK_PCHCTRL__GEN::GCLK6 => 6,
            GCLK_PCHCTRL__GEN::GCLK7 => 7,
            GCLK_PCHCTRL__GEN::GCLK8 => 8,
        }
    }

    /// Encoding of the selection in its register field.
    pub fn encode(self) -> (r: u32)
        ensures
            r == self.encoded(),
    {
        match self {
            GCLK_PCHCTRL__GEN::GCLK0 => 0,
            GCLK_PCHCTRL__GEN::GCLK1 => 1,
            GCLK_PCHCTRL__GEN::GCLK2 => 2,
            GCLK_PCHCTRL__GEN::GCLK3 => 3,
            GCLK_PCHCTRL__GEN::GCLK4 => 4,
            GCLK_PCHCTRL__GEN::GCLK5 => 5,
            GCLK_PCHCTRL__GEN::GCLK6 => 6,
            GCLK_PCHCTRL__GEN::GCLK7 => 7,
            GCLK_PCHCTRL__GEN::GCLK8 => 8,
        }
    }

    /// The field value of each selection: `GCLK0` as 0, `GCLK1` as 1, `GCLK2` as 2, `GCLK3` as 3,
    /// `GCLK4` as 4, `GCLK5` as 5, `GCLK6` as 6, `GCLK7` as 7, `GCLK8` as 8.
    /// Distinct selections are written as distinct values.
    pub proof fn lemma_field_values()
        ensures
            GCLK_PCHCTRL__GEN::GCLK0.encoded() == 0,
            GCLK_PCHCTRL__GEN::GCLK1.encoded() == 1,
            GCLK_PCHCTRL__GEN::GCLK2.encoded() == 2,
            GCLK_PCHCTRL__GEN::GCLK3.encoded() == 3,
            GCLK_PCHCTRL__GEN::GCLK4.encoded() == 4,
            GCLK_PCHCTRL__GEN::GCLK5.encoded() == 5,
            GCLK_PCHCTRL__GEN::GCLK6.encoded() == 6,
            GCLK_PCHCTRL__GEN::GCLK7.encoded() == 7,
            GCLK_PCHCTRL__GEN::GCLK8.encoded() == 8,
            forall|a: GCLK_PCHCTRL__GEN, b: GCLK_PCHCTRL__GEN| #![trigger a.encoded(), b.encoded()] a.encoded() == b.encoded() ==> a == b,
    {
    }
}

#[derive(Copy, Clone, Debug, PartialEq, Eq, Structural)]
pub enum GCLK_GENCTRL__DIVSEL {
    /// Divide input directly by divider factor
    DIV1,
    /// Divide input by 2^(divider factor+ 1)
    DIV2,
}

impl GCLK_GENCTRL__DIVSEL {
    /// Encoding of the selection in its register field.
    pub open spec fn encoded(self) -> u32 {
        match self {
            GCLK_GENCTRL__DIVSEL::DIV1 => 0,
            GCLK_GENCTRL__DIVSEL::DIV2 => 1,
        }
    }

    /// Encoding of the selection in its register field.
    pub fn encode(self) -> (r: u32)
        ensures
            r == self.encoded(),
    {
        match self {
            GCLK_GENCTRL__DIVSEL::DIV1 => 0,
            GCLK_GENCTRL__DIVSEL::DIV2 => 1,
        }
    }

    /// The field value of each selection: `DIV1` as 0, `DIV2` as 1.
    /// Distinct selections are written as distinct values.
    pub proof fn lemma_field_values()
        ensures
            GCLK_GENCTRL__DIVSEL::DIV1.encoded() == 0,
            GCLK_GENCTRL__DIVSEL::DIV2.encoded() == 1,
            forall|a: GCLK_GENCTRL__DIVSEL, b: GCLK_GENCTRL__DIVSEL| #![trigger a.encoded(), b.encoded()] a.encoded() == b.encoded() ==> a == b,
    {
    }
}

/// Selecting the source of a generator writes the source's hardware number
/// (XOSC 0, GCLKIN 1, GCLKGEN1 2, OSCULP32K 3, OSC32K 4, XOSC32K 5, OSC48M 6,
/// DPLL96M 7) into the three low bits of its `GENCTRL` word and keeps every
/// other bit; distinct sources leave distinct words.
pub proof fn lemma_genctrl_source(reg: u32, src: GCLK_GENCTRL__SRC, other: GCLK_GENCTRL__SRC)
    ensures
        field_u32(reg, 0x7, 0, src.encoded()) & 0x7 == src.encoded(),
        field_u32(reg, 0x7, 0, src.encoded()) & !0x7u32 == reg & !0x7u32,
        src != other ==> field_u32(reg, 0x7, 0, src.encoded()) != field_u32(reg, 0x7, 0, other.encoded()),
{
    GCLK_GENCTRL__SRC::lemma_field_values();
    let v = src.encoded();
    let w = other.encoded();
    assert(v < 8 && w < 8);
    assert(field_u32(reg, 0x7, 0, v) & 0x7 == v && field_u32(reg, 0x7, 0, v) & !0x7u32 == reg & !0x7u32
        && field_u32(reg, 0x7, 0, w) & 0x7 == w) by (bit_vector)
        requires
            v < 8,
            w < 8,
    ;
    assert(src != other ==> v != w);
}

} // verus!
