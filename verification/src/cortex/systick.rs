use vstd::prelude::*;

verus! {

/// Registers of the system timer.
#[derive(Clone, Debug)]
pub struct RegisterBlock {
    /// Control and Status
    pub CTRL: u32,
    /// Reload Value Register
    pub LOAD: u32,
    /// Counter Value
    pub VAL: u32,
    /// Calibration Value
    pub CALIB: u32,
}

/// System timer, over its registers held as values.
pub struct SystemTimer {
    pub reg: RegisterBlock,
}

impl SystemTimer {
    /// The timer over the registers `reg`, or `None` when a timer exists
    /// already (`slot_free` is false).
    pub fn new(slot_free: bool, reg: RegisterBlock) -> (c: Option<Self>)
        ensures
            c is Some <==> slot_free,
            c matches Some(c) ==> c.reg == reg,
    {
        if slot_free {
            Some(SystemTimer { reg })
        } else {
            None
        }
    }

    pub fn Get_ReloadValue(&self) -> (v: u32)
        ensures
            v == self.reg.LOAD,
    {
        self.reg.LOAD
    }

    pub fn Set_ReloadValue(&mut self, value: u32)
        ensures
            final(self).reg == (RegisterBlock { LOAD: value, ..old(self).reg }),
    {
        self.reg.LOAD = value;
    }

    pub fn Set_ControlValue(&mut self, value: u32)
        ensures
            final(self).reg == (RegisterBlock { CTRL: value, ..old(self).reg }),
    {
        self.reg.CTRL = value;
    }

    pub fn Set_CounterValue(&mut self, value: u32)
        ensures
            final(self).reg == (RegisterBlock { VAL: value, ..old(self).reg }),
    {
        self.reg.VAL = value;
    }
}

} // verus!
