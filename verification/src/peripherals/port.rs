use vstd::prelude::*;

verus! {

/// Registers of one group of I/O pins.
#[derive(Clone, Debug)]
pub struct PortGroup {
    /// Data Direction
    pub DIR: u32,
    /// Data Direction Clear
    pub DIRCLR: u32,
    /// Data Direction Set
    pub DIRSET: u32,
    /// Data Direction Toggle
    pub DIRTGL: u32,
    /// Data Output Value
    pub OUT: u32,
    /// Data Output Value Clear
    pub OUTCLR: u32,
    /// Data Output Value Set
    pub OUTSET: u32,
    /// Data Output Value Toggle
    pub OUTTGL: u32,
    /// Data Input Value
    pub IN: u32,
    /// Control
    pub CTRL: u32,
    /// Write Configuration
    pub WRCONFIG: u32,
    /// Event Input Control
    pub EVCTRL: u32,
    /// Peripheral Multiplexing
    pub PMUX: Vec<u8>,
    /// Pin Configuration
    pub PINCFG: Vec<u8>,
}

/// Registers of the I/O pin controller: one register group per pin group.
#[derive(Clone, Debug)]
pub struct RegisterBlock {
    pub Group: Vec<PortGroup>,
}

/// Number of pin groups.
pub const PORT_GROUPS: usize = 2;

/// I/O pin controller.
///
/// The registers are held as values; each operation computes the new
/// register contents that the device is to receive.
pub struct IOPinController {
    pub reg: RegisterBlock,
}

impl IOPinController {
    /// The controller over the registers `reg`, or `None` when a controller
    /// for this device exists already (`slot_free` is false).
    pub fn new(slot_free: bool, reg: RegisterBlock) -> (c: Option<Self>)
        requires
            reg.Group@.len() == PORT_GROUPS,
        ensures
            c is Some <==> slot_free,
            c matches Some(c) ==> c.reg == reg,
    {
        if slot_free {
            Some(IOPinController { reg })
        } else {
            None
        }
    }

    /// Makes pin `pin` of group `pingroup` an output (`isOut`) or an input,
    /// by writing its bit to the direction-set or direction-clear register.
    pub fn Set_PinDirection(&mut self, pingroup: usize, pin: u8, isOut: bool)
        requires
            pingroup < old(self).reg.Group@.len(),
            pin < 32,
        ensures
            final(self).reg.Group@ == old(self).reg.Group@.update(
                pingroup as int,
                if isOut {
                    PortGroup { DIRSET: 1u32 << pin, ..old(self).reg.Group@[pingroup as int] }
                } else {
                    PortGroup { DIRCLR: 1u32 << pin, ..old(self).reg.Group@[pingroup as int] }
                },
            ),
    {
        let mut group = self.reg.Group.remove(pingroup);
        if isOut {
            group.DIRSET = 1 << pin;
        } else {
            group.DIRCLR = 1 << pin;
        }
        self.reg.Group.insert(pingroup, group);
    }

    /// Drives pin `pin` of group `pingroup` high (`state`) or low, by writing
    /// its bit to the output-set or output-clear register.
    pub fn Set_PinOutState(&mut self, pingroup: usize, pin: u8, state: bool)
        requires
            pingroup < old(self).reg.Group@.len(),
            pin < 32,
        ensures
            final(self).reg.Group@ == old(self).reg.Group@.update(
                pingroup as int,
                if state {
                    PortGroup { OUTSET: 1u32 << pin, ..old(self).reg.Group@[pingroup as int] }
                } else {
                    PortGroup { OUTCLR: 1u32 << pin, ..old(self).reg.Group@[pingroup as int] }
                },
            ),
    {
        let mut group = self.reg.Group.remove(pingroup);
        if state {
            group.OUTSET = 1 << pin;
        } else {
            group.OUTCLR = 1 << pin;
        }
        self.reg.Group.insert(pingroup, group);
    }

    /// Whether pin `pin` of group `pingroup` is driven high.
    pub fn Get_PinOutState(&mut self, pingroup: usize, pin: u8) -> (high: bool)
        requires
            pingroup < old(self).reg.Group@.len(),
            pin < 32,
        ensures
            final(self).reg == old(self).reg,
            high == (old(self).reg.Group@[pingroup as int].OUT & (1u32 << pin) > 0),
    {
        self.reg.Group[pingroup].OUT & (1 << pin) > 0
    }
}

} // verus!
