use vstd::prelude::*;

use super::field::{field_u8, field_u16, field_u32, set_field_u8, set_field_u16, set_field_u32};

verus! {

/// Registers of the oscillators controller.
#[derive(Clone, Debug)]
pub struct RegisterGroup {
    /// Interrupt Enable Clear
    pub INTENCLR: u32,
    /// Interrupt Enable Set
    pub INTENSET: u32,
    /// Interrupt Flag Status and Clear
    pub INTFLAG: u32,
    /// Power and Clocks Status
    pub STATUS: u32,
    /// External Multipurpose Crystal Oscillator (XOSC) Control
    pub XOSCCTRL: u16,
    /// Clock Failure Detector Prescaler
    pub CFDPRESC: u8,
    /// Event Control
    pub EVCTRL: u8,
    /// 48MHz Internal Oscillator (OSC48M) Control
    pub OSC48MCTRL: u8,
    /// OSC48M Divider
    pub OSC48MDIV: u8,
    /// OSC48M Startup Time
    pub OSC48MSTUP: u8,
    /// OSC48M Synchronization Busy
    pub OSC48MSYNCBUSY: u32,
    /// DPLL Control
    pub DPLLCTRLA: u8,
    /// DPLL Ratio Control
    pub DPLLRATIO: u32,
    /// Digital Core Configuration
    pub DPLLCTRLB: u32,
    /// DPLL Prescaler
    pub DPLLPRESC: u8,
    /// DPLL Synchronization Busy
    pub DPLLSYNCBUSY: u8,
    /// DPLL Status
    pub DPLLSTATUS: u8,
    /// 48MHz Oscillator Calibration
    pub CAL48M: u32,
}

/// Oscillators controller (crystal oscillator, 48 MHz oscillator and DPLL).
///
/// The registers are held as values; each operation computes the new
/// register contents that the device is to receive.
pub struct OscillatorsControl {
    pub reg: RegisterGroup,
}

impl OscillatorsControl {
    /// The controller over the registers `reg`, or `None` when a controller
    /// for this device exists already (`slot_free` is false).
    pub fn new(slot_free: bool, reg: RegisterGroup) -> (c: Option<Self>)
        ensures
            c is Some <==> slot_free,
            c matches Some(c) ==> c.reg == reg,
    {
        if slot_free {
            Some(OscillatorsControl { reg })
        } else {
            None
        }
    }

    /// Writes the whole `INTENCLR` register from its fields.
    pub fn Write_InterruptEnableClear(&mut self, regVal: INTENCLR)
        ensures
            final(self).reg == (RegisterGroup { INTENCLR: regVal.encoded(), ..old(self).reg }),
    {
        self.reg.INTENCLR = regVal.encode();
    }

    /// Writes the whole `INTENSET` register from its fields.
    pub fn Write_InterruptEnableSet(&mut self, regVal: INTENSET)
        ensures
            final(self).reg == (RegisterGroup { INTENSET: regVal.encoded(), ..old(self).reg }),
    {
        self.reg.INTENSET = regVal.encode();
    }

    /// Writes the whole `INTFLAG` register from its fields.
    pub fn Write_InterruptFlagStatusAndClear(&mut self, regVal: INTFLAG)
        ensures
            final(self).reg == (RegisterGroup { INTFLAG: regVal.encoded(), ..old(self).reg }),
    {
        self.reg.INTFLAG = regVal.encode();
    }

    /// Writes the whole `XOSCCTRL` register from its fields.
    pub fn Write_ExternalMultipurposeCrystalOscillatorControl(&mut self, regVal: XOSCCTRL)
        ensures
            final(self).reg == (RegisterGroup { XOSCCTRL: regVal.encoded(), ..old(self).reg }),
    {
        self.reg.XOSCCTRL = regVal.encode();
    }

    /// Writes the whole `OSC48MCTRL` register from its fields.
    pub fn Write_48mhzInternalOscillatorControl(&mut self, regVal: OSC48MCTRL)
        ensures
            final(self).reg == (RegisterGroup { OSC48MCTRL: regVal.encoded(), ..old(self).reg }),
    {
        self.reg.OSC48MCTRL = regVal.encode();
    }

    /// Writes the whole `DPLLCTRLA` register from its fields.
    pub fn Write_DpllControl(&mut self, regVal: DPLLCTRLA)
        ensures
            final(self).reg == (RegisterGroup { DPLLCTRLA: regVal.encoded(), ..old(self).reg }),
    {
        self.reg.DPLLCTRLA = regVal.encode();
    }

    /// Writes the whole `DPLLRATIO` register from its fields.
    pub fn Write_DpllRatioControl(&mut self, regVal: DPLLRATIO)
        ensures
            final(self).reg == (RegisterGroup { DPLLRATIO: regVal.encoded(), ..old(self).reg }),
    {
        self.reg.DPLLRATIO = regVal.encode();
    }

    /// Writes the whole `DPLLCTRLB` register from its fields.
    pub fn Write_DigitalCoreConfiguration(&mut self, regVal: DPLLCTRLB)
        ensures
            final(self).reg == (RegisterGroup { DPLLCTRLB: regVal.encoded(), ..old(self).reg }),
    {
        self.reg.DPLLCTRLB = regVal.encode();
    }

    /// Writes the whole `CAL48M` register from its fields.
    pub fn Write_48mhzOscillatorCalibration(&mut self, regVal: CAL48M)
        ensures
            final(self).reg == (RegisterGroup { CAL48M: regVal.encoded(), ..old(self).reg }),
    {
        self.reg.CAL48M = regVal.encode();
    }

    /// Writes `val` into the bits `0x1` of `INTENCLR`, keeping the other bits.
    pub fn Set_INTENCLR_XOSCRDY(&mut self, val: u32)
        ensures
            final(self).reg == (RegisterGroup {
                INTENCLR: field_u32(old(self).reg.INTENCLR, 0x1, 0, val),
                ..old(self).reg
            }),
    {
        self.reg.INTENCLR = set_field_u32(self.reg.INTENCLR, 0x1, 0, val);
    }

    /// Writes `val` into the bits `0x2` of `INTENCLR`, keeping the other bits.
    pub fn Set_INTENCLR_XOSCFAIL(&mut self, val: u32)
        ensures
            final(self).reg == (RegisterGroup {
                INTENCLR: field_u32(old(self).reg.INTENCLR, 0x2, 1, val),
                ..old(self).reg
            }),
    {
        self.reg.INTENCLR = set_field_u32(self.reg.INTENCLR, 0x2, 1, val);
    }

    /// Writes `val` into the bits `0x10` of `INTENCLR`, keeping the other bits.
    pub fn Set_INTENCLR_OSC48MRDY(&mut self, val: u32)
        ensures
            final(self).reg == (RegisterGroup {
                INTENCLR: field_u32(old(self).reg.INTENCLR, 0x10, 4, val),
                ..old(self).reg
            }),
    {
        self.reg.INTENCLR = set_field_u32(self.reg.INTENCLR, 0x10, 4, val);
    }

    /// Writes `val` into the bits `0x100` of `INTENCLR`, keeping the other bits.
    pub fn Set_INTENCLR_DPLLLCKR(&mut self, val: u32)
        ensures
            final(self).reg == (RegisterGroup {
                INTENCLR: field_u32(old(self).reg.INTENCLR, 0x100, 8, val),
                ..old(self).reg
            }),
    {
        self.reg.INTENCLR = set_field_u32(self.reg.INTENCLR, 0x100, 8, val);
    }

    /// Writes `val` into the bits `0x200` of `INTENCLR`, keeping the other bits.
    pub fn Set_INTENCLR_DPLLLCKF(&mut self, val: u32)
        ensures
            final(self).reg == (RegisterGroup {
                INTENCLR: field_u32(old(self).reg.INTENCLR, 0x200, 9, val),
                ..old(self).reg
            }),
    {
        self.reg.INTENCLR = set_field_u32(self.reg.INTENCLR, 0x200, 9, val);
    }

    /// Writes `val` into the bits `0x400` of `INTENCLR`, keeping the other bits.
    pub fn Set_INTENCLR_DPLLLTO(&mut self, val: u32)
        ensures
            final(self).reg == (RegisterGroup {
                INTENCLR: field_u32(old(self).reg.INTENCLR, 0x400, 10, val),
                ..old(self).reg
            }),
    {
        self.reg.INTENCLR = set_field_u32(self.reg.INTENCLR, 0x400, 10, val);
    }

    /// Writes `val` into the bits `0x800` of `INTENCLR`, keeping the other bits.
    pub fn Set_INTENCLR_DPLLLDRTO(&mut self, val: u32)
        ensures
            final(self).reg == (RegisterGroup {
                INTENCLR: field_u32(old(self).reg.INTENCLR, 0x800, 11, val),
                ..old(self).reg
            }),
    {
        self.reg.INTENCLR = set_field_u32(self.reg.INTENCLR, 0x800, 11, val);
    }

    /// Writes `val` into the bits `0x1` of `INTENSET`, keeping the other bits.
    pub fn Set_INTENSET_XOSCRDY(&mut self, val: u32)
        ensures
            final(self).reg == (RegisterGroup {
                INTENSET: field_u32(old(self).reg.INTENSET, 0x1, 0, val),
                ..old(self).reg
            }),
    {
        self.reg.INTENSET = set_field_u32(self.reg.INTENSET, 0x1, 0, val);
    }

    /// Writes `val` into the bits `0x2` of `INTENSET`, keeping the other bits.
    pub fn Set_INTENSET_XOSCFAIL(&mut self, val: u32)
        ensures
            final(self).reg == (RegisterGroup {
                INTENSET: field_u32(old(self).reg.INTENSET, 0x2, 1, val),
                ..old(self).reg
            }),
    {
        self.reg.INTENSET = set_field_u32(self.reg.INTENSET, 0x2, 1, val);
    }

    /// Writes `val` into the bits `0x10` of `INTENSET`, keeping the other bits.
    pub fn Set_INTENSET_OSC48MRDY(&mut self, val: u32)
        ensures
            final(self).reg == (RegisterGroup {
                INTENSET: field_u32(old(self).reg.INTENSET, 0x10, 4, val),
                ..old(self).reg
            }),
    {
        self.reg.INTENSET = set_field_u32(self.reg.INTENSET, 0x10, 4, val);
    }

    /// Writes `val` into the bits `0x100` of `INTENSET`, keeping the other bits.
    pub fn Set_INTENSET_DPLLLCKR(&mut self, val: u32)
        ensures
            final(self).reg == (RegisterGroup {
                INTENSET: field_u32(old(self).reg.INTENSET, 0x100, 8, val),
                ..old(self).reg
            }),
    {
        self.reg.INTENSET = set_field_u32(self.reg.INTENSET, 0x100, 8, val);
    }

    /// Writes `val` into the bits `0x200` of `INTENSET`, keeping the other bits.
    pub fn Set_INTENSET_DPLLLCKF(&mut self, val: u32)
        ensures
            final(self).reg == (RegisterGroup {
                INTENSET: field_u32(old(self).reg.INTENSET, 0x200, 9, val),
                ..old(self).reg
            }),
    {
        self.reg.INTENSET = set_field_u32(self.reg.INTENSET, 0x200, 9, val);
    }

    /// Writes `val` into the bits `0x400` of `INTENSET`, keeping the other bits.
    pub fn Set_INTENSET_DPLLLTO(&mut self, val: u32)
        ensures
            final(self).reg == (RegisterGroup {
                INTENSET: field_u32(old(self).reg.INTENSET, 0x400, 10, val),
                ..old(self).reg
            }),
    {
        self.reg.INTENSET = set_field_u32(self.reg.INTENSET, 0x400, 10, val);
    }

    /// Writes `val` into the bits `0x800` of `INTENSET`, keeping the other bits.
    pub fn Set_INTENSET_DPLLLDRTO(&mut self, val: u32)
        ensures
            final(self).reg == (RegisterGroup {
                INTENSET: field_u32(old(self).reg.INTENSET, 0x800, 11, val),
                ..old(self).reg
            }),
    {
        self.reg.INTENSET = set_field_u32(self.reg.INTENSET, 0x800, 11, val);
    }

    /// Writes `val` into the bits `0x1` of `INTFLAG`, keeping the other bits.
    pub fn Set_INTFLAG_XOSCRDY(&mut self, val: u32)
        ensures
            final(self).reg == (RegisterGroup {
                INTFLAG: field_u32(old(self).reg.INTFLAG, 0x1, 0, val),
                ..old(self).reg
            }),
    {
        self.reg.INTFLAG = set_field_u32(self.reg.INTFLAG, 0x1, 0, val);
    }

    /// Writes `val` into the bits `0x2` of `INTFLAG`, keeping the other bits.
    pub fn Set_INTFLAG_XOSCFAIL(&mut self, val: u32)
        ensures
            final(self).reg == (RegisterGroup {
                INTFLAG: field_u32(old(self).reg.INTFLAG, 0x2, 1, val),
                ..old(self).reg
            }),
    {
        self.reg.INTFLAG = set_field_u32(self.reg.INTFLAG, 0x2, 1, val);
    }

    /// Writes `val` into the bits `0x10` of `INTFLAG`, keeping the other bits.
    pub fn Set_INTFLAG_OSC48MRDY(&mut self, val: u32)
        ensures
            final(self).reg == (RegisterGroup {
                INTFLAG: field_u32(old(self).reg.INTFLAG, 0x10, 4, val),
                ..old(self).reg
            }),
    {
        self.reg.INTFLAG = set_field_u32(self.reg.INTFLAG, 0x10, 4, val);
    }

    /// Writes `val` into the bits `0x100` of `INTFLAG`, keeping the other bits.
    pub fn Set_INTFLAG_DPLLLCKR(&mut self, val: u32)
        ensures
            final(self).reg == (RegisterGroup {
                INTFLAG: field_u32(old(self).reg.INTFLAG, 0x100, 8, val),
                ..old(self).reg
            }),
    {
        self.reg.INTFLAG = set_field_u32(self.reg.INTFLAG, 0x100, 8, val);
    }

    /// Writes `val` into the bits `0x200` of `INTFLAG`, keeping the other bits.
    pub fn Set_INTFLAG_DPLLLCKF(&mut self, val: u32)
        ensures
            final(self).reg == (RegisterGroup {
                INTFLAG: field_u32(old(self).reg.INTFLAG, 0x200, 9, val),
                ..old(self).reg
            }),
    {
        self.reg.INTFLAG = set_field_u32(self.reg.INTFLAG, 0x200, 9, val);
    }

    /// Writes `val` into the bits `0x400` of `INTFLAG`, keeping the other bits.
    pub fn Set_INTFLAG_DPLLLTO(&mut self, val: u32)
        ensures
            final(self).reg == (RegisterGroup {
                INTFLAG: field_u32(old(self).reg.INTFLAG, 0x400, 10, val),
                ..old(self).reg
            }),
    {
        self.reg.INTFLAG = set_field_u32(self.reg.INTFLAG, 0x400, 10, val);
    }

    /// Writes `val` into the bits `0x800` of `INTFLAG`, keeping the other bits.
    pub fn Set_INTFLAG_DPLLLDRTO(&mut self, val: u32)
        ensures
            final(self).reg == (RegisterGroup {
                INTFLAG: field_u32(old(self).reg.INTFLAG, 0x800, 11, val),
                ..old(self).reg
            }),
    {
        self.reg.INTFLAG = set_field_u32(self.reg.INTFLAG, 0x800, 11, val);
    }

    /// Writes `val` into the bits `0x2` of `XOSCCTRL`, keeping the other bits.
    pub fn Set_XOSCCTRL_ENABLE(&mut self, val: u16)
        ensures
            final(self).reg == (RegisterGroup {
                XOSCCTRL: field_u16(old(self).reg.XOSCCTRL, 0x2, 1, val),
                ..old(self).reg
            }),
    {
        self.reg.XOSCCTRL = set_field_u16(self.reg.XOSCCTRL, 0x2, 1, val);
    }

    /// Writes `val` into the bits `0x4` of `XOSCCTRL`, keeping the other bits.
    pub fn Set_XOSCCTRL_XTALEN(&mut self, val: u16)
        ensures
            final(self).reg == (RegisterGroup {
                XOSCCTRL: field_u16(old(self).reg.XOSCCTRL, 0x4, 2, val),
                ..old(self).reg
            }),
    {
        self.reg.XOSCCTRL = set_field_u16(self.reg.XOSCCTRL, 0x4, 2, val);
    }

    /// Writes `val` into the bits `0x8` of `XOSCCTRL`, keeping the other bits.
    pub fn Set_XOSCCTRL_CFDEN(&mut self, val: u16)
        ensures
            final(self).reg == (RegisterGroup {
                XOSCCTRL: field_u16(old(self).reg.XOSCCTRL, 0x8, 3, val),
                ..old(self).reg
            }),
    {
        self.reg.XOSCCTRL = set_field_u16(self.reg.XOSCCTRL, 0x8, 3, val);
    }

    /// Writes `val` into the bits `0x10` of `XOSCCTRL`, keeping the other bits.
    pub fn Set_XOSCCTRL_SWBEN(&mut self, val: u16)
        ensures
            final(self).reg == (RegisterGroup {
                XOSCCTRL: field_u16(old(self).reg.XOSCCTRL, 0x10, 4, val),
                ..old(self).reg
            }),
    {
        self.reg.XOSCCTRL = set_field_u16(self.reg.XOSCCTRL, 0x10, 4, val);
    }

    /// Writes `val` into the bits `0x40` of `XOSCCTRL`, keeping the other bits.
    pub fn Set_XOSCCTRL_RUNSTDBY(&mut self, val: u16)
        ensures
            final(self).reg == (RegisterGroup {
                XOSCCTRL: field_u16(old(self).reg.XOSCCTRL, 0x40, 6, val),
                ..old(self).reg
            }),
    {
        self.reg.XOSCCTRL = set_field_u16(self.reg.XOSCCTRL, 0x40, 6, val);
    }

    /// Writes `val` into the bits `0x80` of `XOSCCTRL`, keeping the other bits.
    pub fn Set_XOSCCTRL_ONDEMAND(&mut self, val: u16)
        ensures
            final(self).reg == (RegisterGroup {
                XOSCCTRL: field_u16(old(self).reg.XOSCCTRL, 0x80, 7, val),
                ..old(self).reg
            }),
    {
        self.reg.XOSCCTRL = set_field_u16(self.reg.XOSCCTRL, 0x80, 7, val);
    }

    /// Writes `val` into the bits `0x700` of `XOSCCTRL`, keeping the other bits.
    pub fn Set_XOSCCTRL_GAIN(&mut self, val: OSCCTRL_XOSCCTRL__GAIN)
        ensures
            final(self).reg == (RegisterGroup {
                XOSCCTRL: field_u16(old(self).reg.XOSCCTRL, 0x700, 8, (val.encoded() as u16)),
                ..old(self).reg
            }),
    {
        self.reg.XOSCCTRL = set_field_u16(self.reg.XOSCCTRL, 0x700, 8, (val.encode() as u16));
    }

    /// Writes `val` into the bits `0x800` of `XOSCCTRL`, keeping the other bits.
    pub fn Set_XOSCCTRL_AMPGC(&mut self, val: u16)
        ensures
            final(self).reg == (RegisterGroup {
                XOSCCTRL: field_u16(old(self).reg.XOSCCTRL, 0x800, 11, val),
                ..old(self).reg
            }),
    {
        self.reg.XOSCCTRL = set_field_u16(self.reg.XOSCCTRL, 0x800, 11, val);
    }

    /// Writes `val` into the bits `0xF000` of `XOSCCTRL`, keeping the other bits.
    pub fn Set_XOSCCTRL_STARTUP(&mut self, val: OSCCTRL_XOSCCTRL__STARTUP)
        ensures
            final(self).reg == (RegisterGroup {
                XOSCCTRL: field_u16(old(self).reg.XOSCCTRL, 0xF000, 12, (val.encoded() as u16)),
                ..old(self).reg
            }),
    {
        self.reg.XOSCCTRL = set_field_u16(self.reg.XOSCCTRL, 0xF000, 12, (val.encode() as u16));
    }

    /// Writes `val` into the bits `0x7` of `CFDPRESC`, keeping the other bits.
    pub fn Set_CFDPRESC_CFDPRESC(&mut self, val: OSCCTRL_CFDPRESC__CFDPRESC)
        ensures
            final(self).reg == (RegisterGroup {
                CFDPRESC: field_u8(old(self).reg.CFDPRESC, 0x7, 0, (val.encoded() as u8)),
                ..old(self).reg
            }),
    {
        self.reg.CFDPRESC = set_field_u8(self.reg.CFDPRESC, 0x7, 0, (val.encode() as u8));
    }

    /// Writes `val` into the bits `0x1` of `EVCTRL`, keeping the other bits.
    pub fn Set_EVCTRL_CFDEO(&mut self, val: u8)
        ensures
            final(self).reg == (RegisterGroup {
                EVCTRL: field_u8(old(self).reg.EVCTRL, 0x1, 0, val),
                ..old(self).reg
            }),
    {
        self.reg.EVCTRL = set_field_u8(self.reg.EVCTRL, 0x1, 0, val);
    }

    /// Writes `val` into the bits `0x2` of `OSC48MCTRL`, keeping the other bits.
    pub fn Set_OSC48MCTRL_ENABLE(&mut self, val: u8)
        ensures
            final(self).reg == (RegisterGroup {
                OSC48MCTRL: field_u8(old(self).reg.OSC48MCTRL, 0x2, 1, val),
                ..old(self).reg
            }),
    {
        self.reg.OSC48MCTRL = set_field_u8(self.reg.OSC48MCTRL, 0x2, 1, val);
    }

    /// Writes `val` into the bits `0x40` of `OSC48MCTRL`, keeping the other bits.
    pub fn Set_OSC48MCTRL_RUNSTDBY(&mut self, val: u8)
        ensures
            final(self).reg == (RegisterGroup {
                OSC48MCTRL: field_u8(old(self).reg.OSC48MCTRL, 0x40, 6, val),
                ..old(self).reg
            }),
    {
        self.reg.OSC48MCTRL = set_field_u8(self.reg.OSC48MCTRL, 0x40, 6, val);
    }

    /// Writes `val` into the bits `0x80` of `OSC48MCTRL`, keeping the other bits.
    pub fn Set_OSC48MCTRL_ONDEMAND(&mut self, val: u8)
        ensures
            final(self).reg == (RegisterGroup {
                OSC48MCTRL: field_u8(old(self).reg.OSC48MCTRL, 0x80, 7, val),
                ..old(self).reg
            }),
    {
        self.reg.OSC48MCTRL = set_field_u8(self.reg.OSC48MCTRL, 0x80, 7, val);
    }

    /// Writes `val` into the bits `0xF` of `OSC48MDIV`, keeping the other bits.
    pub fn Set_OSC48MDIV_DIV(&mut self, val: OSCCTRL_OSC48MDIV__DIV)
        ensures
            final(self).reg == (RegisterGroup {
                OSC48MDIV: field_u8(old(self).reg.OSC48MDIV, 0xF, 0, (val.encoded() as u8)),
                ..old(self).reg
            }),
    {
        self.reg.OSC48MDIV = set_field_u8(self.reg.OSC48MDIV, 0xF, 0, (val.encode() as u8));
    }

    /// Writes `val` into the bits `0x7` of `OSC48MSTUP`, keeping the other bits.
    pub fn Set_OSC48MSTUP_STARTUP(&mut self, val: OSCCTRL_OSC48MSTUP__STARTUP)
        ensures
            final(self).reg == (RegisterGroup {
                OSC48MSTUP: field_u8(old(self).reg.OSC48MSTUP, 0x7, 0, (val.encoded() as u8)),
                ..old(self).reg
            }),
    {
        self.reg.OSC48MSTUP = set_field_u8(self.reg.OSC48MSTUP, 0x7, 0, (val.encode() as u8));
    }

    /// Writes `val` into the bits `0x2` of `DPLLCTRLA`, keeping the other bits.
    pub fn Set_DPLLCTRLA_ENABLE(&mut self, val: u8)
        ensures
            final(self).reg == (RegisterGroup {
                DPLLCTRLA: field_u8(old(self).reg.DPLLCTRLA, 0x2, 1, val),
                ..old(self).reg
            }),
    {
        self.reg.DPLLCTRLA = set_field_u8(self.reg.DPLLCTRLA, 0x2, 1, val);
    }

    /// Writes `val` into the bits `0x40` of `DPLLCTRLA`, keeping the other bits.
    pub fn Set_DPLLCTRLA_RUNSTDBY(&mut self, val: u8)
        ensures
            final(self).reg == (RegisterGroup {
                DPLLCTRLA: field_u8(old(self).reg.DPLLCTRLA, 0x40, 6, val),
                ..old(self).reg
            }),
    {
        self.reg.DPLLCTRLA = set_field_u8(self.reg.DPLLCTRLA, 0x40, 6, val);
    }

    /// Writes `val` into the bits `0x80` of `DPLLCTRLA`, keeping the other bits.
    pub fn Set_DPLLCTRLA_ONDEMAND(&mut self, val: u8)
        ensures
            final(self).reg == (RegisterGroup {
                DPLLCTRLA: field_u8(old(self).reg.DPLLCTRLA, 0x80, 7, val),
                ..old(self).reg
            }),
    {
        self.reg.DPLLCTRLA = set_field_u8(self.reg.DPLLCTRLA, 0x80, 7, val);
    }

    /// Writes `val` into the bits `0xFFF` of `DPLLRATIO`, keeping the other bits.
    pub fn Set_DPLLRATIO_LDR(&mut self, val: u32)
        ensures
            final(self).reg == (RegisterGroup {
                DPLLRATIO: field_u32(old(self).reg.DPLLRATIO, 0xFFF, 0, val),
                ..old(self).reg
            }),
    {
        self.reg.DPLLRATIO = set_field_u32(self.reg.DPLLRATIO, 0xFFF, 0, val);
    }

    /// Writes `val` into the bits `0xF0000` of `DPLLRATIO`, keeping the other bits.
    pub fn Set_DPLLRATIO_LDRFRAC(&mut self, val: u32)
        ensures
            final(self).reg == (RegisterGroup {
                DPLLRATIO: field_u32(old(self).reg.DPLLRATIO, 0xF0000, 16, val),
                ..old(self).reg
            }),
    {
        self.reg.DPLLRATIO = set_field_u32(self.reg.DPLLRATIO, 0xF0000, 16, val);
    }

    /// Writes `val` into the bits `0x3` of `DPLLCTRLB`, keeping the other bits.
    pub fn Set_DPLLCTRLB_FILTER(&mut self, val: OSCCTRL_DPLLCTRLB__FILTER)
        ensures
            final(self).reg == (RegisterGroup {
                DPLLCTRLB: field_u32(old(self).reg.DPLLCTRLB, 0x3, 0, (val.encoded() as u32)),
                ..old(self).reg
            }),
    {
        self.reg.DPLLCTRLB = set_field_u32(self.reg.DPLLCTRLB, 0x3, 0, (val.encode() as u32));
    }

    /// Writes `val` into the bits `0x4` of `DPLLCTRLB`, keeping the other bits.
    pub fn Set_DPLLCTRLB_LPEN(&mut self, val: u32)
        ensures
            final(self).reg == (RegisterGroup {
                DPLLCTRLB: field_u32(old(self).reg.DPLLCTRLB, 0x4, 2, val),
                ..old(self).reg
            }),
    {
        self.reg.DPLLCTRLB = set_field_u32(self.reg.DPLLCTRLB, 0x4, 2, val);
    }

    /// Writes `val` into the bits `0x8` of `DPLLCTRLB`, keeping the other bits.
    pub fn Set_DPLLCTRLB_WUF(&mut self, val: u32)
        ensures
            final(self).reg == (RegisterGroup {
                DPLLCTRLB: field_u32(old(self).reg.DPLLCTRLB, 0x8, 3, val),
                ..old(self).reg
            }),
    {
        self.reg.DPLLCTRLB = set_field_u32(self.reg.DPLLCTRLB, 0x8, 3, val);
    }

    /// Writes `val` into the bits `0x30` of `DPLLCTRLB`, keeping the other bits.
    pub fn Set_DPLLCTRLB_REFCLK(&mut self, val: OSCCTRL_DPLLCTRLB__REFCLK)
        ensures
            final(self).reg == (RegisterGroup {
                DPLLCTRLB: field_u32(old(self).reg.DPLLCTRLB, 0x30, 4, (val.encoded() as u32)),
                ..old(self).reg
            }),
    {
        self.reg.DPLLCTRLB = set_field_u32(self.reg.DPLLCTRLB, 0x30, 4, (val.encode() as u32));
    }

    /// Writes `val` into the bits `0x700` of `DPLLCTRLB`, keeping the other bits.
    pub fn Set_DPLLCTRLB_LTIME(&mut self, val: OSCCTRL_DPLLCTRLB__LTIME)
        ensures
            final(self).reg == (RegisterGroup {
                DPLLCTRLB: field_u32(old(self).reg.DPLLCTRLB, 0x700, 8, (val.encoded() as u32)),
                ..old(self).reg
            }),
    {
        self.reg.DPLLCTRLB = set_field_u32(self.reg.DPLLCTRLB, 0x700, 8, (val.encode() as u32));
    }

    /// Writes `val` into the bits `0x1000` of `DPLLCTRLB`, keeping the other bits.
    pub fn Set_DPLLCTRLB_LBYPASS(&mut self, val: u32)
        ensures
            final(self).reg == (RegisterGroup {
                DPLLCTRLB: field_u32(old(self).reg.DPLLCTRLB, 0x1000, 12, val),
                ..old(self).reg
            }),
    {
        self.reg.DPLLCTRLB = set_field_u32(self.reg.DPLLCTRLB, 0x1000, 12, val);
    }

    /// Writes `val` into the bits `0x7FF0000` of `DPLLCTRLB`, keeping the other bits.
    pub fn Set_DPLLCTRLB_DIV(&mut self, val: u32)
        ensures
            final(self).reg == (RegisterGroup {
                DPLLCTRLB: field_u32(old(self).reg.DPLLCTRLB, 0x7FF0000, 16, val),
                ..old(self).reg
            }),
    {
        self.reg.DPLLCTRLB = set_field_u32(self.reg.DPLLCTRLB, 0x7FF0000, 16, val);
    }

    /// Writes `val` into the bits `0x3` of `DPLLPRESC`, keeping the other bits.
    pub fn Set_DPLLPRESC_PRESC(&mut self, val: OSCCTRL_DPLLPRESC__PRESC)
        ensures
            final(self).reg == (RegisterGroup {
                DPLLPRESC: field_u8(old(self).reg.DPLLPRESC, 0x3, 0, (val.encoded() as u8)),
                ..old(self).reg
            }),
    {
        self.reg.DPLLPRESC = set_field_u8(self.reg.DPLLPRESC, 0x3, 0, (val.encode() as u8));
    }

    /// Writes `val` into the bits `0x3F` of `CAL48M`, keeping the other bits.
    pub fn Set_CAL48M_FCAL(&mut self, val: u32)
        ensures
            final(self).reg == (RegisterGroup {
                CAL48M: field_u32(old(self).reg.CAL48M, 0x3F, 0, val),
                ..old(self).reg
            }),
    {
        self.reg.CAL48M = set_field_u32(self.reg.CAL48M, 0x3F, 0, val);
    }

    /// Writes `val` into the bits `0x300` of `CAL48M`, keeping the other bits.
    pub fn Set_CAL48M_FRANGE(&mut self, val: u32)
        ensures
            final(self).reg == (RegisterGroup {
                CAL48M: field_u32(old(self).reg.CAL48M, 0x300, 8, val),
                ..old(self).reg
            }),
    {
        self.reg.CAL48M = set_field_u32(self.reg.CAL48M, 0x300, 8, val);
    }

    /// Writes `val` into the bits `0x3F0000` of `CAL48M`, keeping the other bits.
    pub fn Set_CAL48M_TCAL(&mut self, val: u32)
        ensures
            final(self).reg == (RegisterGroup {
                CAL48M: field_u32(old(self).reg.CAL48M, 0x3F0000, 16, val),
                ..old(self).reg
            }),
    {
        self.reg.CAL48M = set_field_u32(self.reg.CAL48M, 0x3F0000, 16, val);
    }


}

/// Fields of the `INTENCLR` register.
#[derive(Copy, Clone, Debug)]
pub struct INTENCLR {
    pub XOSCRDY: u8,
    pub XOSCFAIL: u8,
    pub OSC48MRDY: u8,
    pub DPLLLCKR: u8,
    pub DPLLLCKF: u8,
    pub DPLLLTO: u8,
    pub DPLLLDRTO: u8,
}

impl INTENCLR {
    /// Register value that holds these fields.
    pub open spec fn encoded(&self) -> u32 {
        0u32
            | ((((self.XOSCRDY as u32) << 0) & 0x1) as u32)
            | ((((self.XOSCFAIL as u32) << 1) & 0x2) as u32)
            | ((((self.OSC48MRDY as u32) << 4) & 0x10) as u32)
            | ((((self.DPLLLCKR as u32) << 8) & 0x100) as u32)
            | ((((self.DPLLLCKF as u32) << 9) & 0x200) as u32)
            | ((((self.DPLLLTO as u32) << 10) & 0x400) as u32)
            | ((((self.DPLLLDRTO as u32) << 11) & 0x800) as u32)
    }

    /// Register value that holds these fields.
    pub fn encode(&self) -> (r: u32)
        ensures
            r == self.encoded(),
    {
        let mut rawVal: u32 = 0;
        rawVal = rawVal | ((((self.XOSCRDY as u32) << 0) & 0x1) as u32);
        rawVal = rawVal | ((((self.XOSCFAIL as u32) << 1) & 0x2) as u32);
        rawVal = rawVal | ((((self.OSC48MRDY as u32) << 4) & 0x10) as u32);
        rawVal = rawVal | ((((self.DPLLLCKR as u32) << 8) & 0x100) as u32);
        rawVal = rawVal | ((((self.DPLLLCKF as u32) << 9) & 0x200) as u32);
        rawVal = rawVal | ((((self.DPLLLTO as u32) << 10) & 0x400) as u32);
        rawVal = rawVal | ((((self.DPLLLDRTO as u32) << 11) & 0x800) as u32);
        rawVal
    }
}

/// Fields of the `INTENSET` register.
#[derive(Copy, Clone, Debug)]
pub struct INTENSET {
    pub XOSCRDY: u8,
    pub XOSCFAIL: u8,
    pub OSC48MRDY: u8,
    pub DPLLLCKR: u8,
    pub DPLLLCKF: u8,
    pub DPLLLTO: u8,
    pub DPLLLDRTO: u8,
}

impl INTENSET {
    /// Register value that holds these fields.
    pub open spec fn encoded(&self) -> u32 {
        0u32
            | ((((self.XOSCRDY as u32) << 0) & 0x1) as u32)
            | ((((self.XOSCFAIL as u32) << 1) & 0x2) as u32)
            | ((((self.OSC48MRDY as u32) << 4) & 0x10) as u32)
            | ((((self.DPLLLCKR as u32) << 8) & 0x100) as u32)
            | ((((self.DPLLLCKF as u32) << 9) & 0x200) as u32)
            | ((((self.DPLLLTO as u32) << 10) & 0x400) as u32)
            | ((((self.DPLLLDRTO as u32) << 11) & 0x800) as u32)
    }

    /// Register value that holds these fields.
    pub fn encode(&self) -> (r: u32)
        ensures
            r == self.encoded(),
    {
        let mut rawVal: u32 = 0;
        rawVal = rawVal | ((((self.XOSCRDY as u32) << 0) & 0x1) as u32);
        rawVal = rawVal | ((((self.XOSCFAIL as u32) << 1) & 0x2) as u32);
        rawVal = rawVal | ((((self.OSC48MRDY as u32) << 4) & 0x10) as u32);
        rawVal = rawVal | ((((self.DPLLLCKR as u32) << 8) & 0x100) as u32);
        rawVal = rawVal | ((((self.DPLLLCKF as u32) << 9) & 0x200) as u32);
        rawVal = rawVal | ((((self.DPLLLTO as u32) << 10) & 0x400) as u32);
        rawVal = rawVal | ((((self.DPLLLDRTO as u32) << 11) & 0x800) as u32);
        rawVal
    }
}

/// Fields of the `INTFLAG` register.
#[derive(Copy, Clone, Debug)]
pub struct INTFLAG {
    pub XOSCRDY: u8,
    pub XOSCFAIL: u8,
    pub OSC48MRDY: u8,
    pub DPLLLCKR: u8,
    pub DPLLLCKF: u8,
    pub DPLLLTO: u8,
    pub DPLLLDRTO: u8,
}

impl INTFLAG {
    /// Register value that holds these fields.
    pub open spec fn encoded(&self) -> u32 {
        0u32
            | ((((self.XOSCRDY as u32) << 0) & 0x1) as u32)
            | ((((self.XOSCFAIL as u32) << 1) & 0x2) as u32)
            | ((((self.OSC48MRDY as u32) << 4) & 0x10) as u32)
            | ((((self.DPLLLCKR as u32) << 8) & 0x100) as u32)
            | ((((self.DPLLLCKF as u32) << 9) & 0x200) as u32)
            | ((((self.DPLLLTO as u32) << 10) & 0x400) as u32)
            | ((((self.DPLLLDRTO as u32) << 11) & 0x800) as u32)
    }

    /// Register value that holds these fields.
    pub fn encode(&self) -> (r: u32)
        ensures
            r == self.encoded(),
    {
        let mut rawVal: u32 = 0;
        rawVal = rawVal | ((((self.XOSCRDY as u32) << 0) & 0x1) as u32);
        rawVal = rawVal | ((((self.XOSCFAIL as u32) << 1) & 0x2) as u32);
        rawVal = rawVal | ((((self.OSC48MRDY as u32) << 4) & 0x10) as u32);
        rawVal = rawVal | ((((self.DPLLLCKR as u32) << 8) & 0x100) as u32);
        rawVal = rawVal | ((((self.DPLLLCKF as u32) << 9) & 0x200) as u32);
        rawVal = rawVal | ((((self.DPLLLTO as u32) << 10) & 0x400) as u32);
        rawVal = rawVal | ((((self.DPLLLDRTO as u32) << 11) & 0x800) as u32);
        rawVal
    }
}

/// Fields of the `STATUS` register.
#[derive(Copy, Clone, Debug)]
pub struct STATUS {
    pub XOSCRDY: u8,
    pub XOSCFAIL: u8,
    pub XOSCCKSW: u8,
    pub OSC48MRDY: u8,
    pub DPLLLCKR: u8,
    pub DPLLLCKF: u8,
    pub DPLLTO: u8,
    pub DPLLLDRTO: u8,
}

/// Fields of the `XOSCCTRL` register.
#[derive(Copy, Clone, Debug)]
pub struct XOSCCTRL {
    pub ENABLE: u8,
    pub XTALEN: u8,
    pub CFDEN: u8,
    pub SWBEN: u8,
    pub RUNSTDBY: u8,
    pub ONDEMAND: u8,
    pub GAIN: OSCCTRL_XOSCCTRL__GAIN,
    pub AMPGC: u8,
    pub STARTUP: OSCCTRL_XOSCCTRL__STARTUP,
}

impl XOSCCTRL {
    /// Register value that holds these fields.
    pub open spec fn encoded(&self) -> u16 {
        0u16
            | ((((self.ENABLE as u32) << 1) & 0x2) as u16)
            | ((((self.XTALEN as u32) << 2) & 0x4) as u16)
            | ((((self.CFDEN as u32) << 3) & 0x8) as u16)
            | ((((self.SWBEN as u32) << 4) & 0x10) as u16)
            | ((((self.RUNSTDBY as u32) << 6) & 0x40) as u16)
            | ((((self.ONDEMAND as u32) << 7) & 0x80) as u16)
            | (((self.GAIN.encoded() << 8) & 0x700) as u16)
            | ((((self.AMPGC as u32) << 11) & 0x800) as u16)
            | (((self.STARTUP.encoded() << 12) & 0xF000) as u16)
    }

    /// Register value that holds these fields.
    pub fn encode(&self) -> (r: u16)
        ensures
            r == self.encoded(),
    {
        let mut rawVal: u16 = 0;
        rawVal = rawVal | ((((self.ENABLE as u32) << 1) & 0x2) as u16);
        rawVal = rawVal | ((((self.XTALEN as u32) << 2) & 0x4) as u16);
        rawVal = rawVal | ((((self.CFDEN as u32) << 3) & 0x8) as u16);
        rawVal = rawVal | ((((self.SWBEN as u32) << 4) & 0x10) as u16);
        rawVal = rawVal | ((((self.RUNSTDBY as u32) << 6) & 0x40) as u16);
        rawVal = rawVal | ((((self.ONDEMAND as u32) << 7) & 0x80) as u16);
        rawVal = rawVal | (((self.GAIN.encode() << 8) & 0x700) as u16);
        rawVal = rawVal | ((((self.AMPGC as u32) << 11) & 0x800) as u16);
        rawVal = rawVal | (((self.STARTUP.encode() << 12) & 0xF000) as u16);
        rawVal
    }
}

/// Fields of the `OSC48MCTRL` register.
#[derive(Copy, Clone, Debug)]
pub struct OSC48MCTRL {
    pub ENABLE: u8,
    pub RUNSTDBY: u8,
    pub ONDEMAND: u8,
}

impl OSC48MCTRL {
    /// Register value that holds these fields.
    pub open spec fn encoded(&self) -> u8 {
        0u8
            | ((((self.ENABLE as u32) << 1) & 0x2) as u8)
            | ((((self.RUNSTDBY as u32) << 6) & 0x40) as u8)
            | ((((self.ONDEMAND as u32) << 7) & 0x80) as u8)
    }

    /// Register value that holds these fields.
    pub fn encode(&self) -> (r: u8)
        ensures
            r == self.encoded(),
    {
        let mut rawVal: u8 = 0;
        rawVal = rawVal | ((((self.ENABLE as u32) << 1) & 0x2) as u8);
        rawVal = rawVal | ((((self.RUNSTDBY as u32) << 6) & 0x40) as u8);
        rawVal = rawVal | ((((self.ONDEMAND as u32) << 7) & 0x80) as u8);
        rawVal
    }
}

/// Fields of the `DPLLCTRLA` register.
#[derive(Copy, Clone, Debug)]
pub struct DPLLCTRLA {
    pub ENABLE: u8,
    pub RUNSTDBY: u8,
    pub ONDEMAND: u8,
}

impl DPLLCTRLA {
    /// Register value that holds these fields.
    pub open spec fn encoded(&self) -> u8 {
        0u8
            | ((((self.ENABLE as u32) << 1) & 0x2) as u8)
            | ((((self.RUNSTDBY as u32) << 6) & 0x40) as u8)
            | ((((self.ONDEMAND as u32) << 7) & 0x80) as u8)
    }

    /// Register value that holds these fields.
    pub fn encode(&self) -> (r: u8)
        ensures
            r == self.encoded(),
    {
        let mut rawVal: u8 = 0;
        rawVal = rawVal | ((((self.ENABLE as u32) << 1) & 0x2) as u8);
        rawVal = rawVal | ((((self.RUNSTDBY as u32) << 6) & 0x40) as u8);
        rawVal = rawVal | ((((self.ONDEMAND as u32) << 7) & 0x80) as u8);
        rawVal
    }
}

/// Fields of the `DPLLRATIO` register.
#[derive(Copy, Clone, Debug)]
pub struct DPLLRATIO {
    pub LDR: u16,
    pub LDRFRAC: u8,
}

impl DPLLRATIO {
    /// Register value that holds these fields.
    pub open spec fn encoded(&self) -> u32 {
        0u32
            | ((((self.LDR as u32) << 0) & 0xFFF) as u32)
            | ((((self.LDRFRAC as u32) << 16) & 0xF0000) as u32)
    }

    /// Register value that holds these fields.
    pub fn encode(&self) -> (r: u32)
        ensures
            r == self.encoded(),
    {
        let mut rawVal: u32 = 0;
        rawVal = rawVal | ((((self.LDR as u32) << 0) & 0xFFF) as u32);
        rawVal = rawVal | ((((self.LDRFRAC as u32) << 16) & 0xF0000) as u32);
        rawVal
    }
}

/// Fields of the `DPLLCTRLB` register.
#[derive(Copy, Clone, Debug)]
pub struct DPLLCTRLB {
    pub FILTER: OSCCTRL_DPLLCTRLB__FILTER,
    pub LPEN: u8,
    pub WUF: u8,
    pub REFCLK: OSCCTRL_DPLLCTRLB__REFCLK,
    pub LTIME: OSCCTRL_DPLLCTRLB__LTIME,
    pub LBYPASS: u8,
    pub DIV: u16,
}

impl DPLLCTRLB {
    /// Register value that holds these fields.
    pub open spec fn encoded(&self) -> u32 {
        0u32
            | (((self.FILTER.encoded() << 0) & 0x3) as u32)
            | ((((self.LPEN as u32) << 2) & 0x4) as u32)
            | ((((self.WUF as u32) << 3) & 0x8) as u32)
            | (((self.REFCLK.encoded() << 4) & 0x30) as u32)
            | (((self.LTIME.encoded() << 8) & 0x700) as u32)
            | ((((self.LBYPASS as u32) << 12) & 0x1000) as u32)
            | ((((self.DIV as u32) << 16) & 0x7FF0000) as u32)
    }

    /// Register value that holds these fields.
    pub fn encode(&self) -> (r: u32)
        ensures
            r == self.encoded(),
    {
        let mut rawVal: u32 = 0;
        rawVal = rawVal | (((self.FILTER.encode() << 0) & 0x3) as u32);
        rawVal = rawVal | ((((self.LPEN as u32) << 2) & 0x4) as u32);
        rawVal = rawVal | ((((self.WUF as u32) << 3) & 0x8) as u32);
        rawVal = rawVal | (((self.REFCLK.encode() << 4) & 0x30) as u32);
        rawVal = rawVal | (((self.LTIME.encode() << 8) & 0x700) as u32);
        rawVal = rawVal | ((((self.LBYPASS as u32) << 12) & 0x1000) as u32);
        rawVal = rawVal | ((((self.DIV as u32) << 16) & 0x7FF0000) as u32);
        rawVal
    }
}

/// Fields of the `DPLLSYNCBUSY` register.
#[derive(Copy, Clone, Debug)]
pub struct DPLLSYNCBUSY {
    pub ENABLE: u8,
    pub DPLLRATIO: u8,
    pub DPLLPRESC: u8,
}

/// Fields of the `DPLLSTATUS` register.
#[derive(Copy, Clone, Debug)]
pub struct DPLLSTATUS {
    pub LOCK: u8,
    pub CLKRDY: u8,
}

/// Fields of the `CAL48M` register.
#[derive(Copy, Clone, Debug)]
pub struct CAL48M {
    pub FCAL: u8,
    pub FRANGE: u8,
    pub TCAL: u8,
}

impl CAL48M {
    /// Register value that holds these fields.
    pub open spec fn encoded(&self) -> u32 {
        0u32
            | ((((self.FCAL as u32) << 0) & 0x3F) as u32)
            | ((((self.FRANGE as u32) << 8) & 0x300) as u32)
            | ((((self.TCAL as u32) << 16) & 0x3F0000) as u32)
    }

    /// Register value that holds these fields.
    pub fn encode(&self) -> (r: u32)
        ensures
            r == self.encoded(),
    {
        let mut rawVal: u32 = 0;
        rawVal = rawVal | ((((self.FCAL as u32) << 0) & 0x3F) as u32);
        rawVal = rawVal | ((((self.FRANGE as u32) << 8) & 0x300) as u32);
        rawVal = rawVal | ((((self.TCAL as u32) << 16) & 0x3F0000) as u32);
        rawVal
    }
}

#[derive(Copy, Clone, Debug, PartialEq, Eq, Structural)]
pub enum OSCCTRL_XOSCCTRL__STARTUP {
    /// 31 us
    CYCLE1,
    /// 61 us
    CYCLE2,
    /// 122 us
    CYCLE4,
    /// 244 us
    CYCLE8,
    /// 488 us
    CYCLE16,
    /// 977 us
    CYCLE32,
    /// 1953 us
    CYCLE64,
    /// 3906 us
    CYCLE128,
    /// 7813 us
    CYCLE256,
    /// 15625 us
    CYCLE512,
    /// 31250 us
    CYCLE1024,
    /// 62500 us
    CYCLE2048,
    /// 125000 us
    CYCLE4096,
    /// 250000 us
    CYCLE8192,
    /// 500000 us
    CYCLE16384,
    /// 1000000 us
    CYCLE32768,
}

impl OSCCTRL_XOSCCTRL__STARTUP {
    /// Encoding of the selection in its register field.
    pub open spec fn encoded(self) -> u32 {
        match self {
            OSCCTRL_XOSCCTRL__STARTUP::CYCLE1 => 0,
            OSCCTRL_XOSCCTRL__STARTUP::CYCLE2 => 1,
            OSCCTRL_XOSCCTRL__STARTUP::CYCLE4 => 2,
            OSCCTRL_XOSCCTRL__STARTUP::CYCLE8 => 3,
            OSCCTRL_XOSCCTRL__STARTUP::CYCLE16 => 4,
            OSCCTRL_XOSCCTRL__STARTUP::CYCLE32 => 5,
            OSCCTRL_XOSCCTRL__STARTUP::CYCLE64 => 6,
            OSCCTRL_XOSCCTRL__STARTUP::CYCLE128 => 7,
            OSCCTRL_XOSCCTRL__STARTUP::CYCLE256 => 8,
            OSCCTRL_XOSCCTRL__STARTUP::CYCLE512 => 9,
            OSCCTRL_XOSCCTRL__STARTUP::CYCLE1024 => 0xa,
            OSCCTRL_XOSCCTRL__STARTUP::CYCLE2048 => 0xb,
            OSCCTRL_XOSCCTRL__STARTUP::CYCLE4096 => 0xc,
            OSCCTRL_XOSCCTRL__STARTUP::CYCLE8192 => 0xd,
            OSCCTRL_XOSCCTRL__STARTUP::CYCLE16384 => 0xe,
            OSCCTRL_XOSCCTRL__STARTUP::CYCLE32768 => 0xf,
        }
    }

    /// Encoding of the selection in its register field.
    pub fn encode(self) -> (r: u32)
        ensures
            r == self.encoded(),
    {
        match self {
            OSCCTRL_XOSCCTRL__STARTUP::CYCLE1 => 0,
            OSCCTRL_XOSCCTRL__STARTUP::CYCLE2 => 1,
            OSCCTRL_XOSCCTRL__STARTUP::CYCLE4 => 2,
            OSCCTRL_XOSCCTRL__STARTUP::CYCLE8 => 3,
            OSCCTRL_XOSCCTRL__STARTUP::CYCLE16 => 4,
            OSCCTRL_XOSCCTRL__STARTUP::CYCLE32 => 5,
            OSCCTRL_XOSCCTRL__STARTUP::CYCLE64 => 6,
            OSCCTRL_XOSCCTRL__STARTUP::CYCLE128 => 7,
            OSCCTRL_XOSCCTRL__STARTUP::CYCLE256 => 8,
            OSCCTRL_XOSCCTRL__STARTUP::CYCLE512 => 9,
            OSCCTRL_XOSCCTRL__STARTUP::CYCLE1024 => 0xa,
            OSCCTRL_XOSCCTRL__STARTUP::CYCLE2048 => 0xb,
            OSCCTRL_XOSCCTRL__STARTUP::CYCLE4096 => 0xc,
            OSCCTRL_XOSCCTRL__STARTUP::CYCLE8192 => 0xd,
            OSCCTRL_XOSCCTRL__STARTUP::CYCLE16384 => 0xe,
            OSCCTRL_XOSCCTRL__STARTUP::CYCLE32768 => 0xf,
        }
    }

    /// The field value of each selection: `CYCLE1` as 0, `CYCLE2` as 1, `CYCLE4` as 2, `CYCLE8` as
    /// 3, `CYCLE16` as 4, `CYCLE32` as 5, `CYCLE64` as 6, `CYCLE128` as 7, `CYCLE256` as 8,
    /// `CYCLE512` as 9, `CYCLE1024` as 0xa, `CYCLE2048` as 0xb, `CYCLE4096` as 0xc, `CYCLE8192` as
    /// 0xd, `CYCLE16384` as 0xe, `CYCLE32768` as 0xf.
    /// Distinct selections are written as distinct values.
    pub proof fn lemma_field_values()
        ensures
            OSCCTRL_XOSCCTRL__STARTUP::CYCLE1.encoded() == 0,
            OSCCTRL_XOSCCTRL__STARTUP::CYCLE2.encoded() == 1,
            OSCCTRL_XOSCCTRL__STARTUP::CYCLE4.encoded() == 2,
            OSCCTRL_XOSCCTRL__STARTUP::CYCLE8.encoded() == 3,
            OSCCTRL_XOSCCTRL__STARTUP::CYCLE16.encoded() == 4,
            OSCCTRL_XOSCCTRL__STARTUP::CYCLE32.encoded() == 5,
            OSCCTRL_XOSCCTRL__STARTUP::CYCLE64.encoded() == 6,
            OSCCTRL_XOSCCTRL__STARTUP::CYCLE128.encoded() == 7,
            OSCCTRL_XOSCCTRL__STARTUP::CYCLE256.encoded() == 8,
            OSCCTRL_XOSCCTRL__STARTUP::CYCLE512.encoded() == 9,
            OSCCTRL_XOSCCTRL__STARTUP::CYCLE1024.encoded() == 0xa,
            OSCCTRL_XOSCCTRL__STARTUP::CYCLE2048.encoded() == 0xb,
            OSCCTRL_XOSCCTRL__STARTUP::CYCLE4096.encoded() == 0xc,
            OSCCTRL_XOSCCTRL__STARTUP::CYCLE8192.encoded() == 0xd,
            OSCCTRL_XOSCCTRL__STARTUP::CYCLE16384.encoded() == 0xe,
            OSCCTRL_XOSCCTRL__STARTUP::CYCLE32768.encoded() == 0xf,
            forall|a: OSCCTRL_XOSCCTRL__STARTUP, b: OSCCTRL_XOSCCTRL__STARTUP| #![trigger a.encoded(), b.encoded()] a.encoded() == b.encoded() ==> a == b,
    {
    }
}

#[derive(Copy, Clone, Debug, PartialEq, Eq, Structural)]
pub enum OSCCTRL_XOSCCTRL__GAIN {
    /// 2 MHz
    GAIN2,
    /// 4 MHz
    GAIN4,
    /// 8 MHz
    GAIN8,
    /// 16 MHz
    GAIN16,
    /// 30 MHz
    GAIN30,
}

impl OSCCTRL_XOSCCTRL__GAIN {
    /// Encoding of the selection in its register field.
    pub open spec fn encoded(self) -> u32 {
        match self {
            OSCCTRL_XOSCCTRL__GAIN::GAIN2 => 0,
            OSCCTRL_XOSCCTRL__GAIN::GAIN4 => 1,
            OSCCTRL_XOSCCTRL__GAIN::GAIN8 => 2,
            OSCCTRL_XOSCCTRL__GAIN::GAIN16 => 3,
            OSCCTRL_XOSCCTRL__GAIN::GAIN30 => 4,
        }
    }

    /// Encoding of the selection in its register field.
    pub fn encode(self) -> (r: u32)
        ensures
            r == self.encoded(),
    {
        match self {
            OSCCTRL_XOSCCTRL__GAIN::GAIN2 => 0,
            OSCCTRL_XOSCCTRL__GAIN::GAIN4 => 1,
            OSCCTRL_XOSCCTRL__GAIN::GAIN8 => 2,
            OSCCTRL_XOSCCTRL__GAIN::GAIN16 => 3,
            OSCCTRL_XOSCCTRL__GAIN::GAIN30 => 4,
        }
    }

    /// The field value of each selection: `GAIN2` as 0, `GAIN4` as 1, `GAIN8` as 2, `GAIN16` as 3,
    /// `GAIN30` as 4.
    /// Distinct selections are written as distinct values.
    pub proof fn lemma_field_values()
        ensures
            OSCCTRL_XOSCCTRL__GAIN::GAIN2.encoded() == 0,
            OSCCTRL_XOSCCTRL__GAIN::GAIN4.encoded() == 1,
            OSCCTRL_XOSCCTRL__GAIN::GAIN8.encoded() == 2,
            OSCCTRL_XOSCCTRL__GAIN::GAIN16.encoded() == 3,
            OSCCTRL_XOSCCTRL__GAIN::GAIN30.encoded() == 4,
            forall|a: OSCCTRL_XOSCCTRL__GAIN, b: OSCCTRL_XOSCCTRL__GAIN| #![trigger a.encoded(), b.encoded()] a.encoded() == b.encoded() ==> a == b,
    {
    }
}

#[derive(Copy, Clone, Debug, PartialEq, Eq, Structural)]
pub enum OSCCTRL_CFDPRESC__CFDPRESC {
    /// 48 MHz
    DIV1,
    /// 24 MHz
    DIV2,
    /// 12 MHz
    DIV4,
    /// 6 MHz
    DIV8,
    /// 3 MHz
    DIV16,
    /// 1.5 MHz
    DIV32,
    /// 0.75 MHz
    DIV64,
    /// 0.3125 MHz
    DIV128,
}

impl OSCCTRL_CFDPRESC__CFDPRESC {
    /// Encoding of the selection in its register field.
    pub open spec fn encoded(self) -> u32 {
        match self {
            OSCCTRL_CFDPRESC__CFDPRESC::DIV1 => 0,
            OSCCTRL_CFDPRESC__CFDPRESC::DIV2 => 1,
            OSCCTRL_CFDPRESC__CFDPRESC::DIV4 => 2,
            OSCCTRL_CFDPRESC__CFDPRESC::DIV8 => 3,
            OSCCTRL_CFDPRESC__CFDPRESC::DIV16 => 4,
            OSCCTRL_CFDPRESC__CFDPRESC::DIV32 => 5,
            OSCCTRL_CFDPRESC__CFDPRESC::DIV64 => 6,
            OSCCTRL_CFDPRESC__CFDPRESC::DIV128 => 7,
        }
    }

    /// Encoding of the selection in its register field.
    pub fn encode(self) -> (r: u32)
        ensures
            r == self.encoded(),
    {
        match self {
            OSCCTRL_CFDPRESC__CFDPRESC::DIV1 => 0,
            OSCCTRL_CFDPRESC__CFDPRESC::DIV2 => 1,
            OSCCTRL_CFDPRESC__CFDPRESC::DIV4 => 2,
            OSCCTRL_CFDPRESC__CFDPRESC::DIV8 => 3,
            OSCCTRL_CFDPRESC__CFDPRESC::DIV16 => 4,
            OSCCTRL_CFDPRESC__CFDPRESC::DIV32 => 5,
            OSCCTRL_CFDPRESC__CFDPRESC::DIV64 => 6,
            OSCCTRL_CFDPRESC__CFDPRESC::DIV128 => 7,
        }
    }

    /// The field value of each selection: `DIV1` as 0, `DIV2` as 1, `DIV4` as 2, `DIV8` as 3,
    /// `DIV16` as 4, `DIV32` as 5, `DIV64` as 6, `DIV128` as 7.
    /// Distinct selections are written as distinct values.
    pub proof fn lemma_field_values()
        ensures
            OSCCTRL_CFDPRESC__CFDPRESC::DIV1.encoded() == 0,
            OSCCTRL_CFDPRESC__CFDPRESC::DIV2.encoded() == 1,
            OSCCTRL_CFDPRESC__CFDPRESC::DIV4.encoded() == 2,
            OSCCTRL_CFDPRESC__CFDPRESC::DIV8.encoded() == 3,
            OSCCTRL_CFDPRESC__CFDPRESC::DIV16.encoded() == 4,
            OSCCTRL_CFDPRESC__CFDPRESC::DIV32.encoded() == 5,
            OSCCTRL_CFDPRESC__CFDPRESC::DIV64.encoded() == 6,
            OSCCTRL_CFDPRESC__CFDPRESC::DIV128.encoded() == 7,
            forall|a: OSCCTRL_CFDPRESC__CFDPRESC, b: OSCCTRL_CFDPRESC__CFDPRESC| #![trigger a.encoded(), b.encoded()] a.encoded() == b.encoded() ==> a == b,
    {
    }
}

#[derive(Copy, Clone, Debug, PartialEq, Eq, Structural)]
pub enum OSCCTRL_OSC48MDIV__DIV {
    /// 48 MHz
    DIV1,
    /// 24 MHz
    DIV2,
    /// 16 MHz
    DIV3,
    /// 12 MHz
    DIV4,
    /// 9.6 MHz
    DIV5,
    /// 8 MHz
    DIV6,
    /// 6.86 MHz
    DIV7,
    /// 6 MHz
    DIV8,
    /// 5.33 MHz
    DIV9,
    /// 4.8 MHz
    DIV10,
    /// 4.36 MHz
    DIV11,
    /// 4 MHz
    DIV12,
    /// 3.69 MHz
    DIV13,
    /// 3.43 MHz
    DIV14,
    /// 3.2 MHz
    DIV15,
    /// 3 MHz
    DIV16,
}

impl OSCCTRL_OSC48MDIV__DIV {
    /// Encoding of the selection in its register field.
    pub open spec fn encoded(self) -> u32 {
        match self {
            OSCCTRL_OSC48MDIV__DIV::DIV1 => 0,
            OSCCTRL_OSC48MDIV__DIV::DIV2 => 1,
            OSCCTRL_OSC48MDIV__DIV::DIV3 => 2,
            OSCCTRL_OSC48MDIV__DIV::DIV4 => 3,
            OSCCTRL_OSC48MDIV__DIV::DIV5 => 4,
            OSCCTRL_OSC48MDIV__DIV::DIV6 => 5,
            OSCCTRL_OSC48MDIV__DIV::DIV7 => 6,
            OSCCTRL_OSC48MDIV__DIV::DIV8 => 7,
            OSCCTRL_OSC48MDIV__DIV::DIV9 => 8,
            OSCCTRL_OSC48MDIV__DIV::DIV10 => 9,
            OSCCTRL_OSC48MDIV__DIV::DIV11 => 0xa,
            OSCCTRL_OSC48MDIV__DIV::DIV12 => 0xb,
            OSCCTRL_OSC48MDIV__DIV::DIV13 => 0xc,
            OSCCTRL_OSC48MDIV__DIV::DIV14 => 0xd,
            OSCCTRL_OSC48MDIV__DIV::DIV15 => 0xe,
            OSCCTRL_OSC48MDIV__DIV::DIV16 => 0xf,
        }
    }

    /// Encoding of the selection in its register field.
    pub fn encode(self) -> (r: u32)
        ensures
            r == self.encoded(),
    {
        match self {
            OSCCTRL_OSC48MDIV__DIV::DIV1 => 0,
            OSCCTRL_OSC48MDIV__DIV::DIV2 => 1,
            OSCCTRL_OSC48MDIV__DIV::DIV3 => 2,
            OSCCTRL_OSC48MDIV__DIV::DIV4 => 3,
            OSCCTRL_OSC48MDIV__DIV::DIV5 => 4,
            OSCCTRL_OSC48MDIV__DIV::DIV6 => 5,
            OSCCTRL_OSC48MDIV__DIV::DIV7 => 6,
            OSCCTRL_OSC48MDIV__DIV::DIV8 => 7,
            OSCCTRL_OSC48MDIV__DIV::DIV9 => 8,
            OSCCTRL_OSC48MDIV__DIV::DIV10 => 9,
            OSCCTRL_OSC48MDIV__DIV::DIV11 => 0xa,
            OSCCTRL_OSC48MDIV__DIV::DIV12 => 0xb,
            OSCCTRL_OSC48MDIV__DIV::DIV13 => 0xc,
            OSCCTRL_OSC48MDIV__DIV::DIV14 => 0xd,
            OSCCTRL_OSC48MDIV__DIV::DIV15 => 0xe,
            OSCCTRL_OSC48MDIV__DIV::DIV16 => 0xf,
        }
    }

    /// The field value of each selection: `DIV1` as 0, `DIV2` as 1, `DIV3` as 2, `DIV4` as 3,
    /// `DIV5` as 4, `DIV6` as 5, `DIV7` as 6, `DIV8` as 7, `DIV9` as 8, `DIV10` as 9, `DIV11` as
    /// 0xa, `DIV12` as 0xb, `DIV13` as 0xc, `DIV14` as 0xd, `DIV15` as 0xe, `DIV16` as 0xf.
    /// Distinct selections are written as distinct values.
    pub proof fn lemma_field_values()
        ensures
            OSCCTRL_OSC48MDIV__DIV::DIV1.encoded() == 0,
            OSCCTRL_OSC48MDIV__DIV::DIV2.encoded() == 1,
            OSCCTRL_OSC48MDIV__DIV::DIV3.encoded() == 2,
            OSCCTRL_OSC48MDIV__DIV::DIV4.encoded() == 3,
            OSCCTRL_OSC48MDIV__DIV::DIV5.encoded() == 4,
            OSCCTRL_OSC48MDIV__DIV::DIV6.encoded() == 5,
            OSCCTRL_OSC48MDIV__DIV::DIV7.encoded() == 6,
            OSCCTRL_OSC48MDIV__DIV::DIV8.encoded() == 7,
            OSCCTRL_OSC48MDIV__DIV::DIV9.encoded() == 8,
            OSCCTRL_OSC48MDIV__DIV::DIV10.encoded() == 9,
            OSCCTRL_OSC48MDIV__DIV::DIV11.encoded() == 0xa,
            OSCCTRL_OSC48MDIV__DIV::DIV12.encoded() == 0xb,
            OSCCTRL_OSC48MDIV__DIV::DIV13.encoded() == 0xc,
            OSCCTRL_OSC48MDIV__DIV::DIV14.encoded() == 0xd,
            OSCCTRL_OSC48MDIV__DIV::DIV15.encoded() == 0xe,
            OSCCTRL_OSC48MDIV__DIV::DIV16.encoded() == 0xf,
            forall|a: OSCCTRL_OSC48MDIV__DIV, b: OSCCTRL_OSC48MDIV__DIV| #![trigger a.encoded(), b.encoded()] a.encoded() == b.encoded() ==> a == b,
    {
    }
}

#[derive(Copy, Clone, Debug, PartialEq, Eq, Structural)]
pub enum OSCCTRL_OSC48MSTUP__STARTUP {
    /// 166 ns
    CYCLE8,
    /// 333 ns
    CYCLE16,
    /// 667 ns
    CYCLE32,
    /// 1.333 us
    CYCLE64,
    /// 2.667 us
    CYCLE128,
    /// 5.333 us
    CYCLE256,
    /// 10.667 us
    CYCLE512,
    /// 21.333 us
    CYCLE1024,
}

impl OSCCTRL_OSC48MSTUP__STARTUP {
    /// Encoding of the selection in its register field.
    pub open spec fn encoded(self) -> u32 {
        match self {
            OSCCTRL_OSC48MSTUP__STARTUP::CYCLE8 => 0,
            OSCCTRL_OSC48MSTUP__STARTUP::CYCLE16 => 1,
            OSCCTRL_OSC48MSTUP__STARTUP::CYCLE32 => 2,
            OSCCTRL_OSC48MSTUP__STARTUP::CYCLE64 => 3,
            OSCCTRL_OSC48MSTUP__STARTUP::CYCLE128 => 4,
            OSCCTRL_OSC48MSTUP__STARTUP::CYCLE256 => 5,
            OSCCTRL_OSC48MSTUP__STARTUP::CYCLE512 => 6,
            OSCCTRL_OSC48MSTUP__STARTUP::CYCLE1024 => 7,
        }
    }

    /// Encoding of the selection in its register field.
    pub fn encode(self) -> (r: u32)
        ensures
            r == self.encoded(),
    {
        match self {
            OSCCTRL_OSC48MSTUP__STARTUP::CYCLE8 => 0,
            OSCCTRL_OSC48MSTUP__STARTUP::CYCLE16 => 1,
            OSCCTRL_OSC48MSTUP__STARTUP::CYCLE32 => 2,
            OSCCTRL_OSC48MSTUP__STARTUP::CYCLE64 => 3,
            OSCCTRL_OSC48MSTUP__STARTUP::CYCLE128 => 4,
            OSCCTRL_OSC48MSTUP__STARTUP::CYCLE256 => 5,
            OSCCTRL_OSC48MSTUP__STARTUP::CYCLE512 => 6,
            OSCCTRL_OSC48MSTUP__STARTUP::CYCLE1024 => 7,
        }
    }

    /// The field value of each selection: `CYCLE8` as 0, `CYCLE16` as 1, `CYCLE32` as 2, `CYCLE64`
    /// as 3, `CYCLE128` as 4, `CYCLE256` as 5, `CYCLE512` as 6, `CYCLE1024` as 7.
    /// Distinct selections are written as distinct values.
    pub proof fn lemma_field_values()
        ensures
            OSCCTRL_OSC48MSTUP__STARTUP::CYCLE8.encoded() == 0,
            OSCCTRL_OSC48MSTUP__STARTUP::CYCLE16.encoded() == 1,
            OSCCTRL_OSC48MSTUP__STARTUP::CYCLE32.encoded() == 2,
            OSCCTRL_OSC48MSTUP__STARTUP::CYCLE64.encoded() == 3,
            OSCCTRL_OSC48MSTUP__STARTUP::CYCLE128.encoded() == 4,
            OSCCTRL_OSC48MSTUP__STARTUP::CYCLE256.encoded() == 5,
            OSCCTRL_OSC48MSTUP__STARTUP::CYCLE512.encoded() == 6,
            OSCCTRL_OSC48MSTUP__STARTUP::CYCLE1024.encoded() == 7,
            forall|a: OSCCTRL_OSC48MSTUP__STARTUP, b: OSCCTRL_OSC48MSTUP__STARTUP| #![trigger a.encoded(), b.encoded()] a.encoded() == b.encoded() ==> a == b,
    {
    }
}

#[derive(Copy, Clone, Debug, PartialEq, Eq, Structural)]
pub enum OSCCTRL_DPLLCTRLB__LTIME {
    /// No time-out. Automatic lock.
    DEFAULT,
    /// Time-out if no lock within 8ms
    _8MS,
    /// Time-out if no lock within 9ms
    _9MS,
    /// Time-out if no lock within 10ms
    _10MS,
    /// Time-out if no lock within 11ms
    _11MS,
}

impl OSCCTRL_DPLLCTRLB__LTIME {
    /// Encoding of the selection in its register field.
    pub open spec fn encoded(self) -> u32 {
        match self {
            OSCCTRL_DPLLCTRLB__LTIME::DEFAULT => 0,
            OSCCTRL_DPLLCTRLB__LTIME::_8MS => 4,
            OSCCTRL_DPLLCTRLB__LTIME::_9MS => 5,
            OSCCTRL_DPLLCTRLB__LTIME::_10MS => 6,
            OSCCTRL_DPLLCTRLB__LTIME::_11MS => 7,
        }
    }

    /// Encoding of the selection in its register field.
    pub fn encode(self) -> (r: u32)
        ensures
            r == self.encoded(),
    {
        match self {
            OSCCTRL_DPLLCTRLB__LTIME::DEFAULT => 0,
            OSCCTRL_DPLLCTRLB__LTIME::_8MS => 4,
            OSCCTRL_DPLLCTRLB__LTIME::_9MS => 5,
            OSCCTRL_DPLLCTRLB__LTIME::_10MS => 6,
            OSCCTRL_DPLLCTRLB__LTIME::_11MS => 7,
        }
    }

    /// The field value of each selection: `DEFAULT` as 0, `_8MS` as 4, `_9MS` as 5, `_10MS` as 6,
    /// `_11MS` as 7.
    /// Distinct selections are written as distinct values.
    pub proof fn lemma_field_values()
        ensures
            OSCCTRL_DPLLCTRLB__LTIME::DEFAULT.encoded() == 0,
            OSCCTRL_DPLLCTRLB__LTIME::_8MS.encoded() == 4,
            OSCCTRL_DPLLCTRLB__LTIME::_9MS.encoded() == 5,
            OSCCTRL_DPLLCTRLB__LTIME::_10MS.encoded() == 6,
            OSCCTRL_DPLLCTRLB__LTIME::_11MS.encoded() == 7,
            forall|a: OSCCTRL_DPLLCTRLB__LTIME, b: OSCCTRL_DPLLCTRLB__LTIME| #![trigger a.encoded(), b.encoded()] a.encoded() == b.encoded() ==> a == b,
    {
    }
}

#[derive(Copy, Clone, Debug, PartialEq, Eq, Structural)]
pub enum OSCCTRL_DPLLCTRLB__FILTER {
    /// Default filter mode
    DEFAULT,
    /// Low bandwidth filter
    LBFILT,
    /// High bandwidth filter
    HBFILT,
    /// High damping filter
    HDFILT,
}

impl OSCCTRL_DPLLCTRLB__FILTER {
    /// Encoding of the selection in its register field.
    pub open spec fn encoded(self) -> u32 {
        match self {
            OSCCTRL_DPLLCTRLB__FILTER::DEFAULT => 0,
            OSCCTRL_DPLLCTRLB__FILTER::LBFILT => 1,
            OSCCTRL_DPLLCTRLB__FILTER::HBFILT => 2,
            OSCCTRL_DPLLCTRLB__FILTER::HDFILT => 3,
        }
    }

    /// Encoding of the selection in its register field.
    pub fn encode(self) -> (r: u32)
        ensures
            r == self.encoded(),
    {
        match self {
            OSCCTRL_DPLLCTRLB__FILTER::DEFAULT => 0,
            OSCCTRL_DPLLCTRLB__FILTER::LBFILT => 1,
            OSCCTRL_DPLLCTRLB__FILTER::HBFILT => 2,
            OSCCTRL_DPLLCTRLB__FILTER::HDFILT => 3,
        }
    }

    /// The field value of each selection: `DEFAULT` as 0, `LBFILT` as 1, `HBFILT` as 2, `HDFILT` as
    /// 3.
    /// Distinct selections are written as distinct values.
    pub proof fn lemma_field_values()
        ensures
            OSCCTRL_DPLLCTRLB__FILTER::DEFAULT.encoded() == 0,
            OSCCTRL_DPLLCTRLB__FILTER::LBFILT.encoded() == 1,
            OSCCTRL_DPLLCTRLB__FILTER::HBFILT.encoded() == 2,
            OSCCTRL_DPLLCTRLB__FILTER::HDFILT.encoded() == 3,
            forall|a: OSCCTRL_DPLLCTRLB__FILTER, b: OSCCTRL_DPLLCTRLB__FILTER| #![trigger a.encoded(), b.encoded()] a.encoded() == b.encoded() ==> a == b,
    {
    }
}

#[derive(Copy, Clone, Debug, PartialEq, Eq, Structural)]
pub enum OSCCTRL_DPLLCTRLB__REFCLK {
    /// XOSC32K clock reference
    XOSC32K,
    /// XOSC clock reference
    XOSC,
    /// GCLK clock reference
    GCLK,
}

impl OSCCTRL_DPLLCTRLB__REFCLK {
    /// Encoding of the selection in its register field.
    pub open spec fn encoded(self) -> u32 {
        match self {
            OSCCTRL_DPLLCTRLB__REFCLK::XOSC32K => 0,
            OSCCTRL_DPLLCTRLB__REFCLK::XOSC => 1,
            OSCCTRL_DPLLCTRLB__REFCLK::GCLK => 2,
        }
    }

    /// Encoding of the selection in its register field.
    pub fn encode(self) -> (r: u32)
        ensures
            r == self.encoded(),
    {
        match self {
            OSCCTRL_DPLLCTRLB__REFCLK::XOSC32K => 0,
            OSCCTRL_DPLLCTRLB__REFCLK::XOSC => 1,
            OSCCTRL_DPLLCTRLB__REFCLK::GCLK => 2,
        }
    }

    /// The field value of each selection: `XOSC32K` as 0, `XOSC` as 1, `GCLK` as 2.
    /// Distinct selections are written as distinct values.
    pub proof fn lemma_field_values()
        ensures
            OSCCTRL_DPLLCTRLB__REFCLK::XOSC32K.encoded() == 0,
            OSCCTRL_DPLLCTRLB__REFCLK::XOSC.encoded() == 1,
            OSCCTRL_DPLLCTRLB__REFCLK::GCLK.encoded() == 2,
            forall|a: OSCCTRL_DPLLCTRLB__REFCLK, b: OSCCTRL_DPLLCTRLB__REFCLK| #![trigger a.encoded(), b.encoded()] a.encoded() == b.encoded() ==> a == b,
    {
    }
}

#[derive(Copy, Clone, Debug, PartialEq, Eq, Structural)]
pub enum OSCCTRL_DPLLPRESC__PRESC {
    /// DPLL output is divided by 1
    DIV1,
    /// DPLL output is divided by 2
    DIV2,
    /// DPLL output is divided by 4
    DIV4,
}

impl OSCCTRL_DPLLPRESC__PRESC {
    /// Encoding of the selection in its register field.
    pub open spec fn encoded(self) -> u32 {
        match self {
            OSCCTRL_DPLLPRESC__PRESC::DIV1 => 0,
            OSCCTRL_DPLLPRESC__PRESC::DIV2 => 1,
            OSCCTRL_DPLLPRESC__PRESC::DIV4 => 2,
        }
    }

    /// Encoding of the selection in its register field.
    pub fn encode(self) -> (r: u32)
        ensures
            r == self.encoded(),
    {
        match self {
            OSCCTRL_DPLLPRESC__PRESC::DIV1 => 0,
            OSCCTRL_DPLLPRESC__PRESC::DIV2 => 1,
            OSCCTRL_DPLLPRESC__PRESC::DIV4 => 2,
        }
    }

    /// The field value of each selection: `DIV1` as 0, `DIV2` as 1, `DIV4` as 2.
    /// Distinct selections are written as distinct values.
    pub proof fn lemma_field_values()
        ensures
            OSCCTRL_DPLLPRESC__PRESC::DIV1.encoded() == 0,
            OSCCTRL_DPLLPRESC__PRESC::DIV2.encoded() == 1,
            OSCCTRL_DPLLPRESC__PRESC::DIV4.encoded() == 2,
            forall|a: OSCCTRL_DPLLPRESC__PRESC, b: OSCCTRL_DPLLPRESC__PRESC| #![trigger a.encoded(), b.encoded()] a.encoded() == b.encoded() ==> a == b,
    {
    }
}

/// The `DPLLCTRLB` word built from the fields `f`, `lpen`, `wuf`, `rc`, `lt`,
/// `lb` and `div`, each shifted to its place and masked to its width.
pub open spec fn dpllctrlb_word(f: u32, lpen: u32, wuf: u32, rc: u32, lt: u32, lb: u32, div: u32) -> u32 {
    0u32
        | (((f << 0) & 0x3) as u32)
        | (((lpen << 2) & 0x4) as u32)
        | (((wuf << 3) & 0x8) as u32)
        | (((rc << 4) & 0x30) as u32)
        | (((lt << 8) & 0x700) as u32)
        | (((lb << 12) & 0x1000) as u32)
        | (((div << 16) & 0x7FF0000) as u32)
}

proof fn lemma_dpllctrlb_word_fields(f: u32, lpen: u32, wuf: u32, rc: u32, lt: u32, lb: u32, div: u32)
    by (bit_vector)
    requires
        f < 4,
        rc < 4,
        lt < 8,
    ensures
        dpllctrlb_word(f, lpen, wuf, rc, lt, lb, div) & 0x3 == f,
        (dpllctrlb_word(f, lpen, wuf, rc, lt, lb, div) & 0x4) >> 2 == lpen & 1,
        (dpllctrlb_word(f, lpen, wuf, rc, lt, lb, div) & 0x8) >> 3 == wuf & 1,
        (dpllctrlb_word(f, lpen, wuf, rc, lt, lb, div) & 0x30) >> 4 == rc,
        (dpllctrlb_word(f, lpen, wuf, rc, lt, lb, div) & 0x700) >> 8 == lt,
        (dpllctrlb_word(f, lpen, wuf, rc, lt, lb, div) & 0x1000) >> 12 == lb & 1,
        (dpllctrlb_word(f, lpen, wuf, rc, lt, lb, div) & 0x7FF0000) >> 16 == div & 0x7FF,
        dpllctrlb_word(f, lpen, wuf, rc, lt, lb, div) & 0xF800_E0C0 == 0,
{
}

/// Every field of a `DPLLCTRLB` value reads back from the register word it
/// encodes to: the filter in bits 0..2, the reference clock in bits 4..6 as
/// its hardware number (XOSC32K 0, XOSC 1, GCLK 2), the lock time in bits
/// 8..11, the divider in bits 16..27, and the low bit of each one-bit field
/// in its place; the reserved bits stay clear.
pub proof fn lemma_dpllctrlb_fields(r: DPLLCTRLB)
    ensures
        r.encoded() & 0x3 == r.FILTER.encoded(),
        (r.encoded() & 0x4) >> 2 == (r.LPEN as u32) & 1,
        (r.encoded() & 0x8) >> 3 == (r.WUF as u32) & 1,
        (r.encoded() & 0x30) >> 4 == r.REFCLK.encoded(),
        (r.encoded() & 0x30) >> 4 == 0 <==> r.REFCLK == OSCCTRL_DPLLCTRLB__REFCLK::XOSC32K,
        (r.encoded() & 0x30) >> 4 == 1 <==> r.REFCLK == OSCCTRL_DPLLCTRLB__REFCLK::XOSC,
        (r.encoded() & 0x30) >> 4 == 2 <==> r.REFCLK == OSCCTRL_DPLLCTRLB__REFCLK::GCLK,
        (r.encoded() & 0x700) >> 8 == r.LTIME.encoded(),
        (r.encoded() & 0x1000) >> 12 == (r.LBYPASS as u32) & 1,
        (r.encoded() & 0x7FF0000) >> 16 == (r.DIV as u32) & 0x7FF,
        r.encoded() & 0xF800_E0C0 == 0,
{
    OSCCTRL_DPLLCTRLB__FILTER::lemma_field_values();
    OSCCTRL_DPLLCTRLB__REFCLK::lemma_field_values();
    OSCCTRL_DPLLCTRLB__LTIME::lemma_field_values();
    let f = r.FILTER.encoded();
    let rc = r.REFCLK.encoded();
    let lt = r.LTIME.encoded();
    assert(f < 4 && rc < 4 && lt < 8);
    assert(r.encoded() == dpllctrlb_word(f, r.LPEN as u32, r.WUF as u32, rc, lt, r.LBYPASS as u32, r.DIV as u32));
    lemma_dpllctrlb_word_fields(f, r.LPEN as u32, r.WUF as u32, rc, lt, r.LBYPASS as u32, r.DIV as u32);
}

/// The loop divider ratio reads back from the `DPLLRATIO` word it encodes
/// to: the integer part in bits 0..12 (its low twelve bits), the fraction in
/// bits 16..20 (its low four bits), and nothing else is set.
pub proof fn lemma_dpllratio_fields(r: DPLLRATIO)
    ensures
        r.encoded() & 0xFFF == (r.LDR as u32) & 0xFFF,
        (r.encoded() & 0xF0000) >> 16 == (r.LDRFRAC as u32) & 0xF,
        r.encoded() & 0xFFF0_F000 == 0,
{
    let ldr = r.LDR as u32;
    let frac = r.LDRFRAC as u32;
    assert(r.encoded() == 0u32 | (((ldr << 0) & 0xFFF) as u32) | (((frac << 16) & 0xF0000) as u32));
    assert({
        let e = 0u32 | (((ldr << 0) & 0xFFF) as u32) | (((frac << 16) & 0xF0000) as u32);
        &&& e & 0xFFF == ldr & 0xFFF
        &&& (e & 0xF0000) >> 16 == frac & 0xF
        &&& e & 0xFFF0_F000 == 0
    }) by (bit_vector);
}

/// The `DPLLCTRLA` word holds the low bit of `ENABLE` in bit 1, of
/// `RUNSTDBY` in bit 6 and of `ONDEMAND` in bit 7, and nothing else.
pub proof fn lemma_dpllctrla_fields(r: DPLLCTRLA)
    ensures
        (r.encoded() & 0x2) >> 1 == r.ENABLE & 1,
        (r.encoded() & 0x40) >> 6 == r.RUNSTDBY & 1,
        (r.encoded() & 0x80) >> 7 == r.ONDEMAND & 1,
        r.encoded() & 0x3D == 0,
{
    let a = r.ENABLE;
    let b = r.RUNSTDBY;
    let c = r.ONDEMAND;
    assert(r.encoded() == 0u8 | (((((a as u32) << 1) & 0x2) as u8)) | (((((b as u32) << 6) & 0x40) as u8))
        | (((((c as u32) << 7) & 0x80) as u8)));
    assert({
        let e = 0u8 | (((((a as u32) << 1) & 0x2) as u8)) | (((((b as u32) << 6) & 0x40) as u8)) | (((((c
            as u32) << 7) & 0x80) as u8));
        &&& (e & 0x2) >> 1 == a & 1
        &&& (e & 0x40) >> 6 == b & 1
        &&& (e & 0x80) >> 7 == c & 1
        &&& e & 0x3D == 0
    }) by (bit_vector);
}

} // verus!
