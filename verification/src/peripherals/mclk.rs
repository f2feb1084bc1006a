use vstd::prelude::*;

use super::field::{field_u8, field_u32, set_field_u8, set_field_u32};

verus! {

/// Registers of the main clock controller.
#[derive(Clone, Debug)]
pub struct RegisterGroup {
    /// Interrupt Enable Clear
    pub INTENCLR: u8,
    /// Interrupt Enable Set
    pub INTENSET: u8,
    /// Interrupt Flag Status and Clear
    pub INTFLAG: u8,
    /// CPU Clock Division
    pub CPUDIV: u8,
    /// AHB Mask
    pub AHBMASK: u32,
    /// APBA Mask
    pub APBAMASK: u32,
    /// APBB Mask
    pub APBBMASK: u32,
    /// APBC Mask
    pub APBCMASK: u32,
}

/// Main clock controller (CPU clock divider and bus clock masks).
///
/// The registers are held as values; each operation computes the new
/// register contents that the device is to receive.
pub struct MainClock {
    pub reg: RegisterGroup,
}

impl MainClock {
    /// The controller over the registers `reg`, or `None` when a controller
    /// for this device exists already (`slot_free` is false).
    pub fn new(slot_free: bool, reg: RegisterGroup) -> (c: Option<Self>)
        ensures
            c is Some <==> slot_free,
            c matches Some(c) ==> c.reg == reg,
    {
        if slot_free {
            Some(MainClock { reg })
        } else {
            None
        }
    }

    /// Writes the whole `AHBMASK` register from its fields.
    pub fn Write_AhbMask(&mut self, regVal: AHBMASK)
        ensures
            final(self).reg == (RegisterGroup { AHBMASK: regVal.encoded(), ..old(self).reg }),
    {
        self.reg.AHBMASK = regVal.encode();
    }

    /// Writes the whole `APBAMASK` register from its fields.
    pub fn Write_ApbaMask(&mut self, regVal: APBAMASK)
        ensures
            final(self).reg == (RegisterGroup { APBAMASK: regVal.encoded(), ..old(self).reg }),
    {
        self.reg.APBAMASK = regVal.encode();
    }

    /// Writes the whole `APBBMASK` register from its fields.
    pub fn Write_ApbbMask(&mut self, regVal: APBBMASK)
        ensures
            final(self).reg == (RegisterGroup { APBBMASK: regVal.encoded(), ..old(self).reg }),
    {
        self.reg.APBBMASK = regVal.encode();
    }

    /// Writes the whole `APBCMASK` register from its fields.
    pub fn Write_ApbcMask(&mut self, regVal: APBCMASK)
        ensures
            final(self).reg == (RegisterGroup { APBCMASK: regVal.encoded(), ..old(self).reg }),
    {
        self.reg.APBCMASK = regVal.encode();
    }

    /// Writes `val` into the bits `0x1` of `INTENCLR`, keeping the other bits.
    pub fn Set_INTENCLR_CKRDY(&mut self, val: u8)
        ensures
            final(self).reg == (RegisterGroup {
                INTENCLR: field_u8(old(self).reg.INTENCLR, 0x1, 0, val),
                ..old(self).reg
            }),
    {
        self.reg.INTENCLR = set_field_u8(self.reg.INTENCLR, 0x1, 0, val);
    }

    /// Writes `val` into the bits `0x1` of `INTENSET`, keeping the other bits.
    pub fn Set_INTENSET_CKRDY(&mut self, val: u8)
        ensures
            final(self).reg == (RegisterGroup {
                INTENSET: field_u8(old(self).reg.INTENSET, 0x1, 0, val),
                ..old(self).reg
            }),
    {
        self.reg.INTENSET = set_field_u8(self.reg.INTENSET, 0x1, 0, val);
    }

    /// Writes `val` into the bits `0x1` of `INTFLAG`, keeping the other bits.
    pub fn Set_INTFLAG_CKRDY(&mut self, val: u8)
        ensures
            final(self).reg == (RegisterGroup {
                INTFLAG: field_u8(old(self).reg.INTFLAG, 0x1, 0, val),
                ..old(self).reg
            }),
    {
        self.reg.INTFLAG = set_field_u8(self.reg.INTFLAG, 0x1, 0, val);
    }

    /// Writes `val` into the bits `0xFF` of `CPUDIV`, keeping the other bits.
    pub fn Set_CPUDIV_CPUDIV(&mut self, val: MCLK_CPUDIV__CPUDIV)
        ensures
            final(self).reg == (RegisterGroup {
                CPUDIV: field_u8(old(self).reg.CPUDIV, 0xFF, 0, (val.encoded() as u8)),
                ..old(self).reg
            }),
    {
        self.reg.CPUDIV = set_field_u8(self.reg.CPUDIV, 0xFF, 0, (val.encode() as u8));
    }

    /// Writes `val` into the bits `0x1` of `AHBMASK`, keeping the other bits.
    pub fn Set_AHBMASK_HPB0_(&mut self, val: u32)
        ensures
            final(self).reg == (RegisterGroup {
                AHBMASK: field_u32(old(self).reg.AHBMASK, 0x1, 0, val),
                ..old(self).reg
            }),
    {
        self.reg.AHBMASK = set_field_u32(self.reg.AHBMASK, 0x1, 0, val);
    }

    /// Writes `val` into the bits `0x2` of `AHBMASK`, keeping the other bits.
    pub fn Set_AHBMASK_HPB1_(&mut self, val: u32)
        ensures
            final(self).reg == (RegisterGroup {
                AHBMASK: field_u32(old(self).reg.AHBMASK, 0x2, 1, val),
                ..old(self).reg
            }),
    {
        self.reg.AHBMASK = set_field_u32(self.reg.AHBMASK, 0x2, 1, val);
    }

    /// Writes `val` into the bits `0x4` of `AHBMASK`, keeping the other bits.
    pub fn Set_AHBMASK_HPB2_(&mut self, val: u32)
        ensures
            final(self).reg == (RegisterGroup {
                AHBMASK: field_u32(old(self).reg.AHBMASK, 0x4, 2, val),
                ..old(self).reg
            }),
    {
        self.reg.AHBMASK = set_field_u32(self.reg.AHBMASK, 0x4, 2, val);
    }

    /// Writes `val` into the bits `0x8` of `AHBMASK`, keeping the other bits.
    pub fn Set_AHBMASK_DSU_(&mut self, val: u32)
        ensures
            final(self).reg == (RegisterGroup {
                AHBMASK: field_u32(old(self).reg.AHBMASK, 0x8, 3, val),
                ..old(self).reg
            }),
    {
        self.reg.AHBMASK = set_field_u32(self.reg.AHBMASK, 0x8, 3, val);
    }

    /// Writes `val` into the bits `0x10` of `AHBMASK`, keeping the other bits.
    pub fn Set_AHBMASK_HMATRIXHS_(&mut self, val: u32)
        ensures
            final(self).reg == (RegisterGroup {
                AHBMASK: field_u32(old(self).reg.AHBMASK, 0x10, 4, val),
                ..old(self).reg
            }),
    {
        self.reg.AHBMASK = set_field_u32(self.reg.AHBMASK, 0x10, 4, val);
    }

    /// Writes `val` into the bits `0x20` of `AHBMASK`, keeping the other bits.
    pub fn Set_AHBMASK_NVMCTRL_(&mut self, val: u32)
        ensures
            final(self).reg == (RegisterGroup {
                AHBMASK: field_u32(old(self).reg.AHBMASK, 0x20, 5, val),
                ..old(self).reg
            }),
    {
        self.reg.AHBMASK = set_field_u32(self.reg.AHBMASK, 0x20, 5, val);
    }

    /// Writes `val` into the bits `0x40` of `AHBMASK`, keeping the other bits.
    pub fn Set_AHBMASK_HSRAM_(&mut self, val: u32)
        ensures
            final(self).reg == (RegisterGroup {
                AHBMASK: field_u32(old(self).reg.AHBMASK, 0x40, 6, val),
                ..old(self).reg
            }),
    {
        self.reg.AHBMASK = set_field_u32(self.reg.AHBMASK, 0x40, 6, val);
    }

    /// Writes `val` into the bits `0x80` of `AHBMASK`, keeping the other bits.
    pub fn Set_AHBMASK_DMAC_(&mut self, val: u32)
        ensures
            final(self).reg == (RegisterGroup {
                AHBMASK: field_u32(old(self).reg.AHBMASK, 0x80, 7, val),
                ..old(self).reg
            }),
    {
        self.reg.AHBMASK = set_field_u32(self.reg.AHBMASK, 0x80, 7, val);
    }

    /// Writes `val` into the bits `0x100` of `AHBMASK`, keeping the other bits.
    pub fn Set_AHBMASK_CAN0_(&mut self, val: u32)
        ensures
            final(self).reg == (RegisterGroup {
                AHBMASK: field_u32(old(self).reg.AHBMASK, 0x100, 8, val),
                ..old(self).reg
            }),
    {
        self.reg.AHBMASK = set_field_u32(self.reg.AHBMASK, 0x100, 8, val);
    }

    /// Writes `val` into the bits `0x200` of `AHBMASK`, keeping the other bits.
    pub fn Set_AHBMASK_CAN1_(&mut self, val: u32)
        ensures
            final(self).reg == (RegisterGroup {
                AHBMASK: field_u32(old(self).reg.AHBMASK, 0x200, 9, val),
                ..old(self).reg
            }),
    {
        self.reg.AHBMASK = set_field_u32(self.reg.AHBMASK, 0x200, 9, val);
    }

    /// Writes `val` into the bits `0x400` of `AHBMASK`, keeping the other bits.
    pub fn Set_AHBMASK_PAC_(&mut self, val: u32)
        ensures
            final(self).reg == (RegisterGroup {
                AHBMASK: field_u32(old(self).reg.AHBMASK, 0x400, 10, val),
                ..old(self).reg
            }),
    {
        self.reg.AHBMASK = set_field_u32(self.reg.AHBMASK, 0x400, 10, val);
    }

    /// Writes `val` into the bits `0x800` of `AHBMASK`, keeping the other bits.
    pub fn Set_AHBMASK_NVMCTRL_PICACHU_(&mut self, val: u32)
        ensures
            final(self).reg == (RegisterGroup {
                AHBMASK: field_u32(old(self).reg.AHBMASK, 0x800, 11, val),
                ..old(self).reg
            }),
    {
        self.reg.AHBMASK = set_field_u32(self.reg.AHBMASK, 0x800, 11, val);
    }

    /// Writes `val` into the bits `0x1000` of `AHBMASK`, keeping the other bits.
    pub fn Set_AHBMASK_DIVAS_(&mut self, val: u32)
        ensures
            final(self).reg == (RegisterGroup {
                AHBMASK: field_u32(old(self).reg.AHBMASK, 0x1000, 12, val),
                ..old(self).reg
            }),
    {
        self.reg.AHBMASK = set_field_u32(self.reg.AHBMASK, 0x1000, 12, val);
    }

    /// Writes `val` into the bits `0x1` of `APBAMASK`, keeping the other bits.
    pub fn Set_APBAMASK_PAC_(&mut self, val: u32)
        ensures
            final(self).reg == (RegisterGroup {
                APBAMASK: field_u32(old(self).reg.APBAMASK, 0x1, 0, val),
                ..old(self).reg
            }),
    {
        self.reg.APBAMASK = set_field_u32(self.reg.APBAMASK, 0x1, 0, val);
    }

    /// Writes `val` into the bits `0x2` of `APBAMASK`, keeping the other bits.
    pub fn Set_APBAMASK_PM_(&mut self, val: u32)
        ensures
            final(self).reg == (RegisterGroup {
                APBAMASK: field_u32(old(self).reg.APBAMASK, 0x2, 1, val),
                ..old(self).reg
            }),
    {
        self.reg.APBAMASK = set_field_u32(self.reg.APBAMASK, 0x2, 1, val);
    }

    /// Writes `val` into the bits `0x4` of `APBAMASK`, keeping the other bits.
    pub fn Set_APBAMASK_MCLK_(&mut self, val: u32)
        ensures
            final(self).reg == (RegisterGroup {
                APBAMASK: field_u32(old(self).reg.APBAMASK, 0x4, 2, val),
                ..old(self).reg
            }),
    {
        self.reg.APBAMASK = set_field_u32(self.reg.APBAMASK, 0x4, 2, val);
    }

    /// Writes `val` into the bits `0x8` of `APBAMASK`, keeping the other bits.
    pub fn Set_APBAMASK_RSTC_(&mut self, val: u32)
        ensures
            final(self).reg == (RegisterGroup {
                APBAMASK: field_u32(old(self).reg.APBAMASK, 0x8, 3, val),
                ..old(self).reg
            }),
    {
        self.reg.APBAMASK = set_field_u32(self.reg.APBAMASK, 0x8, 3, val);
    }

    /// Writes `val` into the bits `0x10` of `APBAMASK`, keeping the other bits.
    pub fn Set_APBAMASK_OSCCTRL_(&mut self, val: u32)
        ensures
            final(self).reg == (RegisterGroup {
                APBAMASK: field_u32(old(self).reg.APBAMASK, 0x10, 4, val),
                ..old(self).reg
            }),
    {
        self.reg.APBAMASK = set_field_u32(self.reg.APBAMASK, 0x10, 4, val);
    }

    /// Writes `val` into the bits `0x20` of `APBAMASK`, keeping the other bits.
    pub fn Set_APBAMASK_OSC32KCTRL_(&mut self, val: u32)
        ensures
            final(self).reg == (RegisterGroup {
                APBAMASK: field_u32(old(self).reg.APBAMASK, 0x20, 5, val),
                ..old(self).reg
            }),
    {
        self.reg.APBAMASK = set_field_u32(self.reg.APBAMASK, 0x20, 5, val);
    }

    /// Writes `val` into the bits `0x40` of `APBAMASK`, keeping the other bits.
    pub fn Set_APBAMASK_SUPC_(&mut self, val: u32)
        ensures
            final(self).reg == (RegisterGroup {
                APBAMASK: field_u32(old(self).reg.APBAMASK, 0x40, 6, val),
                ..old(self).reg
            }),
    {
        self.reg.APBAMASK = set_field_u32(self.reg.APBAMASK, 0x40, 6, val);
    }

    /// Writes `val` into the bits `0x80` of `APBAMASK`, keeping the other bits.
    pub fn Set_APBAMASK_GCLK_(&mut self, val: u32)
        ensures
            final(self).reg == (RegisterGroup {
                APBAMASK: field_u32(old(self).reg.APBAMASK, 0x80, 7, val),
                ..old(self).reg
            }),
    {
        self.reg.APBAMASK = set_field_u32(self.reg.APBAMASK, 0x80, 7, val);
    }

    /// Writes `val` into the bits `0x100` of `APBAMASK`, keeping the other bits.
    pub fn Set_APBAMASK_WDT_(&mut self, val: u32)
        ensures
            final(self).reg == (RegisterGroup {
                APBAMASK: field_u32(old(self).reg.APBAMASK, 0x100, 8, val),
                ..old(self).reg
            }),
    {
        self.reg.APBAMASK = set_field_u32(self.reg.APBAMASK, 0x100, 8, val);
    }

    /// Writes `val` into the bits `0x200` of `APBAMASK`, keeping the other bits.
    pub fn Set_APBAMASK_RTC_(&mut self, val: u32)
        ensures
            final(self).reg == (RegisterGroup {
                APBAMASK: field_u32(old(self).reg.APBAMASK, 0x200, 9, val),
                ..old(self).reg
            }),
    {
        self.reg.APBAMASK = set_field_u32(self.reg.APBAMASK, 0x200, 9, val);
    }

    /// Writes `val` into the bits `0x400` of `APBAMASK`, keeping the other bits.
    pub fn Set_APBAMASK_EIC_(&mut self, val: u32)
        ensures
            final(self).reg == (RegisterGroup {
                APBAMASK: field_u32(old(self).reg.APBAMASK, 0x400, 10, val),
                ..old(self).reg
            }),
    {
        self.reg.APBAMASK = set_field_u32(self.reg.APBAMASK, 0x400, 10, val);
    }

    /// Writes `val` into the bits `0x800` of `APBAMASK`, keeping the other bits.
    pub fn Set_APBAMASK_FREQM_(&mut self, val: u32)
        ensures
            final(self).reg == (RegisterGroup {
                APBAMASK: field_u32(old(self).reg.APBAMASK, 0x800, 11, val),
                ..old(self).reg
            }),
    {
        self.reg.APBAMASK = set_field_u32(self.reg.APBAMASK, 0x800, 11, val);
    }

    /// Writes `val` into the bits `0x1000` of `APBAMASK`, keeping the other bits.
    pub fn Set_APBAMASK_TSENS_(&mut self, val: u32)
        ensures
            final(self).reg == (RegisterGroup {
                APBAMASK: field_u32(old(self).reg.APBAMASK, 0x1000, 12, val),
                ..old(self).reg
            }),
    {
        self.reg.APBAMASK = set_field_u32(self.reg.APBAMASK, 0x1000, 12, val);
    }

    /// Writes `val` into the bits `0x1` of `APBBMASK`, keeping the other bits.
    pub fn Set_APBBMASK_PORT_(&mut self, val: u32)
        ensures
            final(self).reg == (RegisterGroup {
                APBBMASK: field_u32(old(self).reg.APBBMASK, 0x1, 0, val),
                ..old(self).reg
            }),
    {
        self.reg.APBBMASK = set_field_u32(self.reg.APBBMASK, 0x1, 0, val);
    }

    /// Writes `val` into the bits `0x2` of `APBBMASK`, keeping the other bits.
    pub fn Set_APBBMASK_DSU_(&mut self, val: u32)
        ensures
            final(self).reg == (RegisterGroup {
                APBBMASK: field_u32(old(self).reg.APBBMASK, 0x2, 1, val),
                ..old(self).reg
            }),
    {
        self.reg.APBBMASK = set_field_u32(self.reg.APBBMASK, 0x2, 1, val);
    }

    /// Writes `val` into the bits `0x4` of `APBBMASK`, keeping the other bits.
    pub fn Set_APBBMASK_NVMCTRL_(&mut self, val: u32)
        ensures
            final(self).reg == (RegisterGroup {
                APBBMASK: field_u32(old(self).reg.APBBMASK, 0x4, 2, val),
                ..old(self).reg
            }),
    {
        self.reg.APBBMASK = set_field_u32(self.reg.APBBMASK, 0x4, 2, val);
    }

    /// Writes `val` into the bits `0x20` of `APBBMASK`, keeping the other bits.
    pub fn Set_APBBMASK_HMATRIXHS_(&mut self, val: u32)
        ensures
            final(self).reg == (RegisterGroup {
                APBBMASK: field_u32(old(self).reg.APBBMASK, 0x20, 5, val),
                ..old(self).reg
            }),
    {
        self.reg.APBBMASK = set_field_u32(self.reg.APBBMASK, 0x20, 5, val);
    }

    /// Writes `val` into the bits `0x1` of `APBCMASK`, keeping the other bits.
    pub fn Set_APBCMASK_EVSYS_(&mut self, val: u32)
        ensures
            final(self).reg == (RegisterGroup {
                APBCMASK: field_u32(old(self).reg.APBCMASK, 0x1, 0, val),
                ..old(self).reg
            }),
    {
        self.reg.APBCMASK = set_field_u32(self.reg.APBCMASK, 0x1, 0, val);
    }

    /// Writes `val` into the bits `0x2` of `APBCMASK`, keeping the other bits.
    pub fn Set_APBCMASK_SERCOM0_(&mut self, val: u32)
        ensures
            final(self).reg == (RegisterGroup {
                APBCMASK: field_u32(old(self).reg.APBCMASK, 0x2, 1, val),
                ..old(self).reg
            }),
    {
        self.reg.APBCMASK = set_field_u32(self.reg.APBCMASK, 0x2, 1, val);
    }

    /// Writes `val` into the bits `0x4` of `APBCMASK`, keeping the other bits.
    pub fn Set_APBCMASK_SERCOM1_(&mut self, val: u32)
        ensures
            final(self).reg == (RegisterGroup {
                APBCMASK: field_u32(old(self).reg.APBCMASK, 0x4, 2, val),
                ..old(self).reg
            }),
    {
        self.reg.APBCMASK = set_field_u32(self.reg.APBCMASK, 0x4, 2, val);
    }

    /// Writes `val` into the bits `0x8` of `APBCMASK`, keeping the other bits.
    pub fn Set_APBCMASK_SERCOM2_(&mut self, val: u32)
        ensures
            final(self).reg == (RegisterGroup {
                APBCMASK: field_u32(old(self).reg.APBCMASK, 0x8, 3, val),
                ..old(self).reg
            }),
    {
        self.reg.APBCMASK = set_field_u32(self.reg.APBCMASK, 0x8, 3, val);
    }

    /// Writes `val` into the bits `0x10` of `APBCMASK`, keeping the other bits.
    pub fn Set_APBCMASK_SERCOM3_(&mut self, val: u32)
        ensures
            final(self).reg == (RegisterGroup {
                APBCMASK: field_u32(old(self).reg.APBCMASK, 0x10, 4, val),
                ..old(self).reg
            }),
    {
        self.reg.APBCMASK = set_field_u32(self.reg.APBCMASK, 0x10, 4, val);
    }

    /// Writes `val` into the bits `0x20` of `APBCMASK`, keeping the other bits.
    pub fn Set_APBCMASK_SERCOM4_(&mut self, val: u32)
        ensures
            final(self).reg == (RegisterGroup {
                APBCMASK: field_u32(old(self).reg.APBCMASK, 0x20, 5, val),
                ..old(self).reg
            }),
    {
        self.reg.APBCMASK = set_field_u32(self.reg.APBCMASK, 0x20, 5, val);
    }

    /// Writes `val` into the bits `0x40` of `APBCMASK`, keeping the other bits.
    pub fn Set_APBCMASK_SERCOM5_(&mut self, val: u32)
        ensures
            final(self).reg == (RegisterGroup {
                APBCMASK: field_u32(old(self).reg.APBCMASK, 0x40, 6, val),
                ..old(self).reg
            }),
    {
        self.reg.APBCMASK = set_field_u32(self.reg.APBCMASK, 0x40, 6, val);
    }

    /// Writes `val` into the bits `0x200` of `APBCMASK`, keeping the other bits.
    pub fn Set_APBCMASK_TCC0_(&mut self, val: u32)
        ensures
            final(self).reg == (RegisterGroup {
                APBCMASK: field_u32(old(self).reg.APBCMASK, 0x200, 9, val),
                ..old(self).reg
            }),
    {
        self.reg.APBCMASK = set_field_u32(self.reg.APBCMASK, 0x200, 9, val);
    }

    /// Writes `val` into the bits `0x400` of `APBCMASK`, keeping the other bits.
    pub fn Set_APBCMASK_TCC1_(&mut self, val: u32)
        ensures
            final(self).reg == (RegisterGroup {
                APBCMASK: field_u32(old(self).reg.APBCMASK, 0x400, 10, val),
                ..old(self).reg
            }),
    {
        self.reg.APBCMASK = set_field_u32(self.reg.APBCMASK, 0x400, 10, val);
    }

    /// Writes `val` into the bits `0x800` of `APBCMASK`, keeping the other bits.
    pub fn Set_APBCMASK_TCC2_(&mut self, val: u32)
        ensures
            final(self).reg == (RegisterGroup {
                APBCMASK: field_u32(old(self).reg.APBCMASK, 0x800, 11, val),
                ..old(self).reg
            }),
    {
        self.reg.APBCMASK = set_field_u32(self.reg.APBCMASK, 0x800, 11, val);
    }

    /// Writes `val` into the bits `0x1000` of `APBCMASK`, keeping the other bits.
    pub fn Set_APBCMASK_TC0_(&mut self, val: u32)
        ensures
            final(self).reg == (RegisterGroup {
                APBCMASK: field_u32(old(self).reg.APBCMASK, 0x1000, 12, val),
                ..old(self).reg
            }),
    {
        self.reg.APBCMASK = set_field_u32(self.reg.APBCMASK, 0x1000, 12, val);
    }

    /// Writes `val` into the bits `0x2000` of `APBCMASK`, keeping the other bits.
    pub fn Set_APBCMASK_TC1_(&mut self, val: u32)
        ensures
            final(self).reg == (RegisterGroup {
                APBCMASK: field_u32(old(self).reg.APBCMASK, 0x2000, 13, val),
                ..old(self).reg
            }),
    {
        self.reg.APBCMASK = set_field_u32(self.reg.APBCMASK, 0x2000, 13, val);
    }

    /// Writes `val` into the bits `0x4000` of `APBCMASK`, keeping the other bits.
    pub fn Set_APBCMASK_TC2_(&mut self, val: u32)
        ensures
            final(self).reg == (RegisterGroup {
                APBCMASK: field_u32(old(self).reg.APBCMASK, 0x4000, 14, val),
                ..old(self).reg
            }),
    {
        self.reg.APBCMASK = set_field_u32(self.reg.APBCMASK, 0x4000, 14, val);
    }

    /// Writes `val` into the bits `0x8000` of `APBCMASK`, keeping the other bits.
    pub fn Set_APBCMASK_TC3_(&mut self, val: u32)
        ensures
            final(self).reg == (RegisterGroup {
                APBCMASK: field_u32(old(self).reg.APBCMASK, 0x8000, 15, val),
                ..old(self).reg
            }),
    {
        self.reg.APBCMASK = set_field_u32(self.reg.APBCMASK, 0x8000, 15, val);
    }

    /// Writes `val` into the bits `0x10000` of `APBCMASK`, keeping the other bits.
    pub fn Set_APBCMASK_TC4_(&mut self, val: u32)
        ensures
            final(self).reg == (RegisterGroup {
                APBCMASK: field_u32(old(self).reg.APBCMASK, 0x10000, 16, val),
                ..old(self).reg
            }),
    {
        self.reg.APBCMASK = set_field_u32(self.reg.APBCMASK, 0x10000, 16, val);
    }

    /// Writes `val` into the bits `0x20000` of `APBCMASK`, keeping the other bits.
    pub fn Set_APBCMASK_ADC0_(&mut self, val: u32)
        ensures
            final(self).reg == (RegisterGroup {
                APBCMASK: field_u32(old(self).reg.APBCMASK, 0x20000, 17, val),
                ..old(self).reg
            }),
    {
        self.reg.APBCMASK = set_field_u32(self.reg.APBCMASK, 0x20000, 17, val);
    }

    /// Writes `val` into the bits `0x40000` of `APBCMASK`, keeping the other bits.
    pub fn Set_APBCMASK_ADC1_(&mut self, val: u32)
        ensures
            final(self).reg == (RegisterGroup {
                APBCMASK: field_u32(old(self).reg.APBCMASK, 0x40000, 18, val),
                ..old(self).reg
            }),
    {
        self.reg.APBCMASK = set_field_u32(self.reg.APBCMASK, 0x40000, 18, val);
    }

    /// Writes `val` into the bits `0x80000` of `APBCMASK`, keeping the other bits.
    pub fn Set_APBCMASK_SDADC_(&mut self, val: u32)
        ensures
            final(self).reg == (RegisterGroup {
                APBCMASK: field_u32(old(self).reg.APBCMASK, 0x80000, 19, val),
                ..old(self).reg
            }),
    {
        self.reg.APBCMASK = set_field_u32(self.reg.APBCMASK, 0x80000, 19, val);
    }

    /// Writes `val` into the bits `0x100000` of `APBCMASK`, keeping the other bits.
    pub fn Set_APBCMASK_AC_(&mut self, val: u32)
        ensures
            final(self).reg == (RegisterGroup {
                APBCMASK: field_u32(old(self).reg.APBCMASK, 0x100000, 20, val),
                ..old(self).reg
            }),
    {
        self.reg.APBCMASK = set_field_u32(self.reg.APBCMASK, 0x100000, 20, val);
    }

    /// Writes `val` into the bits `0x200000` of `APBCMASK`, keeping the other bits.
    pub fn Set_APBCMASK_DAC_(&mut self, val: u32)
        ensures
            final(self).reg == (RegisterGroup {
                APBCMASK: field_u32(old(self).reg.APBCMASK, 0x200000, 21, val),
                ..old(self).reg
            }),
    {
        self.reg.APBCMASK = set_field_u32(self.reg.APBCMASK, 0x200000, 21, val);
    }

    /// Writes `val` into the bits `0x400000` of `APBCMASK`, keeping the other bits.
    pub fn Set_APBCMASK_PTC_(&mut self, val: u32)
        ensures
            final(self).reg == (RegisterGroup {
                APBCMASK: field_u32(old(self).reg.APBCMASK, 0x400000, 22, val),
                ..old(self).reg
            }),
    {
        self.reg.APBCMASK = set_field_u32(self.reg.APBCMASK, 0x400000, 22, val);
    }

    /// Writes `val` into the bits `0x800000` of `APBCMASK`, keeping the other bits.
    pub fn Set_APBCMASK_CCL_(&mut self, val: u32)
        ensures
            final(self).reg == (RegisterGroup {
                APBCMASK: field_u32(old(self).reg.APBCMASK, 0x800000, 23, val),
                ..old(self).reg
            }),
    {
        self.reg.APBCMASK = set_field_u32(self.reg.APBCMASK, 0x800000, 23, val);
    }


}

/// Fields of the `AHBMASK` register.
#[derive(Copy, Clone, Debug)]
pub struct AHBMASK {
    pub HPB0_: u8,
    pub HPB1_: u8,
    pub HPB2_: u8,
    pub DSU_: u8,
    pub HMATRIXHS_: u8,
    pub NVMCTRL_: u8,
    pub HSRAM_: u8,
    pub DMAC_: u8,
    pub CAN0_: u8,
    pub CAN1_: u8,
    pub PAC_: u8,
    pub NVMCTRL_PICACHU_: u8,
    pub DIVAS_: u8,
}

impl AHBMASK {
    /// Register value built from these fields: the field for bit `k` is
    /// masked with `1 << k` and then shifted left by `k`. It can only set
    /// bit `2k`, and does so when its own bit `k` is set; a field holding
    /// 1 therefore contributes only for `k == 0`, and no field with `2k`
    /// beyond the register width contributes at all.
    pub open spec fn encoded(&self) -> u32 {
        0u32
            | ((((self.HPB0_ as u32) & 0x1) << 0) as u32)
            | ((((self.HPB1_ as u32) & 0x2) << 1) as u32)
            | ((((self.HPB2_ as u32) & 0x4) << 2) as u32)
            | ((((self.DSU_ as u32) & 0x8) << 3) as u32)
            | ((((self.HMATRIXHS_ as u32) & 0x10) << 4) as u32)
            | ((((self.NVMCTRL_ as u32) & 0x20) << 5) as u32)
            | ((((self.HSRAM_ as u32) & 0x40) << 6) as u32)
            | ((((self.DMAC_ as u32) & 0x80) << 7) as u32)
            | ((((self.CAN0_ as u32) & 0x100) << 8) as u32)
            | ((((self.CAN1_ as u32) & 0x200) << 9) as u32)
            | ((((self.PAC_ as u32) & 0x400) << 10) as u32)
            | ((((self.NVMCTRL_PICACHU_ as u32) & 0x800) << 11) as u32)
            | ((((self.DIVAS_ as u32) & 0x1000) << 12) as u32)
    }

    /// Register value built from these fields: the field for bit `k` is
    /// masked with `1 << k` and then shifted left by `k`. It can only set
    /// bit `2k`, and does so when its own bit `k` is set; a field holding
    /// 1 therefore contributes only for `k == 0`, and no field with `2k`
    /// beyond the register width contributes at all.
    pub fn encode(&self) -> (r: u32)
        ensures
            r == self.encoded(),
    {
        let mut rawVal: u32 = 0;
        rawVal = rawVal | ((((self.HPB0_ as u32) & 0x1) << 0) as u32);
        rawVal = rawVal | ((((self.HPB1_ as u32) & 0x2) << 1) as u32);
        rawVal = rawVal | ((((self.HPB2_ as u32) & 0x4) << 2) as u32);
        rawVal = rawVal | ((((self.DSU_ as u32) & 0x8) << 3) as u32);
        rawVal = rawVal | ((((self.HMATRIXHS_ as u32) & 0x10) << 4) as u32);
        rawVal = rawVal | ((((self.NVMCTRL_ as u32) & 0x20) << 5) as u32);
        rawVal = rawVal | ((((self.HSRAM_ as u32) & 0x40) << 6) as u32);
        rawVal = rawVal | ((((self.DMAC_ as u32) & 0x80) << 7) as u32);
        rawVal = rawVal | ((((self.CAN0_ as u32) & 0x100) << 8) as u32);
        rawVal = rawVal | ((((self.CAN1_ as u32) & 0x200) << 9) as u32);
        rawVal = rawVal | ((((self.PAC_ as u32) & 0x400) << 10) as u32);
        rawVal = rawVal | ((((self.NVMCTRL_PICACHU_ as u32) & 0x800) << 11) as u32);
        rawVal = rawVal | ((((self.DIVAS_ as u32) & 0x1000) << 12) as u32);
        rawVal
    }
}

/// Fields of the `APBAMASK` register.
#[derive(Copy, Clone, Debug)]
pub struct APBAMASK {
    pub PAC_: u8,
    pub PM_: u8,
    pub MCLK_: u8,
    pub RSTC_: u8,
    pub OSCCTRL_: u8,
    pub OSC32KCTRL_: u8,
    pub SUPC_: u8,
    pub GCLK_: u8,
    pub WDT_: u8,
    pub RTC_: u8,
    pub EIC_: u8,
    pub FREQM_: u8,
    pub TSENS_: u8,
}

impl APBAMASK {
    /// Register value built from these fields: the field for bit `k` is
    /// masked with `1 << k` and then shifted left by `k`. It can only set
    /// bit `2k`, and does so when its own bit `k` is set; a field holding
    /// 1 therefore contributes only for `k == 0`, and no field with `2k`
    /// beyond the register width contributes at all.
    pub open spec fn encoded(&self) -> u32 {
        0u32
            | ((((self.PAC_ as u32) & 0x1) << 0) as u32)
            | ((((self.PM_ as u32) & 0x2) << 1) as u32)
            | ((((self.MCLK_ as u32) & 0x4) << 2) as u32)
            | ((((self.RSTC_ as u32) & 0x8) << 3) as u32)
            | ((((self.OSCCTRL_ as u32) & 0x10) << 4) as u32)
            | ((((self.OSC32KCTRL_ as u32) & 0x20) << 5) as u32)
            | ((((self.SUPC_ as u32) & 0x40) << 6) as u32)
            | ((((self.GCLK_ as u32) & 0x80) << 7) as u32)
            | ((((self.WDT_ as u32) & 0x100) << 8) as u32)
            | ((((self.RTC_ as u32) & 0x200) << 9) as u32)
            | ((((self.EIC_ as u32) & 0x400) << 10) as u32)
            | ((((self.FREQM_ as u32) & 0x800) << 11) as u32)
            | ((((self.TSENS_ as u32) & 0x1000) << 12) as u32)
    }

    /// Register value built from these fields: the field for bit `k` is
    /// masked with `1 << k` and then shifted left by `k`. It can only set
    /// bit `2k`, and does so when its own bit `k` is set; a field holding
    /// 1 therefore contributes only for `k == 0`, and no field with `2k`
    /// beyond the register width contributes at all.
    pub fn encode(&self) -> (r: u32)
        ensures
            r == self.encoded(),
    {
        let mut rawVal: u32 = 0;
        rawVal = rawVal | ((((self.PAC_ as u32) & 0x1) << 0) as u32);
        rawVal = rawVal | ((((self.PM_ as u32) & 0x2) << 1) as u32);
        rawVal = rawVal | ((((self.MCLK_ as u32) & 0x4) << 2) as u32);
        rawVal = rawVal | ((((self.RSTC_ as u32) & 0x8) << 3) as u32);
        rawVal = rawVal | ((((self.OSCCTRL_ as u32) & 0x10) << 4) as u32);
        rawVal = rawVal | ((((self.OSC32KCTRL_ as u32) & 0x20) << 5) as u32);
        rawVal = rawVal | ((((self.SUPC_ as u32) & 0x40) << 6) as u32);
        rawVal = rawVal | ((((self.GCLK_ as u32) & 0x80) << 7) as u32);
        rawVal = rawVal | ((((self.WDT_ as u32) & 0x100) << 8) as u32);
        rawVal = rawVal | ((((self.RTC_ as u32) & 0x200) << 9) as u32);
        rawVal = rawVal | ((((self.EIC_ as u32) & 0x400) << 10) as u32);
        rawVal = rawVal | ((((self.FREQM_ as u32) & 0x800) << 11) as u32);
        rawVal = rawVal | ((((self.TSENS_ as u32) & 0x1000) << 12) as u32);
        rawVal
    }
}

/// Fields of the `APBBMASK` register.
#[derive(Copy, Clone, Debug)]
pub struct APBBMASK {
    pub PORT_: u8,
    pub DSU_: u8,
    pub NVMCTRL_: u8,
    pub HMATRIXHS_: u8,
}

impl APBBMASK {
    /// Register value built from these fields: the field for bit `k` is
    /// masked with `1 << k` and then shifted left by `k`. It can only set
    /// bit `2k`, and does so when its own bit `k` is set; a field holding
    /// 1 therefore contributes only for `k == 0`, and no field with `2k`
    /// beyond the register width contributes at all.
    pub open spec fn encoded(&self) -> u32 {
        0u32
            | ((((self.PORT_ as u32) & 0x1) << 0) as u32)
            | ((((self.DSU_ as u32) & 0x2) << 1) as u32)
            | ((((self.NVMCTRL_ as u32) & 0x4) << 2) as u32)
            | ((((self.HMATRIXHS_ as u32) & 0x20) << 5) as u32)
    }

    /// Register value built from these fields: the field for bit `k` is
    /// masked with `1 << k` and then shifted left by `k`. It can only set
    /// bit `2k`, and does so when its own bit `k` is set; a field holding
    /// 1 therefore contributes only for `k == 0`, and no field with `2k`
    /// beyond the register width contributes at all.
    pub fn encode(&self) -> (r: u32)
        ensures
            r == self.encoded(),
    {
        let mut rawVal: u32 = 0;
        rawVal = rawVal | ((((self.PORT_ as u32) & 0x1) << 0) as u32);
        rawVal = rawVal | ((((self.DSU_ as u32) & 0x2) << 1) as u32);
        rawVal = rawVal | ((((self.NVMCTRL_ as u32) & 0x4) << 2) as u32);
        rawVal = rawVal | ((((self.HMATRIXHS_ as u32) & 0x20) << 5) as u32);
        rawVal
    }
}

/// Fields of the `APBCMASK` register.
#[derive(Copy, Clone, Debug)]
pub struct APBCMASK {
    pub EVSYS_: u8,
    pub SERCOM0_: u8,
    pub SERCOM1_: u8,
    pub SERCOM2_: u8,
    pub SERCOM3_: u8,
    pub SERCOM4_: u8,
    pub SERCOM5_: u8,
    pub TCC0_: u8,
    pub TCC1_: u8,
    pub TCC2_: u8,
    pub TC0_: u8,
    pub TC1_: u8,
    pub TC2_: u8,
    pub TC3_: u8,
    pub TC4_: u8,
    pub ADC0_: u8,
    pub ADC1_: u8,
    pub SDADC_: u8,
    pub AC_: u8,
    pub DAC_: u8,
    pub PTC_: u8,
    pub CCL_: u8,
}

impl APBCMASK {
    /// Register value built from these fields: the field for bit `k` is
    /// masked with `1 << k` and then shifted left by `k`. It can only set
    /// bit `2k`, and does so when its own bit `k` is set; a field holding
    /// 1 therefore contributes only for `k == 0`, and no field with `2k`
    /// beyond the register width contributes at all.
    pub open spec fn encoded(&self) -> u32 {
        0u32
            | ((((self.EVSYS_ as u32) & 0x1) << 0) as u32)
            | ((((self.SERCOM0_ as u32) & 0x2) << 1) as u32)
            | ((((self.SERCOM1_ as u32) & 0x4) << 2) as u32)
            | ((((self.SERCOM2_ as u32) & 0x8) << 3) as u32)
            | ((((self.SERCOM3_ as u32) & 0x10) << 4) as u32)
            | ((((self.SERCOM4_ as u32) & 0x20) << 5) as u32)
            | ((((self.SERCOM5_ as u32) & 0x40) << 6) as u32)
            | ((((self.TCC0_ as u32) & 0x200) << 9) as u32)
            | ((((self.TCC1_ as u32) & 0x400) << 10) as u32)
            | ((((self.TCC2_ as u32) & 0x800) << 11) as u32)
            | ((((self.TC0_ as u32) & 0x1000) << 12) as u32)
            | ((((self.TC1_ as u32) & 0x2000) << 13) as u32)
            | ((((self.TC2_ as u32) & 0x4000) << 14) as u32)
            | ((((self.TC3_ as u32) & 0x8000) << 15) as u32)
            | ((((self.TC4_ as u32) & 0x10000) << 16) as u32)
            | ((((self.ADC0_ as u32) & 0x20000) << 17) as u32)
            | ((((self.ADC1_ as u32) & 0x40000) << 18) as u32)
            | ((((self.SDADC_ as u32) & 0x80000) << 19) as u32)
            | ((((self.AC_ as u32) & 0x100000) << 20) as u32)
            | ((((self.DAC_ as u32) & 0x200000) << 21) as u32)
            | ((((self.PTC_ as u32) & 0x400000) << 22) as u32)
            | ((((self.CCL_ as u32) & 0x800000) << 23) as u32)
    }

    /// Register value built from these fields: the field for bit `k` is
    /// masked with `1 << k` and then shifted left by `k`. It can only set
    /// bit `2k`, and does so when its own bit `k` is set; a field holding
    /// 1 therefore contributes only for `k == 0`, and no field with `2k`
    /// beyond the register width contributes at all.
    pub fn encode(&self) -> (r: u32)
        ensures
            r == self.encoded(),
    {
        let mut rawVal: u32 = 0;
        rawVal = rawVal | ((((self.EVSYS_ as u32) & 0x1) << 0) as u32);
        rawVal = rawVal | ((((self.SERCOM0_ as u32) & 0x2) << 1) as u32);
        rawVal = rawVal | ((((self.SERCOM1_ as u32) & 0x4) << 2) as u32);
        rawVal = rawVal | ((((self.SERCOM2_ as u32) & 0x8) << 3) as u32);
        rawVal = rawVal | ((((self.SERCOM3_ as u32) & 0x10) << 4) as u32);
        rawVal = rawVal | ((((self.SERCOM4_ as u32) & 0x20) << 5) as u32);
        rawVal = rawVal | ((((self.SERCOM5_ as u32) & 0x40) << 6) as u32);
        rawVal = rawVal | ((((self.TCC0_ as u32) & 0x200) << 9) as u32);
        rawVal = rawVal | ((((self.TCC1_ as u32) & 0x400) << 10) as u32);
        rawVal = rawVal | ((((self.TCC2_ as u32) & 0x800) << 11) as u32);
        rawVal = rawVal | ((((self.TC0_ as u32) & 0x1000) << 12) as u32);
        rawVal = rawVal | ((((self.TC1_ as u32) & 0x2000) << 13) as u32);
        rawVal = rawVal | ((((self.TC2_ as u32) & 0x4000) << 14) as u32);
        rawVal = rawVal | ((((self.TC3_ as u32) & 0x8000) << 15) as u32);
        rawVal = rawVal | ((((self.TC4_ as u32) & 0x10000) << 16) as u32);
        rawVal = rawVal | ((((self.ADC0_ as u32) & 0x20000) << 17) as u32);
        rawVal = rawVal | ((((self.ADC1_ as u32) & 0x40000) << 18) as u32);
        rawVal = rawVal | ((((self.SDADC_ as u32) & 0x80000) << 19) as u32);
        rawVal = rawVal | ((((self.AC_ as u32) & 0x100000) << 20) as u32);
        rawVal = rawVal | ((((self.DAC_ as u32) & 0x200000) << 21) as u32);
        rawVal = rawVal | ((((self.PTC_ as u32) & 0x400000) << 22) as u32);
        rawVal = rawVal | ((((self.CCL_ as u32) & 0x800000) << 23) as u32);
        rawVal
    }
}

#[derive(Copy, Clone, Debug, PartialEq, Eq, Structural)]
pub enum MCLK_CPUDIV__CPUDIV {
    /// Divide by 1
    DIV1,
    /// Divide by 2
    DIV2,
    /// Divide by 4
    DIV4,
    /// Divide by 8
    DIV8,
    /// Divide by 16
    DIV16,
    /// Divide by 32
    DIV32,
    /// Divide by 64
    DIV64,
    /// Divide by 128
    DIV128,
}

impl MCLK_CPUDIV__CPUDIV {
    /// Encoding of the selection in its register field.
    pub open spec fn encoded(self) -> u32 {
        match self {
            MCLK_CPUDIV__CPUDIV::DIV1 => 1,
            MCLK_CPUDIV__CPUDIV::DIV2 => 2,
            MCLK_CPUDIV__CPUDIV::DIV4 => 4,
            MCLK_CPUDIV__CPUDIV::DIV8 => 8,
            MCLK_CPUDIV__CPUDIV::DIV16 => 0x10,
            MCLK_CPUDIV__CPUDIV::DIV32 => 0x20,
            MCLK_CPUDIV__CPUDIV::DIV64 => 0x40,
            MCLK_CPUDIV__CPUDIV::DIV128 => 0x80,
        }
    }

    /// Encoding of the selection in its register field.
    pub fn encode(self) -> (r: u32)
        ensures
            r == self.encoded(),
    {
        match self {
            MCLK_CPUDIV__CPUDIV::DIV1 => 1,
            MCLK_CPUDIV__CPUDIV::DIV2 => 2,
            MCLK_CPUDIV__CPUDIV::DIV4 => 4,
            MCLK_CPUDIV__CPUDIV::DIV8 => 8,
            MCLK_CPUDIV__CPUDIV::DIV16 => 0x10,
            MCLK_CPUDIV__CPUDIV::DIV32 => 0x20,
            MCLK_CPUDIV__CPUDIV::DIV64 => 0x40,
            MCLK_CPUDIV__CPUDIV::DIV128 => 0x80,
        }
    }

    /// The field value of each selection: `DIV1` as 1, `DIV2` as 2, `DIV4` as 4, `DIV8` as 8,
    /// `DIV16` as 0x10, `DIV32` as 0x20, `DIV64` as 0x40, `DIV128` as 0x80.
    /// Distinct selections are written as distinct values.
    pub proof fn lemma_field_values()
        ensures
            MCLK_CPUDIV__CPUDIV::DIV1.encoded() == 1,
            MCLK_CPUDIV__CPUDIV::DIV2.encoded() == 2,
            MCLK_CPUDIV__CPUDIV::DIV4.encoded() == 4,
            MCLK_CPUDIV__CPUDIV::DIV8.encoded() == 8,
            MCLK_CPUDIV__CPUDIV::DIV16.encoded() == 0x10,
            MCLK_CPUDIV__CPUDIV::DIV32.encoded() == 0x20,
            MCLK_CPUDIV__CPUDIV::DIV64.encoded() == 0x40,
            MCLK_CPUDIV__CPUDIV::DIV128.encoded() == 0x80,
            forall|a: MCLK_CPUDIV__CPUDIV, b: MCLK_CPUDIV__CPUDIV| #![trigger a.encoded(), b.encoded()] a.encoded() == b.encoded() ==> a == b,
    {
    }
}

} // verus!
