use lib::cortex::nvic;
use lib::cortex::scb as core_scb;
use lib::cortex::systick::{RegisterBlock, SystemTimer};
use lib::peripherals::{gclk, mclk, nvmctrl, oscctrl, port, scb, systick};

fn osc_regs() -> oscctrl::RegisterGroup {
    oscctrl::RegisterGroup {
        INTENCLR: 0,
        INTENSET: 0,
        INTFLAG: 0,
        STATUS: 0,
        XOSCCTRL: 0,
        CFDPRESC: 0,
        EVCTRL: 0,
        OSC48MCTRL: 0,
        OSC48MDIV: 0x0B,
        OSC48MSTUP: 0,
        OSC48MSYNCBUSY: 0,
        DPLLCTRLA: 0,
        DPLLRATIO: 0,
        DPLLCTRLB: 0xFFFF_FFFF,
        DPLLPRESC: 0,
        DPLLSYNCBUSY: 0,
        DPLLSTATUS: 0,
        CAL48M: 0,
    }
}

fn mclk_regs() -> mclk::RegisterGroup {
    mclk::RegisterGroup {
        INTENCLR: 0,
        INTENSET: 0,
        INTFLAG: 0xFF,
        CPUDIV: 0,
        AHBMASK: 0xFFFF_FFFF,
        APBAMASK: 0,
        APBBMASK: 0,
        APBCMASK: 0,
    }
}

#[test]
fn controllers_are_handed_out_once() {
    assert!(mclk::MainClock::new(false, mclk_regs()).is_none());
    assert!(oscctrl::OscillatorsControl::new(false, osc_regs()).is_none());
    assert!(mclk::MainClock::new(true, mclk_regs()).is_some());
}

#[test]
fn clock_mask_field_update_keeps_other_bits() {
    let mut m = mclk::MainClock::new(true, mclk_regs()).unwrap();
    m.Set_AHBMASK_HPB1_(0);
    assert_eq!(m.reg.AHBMASK, 0xFFFF_FFFD);
    m.Set_AHBMASK_HPB1_(1);
    assert_eq!(m.reg.AHBMASK, 0xFFFF_FFFF);
    m.Set_INTFLAG_CKRDY(0);
    assert_eq!(m.reg.INTFLAG, 0xFE);
    m.Set_CPUDIV_CPUDIV(mclk::MCLK_CPUDIV__CPUDIV::DIV8);
    assert_eq!(m.reg.CPUDIV, 8);
    m.Set_APBCMASK_CCL_(1);
    assert_eq!(m.reg.APBCMASK, 1 << 23);
}

#[test]
fn bus_mask_writes_encode_their_fields() {
    let mut m = mclk::MainClock::new(true, mclk_regs()).unwrap();
    m.Write_ApbbMask(mclk::APBBMASK { PORT_: 1, DSU_: 2, NVMCTRL_: 4, HMATRIXHS_: 0x20 });
    assert_eq!(m.reg.APBBMASK, 0x415);
    m.Write_ApbbMask(mclk::APBBMASK { PORT_: 1, DSU_: 1, NVMCTRL_: 1, HMATRIXHS_: 1 });
    assert_eq!(m.reg.APBBMASK, 1);
}

#[test]
fn dpll_configuration_encodings() {
    let mut o = oscctrl::OscillatorsControl::new(true, osc_regs()).unwrap();
    o.Write_DigitalCoreConfiguration(oscctrl::DPLLCTRLB {
        FILTER: oscctrl::OSCCTRL_DPLLCTRLB__FILTER::DEFAULT,
        LPEN: 0,
        WUF: 0,
        REFCLK: oscctrl::OSCCTRL_DPLLCTRLB__REFCLK::GCLK,
        LTIME: oscctrl::OSCCTRL_DPLLCTRLB__LTIME::DEFAULT,
        LBYPASS: 0,
        DIV: 0,
    });
    assert_eq!(o.reg.DPLLCTRLB, 0x20);
    o.Write_DpllRatioControl(oscctrl::DPLLRATIO { LDR: 128, LDRFRAC: 0 });
    assert_eq!(o.reg.DPLLRATIO, 128);
    o.Write_DpllRatioControl(oscctrl::DPLLRATIO { LDR: 0x1FFF, LDRFRAC: 0x3 });
    assert_eq!(o.reg.DPLLRATIO, 0x30FFF);
    o.Write_DpllControl(oscctrl::DPLLCTRLA { ENABLE: 1, RUNSTDBY: 0, ONDEMAND: 0 });
    assert_eq!(o.reg.DPLLCTRLA, 0x2);
    o.Set_DPLLPRESC_PRESC(oscctrl::OSCCTRL_DPLLPRESC__PRESC::DIV2);
    assert_eq!(o.reg.DPLLPRESC, 1);
    o.Set_OSC48MDIV_DIV(oscctrl::OSCCTRL_OSC48MDIV__DIV::DIV1);
    assert_eq!(o.reg.OSC48MDIV, 0);
    o.Set_DPLLCTRLB_LTIME(oscctrl::OSCCTRL_DPLLCTRLB__LTIME::_11MS);
    assert_eq!(o.reg.DPLLCTRLB, 0x720);
}

#[test]
fn crystal_oscillator_encoding() {
    let x = oscctrl::XOSCCTRL {
        ENABLE: 1,
        XTALEN: 0,
        CFDEN: 0,
        SWBEN: 0,
        RUNSTDBY: 0,
        ONDEMAND: 0,
        GAIN: oscctrl::OSCCTRL_XOSCCTRL__GAIN::GAIN30,
        AMPGC: 0,
        STARTUP: oscctrl::OSCCTRL_XOSCCTRL__STARTUP::CYCLE32768,
    };
    assert_eq!(x.encode(), 0xF402);
    let mut o = oscctrl::OscillatorsControl::new(true, osc_regs()).unwrap();
    o.Write_ExternalMultipurposeCrystalOscillatorControl(x);
    assert_eq!(o.reg.XOSCCTRL, 0xF402);
}

#[test]
fn generic_clock_channel_and_divider() {
    let regs = gclk::RegisterGroup { CTRLA: 0, SYNCBUSY: 0, GENCTRL: vec![0xFFFF_FFFF; 9], PCHCTRL: vec![0; 41] };
    let mut g = gclk::GenericClockGenerator::new(true, regs).unwrap();
    g.Set_PCHCTRL_CHEN(0, 1);
    assert_eq!(g.reg.PCHCTRL[0], 0x40);
    g.Set_PCHCTRL_GEN(1, gclk::GCLK_PCHCTRL__GEN::GCLK2);
    assert_eq!(g.reg.PCHCTRL[1], 2);
    g.Set_GENCTRL_DIV(1, 48);
    assert_eq!(g.reg.GENCTRL[1], 0x0030_FFFF);
    g.Set_GENCTRL_SRC(2, gclk::GCLK_GENCTRL__SRC::OSC48M);
    assert_eq!(g.reg.GENCTRL[2], 0xFFFF_FFFE);
    assert_eq!(g.reg.GENCTRL[0], 0xFFFF_FFFF);
}

#[test]
fn system_timer_fields() {
    let regs = systick::RegisterGroup { CSR: 0, RVR: 0xFF00_0000, CVR: 0, CALIB: 0 };
    let mut s = systick::SystemTimer::new(true, regs).unwrap();
    s.Set_RELOAD(64618);
    assert_eq!(s.reg.RVR, 0xFF00_FC6A);
    s.Set_ENABLE(systick::SysTick_CSR__ENABLE::VALUE_1);
    s.Set_TICKINT(systick::SysTick_CSR__TICKINT::VALUE_1);
    s.Set_CLKSOURCE(systick::SysTick_CSR__CLKSOURCE::VALUE_1);
    assert_eq!(s.reg.CSR, 7);
    s.Set_ENABLE(systick::SysTick_CSR__ENABLE::VALUE_0);
    assert_eq!(s.reg.CSR, 6);
}

#[test]
fn flash_wait_states() {
    let regs = nvmctrl::RegisterBlock { CTRLA: 0, CTRLB: 0xFFFF_FFFF, PARAM: 0, INTENCLR: 0 };
    let mut n = nvmctrl::NVMController::new(true, regs).unwrap();
    n.Set_ReadWaitStates(nvmctrl::RWSSelect::DUAL);
    assert_eq!(n.reg.CTRLB, 0xFFFF_FFE5);
}

fn group() -> port::PortGroup {
    port::PortGroup {
        DIR: 0,
        DIRCLR: 0,
        DIRSET: 0,
        DIRTGL: 0,
        OUT: 0,
        OUTCLR: 0,
        OUTSET: 0,
        OUTTGL: 0,
        IN: 0,
        CTRL: 0,
        WRCONFIG: 0,
        EVCTRL: 0,
        PMUX: vec![0; 16],
        PINCFG: vec![0; 32],
    }
}

#[test]
fn pin_direction_and_level() {
    let regs = port::RegisterBlock { Group: vec![group(), group()] };
    let mut p = port::IOPinController::new(true, regs).unwrap();
    p.Set_PinDirection(1, 9, true);
    assert_eq!(p.reg.Group[1].DIRSET, 1 << 9);
    p.Set_PinDirection(0, 3, false);
    assert_eq!(p.reg.Group[0].DIRCLR, 1 << 3);
    p.Set_PinOutState(1, 9, true);
    assert_eq!(p.reg.Group[1].OUTSET, 1 << 9);
    p.Set_PinOutState(1, 9, false);
    assert_eq!(p.reg.Group[1].OUTCLR, 1 << 9);
    p.reg.Group[1].OUT = 1 << 9;
    assert!(p.Get_PinOutState(1, 9));
    assert!(!p.Get_PinOutState(1, 8));
}

#[test]
fn system_control_block_requests() {
    let regs = scb::RegisterBlock { CPUID: 0, ICSR: 0, VTOR: 0, AIRCR: 0, SCR: 0, CCR: 0, SHPR2: 0, SHPR3: 0 };
    let mut s = scb::SystemControlBlock::new(true, regs).unwrap();
    s.Set_PendSV();
    assert_eq!(s.reg.ICSR, 0x1000_0000);
    s.Set_VectorTableOffset(0x0000_4123);
    assert_eq!(s.reg.VTOR, 0x0000_4100);
}

#[test]
fn core_timer_model() {
    let mut t = SystemTimer::new(true, RegisterBlock { CTRL: 0, LOAD: 0, VAL: 9, CALIB: 0 }).unwrap();
    t.Set_ReloadValue(1000);
    t.Set_ControlValue(7);
    t.Set_CounterValue(0);
    assert_eq!(t.Get_ReloadValue(), 1000);
    assert_eq!(t.reg.CTRL, 7);
    assert_eq!(t.reg.VAL, 0);
    assert!(SystemTimer::new(false, RegisterBlock { CTRL: 0, LOAD: 0, VAL: 0, CALIB: 0 }).is_none());
}

#[test]
fn core_controllers() {
    let n = nvic::NestedVectoredInterruptController::new(
        true,
        nvic::RegisterBlock { SETENA: 1, CLRENA: 0, SETPEND: 0, CLRPEND: 0, IP: vec![0; 8] },
    )
    .unwrap();
    assert_eq!(n.reg.SETENA, 1);
    let s = core_scb::SystemControlBlock::new(
        false,
        core_scb::RegisterBlock { CPUID: 0, ICSR: 0, AIRCR: 0, SCR: 0, CCR: 0, SHPR2: 0, SHPR3: 0 },
    );
    assert!(s.is_none());
}
