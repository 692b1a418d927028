//! What the drivers take from the `rp235x-pac` crate: the reset values and
//! modify bitmaps of the registers, and the codes of the enumerated field
//! values. Verus believes each contract here; each is the value that the
//! crate's generated source gives.

use vstd::prelude::*;

use rp235x_pac::generic::{Resettable, Writable};

use crate::regs::RegSpec;

verus! {

/// The reset value and modify bitmaps of `PADS_BANK0.GPIOn`: the associated constants
/// `RESET_VALUE`, `ONE_TO_MODIFY_FIELDS_BITMAP` and `ZERO_TO_MODIFY_FIELDS_BITMAP` of
/// `rp235x_pac::pads_bank0::gpio::GPIO_SPEC`, which the crate's source sets to 0x0116,
/// 0 and 0.
#[verifier::external_body]
pub(crate) fn pads_gpio_spec() -> (r: RegSpec)
    ensures
        r == (RegSpec { reset: 0x0116, one_to_modify: 0, zero_to_modify: 0 }),
{
    RegSpec {
        reset: <rp235x_pac::pads_bank0::gpio::GPIO_SPEC as Resettable>::RESET_VALUE,
        one_to_modify:
            <rp235x_pac::pads_bank0::gpio::GPIO_SPEC as Writable>::ONE_TO_MODIFY_FIELDS_BITMAP,
        zero_to_modify:
            <rp235x_pac::pads_bank0::gpio::GPIO_SPEC as Writable>::ZERO_TO_MODIFY_FIELDS_BITMAP,
    }
}

/// The reset value and modify bitmaps of `CLOCKS.CLK_ADC_CTRL`: the associated
/// constants `RESET_VALUE`, `ONE_TO_MODIFY_FIELDS_BITMAP` and
/// `ZERO_TO_MODIFY_FIELDS_BITMAP` of
/// `rp235x_pac::clocks::clk_adc_ctrl::CLK_ADC_CTRL_SPEC`, which the crate's source sets
/// to 0, 0 and 0.
#[verifier::external_body]
pub(crate) fn clk_adc_ctrl_spec() -> (r: RegSpec)
    ensures
        r == (RegSpec { reset: 0, one_to_modify: 0, zero_to_modify: 0 }),
{
    RegSpec {
        reset: <rp235x_pac::clocks::clk_adc_ctrl::CLK_ADC_CTRL_SPEC as Resettable>::RESET_VALUE,
        one_to_modify:
            <rp235x_pac::clocks::clk_adc_ctrl::CLK_ADC_CTRL_SPEC as Writable>::ONE_TO_MODIFY_FIELDS_BITMAP,
        zero_to_modify:
            <rp235x_pac::clocks::clk_adc_ctrl::CLK_ADC_CTRL_SPEC as Writable>::ZERO_TO_MODIFY_FIELDS_BITMAP,
    }
}

/// The reset value and modify bitmaps of `CLOCKS.CLK_PERI_CTRL`: the associated
/// constants `RESET_VALUE`, `ONE_TO_MODIFY_FIELDS_BITMAP` and
/// `ZERO_TO_MODIFY_FIELDS_BITMAP` of
/// `rp235x_pac::clocks::clk_peri_ctrl::CLK_PERI_CTRL_SPEC`, which the crate's source
/// sets to 0, 0 and 0.
#[verifier::external_body]
pub(crate) fn clk_peri_ctrl_spec() -> (r: RegSpec)
    ensures
        r == (RegSpec { reset: 0, one_to_modify: 0, zero_to_modify: 0 }),
{
    RegSpec {
        reset: <rp235x_pac::clocks::clk_peri_ctrl::CLK_PERI_CTRL_SPEC as Resettable>::RESET_VALUE,
        one_to_modify:
            <rp235x_pac::clocks::clk_peri_ctrl::CLK_PERI_CTRL_SPEC as Writable>::ONE_TO_MODIFY_FIELDS_BITMAP,
        zero_to_modify:
            <rp235x_pac::clocks::clk_peri_ctrl::CLK_PERI_CTRL_SPEC as Writable>::ZERO_TO_MODIFY_FIELDS_BITMAP,
    }
}

/// The reset value and modify bitmaps of `CLOCKS.CLK_SYS_CTRL`: the associated
/// constants `RESET_VALUE`, `ONE_TO_MODIFY_FIELDS_BITMAP` and
/// `ZERO_TO_MODIFY_FIELDS_BITMAP` of
/// `rp235x_pac::clocks::clk_sys_ctrl::CLK_SYS_CTRL_SPEC`, which the crate's source sets
/// to 0, 0 and 0.
#[verifier::external_body]
pub(crate) fn clk_sys_ctrl_spec() -> (r: RegSpec)
    ensures
        r == (RegSpec { reset: 0, one_to_modify: 0, zero_to_modify: 0 }),
{
    RegSpec {
        reset: <rp235x_pac::clocks::clk_sys_ctrl::CLK_SYS_CTRL_SPEC as Resettable>::RESET_VALUE,
        one_to_modify:
            <rp235x_pac::clocks::clk_sys_ctrl::CLK_SYS_CTRL_SPEC as Writable>::ONE_TO_MODIFY_FIELDS_BITMAP,
        zero_to_modify:
            <rp235x_pac::clocks::clk_sys_ctrl::CLK_SYS_CTRL_SPEC as Writable>::ZERO_TO_MODIFY_FIELDS_BITMAP,
    }
}

/// The reset value and modify bitmaps of `RESETS.RESET`: the associated constants
/// `RESET_VALUE`, `ONE_TO_MODIFY_FIELDS_BITMAP` and `ZERO_TO_MODIFY_FIELDS_BITMAP` of
/// `rp235x_pac::resets::reset::RESET_SPEC`, which the crate's source sets to
/// 0x1fff_ffff, 0 and 0.
#[verifier::external_body]
pub(crate) fn resets_reset_spec() -> (r: RegSpec)
    ensures
        r == (RegSpec { reset: 0x1fff_ffff, one_to_modify: 0, zero_to_modify: 0 }),
{
    RegSpec {
        reset: <rp235x_pac::resets::reset::RESET_SPEC as Resettable>::RESET_VALUE,
        one_to_modify:
            <rp235x_pac::resets::reset::RESET_SPEC as Writable>::ONE_TO_MODIFY_FIELDS_BITMAP,
        zero_to_modify:
            <rp235x_pac::resets::reset::RESET_SPEC as Writable>::ZERO_TO_MODIFY_FIELDS_BITMAP,
    }
}

/// The reset value and modify bitmaps of `ADC.CS`: the associated constants
/// `RESET_VALUE`, `ONE_TO_MODIFY_FIELDS_BITMAP` and `ZERO_TO_MODIFY_FIELDS_BITMAP` of
/// `rp235x_pac::adc::cs::CS_SPEC`, which the crate's source sets to 0, 0x0400 and 0.
#[verifier::external_body]
pub(crate) fn adc_cs_spec() -> (r: RegSpec)
    ensures
        r == (RegSpec { reset: 0, one_to_modify: 0x0400, zero_to_modify: 0 }),
{
    RegSpec {
        reset: <rp235x_pac::adc::cs::CS_SPEC as Resettable>::RESET_VALUE,
        one_to_modify:
            <rp235x_pac::adc::cs::CS_SPEC as Writable>::ONE_TO_MODIFY_FIELDS_BITMAP,
        zero_to_modify:
            <rp235x_pac::adc::cs::CS_SPEC as Writable>::ZERO_TO_MODIFY_FIELDS_BITMAP,
    }
}

/// The reset value and modify bitmaps of `PWM.CHn_CSR`: the associated constants
/// `RESET_VALUE`, `ONE_TO_MODIFY_FIELDS_BITMAP` and `ZERO_TO_MODIFY_FIELDS_BITMAP` of
/// `rp235x_pac::pwm::ch::csr::CSR_SPEC`, which the crate's source sets to 0, 0 and 0.
#[verifier::external_body]
pub(crate) fn pwm_csr_spec() -> (r: RegSpec)
    ensures
        r == (RegSpec { reset: 0, one_to_modify: 0, zero_to_modify: 0 }),
{
    RegSpec {
        reset: <rp235x_pac::pwm::ch::csr::CSR_SPEC as Resettable>::RESET_VALUE,
        one_to_modify:
            <rp235x_pac::pwm::ch::csr::CSR_SPEC as Writable>::ONE_TO_MODIFY_FIELDS_BITMAP,
        zero_to_modify:
            <rp235x_pac::pwm::ch::csr::CSR_SPEC as Writable>::ZERO_TO_MODIFY_FIELDS_BITMAP,
    }
}

/// The reset value and modify bitmaps of `PWM.CHn_DIV`: the associated constants
/// `RESET_VALUE`, `ONE_TO_MODIFY_FIELDS_BITMAP` and `ZERO_TO_MODIFY_FIELDS_BITMAP` of
/// `rp235x_pac::pwm::ch::div::DIV_SPEC`, which the crate's source sets to 0x10, 0 and
/// 0.
#[verifier::external_body]
pub(crate) fn pwm_div_spec() -> (r: RegSpec)
    ensures
        r == (RegSpec { reset: 0x10, one_to_modify: 0, zero_to_modify: 0 }),
{
    RegSpec {
        reset: <rp235x_pac::pwm::ch::div::DIV_SPEC as Resettable>::RESET_VALUE,
        one_to_modify:
            <rp235x_pac::pwm::ch::div::DIV_SPEC as Writable>::ONE_TO_MODIFY_FIELDS_BITMAP,
        zero_to_modify:
            <rp235x_pac::pwm::ch::div::DIV_SPEC as Writable>::ZERO_TO_MODIFY_FIELDS_BITMAP,
    }
}

/// The reset value and modify bitmaps of `PWM.CHn_CTR`: the associated constants
/// `RESET_VALUE`, `ONE_TO_MODIFY_FIELDS_BITMAP` and `ZERO_TO_MODIFY_FIELDS_BITMAP` of
/// `rp235x_pac::pwm::ch::ctr::CTR_SPEC`, which the crate's source sets to 0, 0 and 0.
#[verifier::external_body]
pub(crate) fn pwm_ctr_spec() -> (r: RegSpec)
    ensures
        r == (RegSpec { reset: 0, one_to_modify: 0, zero_to_modify: 0 }),
{
    RegSpec {
        reset: <rp235x_pac::pwm::ch::ctr::CTR_SPEC as Resettable>::RESET_VALUE,
        one_to_modify:
            <rp235x_pac::pwm::ch::ctr::CTR_SPEC as Writable>::ONE_TO_MODIFY_FIELDS_BITMAP,
        zero_to_modify:
            <rp235x_pac::pwm::ch::ctr::CTR_SPEC as Writable>::ZERO_TO_MODIFY_FIELDS_BITMAP,
    }
}

/// The reset value and modify bitmaps of `PWM.CHn_CC`: the associated constants
/// `RESET_VALUE`, `ONE_TO_MODIFY_FIELDS_BITMAP` and `ZERO_TO_MODIFY_FIELDS_BITMAP` of
/// `rp235x_pac::pwm::ch::cc::CC_SPEC`, which the crate's source sets to 0, 0 and 0.
#[verifier::external_body]
pub(crate) fn pwm_cc_spec() -> (r: RegSpec)
    ensures
        r == (RegSpec { reset: 0, one_to_modify: 0, zero_to_modify: 0 }),
{
    RegSpec {
        reset: <rp235x_pac::pwm::ch::cc::CC_SPEC as Resettable>::RESET_VALUE,
        one_to_modify:
            <rp235x_pac::pwm::ch::cc::CC_SPEC as Writable>::ONE_TO_MODIFY_FIELDS_BITMAP,
        zero_to_modify:
            <rp235x_pac::pwm::ch::cc::CC_SPEC as Writable>::ZERO_TO_MODIFY_FIELDS_BITMAP,
    }
}

/// The reset value and modify bitmaps of `PWM.CHn_TOP`: the associated constants
/// `RESET_VALUE`, `ONE_TO_MODIFY_FIELDS_BITMAP` and `ZERO_TO_MODIFY_FIELDS_BITMAP` of
/// `rp235x_pac::pwm::ch::top::TOP_SPEC`, which the crate's source sets to 0xffff, 0 and
/// 0.
#[verifier::external_body]
pub(crate) fn pwm_top_spec() -> (r: RegSpec)
    ensures
        r == (RegSpec { reset: 0xffff, one_to_modify: 0, zero_to_modify: 0 }),
{
    RegSpec {
        reset: <rp235x_pac::pwm::ch::top::TOP_SPEC as Resettable>::RESET_VALUE,
        one_to_modify:
            <rp235x_pac::pwm::ch::top::TOP_SPEC as Writable>::ONE_TO_MODIFY_FIELDS_BITMAP,
        zero_to_modify:
            <rp235x_pac::pwm::ch::top::TOP_SPEC as Writable>::ZERO_TO_MODIFY_FIELDS_BITMAP,
    }
}

/// The reset value and modify bitmaps of `XOSC.CTRL`: the associated constants
/// `RESET_VALUE`, `ONE_TO_MODIFY_FIELDS_BITMAP` and `ZERO_TO_MODIFY_FIELDS_BITMAP` of
/// `rp235x_pac::xosc::ctrl::CTRL_SPEC`, which the crate's source sets to 0, 0 and 0.
#[verifier::external_body]
pub(crate) fn xosc_ctrl_spec() -> (r: RegSpec)
    ensures
        r == (RegSpec { reset: 0, one_to_modify: 0, zero_to_modify: 0 }),
{
    RegSpec {
        reset: <rp235x_pac::xosc::ctrl::CTRL_SPEC as Resettable>::RESET_VALUE,
        one_to_modify:
            <rp235x_pac::xosc::ctrl::CTRL_SPEC as Writable>::ONE_TO_MODIFY_FIELDS_BITMAP,
        zero_to_modify:
            <rp235x_pac::xosc::ctrl::CTRL_SPEC as Writable>::ZERO_TO_MODIFY_FIELDS_BITMAP,
    }
}

/// The reset value and modify bitmaps of `XOSC.STARTUP`: the associated constants
/// `RESET_VALUE`, `ONE_TO_MODIFY_FIELDS_BITMAP` and `ZERO_TO_MODIFY_FIELDS_BITMAP` of
/// `rp235x_pac::xosc::startup::STARTUP_SPEC`, which the crate's source sets to 0, 0 and
/// 0.
#[verifier::external_body]
pub(crate) fn xosc_startup_spec() -> (r: RegSpec)
    ensures
        r == (RegSpec { reset: 0, one_to_modify: 0, zero_to_modify: 0 }),
{
    RegSpec {
        reset: <rp235x_pac::xosc::startup::STARTUP_SPEC as Resettable>::RESET_VALUE,
        one_to_modify:
            <rp235x_pac::xosc::startup::STARTUP_SPEC as Writable>::ONE_TO_MODIFY_FIELDS_BITMAP,
        zero_to_modify:
            <rp235x_pac::xosc::startup::STARTUP_SPEC as Writable>::ZERO_TO_MODIFY_FIELDS_BITMAP,
    }
}

/// The reset value and modify bitmaps of `PLL_SYS.CS`: the associated constants
/// `RESET_VALUE`, `ONE_TO_MODIFY_FIELDS_BITMAP` and `ZERO_TO_MODIFY_FIELDS_BITMAP` of
/// `rp235x_pac::pll_sys::cs::CS_SPEC`, which the crate's source sets to 0x01,
/// 0x4000_0000 and 0.
#[verifier::external_body]
pub(crate) fn pll_sys_cs_spec() -> (r: RegSpec)
    ensures
        r == (RegSpec { reset: 0x01, one_to_modify: 0x4000_0000, zero_to_modify: 0 }),
{
    RegSpec {
        reset: <rp235x_pac::pll_sys::cs::CS_SPEC as Resettable>::RESET_VALUE,
        one_to_modify:
            <rp235x_pac::pll_sys::cs::CS_SPEC as Writable>::ONE_TO_MODIFY_FIELDS_BITMAP,
        zero_to_modify:
            <rp235x_pac::pll_sys::cs::CS_SPEC as Writable>::ZERO_TO_MODIFY_FIELDS_BITMAP,
    }
}

/// The reset value and modify bitmaps of `PLL_SYS.FBDIV_INT`: the associated constants
/// `RESET_VALUE`, `ONE_TO_MODIFY_FIELDS_BITMAP` and `ZERO_TO_MODIFY_FIELDS_BITMAP` of
/// `rp235x_pac::pll_sys::fbdiv_int::FBDIV_INT_SPEC`, which the crate's source sets to
/// 0, 0 and 0.
#[verifier::external_body]
pub(crate) fn pll_sys_fbdiv_int_spec() -> (r: RegSpec)
    ensures
        r == (RegSpec { reset: 0, one_to_modify: 0, zero_to_modify: 0 }),
{
    RegSpec {
        reset: <rp235x_pac::pll_sys::fbdiv_int::FBDIV_INT_SPEC as Resettable>::RESET_VALUE,
        one_to_modify:
            <rp235x_pac::pll_sys::fbdiv_int::FBDIV_INT_SPEC as Writable>::ONE_TO_MODIFY_FIELDS_BITMAP,
        zero_to_modify:
            <rp235x_pac::pll_sys::fbdiv_int::FBDIV_INT_SPEC as Writable>::ZERO_TO_MODIFY_FIELDS_BITMAP,
    }
}

/// The reset value and modify bitmaps of `PLL_SYS.PWR`: the associated constants
/// `RESET_VALUE`, `ONE_TO_MODIFY_FIELDS_BITMAP` and `ZERO_TO_MODIFY_FIELDS_BITMAP` of
/// `rp235x_pac::pll_sys::pwr::PWR_SPEC`, which the crate's source sets to 0x2d, 0 and
/// 0.
#[verifier::external_body]
pub(crate) fn pll_sys_pwr_spec() -> (r: RegSpec)
    ensures
        r == (RegSpec { reset: 0x2d, one_to_modify: 0, zero_to_modify: 0 }),
{
    RegSpec {
        reset: <rp235x_pac::pll_sys::pwr::PWR_SPEC as Resettable>::RESET_VALUE,
        one_to_modify:
            <rp235x_pac::pll_sys::pwr::PWR_SPEC as Writable>::ONE_TO_MODIFY_FIELDS_BITMAP,
        zero_to_modify:
            <rp235x_pac::pll_sys::pwr::PWR_SPEC as Writable>::ZERO_TO_MODIFY_FIELDS_BITMAP,
    }
}

/// The reset value and modify bitmaps of `PLL_SYS.PRIM`: the associated constants
/// `RESET_VALUE`, `ONE_TO_MODIFY_FIELDS_BITMAP` and `ZERO_TO_MODIFY_FIELDS_BITMAP` of
/// `rp235x_pac::pll_sys::prim::PRIM_SPEC`, which the crate's source sets to
/// 0x0007_7000, 0 and 0.
#[verifier::external_body]
pub(crate) fn pll_sys_prim_spec() -> (r: RegSpec)
    ensures
        r == (RegSpec { reset: 0x0007_7000, one_to_modify: 0, zero_to_modify: 0 }),
{
    RegSpec {
        reset: <rp235x_pac::pll_sys::prim::PRIM_SPEC as Resettable>::RESET_VALUE,
        one_to_modify:
            <rp235x_pac::pll_sys::prim::PRIM_SPEC as Writable>::ONE_TO_MODIFY_FIELDS_BITMAP,
        zero_to_modify:
            <rp235x_pac::pll_sys::prim::PRIM_SPEC as Writable>::ZERO_TO_MODIFY_FIELDS_BITMAP,
    }
}

/// `u8::from` of `io_bank0::gpio::gpio_ctrl::OEOVER_A::DISABLE`, the output-enable
/// override that disables the output: the conversion returns the variant's
/// discriminant, which the crate's source sets to 2.
#[verifier::external_body]
pub(crate) fn oeover_disable() -> (r: u8)
    ensures
        r == 2,
{
    u8::from(rp235x_pac::io_bank0::gpio::gpio_ctrl::OEOVER_A::DISABLE)
}

/// `u8::from` of `clocks::clk_adc_ctrl::AUXSRC_A::CLKSRC_PLL_USB`, the ADC clock source
/// that is the USB PLL: the conversion returns the variant's discriminant, which the
/// crate's source sets to 0.
#[verifier::external_body]
pub(crate) fn adc_auxsrc_pll_usb() -> (r: u8)
    ensures
        r == 0,
{
    u8::from(rp235x_pac::clocks::clk_adc_ctrl::AUXSRC_A::CLKSRC_PLL_USB)
}

/// `u8::from` of `clocks::clk_sys_ctrl::AUXSRC_A::CLKSRC_PLL_SYS`, the auxiliary system
/// clock source that is the system PLL: the conversion returns the variant's
/// discriminant, which the crate's source sets to 0.
#[verifier::external_body]
pub(crate) fn sys_auxsrc_pll_sys() -> (r: u8)
    ensures
        r == 0,
{
    u8::from(rp235x_pac::clocks::clk_sys_ctrl::AUXSRC_A::CLKSRC_PLL_SYS)
}

/// `u8::from` of `pwm::ch::csr::DIVMODE_A::DIV`, the divider mode in which the counter
/// runs freely: the conversion returns the variant's discriminant, which the crate's
/// source sets to 0.
#[verifier::external_body]
pub(crate) fn pwm_divmode_div() -> (r: u8)
    ensures
        r == 0,
{
    u8::from(rp235x_pac::pwm::ch::csr::DIVMODE_A::DIV)
}

/// `u16::from` of `xosc::ctrl::FREQ_RANGE_A::_1_15MHZ`, the code of the 1 to 15 MHz
/// crystal range: the conversion returns the variant's discriminant, which the crate's
/// source sets to 2720.
#[verifier::external_body]
pub(crate) fn xosc_freq_range_1_15mhz() -> (r: u16)
    ensures
        r == 2720,
{
    u16::from(rp235x_pac::xosc::ctrl::FREQ_RANGE_A::_1_15MHZ)
}

/// `u16::from` of `xosc::ctrl::ENABLE_A::ENABLE`, the code that enables the crystal
/// oscillator: the conversion returns the variant's discriminant, which the crate's
/// source sets to 4011.
#[verifier::external_body]
pub(crate) fn xosc_enable() -> (r: u16)
    ensures
        r == 4011,
{
    u16::from(rp235x_pac::xosc::ctrl::ENABLE_A::ENABLE)
}

/// The pin functions that the drivers select.
#[derive(Clone, Copy, PartialEq, Eq, Structural, Debug)]
pub enum PinFunction {
    Pwm,
    Sio,
}

/// `u8::from` of `io_bank0::gpio::gpio_ctrl::FUNCSEL_A` (the variant `PWM` or `SIO`):
/// the conversion returns the variant's discriminant, which the crate's source sets to
/// 4 for `PWM` and 5 for `SIO`.
#[verifier::external_body]
pub(crate) fn funcsel_code(f: PinFunction) -> (r: u8)
    ensures
        r == match f {
            PinFunction::Pwm => 4u8,
            PinFunction::Sio => 5u8,
        },
{
    let v = match f {
        PinFunction::Pwm => rp235x_pac::io_bank0::gpio::gpio_ctrl::FUNCSEL_A::PWM,
        PinFunction::Sio => rp235x_pac::io_bank0::gpio::gpio_ctrl::FUNCSEL_A::SIO,
    };
    u8::from(v)
}

/// The sources of the system clock's glitchless mux.
#[derive(Clone, Copy, PartialEq, Eq, Structural, Debug)]
pub enum SysClockSource {
    ClkRef,
    Aux,
}

/// `bool::from` of `clocks::clk_sys_ctrl::SRC_A` (the variant `CLK_REF` or
/// `CLKSRC_CLK_SYS_AUX`): the conversion tests the variant's discriminant against zero,
/// and the crate's source sets it to 0 for `CLK_REF` and 1 for `CLKSRC_CLK_SYS_AUX`.
#[verifier::external_body]
pub(crate) fn sys_src_bit(s: SysClockSource) -> (r: bool)
    ensures
        r == (s == SysClockSource::Aux),
{
    let v = match s {
        SysClockSource::ClkRef => rp235x_pac::clocks::clk_sys_ctrl::SRC_A::CLK_REF,
        SysClockSource::Aux => rp235x_pac::clocks::clk_sys_ctrl::SRC_A::CLKSRC_CLK_SYS_AUX,
    };
    bool::from(v)
}

} // verus!
