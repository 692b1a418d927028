//! Bit positions of the register fields that the drivers write, as the
//! RP2350 register map places them. Each constant is the offset of the
//! field's lowest bit; the width of a multi-bit field follows its offset.

use vstd::prelude::*;

verus! {

// PADS_BANK0.GPIOn
pub const PAD_PDE: u32 = 2;
pub const PAD_PUE: u32 = 3;
pub const PAD_IE: u32 = 6;
pub const PAD_OD: u32 = 7;
pub const PAD_ISO: u32 = 8;

// IO_BANK0.GPIOn_CTRL
pub const CTRL_FUNCSEL: u32 = 0;
pub const CTRL_FUNCSEL_WIDTH: u32 = 5;
pub const CTRL_OEOVER: u32 = 14;
pub const CTRL_OEOVER_WIDTH: u32 = 2;

// RESETS.RESET and RESETS.RESET_DONE
pub const RESET_ADC: u32 = 0;
pub const RESET_IO_BANK0: u32 = 6;
pub const RESET_PADS_BANK0: u32 = 9;
pub const RESET_PLL_SYS: u32 = 14;
pub const RESET_PWM: u32 = 16;

// CLOCKS.CLK_ADC_CTRL, CLOCKS.CLK_PERI_CTRL and CLOCKS.CLK_SYS_CTRL
pub const CLK_SRC: u32 = 0;
pub const CLK_AUXSRC: u32 = 5;
pub const CLK_AUXSRC_WIDTH: u32 = 3;
pub const CLK_ENABLE: u32 = 11;

// ADC.CS and ADC.RESULT
pub const ADC_CS_EN: u32 = 0;
pub const ADC_CS_START_ONCE: u32 = 2;
pub const ADC_CS_ERR_STICKY: u32 = 10;
pub const ADC_CS_READY: u32 = 8;
pub const ADC_CS_AINSEL: u32 = 12;
pub const ADC_CS_AINSEL_WIDTH: u32 = 4;
pub const ADC_RESULT_WIDTH: u32 = 12;

// PWM.CHn_CSR, CHn_DIV, CHn_CC, CHn_TOP and CHn_CTR
pub const PWM_CSR_EN: u32 = 0;
pub const PWM_CSR_PH_CORRECT: u32 = 1;
pub const PWM_CSR_A_INV: u32 = 2;
pub const PWM_CSR_B_INV: u32 = 3;
pub const PWM_CSR_DIVMODE: u32 = 4;
pub const PWM_CSR_DIVMODE_WIDTH: u32 = 2;
pub const PWM_DIV_FRAC: u32 = 0;
pub const PWM_DIV_FRAC_WIDTH: u32 = 4;
pub const PWM_DIV_INT: u32 = 4;
pub const PWM_DIV_INT_WIDTH: u32 = 8;
pub const PWM_CC_A: u32 = 0;
pub const PWM_CC_B: u32 = 16;
pub const PWM_COUNT_WIDTH: u32 = 16;

// XOSC.CTRL, XOSC.STARTUP and XOSC.STATUS
pub const XOSC_CTRL_FREQ_RANGE: u32 = 0;
pub const XOSC_CTRL_ENABLE: u32 = 12;
pub const XOSC_CTRL_CODE_WIDTH: u32 = 12;
pub const XOSC_STARTUP_DELAY: u32 = 0;
pub const XOSC_STARTUP_DELAY_WIDTH: u32 = 14;
pub const XOSC_STATUS_STABLE: u32 = 31;

// PLL_SYS.CS, PLL_SYS.PWR, PLL_SYS.FBDIV_INT and PLL_SYS.PRIM
pub const PLL_CS_REFDIV: u32 = 0;
pub const PLL_CS_REFDIV_WIDTH: u32 = 6;
pub const PLL_CS_LOCK: u32 = 31;
pub const PLL_PWR_PD: u32 = 0;
pub const PLL_PWR_POSTDIVPD: u32 = 3;
pub const PLL_PWR_VCOPD: u32 = 5;
pub const PLL_FBDIV_INT: u32 = 0;
pub const PLL_FBDIV_INT_WIDTH: u32 = 12;
pub const PLL_PRIM_POSTDIV2: u32 = 12;
pub const PLL_PRIM_POSTDIV1: u32 = 16;
pub const PLL_PRIM_POSTDIV_WIDTH: u32 = 3;

} // verus!
