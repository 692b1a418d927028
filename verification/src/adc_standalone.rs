//! The stand-alone ADC driver, which brings the ADC out of reset itself.
//! Its pad, clock and conversion helpers are those of the `adc` module.

use vstd::prelude::*;

pub use crate::adc::{adc_clock_enable, adc_config_pads, adc_read_raw};
use crate::adc::{adc_clock_ctrl, adc_enable_cs, wait_ready};
use crate::fields::RESET_ADC;
use crate::gpio::{is_bring_up, reset_bring_up};
use crate::ops::{Reg, RegOp};
use crate::regs::modifies;

verus! {

/// The plan of the stand-alone `adc_enable`.
pub open spec fn is_adc_enable(ops: Seq<RegOp>) -> bool {
    &&& ops.len() == 5
    &&& modifies(ops[0], Reg::ClkAdcCtrl, |cur: u32| adc_clock_ctrl(cur))
    &&& is_bring_up(ops.subrange(1, 3), RESET_ADC)
    &&& ops[3] == (RegOp::Write { reg: Reg::AdcCs, value: adc_enable_cs() })
    &&& ops[4] == wait_ready()
}

/// Clock the ADC, bring it out of reset (the clock must run first, or it
/// does not come out), enable it and wait until it is ready.
pub fn adc_enable() -> (r: Vec<RegOp>)
    ensures
        is_adc_enable(r@),
{
    let mut r = adc_clock_enable();
    let mut up = reset_bring_up(RESET_ADC);
    let mut en = crate::adc::adc_enable();
    let ghost (a, b, c) = (r@, up@, en@);
    r.append(&mut up);
    r.append(&mut en);
    assert(r@.subrange(1, 3) =~= b);
    r
}

} // verus!
