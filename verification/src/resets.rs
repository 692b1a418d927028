//! Bringing the system peripherals out of reset.

use vstd::prelude::*;

use crate::fields::{RESET_ADC, RESET_IO_BANK0, RESET_PADS_BANK0, RESET_PWM};
use crate::gpio::{bit, is_bring_up, reset_bring_up};
use crate::ops::{assign, lemma_run_concat, lemma_run_two, lemma_step_modifies, run, Reg, RegOp};
use crate::regs::{flag, lemma_flag_other, lemma_same_outside_trans, lemma_set_flag, same_outside, set_flag};

verus! {

/// The plan of `resets_sys`: PADS_BANK0, IO_BANK0, PWM and ADC brought out of
/// reset in that order, each waited for before the next.
pub open spec fn is_resets_sys(ops: Seq<RegOp>) -> bool {
    &&& ops.len() == 8
    &&& is_bring_up(ops.subrange(0, 2), RESET_PADS_BANK0)
    &&& is_bring_up(ops.subrange(2, 4), RESET_IO_BANK0)
    &&& is_bring_up(ops.subrange(4, 6), RESET_PWM)
    &&& is_bring_up(ops.subrange(6, 8), RESET_ADC)
}

/// Bring the system peripherals out of reset and wait for each.
pub fn resets_sys() -> (r: Vec<RegOp>)
    ensures
        is_resets_sys(r@),
{
    let mut r = reset_bring_up(RESET_PADS_BANK0);
    let mut io = reset_bring_up(RESET_IO_BANK0);
    let mut pwm = reset_bring_up(RESET_PWM);
    let mut adc = reset_bring_up(RESET_ADC);
    let ghost (a, b, c, d) = (r@, io@, pwm@, adc@);
    r.append(&mut io);
    r.append(&mut pwm);
    r.append(&mut adc);
    assert(r@.subrange(0, 2) =~= a);
    assert(r@.subrange(2, 4) =~= b);
    assert(r@.subrange(4, 6) =~= c);
    assert(r@.subrange(6, 8) =~= d);
    r
}

/// What a bring-up plan does to the register file: it clears the
/// peripheral's reset bit, and nothing else.
pub proof fn lemma_bring_up_effect(regs: spec_fn(Reg) -> u32, ops: Seq<RegOp>, offset: u32)
    requires
        is_bring_up(ops, offset),
    ensures
        run(regs, ops) == assign(regs, Reg::ResetsReset, set_flag(regs(Reg::ResetsReset), offset, false)),
{
    assert(ops =~= seq![ops[0], ops[1]]);
    lemma_run_two(regs, ops[0], ops[1]);
    lemma_step_modifies(regs, ops[0], Reg::ResetsReset, |cur: u32| set_flag(cur, offset, false));
}

/// After `resets_sys`, PADS_BANK0, IO_BANK0, PWM and ADC are no longer held in
/// reset, every other peripheral's reset bit is as it was, and no other
/// register was written.
pub proof fn lemma_resets_sys(regs: spec_fn(Reg) -> u32, ops: Seq<RegOp>)
    requires
        is_resets_sys(ops),
    ensures
        !flag(run(regs, ops)(Reg::ResetsReset), RESET_PADS_BANK0),
        !flag(run(regs, ops)(Reg::ResetsReset), RESET_IO_BANK0),
        !flag(run(regs, ops)(Reg::ResetsReset), RESET_PWM),
        !flag(run(regs, ops)(Reg::ResetsReset), RESET_ADC),
        same_outside(
            run(regs, ops)(Reg::ResetsReset),
            regs(Reg::ResetsReset),
            bit(RESET_ADC) | bit(RESET_PWM) | bit(RESET_IO_BANK0) | bit(RESET_PADS_BANK0),
        ),
        forall|r: Reg| r != Reg::ResetsReset ==> #[trigger] run(regs, ops)(r) == regs(r),
{
    let p0 = ops.subrange(0, 2);
    let p1 = ops.subrange(2, 4);
    let p2 = ops.subrange(4, 6);
    let p3 = ops.subrange(6, 8);
    assert(ops =~= p0 + p1 + p2 + p3);
    lemma_run_concat(regs, p0 + p1 + p2, p3);
    lemma_run_concat(regs, p0 + p1, p2);
    lemma_run_concat(regs, p0, p1);
    let r0 = regs(Reg::ResetsReset);
    let s0 = run(regs, p0);
    let s1 = run(s0, p1);
    let s2 = run(s1, p2);
    lemma_bring_up_effect(regs, p0, RESET_PADS_BANK0);
    lemma_bring_up_effect(s0, p1, RESET_IO_BANK0);
    lemma_bring_up_effect(s1, p2, RESET_PWM);
    lemma_bring_up_effect(s2, p3, RESET_ADC);
    let r1 = set_flag(r0, RESET_PADS_BANK0, false);
    let r2 = set_flag(r1, RESET_IO_BANK0, false);
    let r3 = set_flag(r2, RESET_PWM, false);
    let r4 = set_flag(r3, RESET_ADC, false);
    lemma_set_flag(r0, RESET_PADS_BANK0, false);
    lemma_set_flag(r1, RESET_IO_BANK0, false);
    lemma_set_flag(r2, RESET_PWM, false);
    lemma_set_flag(r3, RESET_ADC, false);
    lemma_flag_other(r1, RESET_IO_BANK0, false, RESET_PADS_BANK0);
    lemma_flag_other(r2, RESET_PWM, false, RESET_PADS_BANK0);
    lemma_flag_other(r3, RESET_ADC, false, RESET_PADS_BANK0);
    lemma_flag_other(r2, RESET_PWM, false, RESET_IO_BANK0);
    lemma_flag_other(r3, RESET_ADC, false, RESET_IO_BANK0);
    lemma_flag_other(r3, RESET_ADC, false, RESET_PWM);
    lemma_same_outside_trans(r2, r1, r0, bit(RESET_IO_BANK0), bit(RESET_PADS_BANK0));
    lemma_same_outside_trans(r3, r2, r0, bit(RESET_PWM), bit(RESET_IO_BANK0) | bit(RESET_PADS_BANK0));
    lemma_same_outside_trans(
        r4,
        r3,
        r0,
        bit(RESET_ADC),
        bit(RESET_PWM) | (bit(RESET_IO_BANK0) | bit(RESET_PADS_BANK0)),
    );
    crate::regs::lemma_or_assoc(bit(RESET_ADC), bit(RESET_PWM), bit(RESET_IO_BANK0), bit(RESET_PADS_BANK0));
}

} // verus!
