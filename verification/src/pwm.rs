//! The PWM helpers: the default slice configuration, phase-correct mode,
//! enabling a slice, routing a pin to PWM, and the duty cycles.

use vstd::prelude::*;

use crate::fields::{
    CTRL_FUNCSEL, CTRL_FUNCSEL_WIDTH, PAD_IE, PAD_ISO, PAD_OD, PWM_CC_A, PWM_CC_B,
    PWM_COUNT_WIDTH, PWM_CSR_A_INV, PWM_CSR_B_INV, PWM_CSR_DIVMODE, PWM_CSR_DIVMODE_WIDTH,
    PWM_CSR_EN, PWM_CSR_PH_CORRECT, PWM_DIV_FRAC, PWM_DIV_FRAC_WIDTH, PWM_DIV_INT,
    PWM_DIV_INT_WIDTH,
};
use crate::gpio::ctrl_with_function;
use crate::ops::{lemma_after_ends, lemma_after_modify, lemma_after_write, run, Reg, RegOp};
use crate::pac;
use crate::gpio::{bit, lemma_ctrl_with_function};
use crate::regs::{
    extract, flag, insert, lemma_flag_other, lemma_mask_small, lemma_read_field,
    lemma_same_outside_trans, lemma_set_flag, lemma_width_masks, modifies, modify_op,
    same_outside, set_flag, write_op, Update,
};

verus! {

/// The number of PWM slices.
pub const PWM_SLICES: usize = 12;

/// The read-modify-write of `reg` that writes `value` into one field.
fn modify_field(reg: Reg, spec: crate::regs::RegSpec, offset: u32, width: u32, value: u32) -> (r: RegOp)
    requires
        crate::regs::field_fits(offset, width),
        spec.one_to_modify == 0,
        spec.zero_to_modify == 0,
    ensures
        modifies(r, reg, |cur: u32| insert(cur, offset, width, value)),
{
    let m = Update::modify(spec);
    let u = m.field(offset, width, value);
    proof {
        assert forall|cur: u32| insert(cur, offset, width, value) == (cur & u.keep) | u.set by {
            assert(u.apply(cur) == insert(m.apply(cur), offset, width, value));
        }
    }
    modify_op(reg, u)
}

/// The plan of `pwm_set_default_config` for slice `id`.
pub open spec fn is_default_config(ops: Seq<RegOp>, id: usize) -> bool {
    &&& ops.len() == 10
    &&& modifies(ops[0], Reg::PwmCsr(id), |cur: u32| insert(cur, PWM_CSR_DIVMODE, PWM_CSR_DIVMODE_WIDTH, 0))
    &&& modifies(ops[1], Reg::PwmCsr(id), |cur: u32| set_flag(cur, PWM_CSR_PH_CORRECT, false))
    &&& modifies(ops[2], Reg::PwmDiv(id), |cur: u32| insert(cur, PWM_DIV_INT, PWM_DIV_INT_WIDTH, 1))
    &&& modifies(ops[3], Reg::PwmDiv(id), |cur: u32| insert(cur, PWM_DIV_FRAC, PWM_DIV_FRAC_WIDTH, 0))
    &&& modifies(ops[4], Reg::PwmCsr(id), |cur: u32| set_flag(cur, PWM_CSR_A_INV, false))
    &&& modifies(ops[5], Reg::PwmCsr(id), |cur: u32| set_flag(cur, PWM_CSR_B_INV, false))
    &&& ops[6] == (RegOp::Write { reg: Reg::PwmTop(id), value: insert(0xffff, 0, PWM_COUNT_WIDTH, 0xfffe) })
    &&& ops[7] == (RegOp::Write { reg: Reg::PwmCtr(id), value: insert(0, 0, PWM_COUNT_WIDTH, 0) })
    &&& modifies(ops[8], Reg::PwmCc(id), |cur: u32| insert(cur, PWM_CC_A, PWM_COUNT_WIDTH, 0))
    &&& modifies(ops[9], Reg::PwmCc(id), |cur: u32| insert(cur, PWM_CC_B, PWM_COUNT_WIDTH, 0))
}

/// The default configuration of a slice: free-running, not phase-correct,
/// divider 1, neither channel inverted, wrapping at 0xfffe (so that a compare
/// value of 0xffff means a duty of 100%), counter at zero, both duties 0%.
pub fn pwm_set_default_config(pwm_id: usize) -> (r: Vec<RegOp>)
    requires
        pwm_id < PWM_SLICES,
    ensures
        is_default_config(r@, pwm_id),
{
    let divmode = pac::pwm_divmode_div() as u32;
    let top = Update::write(pac::pwm_top_spec()).field(0, PWM_COUNT_WIDTH, 0xfffe);
    let ctr = Update::write(pac::pwm_ctr_spec()).field(0, PWM_COUNT_WIDTH, 0);
    vec![
        modify_field(Reg::PwmCsr(pwm_id), pac::pwm_csr_spec(), PWM_CSR_DIVMODE, PWM_CSR_DIVMODE_WIDTH, divmode),
        crate::gpio::modify_bit(Reg::PwmCsr(pwm_id), pac::pwm_csr_spec(), PWM_CSR_PH_CORRECT, false),
        modify_field(Reg::PwmDiv(pwm_id), pac::pwm_div_spec(), PWM_DIV_INT, PWM_DIV_INT_WIDTH, 1),
        modify_field(Reg::PwmDiv(pwm_id), pac::pwm_div_spec(), PWM_DIV_FRAC, PWM_DIV_FRAC_WIDTH, 0),
        crate::gpio::modify_bit(Reg::PwmCsr(pwm_id), pac::pwm_csr_spec(), PWM_CSR_A_INV, false),
        crate::gpio::modify_bit(Reg::PwmCsr(pwm_id), pac::pwm_csr_spec(), PWM_CSR_B_INV, false),
        write_op(Reg::PwmTop(pwm_id), top),
        write_op(Reg::PwmCtr(pwm_id), ctr),
        modify_field(Reg::PwmCc(pwm_id), pac::pwm_cc_spec(), PWM_CC_A, PWM_COUNT_WIDTH, 0),
        modify_field(Reg::PwmCc(pwm_id), pac::pwm_cc_spec(), PWM_CC_B, PWM_COUNT_WIDTH, 0),
    ]
}

/// Put a slice in phase-correct mode.
pub fn pwm_set_ph_correct(pwm_id: usize) -> (r: Vec<RegOp>)
    requires
        pwm_id < PWM_SLICES,
    ensures
        r@.len() == 1,
        modifies(r@[0], Reg::PwmCsr(pwm_id), |cur: u32| set_flag(cur, PWM_CSR_PH_CORRECT, true)),
{
    vec![crate::gpio::modify_bit(Reg::PwmCsr(pwm_id), pac::pwm_csr_spec(), PWM_CSR_PH_CORRECT, true)]
}

/// Enable a slice.
pub fn pwm_enable(pwm_id: usize) -> (r: Vec<RegOp>)
    requires
        pwm_id < PWM_SLICES,
    ensures
        r@.len() == 1,
        modifies(r@[0], Reg::PwmCsr(pwm_id), |cur: u32| set_flag(cur, PWM_CSR_EN, true)),
{
    vec![crate::gpio::modify_bit(Reg::PwmCsr(pwm_id), pac::pwm_csr_spec(), PWM_CSR_EN, true)]
}

/// The pad of a PWM pin before it is handed over: input enabled, output not
/// disabled; the rest as it was.
pub open spec fn pwm_pad(cur: u32) -> u32 {
    set_flag(set_flag(cur, PAD_IE, true), PAD_OD, false)
}

/// The plan of `pwm_config_io` for pin `pin`.
pub open spec fn is_pwm_config_io(ops: Seq<RegOp>, pin: usize) -> bool {
    &&& ops.len() == 3
    &&& modifies(ops[0], Reg::PadsGpio(pin), |cur: u32| pwm_pad(cur))
    &&& ops[1] == (RegOp::Write { reg: Reg::IoGpioCtrl(pin), value: ctrl_with_function(4) })
    &&& modifies(ops[2], Reg::PadsGpio(pin), |cur: u32| set_flag(cur, PAD_ISO, false))
}

/// Route a pin to PWM: enable its pad, select the PWM function, then remove
/// the pad's isolation now that a function is wired up.
pub fn pwm_config_io(pwm_pin: usize) -> (r: Vec<RegOp>)
    requires
        pwm_pin < 48,
    ensures
        is_pwm_config_io(r@, pwm_pin),
{
    let m = Update::modify(pac::pads_gpio_spec());
    let u1 = m.bit(PAD_IE, true);
    let u = u1.bit(PAD_OD, false);
    proof {
        assert forall|cur: u32| pwm_pad(cur) == (cur & u.keep) | u.set by {
            assert(u.apply(cur) == set_flag(u1.apply(cur), PAD_OD, false));
            assert(u1.apply(cur) == set_flag(m.apply(cur), PAD_IE, true));
            assert(m.apply(cur) == cur);
        }
    }
    let ctrl = Update::write_with_zero().field(CTRL_FUNCSEL, CTRL_FUNCSEL_WIDTH, pac::funcsel_code(pac::PinFunction::Pwm) as u32);
    vec![
        modify_op(Reg::PadsGpio(pwm_pin), u),
        write_op(Reg::IoGpioCtrl(pwm_pin), ctrl),
        crate::gpio::modify_bit(Reg::PadsGpio(pwm_pin), pac::pads_gpio_spec(), PAD_ISO, false),
    ]
}

/// The plan that sets the duty of channel A of slice `id`.
pub open spec fn is_set_duty_a(ops: Seq<RegOp>, id: usize, duty_cycle: u16) -> bool {
    &&& ops.len() == 1
    &&& modifies(ops[0], Reg::PwmCc(id), |cur: u32| insert(cur, PWM_CC_A, PWM_COUNT_WIDTH, duty_cycle as u32))
}

/// Set the duty of channel A of a slice (the compare value of channel A).
pub fn pwm_set_duty_cycle_a(pwm_id: usize, duty_cycle: u16) -> (r: Vec<RegOp>)
    requires
        pwm_id < PWM_SLICES,
    ensures
        is_set_duty_a(r@, pwm_id, duty_cycle),
{
    vec![modify_field(Reg::PwmCc(pwm_id), pac::pwm_cc_spec(), PWM_CC_A, PWM_COUNT_WIDTH, duty_cycle as u32)]
}

/// The plan that sets the duty of channel B of slice `id`.
pub open spec fn is_set_duty_b(ops: Seq<RegOp>, id: usize, duty_cycle: u16) -> bool {
    &&& ops.len() == 1
    &&& modifies(ops[0], Reg::PwmCc(id), |cur: u32| insert(cur, PWM_CC_B, PWM_COUNT_WIDTH, duty_cycle as u32))
}

/// Set the duty of channel B of a slice (the compare value of channel B).
pub fn pwm_set_duty_cycle_b(pwm_id: usize, duty_cycle: u16) -> (r: Vec<RegOp>)
    requires
        pwm_id < PWM_SLICES,
    ensures
        is_set_duty_b(r@, pwm_id, duty_cycle),
{
    vec![modify_field(Reg::PwmCc(pwm_id), pac::pwm_cc_spec(), PWM_CC_B, PWM_COUNT_WIDTH, duty_cycle as u32)]
}

/// The greatest useful duty of a slice whose `TOP` register reads `top`: the
/// wrap value plus one, saturating at 0xffff.
pub open spec fn max_duty(top: u32) -> int {
    if extract(top, 0, PWM_COUNT_WIDTH) + 1 > 0xffff {
        0xffff
    } else {
        extract(top, 0, PWM_COUNT_WIDTH) + 1
    }
}

/// The greatest useful duty of a slice, from its `TOP` register.
pub fn pwm_get_max_duty_cycle(top: u32) -> (r: u16)
    ensures
        r as int == max_duty(top),
        r as int == if top & 0xffff == 0xffff { 0xffff } else { (top & 0xffff) + 1 },
{
    proof {
        lemma_max_duty(top);
    }
    let wrap = top & 0xffff;
    assert(wrap <= 0xffff) by (bit_vector)
        requires
            wrap == top & 0xffff,
    ;
    (wrap as u16).saturating_add(1)
}

/// The greatest duty of a slice is one more than its 16-bit wrap value
/// (the low half of `TOP`), and 0xffff where the wrap value is 0xffff.
pub proof fn lemma_max_duty(top: u32)
    ensures
        extract(top, 0, PWM_COUNT_WIDTH) == top & 0xffff,
        top & 0xffff < 0xffff ==> max_duty(top) == (top & 0xffff) + 1,
        top & 0xffff == 0xffff ==> max_duty(top) == 0xffff,
{
    lemma_width_masks();
    assert((top >> 0u32) & 0xffffu32 == top & 0xffff && top & 0xffff <= 0xffff) by (bit_vector);
}


/// After `pwm_set_default_config`, the slice is free-running, not
/// phase-correct, undivided, with neither channel inverted, its counter at
/// zero and both duties at 0%; it wraps at 0xfffe, so that its greatest duty
/// is 0xffff. Whether it is enabled, and every other register, is as before.
pub proof fn lemma_default_config(regs: spec_fn(Reg) -> u32, ops: Seq<RegOp>, id: usize)
    requires
        is_default_config(ops, id),
    ensures
        extract(run(regs, ops)(Reg::PwmCsr(id)), PWM_CSR_DIVMODE, PWM_CSR_DIVMODE_WIDTH) == 0,
        !flag(run(regs, ops)(Reg::PwmCsr(id)), PWM_CSR_PH_CORRECT),
        !flag(run(regs, ops)(Reg::PwmCsr(id)), PWM_CSR_A_INV),
        !flag(run(regs, ops)(Reg::PwmCsr(id)), PWM_CSR_B_INV),
        flag(run(regs, ops)(Reg::PwmCsr(id)), PWM_CSR_EN) == flag(regs(Reg::PwmCsr(id)), PWM_CSR_EN),
        extract(run(regs, ops)(Reg::PwmDiv(id)), PWM_DIV_INT, PWM_DIV_INT_WIDTH) == 1,
        extract(run(regs, ops)(Reg::PwmDiv(id)), PWM_DIV_FRAC, PWM_DIV_FRAC_WIDTH) == 0,
        extract(run(regs, ops)(Reg::PwmTop(id)), 0, PWM_COUNT_WIDTH) == 0xfffe,
        max_duty(run(regs, ops)(Reg::PwmTop(id))) == 0xffff,
        extract(run(regs, ops)(Reg::PwmCtr(id)), 0, PWM_COUNT_WIDTH) == 0,
        extract(run(regs, ops)(Reg::PwmCc(id)), PWM_CC_A, PWM_COUNT_WIDTH) == 0,
        extract(run(regs, ops)(Reg::PwmCc(id)), PWM_CC_B, PWM_COUNT_WIDTH) == 0,
        forall|r: Reg|
            r != Reg::PwmCsr(id) && r != Reg::PwmDiv(id) && r != Reg::PwmTop(id) && r != Reg::PwmCtr(id)
                && r != Reg::PwmCc(id) ==> #[trigger] run(regs, ops)(r) == regs(r),
{
    lemma_after_ends(regs, ops);
    lemma_after_modify(regs, ops, 0, Reg::PwmCsr(id), |cur: u32| insert(cur, PWM_CSR_DIVMODE, PWM_CSR_DIVMODE_WIDTH, 0));
    lemma_after_modify(regs, ops, 1, Reg::PwmCsr(id), |cur: u32| set_flag(cur, PWM_CSR_PH_CORRECT, false));
    lemma_after_modify(regs, ops, 2, Reg::PwmDiv(id), |cur: u32| insert(cur, PWM_DIV_INT, PWM_DIV_INT_WIDTH, 1));
    lemma_after_modify(regs, ops, 3, Reg::PwmDiv(id), |cur: u32| insert(cur, PWM_DIV_FRAC, PWM_DIV_FRAC_WIDTH, 0));
    lemma_after_modify(regs, ops, 4, Reg::PwmCsr(id), |cur: u32| set_flag(cur, PWM_CSR_A_INV, false));
    lemma_after_modify(regs, ops, 5, Reg::PwmCsr(id), |cur: u32| set_flag(cur, PWM_CSR_B_INV, false));
    lemma_after_write(regs, ops, 6, Reg::PwmTop(id), insert(0xffff, 0, PWM_COUNT_WIDTH, 0xfffe));
    lemma_after_write(regs, ops, 7, Reg::PwmCtr(id), insert(0, 0, PWM_COUNT_WIDTH, 0));
    lemma_after_modify(regs, ops, 8, Reg::PwmCc(id), |cur: u32| insert(cur, PWM_CC_A, PWM_COUNT_WIDTH, 0));
    lemma_after_modify(regs, ops, 9, Reg::PwmCc(id), |cur: u32| insert(cur, PWM_CC_B, PWM_COUNT_WIDTH, 0));
    lemma_width_masks();
    lemma_mask_small(0, 1);
    lemma_mask_small(0, 2);
    lemma_mask_small(0, 4);
    lemma_mask_small(1, 8);
    lemma_mask_small(0, 16);
    lemma_mask_small(0xfffe, 16);
    // CSR: DIVMODE, then PH_CORRECT, A_INV, B_INV.
    let c0 = regs(Reg::PwmCsr(id));
    let c1 = insert(c0, PWM_CSR_DIVMODE, PWM_CSR_DIVMODE_WIDTH, 0);
    let c2 = set_flag(c1, PWM_CSR_PH_CORRECT, false);
    let c3 = set_flag(c2, PWM_CSR_A_INV, false);
    let c4 = set_flag(c3, PWM_CSR_B_INV, false);
    assert(run(regs, ops)(Reg::PwmCsr(id)) == c4);
    lemma_read_field(c0, PWM_CSR_DIVMODE, 2, 0, PWM_CSR_DIVMODE, 2);
    lemma_read_field(c1, PWM_CSR_PH_CORRECT, 1, 0, PWM_CSR_DIVMODE, 2);
    lemma_read_field(c2, PWM_CSR_A_INV, 1, 0, PWM_CSR_DIVMODE, 2);
    lemma_read_field(c3, PWM_CSR_B_INV, 1, 0, PWM_CSR_DIVMODE, 2);
    lemma_read_field(c1, PWM_CSR_PH_CORRECT, 1, 0, PWM_CSR_PH_CORRECT, 1);
    lemma_read_field(c2, PWM_CSR_A_INV, 1, 0, PWM_CSR_PH_CORRECT, 1);
    lemma_read_field(c3, PWM_CSR_B_INV, 1, 0, PWM_CSR_PH_CORRECT, 1);
    lemma_read_field(c2, PWM_CSR_A_INV, 1, 0, PWM_CSR_A_INV, 1);
    lemma_read_field(c3, PWM_CSR_B_INV, 1, 0, PWM_CSR_A_INV, 1);
    lemma_read_field(c3, PWM_CSR_B_INV, 1, 0, PWM_CSR_B_INV, 1);
    lemma_read_field(c0, PWM_CSR_DIVMODE, 2, 0, PWM_CSR_EN, 1);
    lemma_read_field(c1, PWM_CSR_PH_CORRECT, 1, 0, PWM_CSR_EN, 1);
    lemma_read_field(c2, PWM_CSR_A_INV, 1, 0, PWM_CSR_EN, 1);
    lemma_read_field(c3, PWM_CSR_B_INV, 1, 0, PWM_CSR_EN, 1);
    // DIV: INT, then FRAC.
    let d0 = regs(Reg::PwmDiv(id));
    let d1 = insert(d0, PWM_DIV_INT, PWM_DIV_INT_WIDTH, 1);
    assert(run(regs, ops)(Reg::PwmDiv(id)) == insert(d1, PWM_DIV_FRAC, PWM_DIV_FRAC_WIDTH, 0));
    lemma_read_field(d0, PWM_DIV_INT, 8, 1, PWM_DIV_INT, 8);
    lemma_read_field(d1, PWM_DIV_FRAC, 4, 0, PWM_DIV_INT, 8);
    lemma_read_field(d1, PWM_DIV_FRAC, 4, 0, PWM_DIV_FRAC, 4);
    // TOP and CTR.
    lemma_read_field(0xffff, 0, 16, 0xfffe, 0, 16);
    lemma_read_field(0, 0, 16, 0, 0, 16);
    // CC: A, then B.
    let a0 = regs(Reg::PwmCc(id));
    let a1 = insert(a0, PWM_CC_A, PWM_COUNT_WIDTH, 0);
    assert(run(regs, ops)(Reg::PwmCc(id)) == insert(a1, PWM_CC_B, PWM_COUNT_WIDTH, 0));
    lemma_read_field(a0, PWM_CC_A, 16, 0, PWM_CC_A, 16);
    lemma_read_field(a1, PWM_CC_B, 16, 0, PWM_CC_A, 16);
    lemma_read_field(a1, PWM_CC_B, 16, 0, PWM_CC_B, 16);
}

/// Setting the duty of channel A leaves channel B's duty, and every other
/// register, as it was; the duty reads back as set.
pub proof fn lemma_duty_a(regs: spec_fn(Reg) -> u32, ops: Seq<RegOp>, id: usize, duty_cycle: u16)
    requires
        is_set_duty_a(ops, id, duty_cycle),
    ensures
        extract(run(regs, ops)(Reg::PwmCc(id)), PWM_CC_A, PWM_COUNT_WIDTH) == duty_cycle,
        extract(run(regs, ops)(Reg::PwmCc(id)), PWM_CC_B, PWM_COUNT_WIDTH) == extract(regs(Reg::PwmCc(id)), PWM_CC_B, PWM_COUNT_WIDTH),
        forall|r: Reg| r != Reg::PwmCc(id) ==> #[trigger] run(regs, ops)(r) == regs(r),
{
    lemma_after_ends(regs, ops);
    lemma_after_modify(regs, ops, 0, Reg::PwmCc(id), |cur: u32| insert(cur, PWM_CC_A, PWM_COUNT_WIDTH, duty_cycle as u32));
    lemma_width_masks();
    lemma_mask_small(duty_cycle as u32, 16);
    let c = regs(Reg::PwmCc(id));
    lemma_read_field(c, PWM_CC_A, 16, duty_cycle as u32, PWM_CC_A, 16);
    lemma_read_field(c, PWM_CC_A, 16, duty_cycle as u32, PWM_CC_B, 16);
}

/// Setting the duty of channel B leaves channel A's duty, and every other
/// register, as it was; the duty reads back as set.
pub proof fn lemma_duty_b(regs: spec_fn(Reg) -> u32, ops: Seq<RegOp>, id: usize, duty_cycle: u16)
    requires
        is_set_duty_b(ops, id, duty_cycle),
    ensures
        extract(run(regs, ops)(Reg::PwmCc(id)), PWM_CC_B, PWM_COUNT_WIDTH) == duty_cycle,
        extract(run(regs, ops)(Reg::PwmCc(id)), PWM_CC_A, PWM_COUNT_WIDTH) == extract(regs(Reg::PwmCc(id)), PWM_CC_A, PWM_COUNT_WIDTH),
        forall|r: Reg| r != Reg::PwmCc(id) ==> #[trigger] run(regs, ops)(r) == regs(r),
{
    lemma_after_ends(regs, ops);
    lemma_after_modify(regs, ops, 0, Reg::PwmCc(id), |cur: u32| insert(cur, PWM_CC_B, PWM_COUNT_WIDTH, duty_cycle as u32));
    lemma_width_masks();
    lemma_mask_small(duty_cycle as u32, 16);
    let c = regs(Reg::PwmCc(id));
    lemma_read_field(c, PWM_CC_B, 16, duty_cycle as u32, PWM_CC_B, 16);
    lemma_read_field(c, PWM_CC_B, 16, duty_cycle as u32, PWM_CC_A, 16);
}


/// After `pwm_config_io`, the pin's pad has its input enabled, its output not
/// disabled and its isolation removed, its other pad controls as they were,
/// and its control selects PWM and nothing else; no other register changes.
pub proof fn lemma_pwm_config_io(regs: spec_fn(Reg) -> u32, ops: Seq<RegOp>, pin: usize)
    requires
        is_pwm_config_io(ops, pin),
    ensures
        flag(run(regs, ops)(Reg::PadsGpio(pin)), PAD_IE),
        !flag(run(regs, ops)(Reg::PadsGpio(pin)), PAD_OD),
        !flag(run(regs, ops)(Reg::PadsGpio(pin)), PAD_ISO),
        same_outside(run(regs, ops)(Reg::PadsGpio(pin)), regs(Reg::PadsGpio(pin)), bit(PAD_ISO) | (bit(PAD_OD) | bit(PAD_IE))),
        run(regs, ops)(Reg::IoGpioCtrl(pin)) == 4,
        forall|r: Reg| r != Reg::PadsGpio(pin) && r != Reg::IoGpioCtrl(pin) ==> #[trigger] run(regs, ops)(r) == regs(r),
{
    lemma_after_ends(regs, ops);
    lemma_after_modify(regs, ops, 0, Reg::PadsGpio(pin), |cur: u32| pwm_pad(cur));
    lemma_after_write(regs, ops, 1, Reg::IoGpioCtrl(pin), ctrl_with_function(4));
    lemma_after_modify(regs, ops, 2, Reg::PadsGpio(pin), |cur: u32| set_flag(cur, PAD_ISO, false));
    lemma_ctrl_with_function(4);
    let c = regs(Reg::PadsGpio(pin));
    let a = set_flag(c, PAD_IE, true);
    let b = set_flag(a, PAD_OD, false);
    let d = set_flag(b, PAD_ISO, false);
    lemma_set_flag(c, PAD_IE, true);
    lemma_set_flag(a, PAD_OD, false);
    lemma_set_flag(b, PAD_ISO, false);
    lemma_flag_other(a, PAD_OD, false, PAD_IE);
    lemma_flag_other(b, PAD_ISO, false, PAD_IE);
    lemma_flag_other(b, PAD_ISO, false, PAD_OD);
    lemma_same_outside_trans(b, a, c, bit(PAD_OD), bit(PAD_IE));
    lemma_same_outside_trans(d, b, c, bit(PAD_ISO), bit(PAD_OD) | bit(PAD_IE));
}

} // verus!
