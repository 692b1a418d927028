//! The GPIO helpers: the peripheral clock, bringing the IO and pad banks out
//! of reset and back, and driving an LED pin through SIO.

use vstd::prelude::*;

use crate::fields::{
    CLK_ENABLE, CTRL_FUNCSEL, CTRL_FUNCSEL_WIDTH, PAD_IE, PAD_ISO, PAD_OD, RESET_IO_BANK0,
    RESET_PADS_BANK0,
};
use crate::ops::{lemma_run_concat, lemma_run_one, lemma_step_modifies, run, Reg, RegOp};
use crate::pac;
use crate::regs::{
    flag, insert, lemma_bit_mask, lemma_flag_other, lemma_same_outside_trans, lemma_set_flag,
    lemma_set_flag_undo, modifies, modify_op, same_outside, set_flag, write_op, RegSpec, Update,
};

verus! {

/// The single bit at `offset`.
pub open spec fn bit(offset: u32) -> u32 {
    1u32 << offset
}

/// The SIO mask of a pin.
pub open spec fn pin_bit(pin: usize) -> u32 {
    1u32 << (pin as u32)
}

/// The mask of pin `pin` in the SIO registers, which cover pins 0 to 31.
pub fn pin_mask(pin: usize) -> (r: u32)
    requires
        pin < 32,
    ensures
        r == pin_bit(pin),
{
    1u32 << pin as u32
}

/// The wait until the bit at `offset` of `reg` reads as one.
pub fn wait_for_bit(reg: Reg, offset: u32) -> (r: RegOp)
    requires
        offset < 32,
    ensures
        r == (RegOp::WaitUntil { reg, mask: bit(offset), value: bit(offset) }),
        forall|cur: u32|
            #![trigger cur & bit(offset)]
            (cur & r->mask == r->WaitUntil_value) <==> flag(cur, offset),
{
    proof {
        lemma_bit_mask(offset);
    }
    RegOp::WaitUntil { reg, mask: 1u32 << offset, value: 1u32 << offset }
}

/// The read-modify-write that sets (`true`) or clears one bit of `reg`.
pub fn modify_bit(reg: Reg, spec: RegSpec, offset: u32, value: bool) -> (r: RegOp)
    requires
        offset < 32,
        spec.one_to_modify == 0,
        spec.zero_to_modify == 0,
    ensures
        modifies(r, reg, |cur: u32| set_flag(cur, offset, value)),
{
    let m = Update::modify(spec);
    let u = m.bit(offset, value);
    proof {
        assert forall|cur: u32| set_flag(cur, offset, value) == (cur & u.keep) | u.set by {
            assert(u.apply(cur) == set_flag(m.apply(cur), offset, value));
        }
    }
    modify_op(reg, u)
}

/// Enable the peripheral clock: set `ENABLE` in `CLK_PERI_CTRL`, keeping the
/// rest of the register.
pub fn enable_clock() -> (r: Vec<RegOp>)
    ensures
        r@.len() == 1,
        modifies(r@[0], Reg::ClkPeriCtrl, |cur: u32| set_flag(cur, CLK_ENABLE, true)),
{
    let op = modify_bit(Reg::ClkPeriCtrl, pac::clk_peri_ctrl_spec(), CLK_ENABLE, true);
    vec![op]
}

/// The plan that brings the peripheral whose reset bit is at `offset` out of
/// reset: clear its bit in `RESET`, then wait until its bit in `RESET_DONE`
/// reads as one.
pub open spec fn is_bring_up(ops: Seq<RegOp>, offset: u32) -> bool {
    &&& ops.len() == 2
    &&& modifies(ops[0], Reg::ResetsReset, |cur: u32| set_flag(cur, offset, false))
    &&& ops[1] == (RegOp::WaitUntil { reg: Reg::ResetsResetDone, mask: bit(offset), value: bit(offset) })
}

/// The plan that holds the peripheral whose reset bit is at `offset` in
/// reset: set its bit in `RESET`.
pub open spec fn is_bring_down(ops: Seq<RegOp>, offset: u32) -> bool {
    &&& ops.len() == 1
    &&& modifies(ops[0], Reg::ResetsReset, |cur: u32| set_flag(cur, offset, true))
}

/// Bring a peripheral out of reset.
pub fn reset_bring_up(offset: u32) -> (r: Vec<RegOp>)
    requires
        offset < 32,
    ensures
        is_bring_up(r@, offset),
{
    let clear = modify_bit(Reg::ResetsReset, pac::resets_reset_spec(), offset, false);
    let wait = wait_for_bit(Reg::ResetsResetDone, offset);
    vec![clear, wait]
}

/// Hold a peripheral in reset.
pub fn reset_bring_down(offset: u32) -> (r: Vec<RegOp>)
    requires
        offset < 32,
    ensures
        is_bring_down(r@, offset),
{
    let set = modify_bit(Reg::ResetsReset, pac::resets_reset_spec(), offset, true);
    vec![set]
}

/// Bring IO_BANK0 out of reset and wait until it is out.
pub fn reset_bring_up_io_bank0() -> (r: Vec<RegOp>)
    ensures
        is_bring_up(r@, RESET_IO_BANK0),
{
    reset_bring_up(RESET_IO_BANK0)
}

/// Hold IO_BANK0 in reset.
pub fn reset_bring_down_io_bank0() -> (r: Vec<RegOp>)
    ensures
        is_bring_down(r@, RESET_IO_BANK0),
{
    reset_bring_down(RESET_IO_BANK0)
}

/// Bring PADS_BANK0 out of reset and wait until it is out.
pub fn reset_bring_up_pads_bank0() -> (r: Vec<RegOp>)
    ensures
        is_bring_up(r@, RESET_PADS_BANK0),
{
    reset_bring_up(RESET_PADS_BANK0)
}

/// Hold PADS_BANK0 in reset.
pub fn reset_bring_down_pads_bank0() -> (r: Vec<RegOp>)
    ensures
        is_bring_down(r@, RESET_PADS_BANK0),
{
    reset_bring_down(RESET_PADS_BANK0)
}

/// Make an LED pin an output: write its mask to `GPIO_OE_SET`.
pub fn led_config_gpio(led_pin: usize) -> (r: Vec<RegOp>)
    requires
        led_pin < 32,
    ensures
        r@ == seq![RegOp::Write { reg: Reg::SioGpioOeSet, value: pin_bit(led_pin) }],
{
    let mask = pin_mask(led_pin);
    vec![RegOp::Write { reg: Reg::SioGpioOeSet, value: mask }]
}

/// The pad of an LED pin: input enabled, output not disabled, isolation
/// removed; the other pad controls as they were.
pub open spec fn led_pad(cur: u32) -> u32 {
    set_flag(set_flag(set_flag(cur, PAD_IE, true), PAD_OD, false), PAD_ISO, false)
}

/// Configure the pad of an LED pin (`PADS_BANK0` has 48 pads).
pub fn led_config_pads(led_pin: usize) -> (r: Vec<RegOp>)
    requires
        led_pin < 48,
    ensures
        r@.len() == 1,
        modifies(r@[0], Reg::PadsGpio(led_pin), |cur: u32| led_pad(cur)),
{
    let m = Update::modify(pac::pads_gpio_spec());
    let u1 = m.bit(PAD_IE, true);
    let u2 = u1.bit(PAD_OD, false);
    let u = u2.bit(PAD_ISO, false);
    proof {
        assert forall|cur: u32| led_pad(cur) == (cur & u.keep) | u.set by {
            assert(u.apply(cur) == set_flag(u2.apply(cur), PAD_ISO, false));
            assert(u2.apply(cur) == set_flag(u1.apply(cur), PAD_OD, false));
            assert(u1.apply(cur) == set_flag(m.apply(cur), PAD_IE, true));
            assert(m.apply(cur) == cur);
        }
    }
    vec![modify_op(Reg::PadsGpio(led_pin), u)]
}

/// The control of a pin that `funcsel` selects: every field zero but the
/// function select.
pub open spec fn ctrl_with_function(funcsel: u8) -> u32 {
    insert(0, CTRL_FUNCSEL, CTRL_FUNCSEL_WIDTH, funcsel as u32)
}

/// Hand an LED pin to SIO: write its control register with every field zero
/// but the function select, which selects SIO.
pub fn led_config_io(led_pin: usize) -> (r: Vec<RegOp>)
    requires
        led_pin < 48,
    ensures
        r@ == seq![RegOp::Write { reg: Reg::IoGpioCtrl(led_pin), value: ctrl_with_function(5) }],
{
    let u = Update::write_with_zero().field(CTRL_FUNCSEL, CTRL_FUNCSEL_WIDTH, pac::funcsel_code(pac::PinFunction::Sio) as u32);
    vec![write_op(Reg::IoGpioCtrl(led_pin), u)]
}

pub open spec fn led_set_ops(led_pin: usize, led_on: bool) -> Seq<RegOp> {
    seq![RegOp::Write {
        reg: if led_on { Reg::SioGpioOutSet } else { Reg::SioGpioOutClr },
        value: pin_bit(led_pin),
    }]
}

/// Drive an LED pin high (`led_on`) or low: write its mask to `GPIO_OUT_SET`
/// or to `GPIO_OUT_CLR`.
pub fn led_set(led_pin: usize, led_on: bool) -> (r: Vec<RegOp>)
    requires
        led_pin < 32,
    ensures
        r@ == led_set_ops(led_pin, led_on),
{
    let mask = pin_mask(led_pin);
    if led_on {
        vec![RegOp::Write { reg: Reg::SioGpioOutSet, value: mask }]
    } else {
        vec![RegOp::Write { reg: Reg::SioGpioOutClr, value: mask }]
    }
}

/// An LED pin configured by `led_config_pads` has its input enabled, its
/// output not disabled and its isolation removed; no other pad control
/// changes.
pub proof fn lemma_led_pad(cur: u32)
    ensures
        flag(led_pad(cur), PAD_IE),
        !flag(led_pad(cur), PAD_OD),
        !flag(led_pad(cur), PAD_ISO),
        same_outside(led_pad(cur), cur, bit(PAD_IE) | bit(PAD_OD) | bit(PAD_ISO)),
{
    let a = set_flag(cur, PAD_IE, true);
    let b = set_flag(a, PAD_OD, false);
    let c = set_flag(b, PAD_ISO, false);
    lemma_set_flag(cur, PAD_IE, true);
    lemma_set_flag(a, PAD_OD, false);
    lemma_set_flag(b, PAD_ISO, false);
    lemma_flag_other(a, PAD_OD, false, PAD_IE);
    lemma_flag_other(b, PAD_ISO, false, PAD_IE);
    lemma_flag_other(b, PAD_ISO, false, PAD_OD);
    lemma_same_outside_trans(b, a, cur, bit(PAD_OD), bit(PAD_IE));
    lemma_same_outside_trans(c, b, cur, bit(PAD_ISO), bit(PAD_OD) | bit(PAD_IE));
    let (i, o, s) = (bit(PAD_IE), bit(PAD_OD), bit(PAD_ISO));
    assert(s | (o | i) == i | o | s) by (bit_vector);
}

/// `led_set` drives the pin high when `led_on` and low otherwise, and leaves
/// every other pin's output, and every other register, as it was.
pub proof fn lemma_led_set(regs: spec_fn(Reg) -> u32, led_pin: usize, led_on: bool)
    requires
        led_pin < 32,
    ensures
        flag(run(regs, led_set_ops(led_pin, led_on))(Reg::SioGpioOut), led_pin as u32) == led_on,
        same_outside(run(regs, led_set_ops(led_pin, led_on))(Reg::SioGpioOut), regs(Reg::SioGpioOut), pin_bit(led_pin)),
        forall|r: Reg| r != Reg::SioGpioOut ==> #[trigger] run(regs, led_set_ops(led_pin, led_on))(r) == regs(r),
{
    let op = led_set_ops(led_pin, led_on)[0];
    lemma_run_one(regs, op);
    if led_on {
        lemma_set_pin(regs(Reg::SioGpioOut), led_pin);
    } else {
        lemma_clear_pin(regs(Reg::SioGpioOut), led_pin);
    }
}

/// Setting a pin's bit (as a write to a SIO set alias does) makes it read as
/// set and changes no other bit.
pub proof fn lemma_set_pin(v: u32, pin: usize)
    requires
        pin < 32,
    ensures
        flag(v | pin_bit(pin), pin as u32),
        same_outside(v | pin_bit(pin), v, pin_bit(pin)),
{
    let p = pin as u32;
    let m = pin_bit(pin);
    assert(((v | m) >> p) & !(0xffff_ffffu32 << 1u32) == 1 && (v | m) & !m == v & !m)
        by (bit_vector)
        requires
            p < 32,
            m == 1u32 << p,
    ;
}

/// Clearing a pin's bit (as a write to a SIO clear alias does) makes it read
/// as clear and changes no other bit.
pub proof fn lemma_clear_pin(v: u32, pin: usize)
    requires
        pin < 32,
    ensures
        !flag(v & !pin_bit(pin), pin as u32),
        same_outside(v & !pin_bit(pin), v, pin_bit(pin)),
{
    let p = pin as u32;
    let m = pin_bit(pin);
    assert(((v & !m) >> p) & !(0xffff_ffffu32 << 1u32) == 0 && (v & !m) & !m == v & !m)
        by (bit_vector)
        requires
            p < 32,
            m == 1u32 << p,
    ;
}

/// Holding a peripheral in reset after bringing it out gives the `RESET`
/// register back the value it had while the peripheral was held in reset,
/// and touches no other register.
pub proof fn lemma_bring_down_after_up(
    regs: spec_fn(Reg) -> u32,
    up: Seq<RegOp>,
    down: Seq<RegOp>,
    offset: u32,
)
    requires
        offset < 32,
        is_bring_up(up, offset),
        is_bring_down(down, offset),
        flag(regs(Reg::ResetsReset), offset),
    ensures
        run(regs, up + down)(Reg::ResetsReset) == regs(Reg::ResetsReset),
        forall|r: Reg| r != Reg::ResetsReset ==> #[trigger] run(regs, up + down)(r) == regs(r),
{
    lemma_run_concat(regs, up, down);
    assert(up =~= seq![up[0], up[1]]);
    crate::ops::lemma_run_two(regs, up[0], up[1]);
    lemma_step_modifies(regs, up[0], Reg::ResetsReset, |cur: u32| set_flag(cur, offset, false));
    let mid = run(regs, up);
    assert(down =~= seq![down[0]]);
    lemma_run_one(mid, down[0]);
    lemma_step_modifies(mid, down[0], Reg::ResetsReset, |cur: u32| set_flag(cur, offset, true));
    lemma_set_flag_undo(regs(Reg::ResetsReset), offset, true);
}


/// The control that `led_config_io` and `pwm_config_io` write holds the
/// function select and nothing else: the written word is the code itself.
pub proof fn lemma_ctrl_with_function(funcsel: u8)
    requires
        funcsel < 32,
    ensures
        ctrl_with_function(funcsel) == funcsel as u32,
{
    crate::regs::lemma_width_masks();
    let f = funcsel as u32;
    let m = crate::regs::width_mask(5);
    assert((0u32 & !(m << 0u32)) | ((f & m) << 0u32) == f) by (bit_vector)
        requires
            f < 32,
            m == 0x1f,
    ;
}

} // verus!
