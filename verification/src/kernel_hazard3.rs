//! The board bring-up and demonstrations of the kernel on the Hazard3
//! (RISC-V) cores: the ADC, LED and PWM set-ups, the LED blink, the PWM
//! fade, and the ADC-driven PWM duty.

use vstd::prelude::*;

use crate::adc::{
    adc_clock_ctrl, adc_config_pads, adc_enable, adc_enable_cs, is_adc_config_pads,
    lemma_adc_clock_ctrl, wait_ready,
};
use crate::fields::{
    CLK_AUXSRC, CLK_AUXSRC_WIDTH, CLK_ENABLE, CLK_SRC, RESET_ADC, RESET_IO_BANK0, RESET_PADS_BANK0,
    RESET_PWM, PAD_IE, PAD_ISO, PAD_OD, PWM_CC_A, PWM_CC_B, PWM_COUNT_WIDTH, PWM_CSR_A_INV, PWM_CSR_B_INV,
    PWM_CSR_DIVMODE, PWM_CSR_DIVMODE_WIDTH, PWM_CSR_EN, PWM_CSR_PH_CORRECT,
};
use crate::gpio::{
    ctrl_with_function, lemma_clear_pin, lemma_ctrl_with_function, lemma_led_pad, lemma_set_pin,
    led_config_gpio, led_config_io, led_config_pads, led_pad, led_set, led_set_ops, pin_bit,
};
use crate::ops::{
    after, lemma_after_ends, lemma_after_modify, lemma_run_concat, lemma_run_prefix,
    lemma_step_modifies, run, step, Reg, RegOp,
};
use crate::pac;
use crate::pwm::{
    is_default_config, is_pwm_config_io, is_set_duty_a, lemma_default_config, lemma_pwm_config_io,
    max_duty, pwm_config_io, pwm_enable, pwm_set_default_config, pwm_set_duty_cycle_a,
    pwm_set_ph_correct, PWM_SLICES,
};
use crate::regs::{
    extract, flag, insert, lemma_flag_other, lemma_mask_small, lemma_read_field, lemma_set_flag,
    lemma_width_masks, modifies, same_outside, set_flag,
};
use crate::resets::{is_resets_sys, lemma_resets_sys, resets_sys};

verus! {

/// The plan of `setup_adc`.
pub open spec fn is_setup_adc(ops: Seq<RegOp>, adc_pin: usize) -> bool {
    &&& ops.len() == 4
    &&& is_adc_config_pads(ops.subrange(0, 2), adc_pin)
    &&& ops[2] == (RegOp::Write { reg: Reg::AdcCs, value: adc_enable_cs() })
    &&& ops[3] == wait_ready()
}

/// Prepare an analog pin and enable the ADC.
pub fn setup_adc(adc_pin: usize) -> (r: Vec<RegOp>)
    requires
        adc_pin < 48,
    ensures
        is_setup_adc(r@, adc_pin),
{
    let mut r = adc_config_pads(adc_pin);
    let mut en = adc_enable();
    let ghost a = r@;
    r.append(&mut en);
    assert(r@.subrange(0, 2) =~= a);
    r
}

/// The plan of `setup_led`.
pub open spec fn is_setup_led(ops: Seq<RegOp>, led_pin: usize) -> bool {
    &&& ops.len() == 3
    &&& modifies(ops[0], Reg::PadsGpio(led_pin), |cur: u32| led_pad(cur))
    &&& ops[1] == (RegOp::Write { reg: Reg::IoGpioCtrl(led_pin), value: ctrl_with_function(5) })
    &&& ops[2] == (RegOp::Write { reg: Reg::SioGpioOeSet, value: pin_bit(led_pin) })
}

/// Configure an LED pin: its pad, its function (SIO), and its output enable.
pub fn setup_led(led_pin: usize) -> (r: Vec<RegOp>)
    requires
        led_pin < 32,
    ensures
        is_setup_led(r@, led_pin),
{
    let mut r = led_config_pads(led_pin);
    let mut io = led_config_io(led_pin);
    let mut oe = led_config_gpio(led_pin);
    r.append(&mut io);
    r.append(&mut oe);
    r
}

/// The PWM slice that the set-up configures: GPIO0 drives PWM slice 0,
/// channel A.
pub const SETUP_PWM_SLICE: usize = 0;

/// The plan of `setup_pwm`.
pub open spec fn is_setup_pwm(ops: Seq<RegOp>, pwm_pin: usize) -> bool {
    &&& ops.len() == 15
    &&& is_default_config(ops.subrange(0, 10), SETUP_PWM_SLICE)
    &&& modifies(ops[10], Reg::PwmCsr(SETUP_PWM_SLICE), |cur: u32| set_flag(cur, PWM_CSR_PH_CORRECT, true))
    &&& modifies(ops[11], Reg::PwmCsr(SETUP_PWM_SLICE), |cur: u32| set_flag(cur, PWM_CSR_EN, true))
    &&& is_pwm_config_io(ops.subrange(12, 15), pwm_pin)
}

/// Configure PWM slice 0 (default configuration, phase-correct, enabled) and
/// route `pwm_pin` to PWM.
pub fn setup_pwm(pwm_pin: usize) -> (r: Vec<RegOp>)
    requires
        pwm_pin < 48,
    ensures
        is_setup_pwm(r@, pwm_pin),
{
    let pwm_id = SETUP_PWM_SLICE;
    let mut r = pwm_set_default_config(pwm_id);
    let mut ph = pwm_set_ph_correct(pwm_id);
    let mut en = pwm_enable(pwm_id);
    let mut io = pwm_config_io(pwm_pin);
    let ghost (a, d) = (r@, io@);
    r.append(&mut ph);
    r.append(&mut en);
    r.append(&mut io);
    assert(r@.subrange(0, 10) =~= a);
    assert(r@.subrange(12, 15) =~= d);
    r
}


/// After `setup_pwm`, slice 0 is enabled, phase-correct, free-running and
/// with neither channel inverted; its greatest duty is 0xffff and both duties
/// are 0%; the pin's pad is enabled and its control selects PWM.
pub proof fn lemma_setup_pwm(regs: spec_fn(Reg) -> u32, ops: Seq<RegOp>, pwm_pin: usize)
    requires
        pwm_pin < 48,
        is_setup_pwm(ops, pwm_pin),
    ensures
        flag(run(regs, ops)(Reg::PwmCsr(SETUP_PWM_SLICE)), PWM_CSR_EN),
        flag(run(regs, ops)(Reg::PwmCsr(SETUP_PWM_SLICE)), PWM_CSR_PH_CORRECT),
        !flag(run(regs, ops)(Reg::PwmCsr(SETUP_PWM_SLICE)), PWM_CSR_A_INV),
        !flag(run(regs, ops)(Reg::PwmCsr(SETUP_PWM_SLICE)), PWM_CSR_B_INV),
        extract(run(regs, ops)(Reg::PwmCsr(SETUP_PWM_SLICE)), PWM_CSR_DIVMODE, PWM_CSR_DIVMODE_WIDTH) == 0,
        max_duty(run(regs, ops)(Reg::PwmTop(SETUP_PWM_SLICE))) == 0xffff,
        extract(run(regs, ops)(Reg::PwmCc(SETUP_PWM_SLICE)), PWM_CC_A, PWM_COUNT_WIDTH) == 0,
        flag(run(regs, ops)(Reg::PadsGpio(pwm_pin)), PAD_IE),
        !flag(run(regs, ops)(Reg::PadsGpio(pwm_pin)), PAD_OD),
        !flag(run(regs, ops)(Reg::PadsGpio(pwm_pin)), PAD_ISO),
        run(regs, ops)(Reg::IoGpioCtrl(pwm_pin)) == 4,
{
    let id = SETUP_PWM_SLICE;
    let cfg = ops.subrange(0, 10);
    let mode = ops.subrange(10, 12);
    let io = ops.subrange(12, 15);
    assert(ops =~= cfg + mode + io);
    lemma_run_concat(regs, cfg + mode, io);
    lemma_run_concat(regs, cfg, mode);
    let s1 = run(regs, cfg);
    lemma_default_config(regs, cfg, id);
    assert(mode[0] == ops[10] && mode[1] == ops[11]);
    lemma_after_ends(s1, mode);
    lemma_after_modify(s1, mode, 0, Reg::PwmCsr(id), |cur: u32| set_flag(cur, PWM_CSR_PH_CORRECT, true));
    lemma_after_modify(s1, mode, 1, Reg::PwmCsr(id), |cur: u32| set_flag(cur, PWM_CSR_EN, true));
    let s2 = run(s1, mode);
    lemma_pwm_config_io(s2, io, pwm_pin);
    let c = s1(Reg::PwmCsr(id));
    let c1 = set_flag(c, PWM_CSR_PH_CORRECT, true);
    lemma_set_flag(c, PWM_CSR_PH_CORRECT, true);
    lemma_set_flag(c1, PWM_CSR_EN, true);
    lemma_flag_other(c1, PWM_CSR_EN, true, PWM_CSR_PH_CORRECT);
    lemma_flag_other(c, PWM_CSR_PH_CORRECT, true, PWM_CSR_A_INV);
    lemma_flag_other(c1, PWM_CSR_EN, true, PWM_CSR_A_INV);
    lemma_flag_other(c, PWM_CSR_PH_CORRECT, true, PWM_CSR_B_INV);
    lemma_flag_other(c1, PWM_CSR_EN, true, PWM_CSR_B_INV);
    lemma_read_field(c, PWM_CSR_PH_CORRECT, 1, 1, PWM_CSR_DIVMODE, 2);
    lemma_read_field(c1, PWM_CSR_EN, 1, 1, PWM_CSR_DIVMODE, 2);
    assert(run(regs, ops)(Reg::PwmCsr(id)) == s2(Reg::PwmCsr(id)));
    assert(run(regs, ops)(Reg::PwmTop(id)) == s1(Reg::PwmTop(id)));
    assert(run(regs, ops)(Reg::PwmCc(id)) == s1(Reg::PwmCc(id)));
}

/// The spin between LED changes of the blink: 12,030,000 cycles.
pub const BLINK_DELAY: u32 = 12_030_000;

/// The number of blinks of the LED demonstration.
pub const BLINKS: usize = 5;

/// Step `i` of the LED demonstration: on, wait, off, wait, five times.
pub open spec fn led_demo_op(led_pin: usize, i: int) -> RegOp {
    if i % 4 == 0 {
        led_set_ops(led_pin, true)[0]
    } else if i % 4 == 2 {
        led_set_ops(led_pin, false)[0]
    } else {
        RegOp::Delay { cycles: BLINK_DELAY }
    }
}

/// Blink an LED five times.
pub fn run_led_demo(led_pin: usize) -> (r: Vec<RegOp>)
    requires
        led_pin < 32,
    ensures
        r@.len() == 4 * BLINKS,
        forall|i: int| 0 <= i < r@.len() ==> r@[i] == led_demo_op(led_pin, i),
        forall|i: int| 0 <= i < r@.len() ==> #[trigger] r@[i] == if i % 4 == 0 {
            RegOp::Write { reg: Reg::SioGpioOutSet, value: pin_bit(led_pin) }
        } else if i % 4 == 2 {
            RegOp::Write { reg: Reg::SioGpioOutClr, value: pin_bit(led_pin) }
        } else {
            RegOp::Delay { cycles: BLINK_DELAY }
        },
{
    let mut r: Vec<RegOp> = Vec::new();
    let mut k: usize = 0;
    while k < BLINKS
        invariant
            k <= BLINKS,
            led_pin < 32,
            r@.len() == 4 * k,
            forall|i: int| 0 <= i < r@.len() ==> r@[i] == led_demo_op(led_pin, i),
        decreases BLINKS - k,
    {
        let on = led_set(led_pin, true);
        let off = led_set(led_pin, false);
        r.push(on[0]);
        r.push(RegOp::Delay { cycles: BLINK_DELAY });
        r.push(off[0]);
        r.push(RegOp::Delay { cycles: BLINK_DELAY });
        k = k + 1;
    }
    proof {
        assert(led_set_ops(led_pin, true)[0] == (RegOp::Write { reg: Reg::SioGpioOutSet, value: pin_bit(led_pin) }));
        assert(led_set_ops(led_pin, false)[0] == (RegOp::Write { reg: Reg::SioGpioOutClr, value: pin_bit(led_pin) }));
        assert forall|i: int| 0 <= i < r@.len() implies #[trigger] r@[i] == if i % 4 == 0 {
            RegOp::Write { reg: Reg::SioGpioOutSet, value: pin_bit(led_pin) }
        } else if i % 4 == 2 {
            RegOp::Write { reg: Reg::SioGpioOutClr, value: pin_bit(led_pin) }
        } else {
            RegOp::Delay { cycles: BLINK_DELAY }
        } by {
            assert(r@[i] == led_demo_op(led_pin, i));
        }
    }
    r
}

/// The steps of one fade of the PWM demonstration: a spin and a duty for each
/// duty from 0 up to 65535, the same from 65535 down to 0, then a long spin.
pub const FADE_STEPS: u32 = 4 * 65536 + 1;

/// The number of fades of the PWM demonstration.
pub const FADES: u32 = 2;

/// The spin before each duty change of a fade: 480 cycles.
pub const FADE_DELAY: u32 = 480;

/// The spin after each fade: 48,000,000 cycles.
pub const FADE_PAUSE: u32 = 48_000_000;

/// Step `n` of the PWM demonstration on slice `pwm_id`.
pub open spec fn is_pwm_demo_op(op: RegOp, pwm_id: usize, n: int) -> bool {
    let r = n % (FADE_STEPS as int);
    if r < 2 * 65536 {
        if r % 2 == 0 {
            op == (RegOp::Delay { cycles: FADE_DELAY })
        } else {
            modifies(op, Reg::PwmCc(pwm_id), |cur: u32| insert(cur, PWM_CC_A, PWM_COUNT_WIDTH, (r / 2) as u32))
        }
    } else if r < 4 * 65536 {
        if r % 2 == 0 {
            op == (RegOp::Delay { cycles: FADE_DELAY })
        } else {
            modifies(op, Reg::PwmCc(pwm_id), |cur: u32| insert(cur, PWM_CC_A, PWM_COUNT_WIDTH, (65535 - (r - 2 * 65536) / 2) as u32))
        }
    } else {
        op == (RegOp::Delay { cycles: FADE_PAUSE })
    }
}

/// Step `n` of the PWM demonstration, which fades the LED on channel A of a
/// slice up and down twice; `None` once it is over.
pub fn run_pwm_demo(pwm_id: usize, n: u32) -> (r: Option<RegOp>)
    requires
        pwm_id < PWM_SLICES,
    ensures
        n >= FADES * FADE_STEPS ==> r is None,
        n < FADES * FADE_STEPS ==> (r matches Some(op) && is_pwm_demo_op(op, pwm_id, n as int)),
        r matches Some(op) ==> (op is Delay || (op is Modify && op->Modify_reg == Reg::PwmCc(pwm_id))),
{
    if n >= FADES * FADE_STEPS {
        return None;
    }
    let r = n % FADE_STEPS;
    if r < 2 * 65536 {
        if r % 2 == 0 {
            Some(RegOp::Delay { cycles: FADE_DELAY })
        } else {
            let duty = (r / 2) as u16;
            let ops = pwm_set_duty_cycle_a(pwm_id, duty);
            Some(ops[0])
        }
    } else if r < 4 * 65536 {
        if r % 2 == 0 {
            Some(RegOp::Delay { cycles: FADE_DELAY })
        } else {
            let duty = (65535 - (r - 2 * 65536) / 2) as u16;
            let ops = pwm_set_duty_cycle_a(pwm_id, duty);
            Some(ops[0])
        }
    } else {
        Some(RegOp::Delay { cycles: FADE_PAUSE })
    }
}

/// Each step of the PWM demonstration on slice `pwm_id` changes only that
/// slice's compare register, and in it only channel A. Within a fade (step
/// `n` is step `r` of its fade), odd step `2j + 1` of the first half sets
/// channel A's duty to `j`, odd step `2j + 1` of the second half sets it to
/// `65535 - j`, and every other step changes nothing.
pub proof fn lemma_pwm_demo_step(regs: spec_fn(Reg) -> u32, op: RegOp, pwm_id: usize, n: int)
    requires
        0 <= n,
        is_pwm_demo_op(op, pwm_id, n),
    ensures
        forall|reg: Reg| reg != Reg::PwmCc(pwm_id) ==> #[trigger] step(regs, op)(reg) == regs(reg),
        extract(step(regs, op)(Reg::PwmCc(pwm_id)), PWM_CC_B, PWM_COUNT_WIDTH)
            == extract(regs(Reg::PwmCc(pwm_id)), PWM_CC_B, PWM_COUNT_WIDTH),
        ({
            let r = n % (FADE_STEPS as int);
            &&& r < 2 * 65536 && r % 2 == 1 ==> extract(step(regs, op)(Reg::PwmCc(pwm_id)), PWM_CC_A, PWM_COUNT_WIDTH) == r / 2
            &&& 2 * 65536 <= r < 4 * 65536 && r % 2 == 1 ==> extract(step(regs, op)(Reg::PwmCc(pwm_id)), PWM_CC_A, PWM_COUNT_WIDTH)
                == 65535 - (r - 2 * 65536) / 2
            &&& (r % 2 == 0 || r >= 4 * 65536) ==> step(regs, op) == regs
        }),
{
    let r = n % (FADE_STEPS as int);
    let id = Reg::PwmCc(pwm_id);
    if r < 4 * 65536 && r % 2 == 1 {
        let v: u32 = if r < 2 * 65536 { (r / 2) as u32 } else { (65535 - (r - 2 * 65536) / 2) as u32 };
        assert(v <= 0xffff);
        let f = |cur: u32| insert(cur, PWM_CC_A, PWM_COUNT_WIDTH, v);
        assert(modifies(op, id, f));
        lemma_step_modifies(regs, op, id, f);
        lemma_width_masks();
        lemma_mask_small(v, 16);
        let c = regs(id);
        lemma_read_field(c, PWM_CC_A, 16, v, PWM_CC_A, 16);
        lemma_read_field(c, PWM_CC_A, 16, v, PWM_CC_B, 16);
    } else {
        assert(op is Delay);
    }
}

/// The number of windows that the ADC demonstration samples.
pub const ADC_DEMO_ROUNDS: usize = 5;

/// Whether the ADC demonstration samples another window after `round` of
/// them.
pub fn adc_demo_continues(round: usize) -> (r: bool)
    ensures
        r == (round < ADC_DEMO_ROUNDS),
{
    round < ADC_DEMO_ROUNDS
}

/// The number of rounds of the ADC-driven PWM demonstration.
pub const ADC_PWM_ROUNDS: usize = 2;

/// Whether the ADC-driven PWM demonstration runs another round after `round`
/// of them.
pub fn adc_pwm_demo_continues(round: usize) -> (r: bool)
    ensures
        r == (round < ADC_PWM_ROUNDS),
{
    round < ADC_PWM_ROUNDS
}

/// One round of the ADC-driven PWM demonstration, once a window of samples
/// has been summarised: set the duty of channel A to the window's duty, then
/// spin.
pub fn run_adc_pwm_demo(pwm_id: usize, window: (u16, u16, u16, u16)) -> (r: Vec<RegOp>)
    requires
        pwm_id < PWM_SLICES,
    ensures
        r@.len() == 2,
        is_set_duty_a(r@.subrange(0, 1), pwm_id, window.3),
        r@[1] == (RegOp::Delay { cycles: BLINK_DELAY }),
{
    let mut r = pwm_set_duty_cycle_a(pwm_id, window.3);
    let ghost a = r@;
    r.push(RegOp::Delay { cycles: BLINK_DELAY });
    assert(r@.subrange(0, 1) =~= a);
    r
}

/// The processor cycles per millisecond: 6,000 while the system clock runs
/// from the reference clock (the reset state: started from flash on the
/// ring oscillator), 48,000 otherwise (the debugger moved it to the 48 MHz
/// USB clock). `clk_sys_ctrl` is what `CLK_SYS_CTRL` reads.
pub fn cycles_per_ms(clk_sys_ctrl: u32) -> (r: u32)
    ensures
        r == if !flag(clk_sys_ctrl, CLK_SRC) { 6_000u32 } else { 48_000u32 },
{
    proof {
        crate::regs::lemma_width_masks();
    }
    let src = clk_sys_ctrl & 1 != 0;
    assert(src == ((clk_sys_ctrl >> 0u32) & 1u32 == 1u32)) by (bit_vector)
        requires
            src == (clk_sys_ctrl & 1 != 0),
    ;
    if src == pac::sys_src_bit(pac::SysClockSource::ClkRef) {
        6_000
    } else {
        48_000
    }
}

/// The plan of `system_init`.
pub open spec fn is_system_init(ops: Seq<RegOp>) -> bool {
    &&& ops.len() == 10
    &&& modifies(ops[0], Reg::ClkAdcCtrl, |cur: u32| adc_clock_ctrl(cur))
    &&& is_resets_sys(ops.subrange(1, 9))
    &&& ops[9] == (RegOp::Write { reg: Reg::AccessctrlGpioNsmask0, value: 0xffff_ffff })
}

/// The kernel's bring-up: clock the ADC (before it leaves reset, or it does
/// not leave it), bring the system peripherals out of reset, and give
/// unprivileged code access to every GPIO of bank 0.
pub fn system_init() -> (r: Vec<RegOp>)
    ensures
        is_system_init(r@),
{
    let mut r = crate::adc::adc_clock_enable();
    let mut resets = resets_sys();
    let ghost b = resets@;
    r.append(&mut resets);
    r.push(RegOp::Write { reg: Reg::AccessctrlGpioNsmask0, value: 0xffff_ffff });
    assert(r@.subrange(1, 9) =~= b);
    r
}


/// After `setup_led`, the LED pin's pad has its input enabled, its output
/// not disabled and its isolation removed; its control selects SIO and
/// nothing else; its output is enabled, and no other pin's output enable
/// changed.
pub proof fn lemma_setup_led(regs: spec_fn(Reg) -> u32, ops: Seq<RegOp>, led_pin: usize)
    requires
        led_pin < 32,
        is_setup_led(ops, led_pin),
    ensures
        flag(run(regs, ops)(Reg::PadsGpio(led_pin)), PAD_IE),
        !flag(run(regs, ops)(Reg::PadsGpio(led_pin)), PAD_OD),
        !flag(run(regs, ops)(Reg::PadsGpio(led_pin)), PAD_ISO),
        run(regs, ops)(Reg::IoGpioCtrl(led_pin)) == 5,
        flag(run(regs, ops)(Reg::SioGpioOe), led_pin as u32),
        same_outside(run(regs, ops)(Reg::SioGpioOe), regs(Reg::SioGpioOe), pin_bit(led_pin)),
{
    lemma_after_ends(regs, ops);
    lemma_after_modify(regs, ops, 0, Reg::PadsGpio(led_pin), |cur: u32| led_pad(cur));
    lemma_run_prefix(regs, ops, 1);
    lemma_run_prefix(regs, ops, 2);
    lemma_led_pad(regs(Reg::PadsGpio(led_pin)));
    lemma_ctrl_with_function(5);
    lemma_set_pin(regs(Reg::SioGpioOe), led_pin);
}

/// After the first `i` steps of the LED demonstration, only `GPIO_OUT` has
/// changed, and only in the LED's bit; after an even number of pairs of
/// steps the LED is off.
proof fn lemma_led_demo_prefix(regs: spec_fn(Reg) -> u32, ops: Seq<RegOp>, led_pin: usize, i: int)
    requires
        led_pin < 32,
        0 <= i <= ops.len(),
        forall|k: int| 0 <= k < ops.len() ==> ops[k] == led_demo_op(led_pin, k),
    ensures
        same_outside(after(regs, ops, i)(Reg::SioGpioOut), regs(Reg::SioGpioOut), pin_bit(led_pin)),
        forall|r: Reg| r != Reg::SioGpioOut ==> #[trigger] after(regs, ops, i)(r) == regs(r),
        i > 0 && i % 4 == 0 ==> !flag(after(regs, ops, i)(Reg::SioGpioOut), led_pin as u32),
        i % 4 == 3 ==> !flag(after(regs, ops, i)(Reg::SioGpioOut), led_pin as u32),
        i > 0 ==> (flag(after(regs, ops, i)(Reg::SioGpioOut), led_pin as u32) <==> (i % 4 == 1 || i % 4 == 2)),
    decreases i,
{
    if i == 0 {
        lemma_after_ends(regs, ops);
    } else {
        lemma_led_demo_prefix(regs, ops, led_pin, i - 1);
        lemma_run_prefix(regs, ops, i - 1);
        let prev = after(regs, ops, i - 1);
        let out = prev(Reg::SioGpioOut);
        if (i - 1) % 4 == 0 {
            lemma_set_pin(out, led_pin);
        } else if (i - 1) % 4 == 2 {
            lemma_clear_pin(out, led_pin);
        }
    }
}

/// The LED demonstration lights the LED once per blink: after the first `i`
/// steps (`0 < i`) the LED is on exactly when the last step was a blink's
/// "on" or the wait after it, so it is on after step `4k + 1` and off after
/// step `4k + 3` for every blink `k`; only the LED's output bit changes.
pub proof fn lemma_led_demo_blinks(regs: spec_fn(Reg) -> u32, ops: Seq<RegOp>, led_pin: usize)
    requires
        led_pin < 32,
        ops.len() == 4 * BLINKS,
        forall|k: int| 0 <= k < ops.len() ==> ops[k] == led_demo_op(led_pin, k),
    ensures
        forall|i: int| 0 < i <= ops.len() ==> (flag(#[trigger] after(regs, ops, i)(Reg::SioGpioOut), led_pin as u32) <==> (i % 4 == 1 || i % 4 == 2)),
        forall|i: int| 0 <= i <= ops.len() ==> same_outside(#[trigger] after(regs, ops, i)(Reg::SioGpioOut), regs(Reg::SioGpioOut), pin_bit(led_pin)),
{
    assert forall|i: int| 0 < i <= ops.len() implies (flag(#[trigger] after(regs, ops, i)(Reg::SioGpioOut), led_pin as u32) <==> (i % 4 == 1 || i % 4 == 2)) by {
        lemma_led_demo_prefix(regs, ops, led_pin, i);
    }
    assert forall|i: int| 0 <= i <= ops.len() implies same_outside(#[trigger] after(regs, ops, i)(Reg::SioGpioOut), regs(Reg::SioGpioOut), pin_bit(led_pin)) by {
        lemma_led_demo_prefix(regs, ops, led_pin, i);
    }
}

/// After the LED demonstration the LED is off, no other pin's output
/// changed, and no other register was written.
pub proof fn lemma_led_demo_ends_off(regs: spec_fn(Reg) -> u32, ops: Seq<RegOp>, led_pin: usize)
    requires
        led_pin < 32,
        ops.len() == 4 * BLINKS,
        forall|k: int| 0 <= k < ops.len() ==> ops[k] == led_demo_op(led_pin, k),
    ensures
        !flag(run(regs, ops)(Reg::SioGpioOut), led_pin as u32),
        same_outside(run(regs, ops)(Reg::SioGpioOut), regs(Reg::SioGpioOut), pin_bit(led_pin)),
        forall|r: Reg| r != Reg::SioGpioOut ==> #[trigger] run(regs, ops)(r) == regs(r),
{
    lemma_led_demo_prefix(regs, ops, led_pin, ops.len() as int);
    lemma_after_ends(regs, ops);
}


/// After `system_init`, the ADC clock runs from the USB PLL and is enabled,
/// PADS_BANK0, IO_BANK0, PWM and ADC are out of reset, and every GPIO of
/// bank 0 is open to unprivileged code.
pub proof fn lemma_system_init(regs: spec_fn(Reg) -> u32, ops: Seq<RegOp>)
    requires
        is_system_init(ops),
    ensures
        extract(run(regs, ops)(Reg::ClkAdcCtrl), CLK_AUXSRC, CLK_AUXSRC_WIDTH) == 0,
        flag(run(regs, ops)(Reg::ClkAdcCtrl), CLK_ENABLE),
        !flag(run(regs, ops)(Reg::ResetsReset), RESET_PADS_BANK0),
        !flag(run(regs, ops)(Reg::ResetsReset), RESET_IO_BANK0),
        !flag(run(regs, ops)(Reg::ResetsReset), RESET_PWM),
        !flag(run(regs, ops)(Reg::ResetsReset), RESET_ADC),
        run(regs, ops)(Reg::AccessctrlGpioNsmask0) == 0xffff_ffff,
{
    let clk = ops.subrange(0, 1);
    let resets = ops.subrange(1, 9);
    let grant = ops.subrange(9, 10);
    assert(ops =~= clk + resets + grant);
    lemma_run_concat(regs, clk + resets, grant);
    lemma_run_concat(regs, clk, resets);
    assert(clk[0] == ops[0]);
    lemma_after_ends(regs, clk);
    lemma_after_modify(regs, clk, 0, Reg::ClkAdcCtrl, |cur: u32| adc_clock_ctrl(cur));
    let s1 = run(regs, clk);
    lemma_adc_clock_ctrl(regs(Reg::ClkAdcCtrl));
    lemma_resets_sys(s1, resets);
    let s2 = run(s1, resets);
    assert(grant[0] == ops[9]);
    crate::ops::lemma_run_one(s2, grant[0]);
    assert(grant =~= seq![grant[0]]);
}

} // verus!
