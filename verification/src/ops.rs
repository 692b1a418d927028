use vstd::prelude::*;

verus! {

/// The registers that the drivers touch. A register of a numbered instance
/// (a GPIO pin, a PWM slice) carries the instance number.
#[derive(Clone, Copy, PartialEq, Eq, Structural, Debug, Hash)]
pub enum Reg {
    /// `PADS_BANK0.GPIOn`: the pad controls of a pin.
    PadsGpio(usize),
    /// `IO_BANK0.GPIOn_CTRL`: the function select and overrides of a pin.
    IoGpioCtrl(usize),
    /// `SIO.GPIO_OUT`: the output levels of pins 0 to 31.
    SioGpioOut,
    /// `SIO.GPIO_OE`: the output enables of pins 0 to 31.
    SioGpioOe,
    /// `SIO.GPIO_OE_SET`: writing sets the written bits of `GPIO_OE`.
    SioGpioOeSet,
    /// `SIO.GPIO_OUT_SET`: writing sets the written bits of `GPIO_OUT`.
    SioGpioOutSet,
    /// `SIO.GPIO_OUT_CLR`: writing clears the written bits of `GPIO_OUT`.
    SioGpioOutClr,
    /// `RESETS.RESET`: a set bit holds its peripheral in reset.
    ResetsReset,
    /// `RESETS.RESET_DONE`: a set bit tells that its peripheral is out of reset.
    ResetsResetDone,
    /// `CLOCKS.CLK_ADC_CTRL`.
    ClkAdcCtrl,
    /// `CLOCKS.CLK_PERI_CTRL`.
    ClkPeriCtrl,
    /// `CLOCKS.CLK_SYS_CTRL`.
    ClkSysCtrl,
    /// `ADC.CS`: control and status.
    AdcCs,
    /// `ADC.RESULT`: the last conversion.
    AdcResult,
    /// `PWM.CHn_CSR`: control and status of a slice.
    PwmCsr(usize),
    /// `PWM.CHn_DIV`: the clock divider of a slice.
    PwmDiv(usize),
    /// `PWM.CHn_CTR`: the counter of a slice.
    PwmCtr(usize),
    /// `PWM.CHn_CC`: the compare values of channels A and B of a slice.
    PwmCc(usize),
    /// `PWM.CHn_TOP`: the wrap value of a slice.
    PwmTop(usize),
    /// `XOSC.CTRL`.
    XoscCtrl,
    /// `XOSC.STARTUP`.
    XoscStartup,
    /// `XOSC.STATUS`.
    XoscStatus,
    /// `PLL_SYS.CS`.
    PllSysCs,
    /// `PLL_SYS.PWR`.
    PllSysPwr,
    /// `PLL_SYS.FBDIV_INT`.
    PllSysFbdivInt,
    /// `PLL_SYS.PRIM`.
    PllSysPrim,
    /// `ACCESSCTRL.GPIO_NSMASK0`.
    AccessctrlGpioNsmask0,
}

/// One step of a driver's work on the hardware.
#[derive(Clone, Copy, PartialEq, Eq, Structural, Debug)]
pub enum RegOp {
    /// Read the register, keep the bits in `keep`, set the bits in `set`, and
    /// write the result back.
    Modify { reg: Reg, keep: u32, set: u32 },
    /// Write `value` to the register.
    Write { reg: Reg, value: u32 },
    /// Read the register until the bits in `mask` read as `value`.
    WaitUntil { reg: Reg, mask: u32, value: u32 },
    /// Spin for `cycles` processor cycles.
    Delay { cycles: u32 },
}

impl RegOp {
    /// The value that a `Modify` writes back when the register held `cur`.
    pub fn modified(&self, cur: u32) -> (r: u32)
        requires
            self is Modify,
        ensures
            r == (cur & self->keep) | self->set,
    {
        match self {
            RegOp::Modify { keep, set, .. } => (cur & *keep) | *set,
            _ => 0,
        }
    }

    /// Whether a `WaitUntil` is over when its register reads `cur`.
    pub fn wait_is_over(&self, cur: u32) -> (r: bool)
        requires
            self is WaitUntil,
        ensures
            r == (cur & self->mask == self->WaitUntil_value),
    {
        match self {
            RegOp::WaitUntil { mask, value, .. } => cur & *mask == *value,
            _ => false,
        }
    }
}

/// The register file with `reg` holding `value`.
pub open spec fn assign(regs: spec_fn(Reg) -> u32, reg: Reg, value: u32) -> spec_fn(Reg) -> u32 {
    |r: Reg| if r == reg { value } else { regs(r) }
}

/// The register file after `value` was written to `reg`. A write to one of
/// SIO's set or clear aliases acts on the register that it aliases.
pub open spec fn written(regs: spec_fn(Reg) -> u32, reg: Reg, value: u32) -> spec_fn(Reg) -> u32 {
    match reg {
        Reg::SioGpioOutSet => assign(regs, Reg::SioGpioOut, regs(Reg::SioGpioOut) | value),
        Reg::SioGpioOutClr => assign(regs, Reg::SioGpioOut, regs(Reg::SioGpioOut) & !value),
        Reg::SioGpioOeSet => assign(regs, Reg::SioGpioOe, regs(Reg::SioGpioOe) | value),
        _ => assign(regs, reg, value),
    }
}

/// The register file after one step. Waits and delays write nothing.
///
/// The file holds, for each register, the word that software last wrote to
/// it (for a read-modify-write, the word computed from the file's previous
/// word), not what the hardware then reads back. They differ in these fields:
/// - write-one-to-clear: `ADC.CS.ERR_STICKY` (a written zero leaves a set bit
///   set), `XOSC.STATUS.BADWRITE`, `PLL_SYS.CS.LOCK_N`;
/// - self-clearing: `ADC.CS.START_ONCE` (cleared once the conversion starts);
/// - read-only status set by the hardware: `ADC.CS.READY`, `ADC.RESULT`,
///   `PLL_SYS.CS.LOCK`, `XOSC.STATUS.STABLE`, `RESETS.RESET_DONE`;
/// - code-guarded: `XOSC.CTRL.FREQ_RANGE` and `XOSC.CTRL.ENABLE` (a word with
///   an invalid code leaves the field's previous setting in force).
/// Laws stated over `run` are therefore about the words software writes.
pub open spec fn step(regs: spec_fn(Reg) -> u32, op: RegOp) -> spec_fn(Reg) -> u32 {
    match op {
        RegOp::Modify { reg, keep, set } => written(regs, reg, (regs(reg) & keep) | set),
        RegOp::Write { reg, value } => written(regs, reg, value),
        _ => regs,
    }
}

/// The register file after the steps in order.
pub open spec fn run(regs: spec_fn(Reg) -> u32, ops: Seq<RegOp>) -> spec_fn(Reg) -> u32
    decreases ops.len(),
{
    if ops.len() == 0 {
        regs
    } else {
        run(step(regs, ops[0]), ops.subrange(1, ops.len() as int))
    }
}

/// Running two plans one after the other is running their concatenation.
pub proof fn lemma_run_concat(regs: spec_fn(Reg) -> u32, a: Seq<RegOp>, b: Seq<RegOp>)
    ensures
        run(regs, a + b) == run(run(regs, a), b),
    decreases a.len(),
{
    if a.len() == 0 {
        assert(a + b =~= b);
    } else {
        let rest = a.subrange(1, a.len() as int);
        assert((a + b).subrange(1, (a + b).len() as int) =~= rest + b);
        lemma_run_concat(step(regs, a[0]), rest, b);
    }
}

/// A plan of one step.
pub proof fn lemma_run_one(regs: spec_fn(Reg) -> u32, op: RegOp)
    ensures
        run(regs, seq![op]) == step(regs, op),
{
    assert(seq![op].subrange(1, 1) =~= Seq::<RegOp>::empty());
    reveal_with_fuel(run, 2);
}


/// `reg` is a register that holds what is written to it (not one of SIO's
/// set or clear aliases).
pub open spec fn plain(reg: Reg) -> bool {
    !(reg is SioGpioOutSet || reg is SioGpioOutClr || reg is SioGpioOeSet)
}

/// A read-modify-write replaces the register's value by its function of it.
pub proof fn lemma_step_modifies(regs: spec_fn(Reg) -> u32, op: RegOp, reg: Reg, f: spec_fn(u32) -> u32)
    requires
        crate::regs::modifies(op, reg, f),
        plain(reg),
    ensures
        step(regs, op) == assign(regs, reg, f(regs(reg))),
{
    let cur = regs(reg);
    assert(f(cur) == (cur & op->keep) | op->set);
}

/// A plan of two steps.
pub proof fn lemma_run_two(regs: spec_fn(Reg) -> u32, a: RegOp, b: RegOp)
    ensures
        run(regs, seq![a, b]) == step(step(regs, a), b),
{
    lemma_run_concat(regs, seq![a], seq![b]);
    assert(seq![a] + seq![b] =~= seq![a, b]);
    lemma_run_one(regs, a);
    lemma_run_one(step(regs, a), b);
}


/// Running the first `i + 1` steps is running the first `i` and then step `i`.
pub proof fn lemma_run_prefix(regs: spec_fn(Reg) -> u32, ops: Seq<RegOp>, i: int)
    requires
        0 <= i < ops.len(),
    ensures
        run(regs, ops.subrange(0, i + 1)) == step(run(regs, ops.subrange(0, i)), ops[i]),
{
    lemma_run_concat(regs, ops.subrange(0, i), seq![ops[i]]);
    assert(ops.subrange(0, i) + seq![ops[i]] =~= ops.subrange(0, i + 1));
    lemma_run_one(run(regs, ops.subrange(0, i)), ops[i]);
}

/// The register file after the first `i` steps.
pub open spec fn after(regs: spec_fn(Reg) -> u32, ops: Seq<RegOp>, i: int) -> spec_fn(Reg) -> u32 {
    run(regs, ops.subrange(0, i))
}

/// The state after the first `i + 1` steps of a plan whose step `i` is a
/// read-modify-write of a plain register.
pub proof fn lemma_after_modify(regs: spec_fn(Reg) -> u32, ops: Seq<RegOp>, i: int, reg: Reg, f: spec_fn(u32) -> u32)
    requires
        0 <= i < ops.len(),
        crate::regs::modifies(ops[i], reg, f),
        plain(reg),
    ensures
        after(regs, ops, i + 1) == assign(after(regs, ops, i), reg, f(after(regs, ops, i)(reg))),
{
    lemma_run_prefix(regs, ops, i);
    lemma_step_modifies(after(regs, ops, i), ops[i], reg, f);
}

/// The state after the first `i + 1` steps of a plan whose step `i` writes a
/// plain register.
pub proof fn lemma_after_write(regs: spec_fn(Reg) -> u32, ops: Seq<RegOp>, i: int, reg: Reg, value: u32)
    requires
        0 <= i < ops.len(),
        ops[i] == (RegOp::Write { reg, value }),
        plain(reg),
    ensures
        after(regs, ops, i + 1) == assign(after(regs, ops, i), reg, value),
{
    lemma_run_prefix(regs, ops, i);
}

/// The state after the first `i + 1` steps of a plan whose step `i` only
/// waits or spins.
pub proof fn lemma_after_wait(regs: spec_fn(Reg) -> u32, ops: Seq<RegOp>, i: int)
    requires
        0 <= i < ops.len(),
        ops[i] is WaitUntil || ops[i] is Delay,
    ensures
        after(regs, ops, i + 1) == after(regs, ops, i),
{
    lemma_run_prefix(regs, ops, i);
}

/// The ends of a plan: nothing run, everything run.
pub proof fn lemma_after_ends(regs: spec_fn(Reg) -> u32, ops: Seq<RegOp>)
    ensures
        after(regs, ops, 0) == regs,
        after(regs, ops, ops.len() as int) == run(regs, ops),
{
    assert(ops.subrange(0, 0) =~= Seq::<RegOp>::empty());
    assert(ops.subrange(0, ops.len() as int) =~= ops);
}

} // verus!
