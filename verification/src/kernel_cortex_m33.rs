//! The clock bring-up of the kernel on the Cortex-M33 cores: the 12 MHz
//! crystal oscillator, the system PLL at 150 MHz, and the clock routing.

use vstd::prelude::*;

use crate::fields::{
    CLK_AUXSRC, CLK_AUXSRC_WIDTH, CLK_ENABLE, CLK_SRC, PLL_CS_LOCK, PLL_CS_REFDIV,
    PLL_CS_REFDIV_WIDTH, PLL_FBDIV_INT, PLL_FBDIV_INT_WIDTH, PLL_PRIM_POSTDIV1,
    PLL_PRIM_POSTDIV2, PLL_PRIM_POSTDIV_WIDTH, PLL_PWR_PD, PLL_PWR_POSTDIVPD, PLL_PWR_VCOPD,
    RESET_PLL_SYS, XOSC_CTRL_CODE_WIDTH, XOSC_CTRL_ENABLE, XOSC_CTRL_FREQ_RANGE,
    XOSC_STARTUP_DELAY, XOSC_STARTUP_DELAY_WIDTH, XOSC_STATUS_STABLE,
};
use crate::gpio::{bit, is_bring_up, modify_bit, reset_bring_up, wait_for_bit};
use crate::ops::{
    after, lemma_after_ends, lemma_after_modify, lemma_after_wait, lemma_after_write, run, Reg,
    RegOp,
};
use crate::pac;
use crate::regs::{
    extract, flag, insert, lemma_mask_small, lemma_read_field, lemma_width_masks, modifies,
    modify_op, set_flag, write_op, Update,
};

verus! {

/// The startup delay of the crystal oscillator, in units of 256 crystal
/// periods: 47 units of 256 periods at 12 MHz are just over 1 ms.
pub const XOSC_STARTUP_UNITS: u32 = 47;

/// The plan of `xosc_init`.
pub open spec fn is_xosc_init(ops: Seq<RegOp>) -> bool {
    &&& ops.len() == 4
    &&& ops[0] == (RegOp::Write { reg: Reg::XoscCtrl, value: insert(0, XOSC_CTRL_FREQ_RANGE, XOSC_CTRL_CODE_WIDTH, 2720) })
    &&& ops[1] == (RegOp::Write { reg: Reg::XoscStartup, value: insert(0, XOSC_STARTUP_DELAY, XOSC_STARTUP_DELAY_WIDTH, XOSC_STARTUP_UNITS as u32) })
    &&& ops[2] == (RegOp::Write { reg: Reg::XoscCtrl, value: insert(0, XOSC_CTRL_ENABLE, XOSC_CTRL_CODE_WIDTH, 4011) })
    &&& ops[3] == (RegOp::WaitUntil { reg: Reg::XoscStatus, mask: bit(XOSC_STATUS_STABLE), value: bit(XOSC_STATUS_STABLE) })
}

/// Start the crystal oscillator for 12 MHz: select the 1-15 MHz range, set
/// the startup delay, enable it, and wait until it is stable. Each write of
/// `CTRL` starts from the register's reset value, so the enabling write
/// carries a zero range code (the PAC describes the range field: an invalid
/// setting retains the previous value).
pub fn xosc_init() -> (r: Vec<RegOp>)
    ensures
        is_xosc_init(r@),
{
    let range = Update::write(pac::xosc_ctrl_spec()).field(
        XOSC_CTRL_FREQ_RANGE,
        XOSC_CTRL_CODE_WIDTH,
        pac::xosc_freq_range_1_15mhz() as u32,
    );
    let startup = Update::write(pac::xosc_startup_spec()).field(
        XOSC_STARTUP_DELAY,
        XOSC_STARTUP_DELAY_WIDTH,
        XOSC_STARTUP_UNITS,
    );
    let enable = Update::write(pac::xosc_ctrl_spec()).field(
        XOSC_CTRL_ENABLE,
        XOSC_CTRL_CODE_WIDTH,
        pac::xosc_enable() as u32,
    );
    vec![
        write_op(Reg::XoscCtrl, range),
        write_op(Reg::XoscStartup, startup),
        write_op(Reg::XoscCtrl, enable),
        wait_for_bit(Reg::XoscStatus, XOSC_STATUS_STABLE),
    ]
}

/// The startup delay that `xosc_init` sets covers at least 1 ms of a 12 MHz
/// crystal (12,000 periods).
pub proof fn lemma_xosc_startup_covers_1ms(regs: spec_fn(Reg) -> u32, ops: Seq<RegOp>)
    requires
        is_xosc_init(ops),
    ensures
        extract(run(regs, ops)(Reg::XoscStartup), XOSC_STARTUP_DELAY, XOSC_STARTUP_DELAY_WIDTH) == XOSC_STARTUP_UNITS,
        extract(run(regs, ops)(Reg::XoscStartup), XOSC_STARTUP_DELAY, XOSC_STARTUP_DELAY_WIDTH) * 256 >= 12_000,
{
    lemma_after_ends(regs, ops);
    lemma_after_write(regs, ops, 0, Reg::XoscCtrl, ops[0]->Write_value);
    lemma_after_write(regs, ops, 1, Reg::XoscStartup, ops[1]->Write_value);
    lemma_after_write(regs, ops, 2, Reg::XoscCtrl, ops[2]->Write_value);
    lemma_after_wait(regs, ops, 3);
    lemma_width_masks();
    lemma_mask_small(XOSC_STARTUP_UNITS, 14);
    lemma_read_field(0, XOSC_STARTUP_DELAY, 14, XOSC_STARTUP_UNITS, XOSC_STARTUP_DELAY, 14);
}

/// The PLL settings: a 12 MHz reference divided by 1, a VCO at 125 times
/// that (1500 MHz), and post dividers 5 and 2, for 150 MHz.
pub const PLL_REFDIV: u32 = 1;
pub const PLL_FBDIV: u32 = 125;
pub const PLL_POSTDIV1: u32 = 5;
pub const PLL_POSTDIV2: u32 = 2;

/// The PLL's power-down bits after it was powered on: the PLL and its VCO on.
pub open spec fn pll_powered(cur: u32) -> u32 {
    set_flag(set_flag(cur, PLL_PWR_PD, false), PLL_PWR_VCOPD, false)
}

/// The plan of `pll_init`.
pub open spec fn is_pll_init(ops: Seq<RegOp>) -> bool {
    &&& ops.len() == 9
    &&& modifies(ops[0], Reg::ResetsReset, |cur: u32| set_flag(cur, RESET_PLL_SYS, true))
    &&& is_bring_up(ops.subrange(1, 3), RESET_PLL_SYS)
    &&& ops[3] == (RegOp::Write { reg: Reg::PllSysCs, value: insert(1, PLL_CS_REFDIV, PLL_CS_REFDIV_WIDTH, PLL_REFDIV) })
    &&& ops[4] == (RegOp::Write { reg: Reg::PllSysFbdivInt, value: insert(0, PLL_FBDIV_INT, PLL_FBDIV_INT_WIDTH, PLL_FBDIV) })
    &&& modifies(ops[5], Reg::PllSysPwr, |cur: u32| pll_powered(cur))
    &&& ops[6] == (RegOp::WaitUntil { reg: Reg::PllSysCs, mask: bit(PLL_CS_LOCK), value: bit(PLL_CS_LOCK) })
    &&& ops[7] == (RegOp::Write {
        reg: Reg::PllSysPrim,
        value: insert(insert(0x0007_7000, PLL_PRIM_POSTDIV1, PLL_PRIM_POSTDIV_WIDTH, PLL_POSTDIV1), PLL_PRIM_POSTDIV2, PLL_PRIM_POSTDIV_WIDTH, PLL_POSTDIV2),
    })
    &&& modifies(ops[8], Reg::PllSysPwr, |cur: u32| set_flag(cur, PLL_PWR_POSTDIVPD, false))
}

/// Run the system PLL at 150 MHz from the 12 MHz crystal: reset it, set the
/// reference and feedback dividers, power it on, wait for lock, set the post
/// dividers and power them on.
pub fn pll_init() -> (r: Vec<RegOp>)
    ensures
        is_pll_init(r@),
{
    let reset = modify_bit(Reg::ResetsReset, pac::resets_reset_spec(), RESET_PLL_SYS, true);
    let mut r = vec![reset];
    let mut up = reset_bring_up(RESET_PLL_SYS);
    let ghost b = up@;
    r.append(&mut up);
    let cs = Update::write(pac::pll_sys_cs_spec()).field(PLL_CS_REFDIV, PLL_CS_REFDIV_WIDTH, PLL_REFDIV);
    assert(cs.set == insert(1, PLL_CS_REFDIV, PLL_CS_REFDIV_WIDTH, PLL_REFDIV)) by {
        assert((1u32 & !0x4000_0000u32) | 0u32 == 1u32) by (bit_vector);
    }
    r.push(write_op(Reg::PllSysCs, cs));
    let fbdiv = Update::write(pac::pll_sys_fbdiv_int_spec()).field(PLL_FBDIV_INT, PLL_FBDIV_INT_WIDTH, PLL_FBDIV);
    r.push(write_op(Reg::PllSysFbdivInt, fbdiv));
    let m = Update::modify(pac::pll_sys_pwr_spec());
    let u1 = m.bit(PLL_PWR_PD, false);
    let pwr = u1.bit(PLL_PWR_VCOPD, false);
    proof {
        assert forall|cur: u32| pll_powered(cur) == (cur & pwr.keep) | pwr.set by {
            assert(pwr.apply(cur) == set_flag(u1.apply(cur), PLL_PWR_VCOPD, false));
            assert(u1.apply(cur) == set_flag(m.apply(cur), PLL_PWR_PD, false));
            assert(m.apply(cur) == cur);
        }
    }
    r.push(modify_op(Reg::PllSysPwr, pwr));
    r.push(wait_for_bit(Reg::PllSysCs, PLL_CS_LOCK));
    let prim = Update::write(pac::pll_sys_prim_spec())
        .field(PLL_PRIM_POSTDIV1, PLL_PRIM_POSTDIV_WIDTH, PLL_POSTDIV1)
        .field(PLL_PRIM_POSTDIV2, PLL_PRIM_POSTDIV_WIDTH, PLL_POSTDIV2);
    r.push(write_op(Reg::PllSysPrim, prim));
    r.push(modify_bit(Reg::PllSysPwr, pac::pll_sys_pwr_spec(), PLL_PWR_POSTDIVPD, false));
    assert(r@.subrange(1, 3) =~= b);
    r
}

/// The output of a PLL fed with `ref_hz`, from its control registers: the
/// reference divided by `REFDIV`, times `FBDIV_INT`, divided by both post
/// dividers.
pub open spec fn pll_output_hz(ref_hz: int, cs: u32, fbdiv_int: u32, prim: u32) -> int {
    let refdiv = extract(cs, PLL_CS_REFDIV, PLL_CS_REFDIV_WIDTH) as int;
    let fbdiv = extract(fbdiv_int, PLL_FBDIV_INT, PLL_FBDIV_INT_WIDTH) as int;
    let pd1 = extract(prim, PLL_PRIM_POSTDIV1, PLL_PRIM_POSTDIV_WIDTH) as int;
    let pd2 = extract(prim, PLL_PRIM_POSTDIV2, PLL_PRIM_POSTDIV_WIDTH) as int;
    ref_hz / refdiv * fbdiv / (pd1 * pd2)
}

/// After `pll_init`, the PLL is out of reset, powered, its VCO and post
/// dividers on, and its dividers make 150 MHz of the 12 MHz crystal
/// (VCO at 1500 MHz).
pub proof fn lemma_pll_150mhz(regs: spec_fn(Reg) -> u32, ops: Seq<RegOp>)
    requires
        is_pll_init(ops),
    ensures
        !flag(run(regs, ops)(Reg::ResetsReset), RESET_PLL_SYS),
        !flag(run(regs, ops)(Reg::PllSysPwr), PLL_PWR_PD),
        !flag(run(regs, ops)(Reg::PllSysPwr), PLL_PWR_VCOPD),
        !flag(run(regs, ops)(Reg::PllSysPwr), PLL_PWR_POSTDIVPD),
        extract(run(regs, ops)(Reg::PllSysCs), PLL_CS_REFDIV, PLL_CS_REFDIV_WIDTH) == PLL_REFDIV,
        extract(run(regs, ops)(Reg::PllSysFbdivInt), PLL_FBDIV_INT, PLL_FBDIV_INT_WIDTH) == PLL_FBDIV,
        extract(run(regs, ops)(Reg::PllSysPrim), PLL_PRIM_POSTDIV1, PLL_PRIM_POSTDIV_WIDTH) == PLL_POSTDIV1,
        extract(run(regs, ops)(Reg::PllSysPrim), PLL_PRIM_POSTDIV2, PLL_PRIM_POSTDIV_WIDTH) == PLL_POSTDIV2,
        12_000_000int / (PLL_REFDIV as int) * (PLL_FBDIV as int) == 1_500_000_000,
        pll_output_hz(
            12_000_000,
            run(regs, ops)(Reg::PllSysCs),
            run(regs, ops)(Reg::PllSysFbdivInt),
            run(regs, ops)(Reg::PllSysPrim),
        ) == 150_000_000,
{
    lemma_after_ends(regs, ops);
    lemma_after_modify(regs, ops, 0, Reg::ResetsReset, |cur: u32| set_flag(cur, RESET_PLL_SYS, true));
    let up = ops.subrange(1, 3);
    assert(ops[1] == up[0] && ops[2] == up[1]);
    lemma_after_modify(regs, ops, 1, Reg::ResetsReset, |cur: u32| set_flag(cur, RESET_PLL_SYS, false));
    lemma_after_wait(regs, ops, 2);
    lemma_after_write(regs, ops, 3, Reg::PllSysCs, ops[3]->Write_value);
    lemma_after_write(regs, ops, 4, Reg::PllSysFbdivInt, ops[4]->Write_value);
    lemma_after_modify(regs, ops, 5, Reg::PllSysPwr, |cur: u32| pll_powered(cur));
    lemma_after_wait(regs, ops, 6);
    lemma_after_write(regs, ops, 7, Reg::PllSysPrim, ops[7]->Write_value);
    lemma_after_modify(regs, ops, 8, Reg::PllSysPwr, |cur: u32| set_flag(cur, PLL_PWR_POSTDIVPD, false));
    lemma_width_masks();
    lemma_mask_small(PLL_REFDIV, 6);
    lemma_mask_small(PLL_FBDIV, 12);
    lemma_mask_small(PLL_POSTDIV1, 3);
    lemma_mask_small(PLL_POSTDIV2, 3);
    lemma_mask_small(0, 1);
    // RESET: set, then cleared.
    let r1 = set_flag(regs(Reg::ResetsReset), RESET_PLL_SYS, true);
    lemma_read_field(r1, RESET_PLL_SYS, 1, 0, RESET_PLL_SYS, 1);
    // PWR: PD and VCOPD cleared, then POSTDIVPD cleared.
    let p0 = after(regs, ops, 5)(Reg::PllSysPwr);
    let p1 = set_flag(p0, PLL_PWR_PD, false);
    let p2 = set_flag(p1, PLL_PWR_VCOPD, false);
    lemma_read_field(p0, PLL_PWR_PD, 1, 0, PLL_PWR_PD, 1);
    lemma_read_field(p1, PLL_PWR_VCOPD, 1, 0, PLL_PWR_PD, 1);
    lemma_read_field(p2, PLL_PWR_POSTDIVPD, 1, 0, PLL_PWR_PD, 1);
    lemma_read_field(p1, PLL_PWR_VCOPD, 1, 0, PLL_PWR_VCOPD, 1);
    lemma_read_field(p2, PLL_PWR_POSTDIVPD, 1, 0, PLL_PWR_VCOPD, 1);
    lemma_read_field(p2, PLL_PWR_POSTDIVPD, 1, 0, PLL_PWR_POSTDIVPD, 1);
    // The dividers.
    lemma_read_field(1, PLL_CS_REFDIV, 6, PLL_REFDIV, PLL_CS_REFDIV, 6);
    lemma_read_field(0, PLL_FBDIV_INT, 12, PLL_FBDIV, PLL_FBDIV_INT, 12);
    let q1 = insert(0x0007_7000, PLL_PRIM_POSTDIV1, 3, PLL_POSTDIV1);
    lemma_read_field(0x0007_7000, PLL_PRIM_POSTDIV1, 3, PLL_POSTDIV1, PLL_PRIM_POSTDIV1, 3);
    lemma_read_field(q1, PLL_PRIM_POSTDIV2, 3, PLL_POSTDIV2, PLL_PRIM_POSTDIV1, 3);
    lemma_read_field(q1, PLL_PRIM_POSTDIV2, 3, PLL_POSTDIV2, PLL_PRIM_POSTDIV2, 3);
    let a = run(regs, ops);
    assert(extract(a(Reg::PllSysCs), PLL_CS_REFDIV, PLL_CS_REFDIV_WIDTH) == 1);
    assert(extract(a(Reg::PllSysFbdivInt), PLL_FBDIV_INT, PLL_FBDIV_INT_WIDTH) == 125);
    assert(extract(a(Reg::PllSysPrim), PLL_PRIM_POSTDIV1, PLL_PRIM_POSTDIV_WIDTH) == 5);
    assert(extract(a(Reg::PllSysPrim), PLL_PRIM_POSTDIV2, PLL_PRIM_POSTDIV_WIDTH) == 2);
    assert(12_000_000int / 1int * 125int / (5int * 2int) == 150_000_000int) by (nonlinear_arith);
}

/// The system clock control after it was switched: the system PLL as
/// auxiliary source, then the auxiliary source selected.
pub open spec fn is_clock_init(ops: Seq<RegOp>) -> bool {
    &&& ops.len() == 3
    &&& modifies(ops[0], Reg::ClkSysCtrl, |cur: u32| insert(cur, CLK_AUXSRC, CLK_AUXSRC_WIDTH, 0))
    &&& modifies(ops[1], Reg::ClkSysCtrl, |cur: u32| set_flag(cur, CLK_SRC, true))
    &&& ops[2] == (RegOp::Write {
        reg: Reg::ClkPeriCtrl,
        value: set_flag(insert(0, CLK_AUXSRC, CLK_AUXSRC_WIDTH, 4), CLK_ENABLE, true),
    })
}

/// Run the system clock from the PLL (first selecting the PLL as auxiliary
/// source while the system clock still runs from the reference clock, then
/// switching to the auxiliary source glitchlessly), and route the crystal
/// (auxiliary source 4) to the peripheral clock, enabled.
pub fn clock_init() -> (r: Vec<RegOp>)
    ensures
        is_clock_init(r@),
{
    let spec = pac::clk_sys_ctrl_spec();
    let m = Update::modify(spec);
    let aux = m.field(CLK_AUXSRC, CLK_AUXSRC_WIDTH, pac::sys_auxsrc_pll_sys() as u32);
    proof {
        assert forall|cur: u32| insert(cur, CLK_AUXSRC, CLK_AUXSRC_WIDTH, 0) == (cur & aux.keep) | aux.set by {
            assert(aux.apply(cur) == insert(m.apply(cur), CLK_AUXSRC, CLK_AUXSRC_WIDTH, 0));
        }
    }
    let src = modify_bit(Reg::ClkSysCtrl, spec, CLK_SRC, pac::sys_src_bit(pac::SysClockSource::Aux));
    let peri = Update::write(pac::clk_peri_ctrl_spec()).field(CLK_AUXSRC, CLK_AUXSRC_WIDTH, 4).bit(CLK_ENABLE, true);
    vec![modify_op(Reg::ClkSysCtrl, aux), src, write_op(Reg::ClkPeriCtrl, peri)]
}

/// The processor cycles per millisecond once the system clock runs at
/// 150 MHz.
pub const CYCLES_PER_MS: u32 = 150_000;

/// The plan of `clock_bring_up`.
pub open spec fn is_clock_bring_up(ops: Seq<RegOp>) -> bool {
    &&& ops.len() == 16
    &&& is_xosc_init(ops.subrange(0, 4))
    &&& is_pll_init(ops.subrange(4, 13))
    &&& is_clock_init(ops.subrange(13, 16))
}

/// The kernel's bring-up on the Cortex-M33: the crystal, the PLL, the clocks.
pub fn clock_bring_up() -> (r: Vec<RegOp>)
    ensures
        is_clock_bring_up(r@),
{
    let mut r = xosc_init();
    let mut pll = pll_init();
    let mut clk = clock_init();
    let ghost (a, b, c) = (r@, pll@, clk@);
    r.append(&mut pll);
    r.append(&mut clk);
    assert(r@.subrange(0, 4) =~= a);
    assert(r@.subrange(4, 13) =~= b);
    assert(r@.subrange(13, 16) =~= c);
    r
}


/// After `clock_init`, the system clock's auxiliary source is the system PLL
/// and its glitchless mux selects the auxiliary source, the rest of its
/// control as it was; the peripheral clock runs from the crystal (auxiliary
/// source 4) and is enabled.
pub proof fn lemma_clock_init(regs: spec_fn(Reg) -> u32, ops: Seq<RegOp>)
    requires
        is_clock_init(ops),
    ensures
        extract(run(regs, ops)(Reg::ClkSysCtrl), CLK_AUXSRC, CLK_AUXSRC_WIDTH) == 0,
        flag(run(regs, ops)(Reg::ClkSysCtrl), CLK_SRC),
        extract(run(regs, ops)(Reg::ClkPeriCtrl), CLK_AUXSRC, CLK_AUXSRC_WIDTH) == 4,
        flag(run(regs, ops)(Reg::ClkPeriCtrl), CLK_ENABLE),
{
    lemma_after_ends(regs, ops);
    lemma_after_modify(regs, ops, 0, Reg::ClkSysCtrl, |cur: u32| insert(cur, CLK_AUXSRC, CLK_AUXSRC_WIDTH, 0));
    lemma_after_modify(regs, ops, 1, Reg::ClkSysCtrl, |cur: u32| set_flag(cur, CLK_SRC, true));
    lemma_after_write(regs, ops, 2, Reg::ClkPeriCtrl, ops[2]->Write_value);
    lemma_width_masks();
    lemma_mask_small(0, 3);
    lemma_mask_small(4, 3);
    lemma_mask_small(1, 1);
    let c = regs(Reg::ClkSysCtrl);
    let a = insert(c, CLK_AUXSRC, 3, 0);
    lemma_read_field(c, CLK_AUXSRC, 3, 0, CLK_AUXSRC, 3);
    lemma_read_field(a, CLK_SRC, 1, 1, CLK_AUXSRC, 3);
    lemma_read_field(a, CLK_SRC, 1, 1, CLK_SRC, 1);
    let p = insert(0, CLK_AUXSRC, 3, 4);
    lemma_read_field(0, CLK_AUXSRC, 3, 4, CLK_AUXSRC, 3);
    lemma_read_field(p, CLK_ENABLE, 1, 1, CLK_AUXSRC, 3);
    lemma_read_field(p, CLK_ENABLE, 1, 1, CLK_ENABLE, 1);
}

} // verus!
