use rp235x_sys::adc::{adc_channel, adc_clock_enable, adc_config_pads, adc_enable, adc_read_raw, adc_result};
use rp235x_sys::adc_standalone;
use rp235x_sys::gpio::{
    enable_clock, led_config_gpio, led_config_io, led_config_pads, led_set, reset_bring_down_io_bank0,
    reset_bring_down_pads_bank0, reset_bring_up_io_bank0, reset_bring_up_pads_bank0,
};
use rp235x_sys::kernel_cortex_m33::{clock_bring_up, clock_init, pll_init, xosc_init};
use rp235x_sys::kernel_hazard3::{
    adc_demo_continues, adc_pwm_demo_continues,
    cycles_per_ms, run_adc_pwm_demo, run_led_demo, run_pwm_demo, setup_adc, setup_led,
    setup_pwm, system_init,
};
use rp235x_sys::ops::{Reg, RegOp};
use rp235x_sys::pwm::{
    pwm_config_io, pwm_enable, pwm_get_max_duty_cycle, pwm_set_default_config, pwm_set_duty_cycle_a,
    pwm_set_duty_cycle_b, pwm_set_ph_correct,
};
use rp235x_sys::resets::resets_sys;
use std::collections::HashMap;

/// Runs a plan on a register file, as the hardware would see the writes.
fn run(regs: &mut HashMap<Reg, u32>, ops: &[RegOp]) {
    for op in ops {
        match *op {
            RegOp::Modify { reg, .. } => {
                let cur = *regs.get(&reg).unwrap_or(&0);
                regs.insert(reg, op.modified(cur));
            }
            RegOp::Write { reg, value } => match reg {
                Reg::SioGpioOutSet => {
                    let v = *regs.get(&Reg::SioGpioOut).unwrap_or(&0);
                    regs.insert(Reg::SioGpioOut, v | value);
                }
                Reg::SioGpioOutClr => {
                    let v = *regs.get(&Reg::SioGpioOut).unwrap_or(&0);
                    regs.insert(Reg::SioGpioOut, v & !value);
                }
                Reg::SioGpioOeSet => {
                    let v = *regs.get(&Reg::SioGpioOe).unwrap_or(&0);
                    regs.insert(Reg::SioGpioOe, v | value);
                }
                _ => {
                    regs.insert(reg, value);
                }
            },
            RegOp::WaitUntil { .. } | RegOp::Delay { .. } => {}
        }
    }
}

fn modified(op: &RegOp, cur: u32) -> u32 {
    assert!(matches!(op, RegOp::Modify { .. }));
    op.modified(cur)
}

// The blinky disassembly: GPIO22 made an output with 0x0040_0000 written to
// GPIO_OE_SET; its pad ANDed with -449 (0xffff_fe3f) and 64 added; 5 written
// to GPIO22_CTRL.

#[test]
fn led_output_enable_of_pin_22() {
    assert_eq!(
        led_config_gpio(22),
        vec![RegOp::Write { reg: Reg::SioGpioOeSet, value: 0x0040_0000 }]
    );
}

#[test]
fn led_pad_of_pin_22() {
    let ops = led_config_pads(22);
    assert_eq!(ops.len(), 1);
    match ops[0] {
        RegOp::Modify { reg, .. } => assert_eq!(reg, Reg::PadsGpio(22)),
        _ => panic!("not a modify"),
    }
    for cur in [0u32, 0x116, 0x1c0, 0xffff_ffff, 0x1234_5678] {
        assert_eq!(modified(&ops[0], cur), (cur & 0xffff_fe3f) + 64);
    }
}

#[test]
fn led_function_of_pin_22() {
    assert_eq!(led_config_io(22), vec![RegOp::Write { reg: Reg::IoGpioCtrl(22), value: 5 }]);
}

#[test]
fn led_set_uses_set_and_clear_aliases() {
    assert_eq!(led_set(22, true), vec![RegOp::Write { reg: Reg::SioGpioOutSet, value: 1 << 22 }]);
    assert_eq!(led_set(0, false), vec![RegOp::Write { reg: Reg::SioGpioOutClr, value: 1 }]);
    let mut regs = HashMap::new();
    regs.insert(Reg::SioGpioOut, 0x8000_0001u32);
    run(&mut regs, &led_set(22, true));
    assert_eq!(regs[&Reg::SioGpioOut], 0x8040_0001);
    run(&mut regs, &led_set(22, false));
    assert_eq!(regs[&Reg::SioGpioOut], 0x8000_0001);
}

#[test]
fn peripheral_clock_enable() {
    let ops = enable_clock();
    assert_eq!(ops.len(), 1);
    assert_eq!(modified(&ops[0], 0), 0x800);
    assert_eq!(modified(&ops[0], 0x0000_00e0), 0x8e0);
}

#[test]
fn io_and_pads_reset_bring_up_and_down() {
    let up = reset_bring_up_io_bank0();
    assert_eq!(up.len(), 2);
    assert_eq!(modified(&up[0], 0x1fff_ffff), 0x1fff_ffbf);
    assert_eq!(up[1], RegOp::WaitUntil { reg: Reg::ResetsResetDone, mask: 0x40, value: 0x40 });
    let down = reset_bring_down_io_bank0();
    assert_eq!(modified(&down[0], 0x1fff_ffbf), 0x1fff_ffff);
    let up = reset_bring_up_pads_bank0();
    assert_eq!(modified(&up[0], 0x1fff_ffff), 0x1fff_fdff);
    assert_eq!(up[1], RegOp::WaitUntil { reg: Reg::ResetsResetDone, mask: 0x200, value: 0x200 });
    let down = reset_bring_down_pads_bank0();
    assert_eq!(modified(&down[0], 0), 0x200);
}

#[test]
fn wait_reads_the_done_bit() {
    let up = reset_bring_up_io_bank0();
    assert!(!up[1].wait_is_over(0));
    assert!(!up[1].wait_is_over(0xffff_ffbf));
    assert!(up[1].wait_is_over(0x40));
    assert!(up[1].wait_is_over(0xffff_ffff));
}

#[test]
fn resets_sys_releases_pads_io_pwm_adc() {
    let ops = resets_sys();
    assert_eq!(ops.len(), 8);
    let mut regs = HashMap::new();
    regs.insert(Reg::ResetsReset, 0x1fff_ffffu32);
    run(&mut regs, &ops);
    assert_eq!(regs[&Reg::ResetsReset], 0x1ffe_fdbe);
    let waits: Vec<u32> = ops
        .iter()
        .filter_map(|op| match op {
            RegOp::WaitUntil { reg: Reg::ResetsResetDone, mask, .. } => Some(*mask),
            _ => None,
        })
        .collect();
    assert_eq!(waits, vec![1 << 9, 1 << 6, 1 << 16, 1]);
}

#[test]
fn adc_pad_and_control() {
    let ops = adc_config_pads(26);
    assert_eq!(ops.len(), 2);
    assert_eq!(modified(&ops[0], 0x116), 0x192);
    assert_eq!(modified(&ops[0], 0), 0x80);
    assert_eq!(ops[1], RegOp::Write { reg: Reg::IoGpioCtrl(26), value: 0x8000 });
}

#[test]
fn adc_clock_from_usb_pll() {
    let ops = adc_clock_enable();
    assert_eq!(modified(&ops[0], 0), 0x800);
    assert_eq!(modified(&ops[0], 0x0000_00e0), 0x800);
    assert_eq!(modified(&ops[0], 0x0003_0000), 0x0003_0800);
}

#[test]
fn adc_enable_writes_en_and_waits_ready() {
    assert_eq!(
        adc_enable(),
        vec![
            RegOp::Write { reg: Reg::AdcCs, value: 1 },
            RegOp::WaitUntil { reg: Reg::AdcCs, mask: 0x100, value: 0x100 },
        ]
    );
}

#[test]
fn standalone_adc_enable_clocks_and_releases_the_adc() {
    let ops = adc_standalone::adc_enable();
    assert_eq!(ops.len(), 5);
    let mut regs = HashMap::new();
    regs.insert(Reg::ResetsReset, 0x1fff_ffffu32);
    run(&mut regs, &ops);
    assert_eq!(regs[&Reg::ClkAdcCtrl], 0x800);
    assert_eq!(regs[&Reg::ResetsReset], 0x1fff_fffe);
    assert_eq!(regs[&Reg::AdcCs], 1);
    assert_eq!(ops[2], RegOp::WaitUntil { reg: Reg::ResetsResetDone, mask: 1, value: 1 });
}

#[test]
fn adc_channels_of_pins() {
    assert_eq!(adc_channel(26), 0);
    assert_eq!(adc_channel(27), 1);
    assert_eq!(adc_channel(28), 2);
    assert_eq!(adc_channel(29), 3);
}

#[test]
fn adc_conversion_start() {
    let ops = adc_read_raw(26);
    assert_eq!(ops.len(), 3);
    let ready = RegOp::WaitUntil { reg: Reg::AdcCs, mask: 0x100, value: 0x100 };
    assert_eq!(ops[0], ready);
    assert_eq!(ops[2], ready);
    assert_eq!(modified(&ops[1], 0x101), 0x105);
    // The sticky error bit is not written back.
    assert_eq!(modified(&ops[1], 0x501), 0x105);
    let ops = adc_read_raw(29);
    assert_eq!(modified(&ops[1], 0x0000_f101), 0x3105);
}

#[test]
fn adc_result_is_twelve_bits() {
    assert_eq!(adc_result(0), 0);
    assert_eq!(adc_result(0x0abc), 0x0abc);
    assert_eq!(adc_result(0xffff_ffff), 0x0fff);
}

#[test]
fn pwm_default_config_from_reset() {
    let ops = pwm_set_default_config(3);
    assert_eq!(ops.len(), 10);
    let mut regs = HashMap::new();
    regs.insert(Reg::PwmCsr(3), 0xffu32);
    regs.insert(Reg::PwmDiv(3), 0xff5u32);
    regs.insert(Reg::PwmCc(3), 0x1234_5678u32);
    run(&mut regs, &ops);
    // EN, PH_RET and PH_ADV kept; PH_CORRECT, A_INV, B_INV, DIVMODE cleared.
    assert_eq!(regs[&Reg::PwmCsr(3)], 0xc1);
    assert_eq!(regs[&Reg::PwmDiv(3)], 0x10);
    assert_eq!(regs[&Reg::PwmTop(3)], 0xfffe);
    assert_eq!(regs[&Reg::PwmCtr(3)], 0);
    assert_eq!(regs[&Reg::PwmCc(3)], 0);
    assert_eq!(pwm_get_max_duty_cycle(regs[&Reg::PwmTop(3)]), 0xffff);
}

#[test]
fn pwm_mode_enable_and_duties() {
    assert_eq!(modified(&pwm_set_ph_correct(0)[0], 0), 0x2);
    assert_eq!(modified(&pwm_enable(0)[0], 0x2), 0x3);
    assert_eq!(modified(&pwm_set_duty_cycle_a(0, 0xabcd)[0], 0x1234_5678), 0x1234_abcd);
    assert_eq!(modified(&pwm_set_duty_cycle_b(0, 0xabcd)[0], 0x1234_5678), 0xabcd_5678);
}

#[test]
fn pwm_max_duty() {
    assert_eq!(pwm_get_max_duty_cycle(0xfffe), 0xffff);
    assert_eq!(pwm_get_max_duty_cycle(0xffff), 0xffff);
    assert_eq!(pwm_get_max_duty_cycle(0), 1);
    assert_eq!(pwm_get_max_duty_cycle(0x0001_0005), 6);
}

#[test]
fn pwm_pin_routing() {
    let ops = pwm_config_io(0);
    assert_eq!(ops.len(), 3);
    assert_eq!(modified(&ops[0], 0x116), 0x156);
    assert_eq!(ops[1], RegOp::Write { reg: Reg::IoGpioCtrl(0), value: 4 });
    assert_eq!(modified(&ops[2], 0x156), 0x056);
}

#[test]
fn setup_led_of_pin_22() {
    let ops = setup_led(22);
    let mut regs = HashMap::new();
    regs.insert(Reg::PadsGpio(22), 0x116u32);
    run(&mut regs, &ops);
    assert_eq!(regs[&Reg::PadsGpio(22)], 0x56);
    assert_eq!(regs[&Reg::IoGpioCtrl(22)], 5);
    assert_eq!(regs[&Reg::SioGpioOe], 0x0040_0000);
}

#[test]
fn setup_adc_and_pwm() {
    let ops = setup_adc(26);
    assert_eq!(ops.len(), 4);
    assert_eq!(ops[2], RegOp::Write { reg: Reg::AdcCs, value: 1 });
    let ops = setup_pwm(0);
    assert_eq!(ops.len(), 15);
    let mut regs = HashMap::new();
    run(&mut regs, &ops);
    assert_eq!(regs[&Reg::PwmCsr(0)], 0x3);
    assert_eq!(regs[&Reg::PwmTop(0)], 0xfffe);
    assert_eq!(regs[&Reg::IoGpioCtrl(0)], 4);
}

#[test]
fn led_demo_blinks_five_times_and_ends_off() {
    let ops = run_led_demo(22);
    assert_eq!(ops.len(), 20);
    assert_eq!(ops[0], RegOp::Write { reg: Reg::SioGpioOutSet, value: 1 << 22 });
    assert_eq!(ops[1], RegOp::Delay { cycles: 12_030_000 });
    assert_eq!(ops[2], RegOp::Write { reg: Reg::SioGpioOutClr, value: 1 << 22 });
    assert_eq!(ops[3], RegOp::Delay { cycles: 12_030_000 });
    assert_eq!(ops[4], ops[0]);
    let mut regs = HashMap::new();
    regs.insert(Reg::SioGpioOut, 0x1u32);
    run(&mut regs, &ops);
    assert_eq!(regs[&Reg::SioGpioOut], 0x1);
}

fn duty_of(op: &RegOp) -> u32 {
    modified(op, 0xffff_0000) & 0xffff
}

#[test]
fn pwm_demo_fades_up_and_down_twice() {
    assert_eq!(run_pwm_demo(0, 0), Some(RegOp::Delay { cycles: 480 }));
    assert_eq!(duty_of(&run_pwm_demo(0, 1).unwrap()), 0);
    assert_eq!(duty_of(&run_pwm_demo(0, 3).unwrap()), 1);
    assert_eq!(duty_of(&run_pwm_demo(0, 131_071).unwrap()), 65535);
    assert_eq!(run_pwm_demo(0, 131_072), Some(RegOp::Delay { cycles: 480 }));
    assert_eq!(duty_of(&run_pwm_demo(0, 131_073).unwrap()), 65535);
    assert_eq!(duty_of(&run_pwm_demo(0, 262_143).unwrap()), 0);
    assert_eq!(run_pwm_demo(0, 262_144), Some(RegOp::Delay { cycles: 48_000_000 }));
    assert_eq!(run_pwm_demo(0, 262_145), Some(RegOp::Delay { cycles: 480 }));
    assert_eq!(duty_of(&run_pwm_demo(0, 262_146).unwrap()), 0);
    assert_eq!(run_pwm_demo(0, 524_289), Some(RegOp::Delay { cycles: 48_000_000 }));
    assert_eq!(run_pwm_demo(0, 524_290), None);
    assert_eq!(run_pwm_demo(0, u32::MAX), None);
}

#[test]
fn adc_pwm_round_sets_the_window_duty() {
    let ops = run_adc_pwm_demo(0, (10, 500, 490, 960));
    assert_eq!(ops.len(), 2);
    assert_eq!(duty_of(&ops[0]), 960);
    assert_eq!(ops[1], RegOp::Delay { cycles: 12_030_000 });
}

#[test]
fn cycles_per_ms_from_the_system_clock_source() {
    assert_eq!(cycles_per_ms(0), 6_000);
    assert_eq!(cycles_per_ms(0xe0), 6_000);
    assert_eq!(cycles_per_ms(1), 48_000);
    assert_eq!(cycles_per_ms(0x21), 48_000);
}

#[test]
fn hazard3_bring_up() {
    let ops = system_init();
    assert_eq!(ops.len(), 10);
    assert_eq!(ops[9], RegOp::Write { reg: Reg::AccessctrlGpioNsmask0, value: 0xffff_ffff });
    let mut regs = HashMap::new();
    regs.insert(Reg::ResetsReset, 0x1fff_ffffu32);
    run(&mut regs, &ops);
    assert_eq!(regs[&Reg::ClkAdcCtrl], 0x800);
    assert_eq!(regs[&Reg::ResetsReset], 0x1ffe_fdbe);
}

#[test]
fn crystal_oscillator_start() {
    assert_eq!(
        xosc_init(),
        vec![
            RegOp::Write { reg: Reg::XoscCtrl, value: 0xaa0 },
            RegOp::Write { reg: Reg::XoscStartup, value: 47 },
            RegOp::Write { reg: Reg::XoscCtrl, value: 0x00fa_b000 },
            RegOp::WaitUntil { reg: Reg::XoscStatus, mask: 0x8000_0000, value: 0x8000_0000 },
        ]
    );
}

#[test]
fn pll_at_150_mhz() {
    let ops = pll_init();
    assert_eq!(ops.len(), 9);
    let mut regs = HashMap::new();
    regs.insert(Reg::ResetsReset, 0u32);
    regs.insert(Reg::PllSysPwr, 0x2du32);
    run(&mut regs, &ops);
    assert_eq!(regs[&Reg::ResetsReset], 0);
    assert_eq!(regs[&Reg::PllSysCs], 1);
    assert_eq!(regs[&Reg::PllSysFbdivInt], 125);
    assert_eq!(regs[&Reg::PllSysPrim], 0x0005_2000);
    assert_eq!(regs[&Reg::PllSysPwr], 0x04);
    assert_eq!(ops[6], RegOp::WaitUntil { reg: Reg::PllSysCs, mask: 0x8000_0000, value: 0x8000_0000 });
    let refdiv = regs[&Reg::PllSysCs] & 0x3f;
    let fbdiv = regs[&Reg::PllSysFbdivInt] & 0xfff;
    let prim = regs[&Reg::PllSysPrim];
    let (pd1, pd2) = ((prim >> 16) & 7, (prim >> 12) & 7);
    assert_eq!(12_000_000u64 / refdiv as u64 * fbdiv as u64 / (pd1 * pd2) as u64, 150_000_000);
}

#[test]
fn clock_routing() {
    let ops = clock_init();
    assert_eq!(ops.len(), 3);
    assert_eq!(modified(&ops[0], 0x0000_0021), 0x1);
    assert_eq!(modified(&ops[1], 0), 0x1);
    assert_eq!(ops[2], RegOp::Write { reg: Reg::ClkPeriCtrl, value: 0x880 });
    assert_eq!(clock_bring_up().len(), 16);
}

#[test]
fn demo_round_counts() {
    assert!(adc_demo_continues(4));
    assert!(!adc_demo_continues(5));
    assert!(adc_pwm_demo_continues(1));
    assert!(!adc_pwm_demo_continues(2));
}
