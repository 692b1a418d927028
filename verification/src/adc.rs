//! The ADC helpers: preparing an analog pin, clocking and enabling the ADC,
//! one conversion, and the statistics of a window of conversions.

use vstd::prelude::*;

use crate::fields::{
    ADC_CS_AINSEL, ADC_CS_AINSEL_WIDTH, ADC_CS_EN, ADC_CS_ERR_STICKY, ADC_CS_READY, ADC_CS_START_ONCE,
    ADC_RESULT_WIDTH, CLK_AUXSRC, CLK_AUXSRC_WIDTH, CLK_ENABLE, CTRL_OEOVER, CTRL_OEOVER_WIDTH,
    PAD_IE, PAD_OD, PAD_PDE, PAD_PUE,
};
use crate::gpio::{bit, wait_for_bit};
use crate::ops::{Reg, RegOp};
use crate::pac;
use crate::regs::{
    extract, flag, insert, lemma_flag_other, lemma_read_field, lemma_same_outside_trans,
    lemma_set_flag, lemma_width_masks, modifies, modify_op, same_outside, set_flag, write_op,
    width_mask, Update,
};

verus! {

/// The pad of an analog pin: no pull-up, no pull-down, input disabled,
/// output disabled; the other pad controls as they were.
pub open spec fn adc_pad(cur: u32) -> u32 {
    set_flag(set_flag(set_flag(set_flag(cur, PAD_PUE, false), PAD_PDE, false), PAD_IE, false), PAD_OD, true)
}

/// The control of an analog pin: every field zero but the output-enable
/// override, which disables the output.
pub open spec fn adc_pin_ctrl() -> u32 {
    insert(0, CTRL_OEOVER, CTRL_OEOVER_WIDTH, 2)
}

/// The plan of `adc_config_pads`.
pub open spec fn is_adc_config_pads(ops: Seq<RegOp>, adc_pin: usize) -> bool {
    &&& ops.len() == 2
    &&& modifies(ops[0], Reg::PadsGpio(adc_pin), |cur: u32| adc_pad(cur))
    &&& ops[1] == (RegOp::Write { reg: Reg::IoGpioCtrl(adc_pin), value: adc_pin_ctrl() })
}

/// Prepare a pin for the ADC: turn off its pulls and its digital input and
/// output, then override its output enable to off.
pub fn adc_config_pads(adc_pin: usize) -> (r: Vec<RegOp>)
    requires
        adc_pin < 48,
    ensures
        is_adc_config_pads(r@, adc_pin),
{
    let m = Update::modify(pac::pads_gpio_spec());
    let u1 = m.bit(PAD_PUE, false);
    let u2 = u1.bit(PAD_PDE, false);
    let u3 = u2.bit(PAD_IE, false);
    let u = u3.bit(PAD_OD, true);
    proof {
        assert forall|cur: u32| adc_pad(cur) == (cur & u.keep) | u.set by {
            assert(u.apply(cur) == set_flag(u3.apply(cur), PAD_OD, true));
            assert(u3.apply(cur) == set_flag(u2.apply(cur), PAD_IE, false));
            assert(u2.apply(cur) == set_flag(u1.apply(cur), PAD_PDE, false));
            assert(u1.apply(cur) == set_flag(m.apply(cur), PAD_PUE, false));
            assert(m.apply(cur) == cur);
        }
    }
    let ctrl = Update::write_with_zero().field(CTRL_OEOVER, CTRL_OEOVER_WIDTH, pac::oeover_disable() as u32);
    vec![modify_op(Reg::PadsGpio(adc_pin), u), write_op(Reg::IoGpioCtrl(adc_pin), ctrl)]
}

/// The ADC clock control: the USB PLL as source, the clock enabled; the rest
/// as it was.
pub open spec fn adc_clock_ctrl(cur: u32) -> u32 {
    set_flag(insert(cur, CLK_AUXSRC, CLK_AUXSRC_WIDTH, 0), CLK_ENABLE, true)
}

/// Clock the ADC from the USB PLL (48 MHz) and enable its clock.
pub fn adc_clock_enable() -> (r: Vec<RegOp>)
    ensures
        r@.len() == 1,
        modifies(r@[0], Reg::ClkAdcCtrl, |cur: u32| adc_clock_ctrl(cur)),
{
    let m = Update::modify(pac::clk_adc_ctrl_spec());
    let u1 = m.field(CLK_AUXSRC, CLK_AUXSRC_WIDTH, pac::adc_auxsrc_pll_usb() as u32);
    let u = u1.bit(CLK_ENABLE, true);
    proof {
        assert forall|cur: u32| adc_clock_ctrl(cur) == (cur & u.keep) | u.set by {
            assert(u.apply(cur) == set_flag(u1.apply(cur), CLK_ENABLE, true));
            assert(u1.apply(cur) == insert(m.apply(cur), CLK_AUXSRC, CLK_AUXSRC_WIDTH, 0));
            assert(m.apply(cur) == cur);
        }
    }
    vec![modify_op(Reg::ClkAdcCtrl, u)]
}

/// The wait until the ADC is ready for a conversion (`CS.READY`).
pub open spec fn wait_ready() -> RegOp {
    RegOp::WaitUntil { reg: Reg::AdcCs, mask: bit(ADC_CS_READY), value: bit(ADC_CS_READY) }
}

/// The control word that enables the ADC: `CS` from its reset value with
/// `EN` set.
pub open spec fn adc_enable_cs() -> u32 {
    set_flag(0, ADC_CS_EN, true)
}

/// Enable the ADC and wait until it is ready.
pub fn adc_enable() -> (r: Vec<RegOp>)
    ensures
        r@ == seq![RegOp::Write { reg: Reg::AdcCs, value: adc_enable_cs() }, wait_ready()],
{
    let u = Update::write(pac::adc_cs_spec()).bit(ADC_CS_EN, true);
    vec![write_op(Reg::AdcCs, u), wait_for_bit(Reg::AdcCs, ADC_CS_READY)]
}

/// The ADC channel of a pin: GPIO26 is channel 0, up to GPIO29 for channel 3.
pub open spec fn channel_of(adc_pin: usize) -> u8 {
    (adc_pin - 26) as u8
}

/// The ADC channel of a pin (pins below 26 have none).
pub fn adc_channel(adc_pin: usize) -> (r: u8)
    requires
        adc_pin >= 26,
    ensures
        r == channel_of(adc_pin),
{
    (adc_pin - 26) as u8
}

/// The control word that starts one conversion on `chan`, from the current
/// `CS`: the sticky error bit is not written back (writing one would clear
/// it), the input mux selects the channel, and `START_ONCE` is set.
pub open spec fn start_conversion(cur: u32, chan: u8) -> u32 {
    set_flag(insert(cur & !0x0400u32, ADC_CS_AINSEL, ADC_CS_AINSEL_WIDTH, chan as u32), ADC_CS_START_ONCE, true)
}

/// The plan of `adc_read_raw`.
pub open spec fn is_adc_read(ops: Seq<RegOp>, adc_pin: usize) -> bool {
    &&& ops.len() == 3
    &&& ops[0] == wait_ready()
    &&& modifies(ops[1], Reg::AdcCs, |cur: u32| start_conversion(cur, channel_of(adc_pin)))
    &&& ops[2] == wait_ready()
}

/// One conversion on the channel of `adc_pin`: wait until the ADC is ready,
/// start a conversion, and wait until it is done. `ADC.RESULT` then holds it
/// (see `adc_result`).
pub fn adc_read_raw(adc_pin: usize) -> (r: Vec<RegOp>)
    requires
        adc_pin >= 26,
    ensures
        is_adc_read(r@, adc_pin),
{
    let chan = adc_channel(adc_pin);
    let spec = pac::adc_cs_spec();
    let m = Update::modify(spec);
    let u1 = m.field(ADC_CS_AINSEL, ADC_CS_AINSEL_WIDTH, chan as u32);
    let u = u1.bit(ADC_CS_START_ONCE, true);
    proof {
        assert forall|cur: u32| start_conversion(cur, chan) == (cur & u.keep) | u.set by {
            assert(u.apply(cur) == set_flag(u1.apply(cur), ADC_CS_START_ONCE, true));
            assert(u1.apply(cur) == insert(m.apply(cur), ADC_CS_AINSEL, ADC_CS_AINSEL_WIDTH, chan as u32));
            assert(m.apply(cur) == (cur & !0x0400u32) | 0u32);
            assert((cur & !0x0400u32) | 0u32 == cur & !0x0400u32) by (bit_vector);
        }
    }
    let wait0 = wait_for_bit(Reg::AdcCs, ADC_CS_READY);
    let wait1 = wait_for_bit(Reg::AdcCs, ADC_CS_READY);
    vec![wait0, modify_op(Reg::AdcCs, u), wait1]
}

/// The conversion that `ADC.RESULT` holds: its low twelve bits.
pub fn adc_result(result: u32) -> (r: u16)
    ensures
        r == extract(result, 0, ADC_RESULT_WIDTH),
        r < 4096,
{
    proof {
        crate::regs::lemma_width_masks();
    }
    let v = result & 0x0fff;
    assert(v < 4096 && (result >> 0u32) & 0x0fffu32 == v) by (bit_vector)
        requires
            v == result & 0x0fff,
    ;
    v as u16
}


/// The number of conversions in one window: at 48 MHz a window of 33 ms is
/// 1,584,000 cycles, and one conversion takes 96 of them.
pub const SAMPLES_PER_WINDOW: usize = 16_000;

/// A window's conversions fit in 33 ms at 48 MHz: 96 cycles each.
pub proof fn lemma_window_fits_33ms()
    ensures
        SAMPLES_PER_WINDOW * 96 <= 48_000 * 33,
{
}

/// The least of the samples, `u16::MAX` for none.
pub open spec fn seq_min(s: Seq<u16>) -> u16
    decreases s.len(),
{
    if s.len() == 0 {
        u16::MAX
    } else if s.last() < seq_min(s.drop_last()) {
        s.last()
    } else {
        seq_min(s.drop_last())
    }
}

/// The greatest of the samples, zero for none.
pub open spec fn seq_max(s: Seq<u16>) -> u16
    decreases s.len(),
{
    if s.len() == 0 {
        0
    } else if s.last() > seq_max(s.drop_last()) {
        s.last()
    } else {
        seq_max(s.drop_last())
    }
}

/// The PWM duty that a peak-to-peak amplitude gives: the amplitude less 250
/// counts of noise, times four, clamped to `0..=65535`.
pub open spec fn duty_of(peak_to_peak: u16) -> u16 {
    let x = (peak_to_peak - 250) * 4;
    if x < 0 {
        0
    } else if x > 65535 {
        65535
    } else {
        x as u16
    }
}

/// The summary of a window: least sample, greatest sample, peak-to-peak
/// amplitude and duty.
pub open spec fn summary_of(s: Seq<u16>) -> (u16, u16, u16, u16) {
    let p = (seq_max(s) - seq_min(s)) as u16;
    (seq_min(s), seq_max(s), p, duty_of(p))
}

/// The duty that a peak-to-peak amplitude gives.
pub fn duty_from_peak_to_peak(peak_to_peak: u16) -> (r: u16)
    ensures
        r == duty_of(peak_to_peak),
        r as int == if (peak_to_peak as int - 250) * 4 < 0 {
            0
        } else if (peak_to_peak as int - 250) * 4 > 65535 {
            65535
        } else {
            (peak_to_peak as int - 250) * 4
        },
{
    let x: i32 = (peak_to_peak as i32 - 250) * 4;
    if x < 0 {
        0
    } else if x > 65535 {
        65535
    } else {
        x as u16
    }
}

/// The samples of a window as they come in, with their least and greatest.
pub struct AdcWindow {
    min: u16,
    max: u16,
    count: usize,
    samples: Ghost<Seq<u16>>,
}

impl View for AdcWindow {
    type V = Seq<u16>;

    closed spec fn view(&self) -> Seq<u16> {
        self.samples@
    }
}

impl AdcWindow {
    #[verifier::type_invariant]
    closed spec fn inv(self) -> bool {
        &&& self.min == seq_min(self.samples@)
        &&& self.max == seq_max(self.samples@)
        &&& self.count as int == if self.samples@.len() < SAMPLES_PER_WINDOW {
            self.samples@.len() as int
        } else {
            SAMPLES_PER_WINDOW as int
        }
    }

    /// A window with no sample yet.
    pub fn new() -> (r: AdcWindow)
        ensures
            r@ == Seq::<u16>::empty(),
    {
        AdcWindow { min: u16::MAX, max: 0, count: 0, samples: Ghost(Seq::empty()) }
    }

    /// Add one sample.
    pub fn record(&mut self, signal: u16)
        ensures
            final(self)@ == old(self)@.push(signal),
    {
        proof {
            use_type_invariant(&*self);
        }
        let ghost s = self.samples@.push(signal);
        assert(s.drop_last() =~= self.samples@);
        let mut min = self.min;
        let mut max = self.max;
        if signal < min {
            min = signal;
        }
        if signal > max {
            max = signal;
        }
        let count = if self.count < SAMPLES_PER_WINDOW {
            self.count + 1
        } else {
            self.count
        };
        *self = AdcWindow { min, max, count, samples: Ghost(s) };
    }

    /// Whether the window holds its `SAMPLES_PER_WINDOW` conversions: a window
    /// is sampled until it is full.
    pub fn is_full(&self) -> (r: bool)
        ensures
            r == (self@.len() >= SAMPLES_PER_WINDOW),
    {
        proof {
            use_type_invariant(self);
        }
        self.count >= SAMPLES_PER_WINDOW
    }

    /// The least sample so far (`u16::MAX` before the first).
    pub fn min(&self) -> (r: u16)
        ensures
            r == seq_min(self@),
    {
        proof {
            use_type_invariant(self);
        }
        self.min
    }

    /// The greatest sample so far (zero before the first).
    pub fn max(&self) -> (r: u16)
        ensures
            r == seq_max(self@),
    {
        proof {
            use_type_invariant(self);
        }
        self.max
    }

    /// Least, greatest, peak-to-peak amplitude and duty of the samples.
    pub fn summary(&self) -> (r: (u16, u16, u16, u16))
        requires
            self@.len() > 0,
        ensures
            r == summary_of(self@),
            r.0 == seq_min(self@),
            r.1 == seq_max(self@),
            r.2 as int == r.1 as int - r.0 as int,
            r.3 as int == if (r.2 as int - 250) * 4 < 0 {
                0
            } else if (r.2 as int - 250) * 4 > 65535 {
                65535
            } else {
                (r.2 as int - 250) * 4
            },
    {
        proof {
            use_type_invariant(self);
            lemma_min_le_max(self@);
        }
        let peak_to_peak = self.max - self.min;
        (self.min, self.max, peak_to_peak, duty_from_peak_to_peak(peak_to_peak))
    }
}

/// In a window with a sample, the least sample is at most the greatest, and
/// both are samples of the window.
pub proof fn lemma_min_le_max(s: Seq<u16>)
    requires
        s.len() > 0,
    ensures
        seq_min(s) <= seq_max(s),
        s.contains(seq_min(s)),
        s.contains(seq_max(s)),
    decreases s.len(),
{
    let n = s.len() - 1;
    let t = s.drop_last();
    assert(s[n] == s.last());
    if t.len() > 0 {
        lemma_min_le_max(t);
        let i = choose|i: int| 0 <= i < t.len() && t[i] == seq_min(t);
        let j = choose|j: int| 0 <= j < t.len() && t[j] == seq_max(t);
        assert(s[i] == t[i]);
        assert(s[j] == t[j]);
        if seq_min(s) != s.last() {
            assert(s[i] == seq_min(s));
        }
        if seq_max(s) != s.last() {
            assert(s[j] == seq_max(s));
        }
    } else {
        assert(seq_min(t) == u16::MAX);
        assert(seq_max(t) == 0);
        assert(seq_min(s) == s[n]);
        assert(seq_max(s) == s[n]);
    }
}

/// Every sample lies between the least and the greatest.
pub proof fn lemma_bounds(s: Seq<u16>, i: int)
    requires
        0 <= i < s.len(),
    ensures
        seq_min(s) <= s[i] <= seq_max(s),
    decreases s.len(),
{
    if i < s.len() - 1 {
        lemma_bounds(s.drop_last(), i);
    }
}

/// The summary of a window depends only on which samples it holds, not on
/// the order in which they came.
pub proof fn lemma_summary_of_permutation(s: Seq<u16>, s2: Seq<u16>)
    requires
        s.len() > 0,
        s2.to_multiset() == s.to_multiset(),
    ensures
        summary_of(s2) == summary_of(s),
{
    broadcast use vstd::seq_lib::group_to_multiset_ensures;

    assert(s2.len() == s2.to_multiset().len());
    assert(s.len() == s.to_multiset().len());
    lemma_min_le_max(s);
    lemma_min_le_max(s2);
    assert forall|x: u16| s.contains(x) <==> s2.contains(x) by {
        assert(s.contains(x) <==> s.to_multiset().count(x) > 0);
        assert(s2.contains(x) <==> s2.to_multiset().count(x) > 0);
    }
    let i = choose|i: int| 0 <= i < s.len() && s[i] == seq_min(s2);
    let j = choose|j: int| 0 <= j < s2.len() && s2[j] == seq_min(s);
    lemma_bounds(s, i);
    lemma_bounds(s2, j);
    let k = choose|k: int| 0 <= k < s.len() && s[k] == seq_max(s2);
    let l = choose|l: int| 0 <= l < s2.len() && s2[l] == seq_max(s);
    lemma_bounds(s, k);
    lemma_bounds(s2, l);
}

/// The summary of a window of conversions: least sample, greatest sample,
/// peak-to-peak amplitude and duty.
pub fn sample_adc_window(samples: &[u16]) -> (r: (u16, u16, u16, u16))
    requires
        samples@.len() > 0,
    ensures
        r == summary_of(samples@),
        samples@.contains(r.0),
        samples@.contains(r.1),
        forall|i: int| 0 <= i < samples@.len() ==> r.0 <= #[trigger] samples@[i] <= r.1,
        r.2 as int == r.1 as int - r.0 as int,
        r.3 as int == if (r.2 as int - 250) * 4 < 0 {
            0
        } else if (r.2 as int - 250) * 4 > 65535 {
            65535
        } else {
            (r.2 as int - 250) * 4
        },
{
    let mut w = AdcWindow::new();
    let mut i: usize = 0;
    while i < samples.len()
        invariant
            i <= samples@.len(),
            w@ == samples@.subrange(0, i as int),
        decreases samples@.len() - i,
    {
        w.record(samples[i]);
        i = i + 1;
        assert(w@ =~= samples@.subrange(0, i as int));
    }
    assert(w@ =~= samples@);
    let r = w.summary();
    proof {
        lemma_summary_of(samples@);
    }
    r
}

/// The summary of a window with a sample: its least sample and its greatest
/// (both samples of the window, with every sample between them), their
/// difference as the amplitude, and as the duty that amplitude less 250
/// counts, times four, clamped to `0..=65535`.
pub proof fn lemma_summary_of(s: Seq<u16>)
    requires
        s.len() > 0,
    ensures
        s.contains(summary_of(s).0),
        s.contains(summary_of(s).1),
        forall|i: int| 0 <= i < s.len() ==> summary_of(s).0 <= #[trigger] s[i] <= summary_of(s).1,
        summary_of(s).2 as int == summary_of(s).1 as int - summary_of(s).0 as int,
        summary_of(s).3 as int == if (summary_of(s).2 as int - 250) * 4 < 0 {
            0
        } else if (summary_of(s).2 as int - 250) * 4 > 65535 {
            65535
        } else {
            (summary_of(s).2 as int - 250) * 4
        },
{
    lemma_min_le_max(s);
    assert forall|i: int| 0 <= i < s.len() implies summary_of(s).0 <= #[trigger] s[i] <= summary_of(s).1 by {
        lemma_bounds(s, i);
    }
}

/// An analog pin's pad has no pull-up or pull-down, its input and output
/// disabled, and every other pad control as it was.
pub proof fn lemma_adc_pad(cur: u32)
    ensures
        !flag(adc_pad(cur), PAD_PUE),
        !flag(adc_pad(cur), PAD_PDE),
        !flag(adc_pad(cur), PAD_IE),
        flag(adc_pad(cur), PAD_OD),
        same_outside(adc_pad(cur), cur, bit(PAD_OD) | (bit(PAD_IE) | (bit(PAD_PDE) | bit(PAD_PUE)))),
{
    let a = set_flag(cur, PAD_PUE, false);
    let b = set_flag(a, PAD_PDE, false);
    let c = set_flag(b, PAD_IE, false);
    let d = set_flag(c, PAD_OD, true);
    lemma_set_flag(cur, PAD_PUE, false);
    lemma_set_flag(a, PAD_PDE, false);
    lemma_set_flag(b, PAD_IE, false);
    lemma_set_flag(c, PAD_OD, true);
    lemma_flag_other(a, PAD_PDE, false, PAD_PUE);
    lemma_flag_other(b, PAD_IE, false, PAD_PUE);
    lemma_flag_other(c, PAD_OD, true, PAD_PUE);
    lemma_flag_other(b, PAD_IE, false, PAD_PDE);
    lemma_flag_other(c, PAD_OD, true, PAD_PDE);
    lemma_flag_other(c, PAD_OD, true, PAD_IE);
    lemma_same_outside_trans(b, a, cur, bit(PAD_PDE), bit(PAD_PUE));
    lemma_same_outside_trans(c, b, cur, bit(PAD_IE), bit(PAD_PDE) | bit(PAD_PUE));
    lemma_same_outside_trans(d, c, cur, bit(PAD_OD), bit(PAD_IE) | (bit(PAD_PDE) | bit(PAD_PUE)));
}

/// An analog pin's control word holds the output-enable override "disable"
/// (2) and every other field zero.
pub proof fn lemma_adc_pin_ctrl()
    ensures
        adc_pin_ctrl() == 2u32 << CTRL_OEOVER,
        extract(adc_pin_ctrl(), CTRL_OEOVER, CTRL_OEOVER_WIDTH) == 2,
{
    lemma_width_masks();
    let m = width_mask(2);
    assert((0u32 & !(m << 14u32)) | ((2u32 & m) << 14u32) == 2u32 << 14u32 && ((2u32 << 14u32) >> 14u32) & m == 2u32) by (bit_vector)
        requires
            m == 3,
    ;
}

/// The ADC clock runs from the USB PLL and is enabled; the rest of its
/// control is as it was.
pub proof fn lemma_adc_clock_ctrl(cur: u32)
    ensures
        extract(adc_clock_ctrl(cur), CLK_AUXSRC, CLK_AUXSRC_WIDTH) == 0,
        flag(adc_clock_ctrl(cur), CLK_ENABLE),
{
    lemma_width_masks();
    crate::regs::lemma_mask_small(0, 3);
    let a = insert(cur, CLK_AUXSRC, CLK_AUXSRC_WIDTH, 0);
    lemma_read_field(cur, CLK_AUXSRC, 3, 0, CLK_AUXSRC, 3);
    lemma_read_field(a, CLK_ENABLE, 1, 1, CLK_AUXSRC, 3);
    lemma_set_flag(a, CLK_ENABLE, true);
}

/// A conversion start selects the channel (its low four bits), sets
/// `START_ONCE`, does not write back the sticky error bit, and keeps every
/// other control bit (`EN` among them) as it was.
pub proof fn lemma_start_conversion(cur: u32, chan: u8)
    ensures
        extract(start_conversion(cur, chan), ADC_CS_AINSEL, ADC_CS_AINSEL_WIDTH) == chan as u32 & 0xf,
        flag(start_conversion(cur, chan), ADC_CS_START_ONCE),
        !flag(start_conversion(cur, chan), ADC_CS_ERR_STICKY),
        flag(start_conversion(cur, chan), ADC_CS_EN) == flag(cur, ADC_CS_EN),
        same_outside(start_conversion(cur, chan), cur, 0xf000u32 | 0x0404u32),
{
    lemma_width_masks();
    let c = chan as u32;
    let a = insert(cur & !0x0400u32, ADC_CS_AINSEL, ADC_CS_AINSEL_WIDTH, c);
    let r = set_flag(a, ADC_CS_START_ONCE, true);
    let m = width_mask(4);
    let one = width_mask(1);
    assert({
        &&& ((r >> 12u32) & m) == c & 0xf
        &&& ((r >> 2u32) & one) == 1
        &&& ((r >> 10u32) & one) != 1
        &&& (((r >> 0u32) & one) == 1) == (((cur >> 0u32) & one) == 1)
        &&& r & !(0xf000u32 | 0x0404u32) == cur & !(0xf000u32 | 0x0404u32)
    }) by (bit_vector)
        requires
            m == 0xf,
            one == 1,
            a == ((cur & !0x0400u32) & !(m << 12u32)) | ((c & m) << 12u32),
            r == (a & !(one << 2u32)) | ((1u32 & one) << 2u32),
    ;
}

} // verus!
