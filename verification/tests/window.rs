use rp235x_sys::adc::{duty_from_peak_to_peak, sample_adc_window, AdcWindow, SAMPLES_PER_WINDOW};

#[test]
fn window_summary_of_a_few_samples() {
    assert_eq!(sample_adc_window(&[100, 400, 250]), (100, 400, 300, 200));
}

#[test]
fn window_of_one_sample() {
    assert_eq!(sample_adc_window(&[2048]), (2048, 2048, 0, 0));
}

#[test]
fn duty_is_clamped() {
    assert_eq!(duty_from_peak_to_peak(0), 0);
    assert_eq!(duty_from_peak_to_peak(250), 0);
    assert_eq!(duty_from_peak_to_peak(251), 4);
    assert_eq!(duty_from_peak_to_peak(16_633), 65_532);
    assert_eq!(duty_from_peak_to_peak(16_634), 65_535);
    assert_eq!(duty_from_peak_to_peak(65_535), 65_535);
}

#[test]
fn full_window_streams_its_samples() {
    let mut w = AdcWindow::new();
    assert_eq!(w.min(), u16::MAX);
    assert_eq!(w.max(), 0);
    let mut all = Vec::new();
    for i in 0..SAMPLES_PER_WINDOW {
        let s = (1000 + (i * 37) % 2000) as u16;
        w.record(s);
        all.push(s);
    }
    let summary = w.summary();
    assert_eq!(summary, sample_adc_window(&all));
    assert_eq!(summary.0, 1000);
    assert_eq!(summary.1, 2999);
    assert_eq!(summary.2, 1999);
    assert_eq!(summary.3, (1999 - 250) * 4);
}

#[test]
fn window_timing_fits_33_ms_at_48_mhz() {
    assert!(SAMPLES_PER_WINDOW * 96 <= 48_000 * 33);
}

#[test]
fn window_is_full_after_its_conversions() {
    let mut w = AdcWindow::new();
    let mut n = 0;
    while !w.is_full() {
        w.record(7);
        n += 1;
    }
    assert_eq!(n, SAMPLES_PER_WINDOW);
    w.record(9);
    assert!(w.is_full());
    assert_eq!(w.summary(), (7, 9, 2, 0));
}

#[test]
fn window_summary_ignores_sample_order() {
    assert_eq!(sample_adc_window(&[900, 10, 500]), sample_adc_window(&[10, 500, 900]));
}
