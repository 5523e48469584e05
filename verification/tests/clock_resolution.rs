//! Behaviour of the clock tree resolver: source selection, the PLL
//! divider search, prescaler bracketing, and the ordered register plan.

use ht32_hal::ckcu::{CkoutSrc, ClockError, Configuration, RegisterOp};
use ht32_hal::time::Hertz;

#[test]
fn pll_path_for_32_mhz_from_internal_oscillator() {
    // 8 MHz internal source, 32 MHz target: no oscillator matches, the
    // PLL must hit ratio 4.0 exactly with feedback 4, output divider 1.
    let plan = Configuration::new().ck_sys(Hertz(32_000_000)).resolve().unwrap();
    let ops = plan.ops().clone();
    assert_eq!(ops[0], RegisterOp::SetPllSource(false));
    assert_eq!(ops[1], RegisterOp::SetPllDividers(4, 0b00));
    assert_eq!(ops[2], RegisterOp::EnablePll);
    assert_eq!(ops[3], RegisterOp::AwaitPllLock);
    // 32 MHz bus clock needs the flash wait states raised before the mux.
    assert_eq!(ops[4], RegisterOp::SetFlashWaitStates(0b010));
    assert_eq!(ops[5], RegisterOp::SetSysMux(0b000));
    assert_eq!(ops[6], RegisterOp::SetBusPrescaler(0b000));
    assert_eq!(ops[7], RegisterOp::SetAdcPrescaler(0b000));
    assert_eq!(ops.len(), 8);

    let clocks = plan.into_clocks();
    assert_eq!(clocks.ck_sys(), Hertz(32_000_000));
    // no independent USB target: the USB clock follows the PLL output
    assert_eq!(clocks.ck_usb(), Hertz(32_000_000));
    assert_eq!(clocks.hclk(), Hertz(32_000_000));
    assert_eq!(clocks.stclk(), Hertz(4_000_000));
    assert_eq!(clocks.ck_adc_ip(), Hertz(32_000_000));
    assert_eq!(clocks.ckout(), None);
}

#[test]
fn low_speed_internal_target_matches_exactly() {
    // 32 kHz is the fixed internal low speed value: direct mux selection,
    // no PLL, achieved exactly.
    let plan = Configuration::new().ck_sys(Hertz(32_000)).resolve().unwrap();
    let ops = plan.ops().clone();
    assert_eq!(ops[0], RegisterOp::SetSysMux(0b111));
    assert_eq!(ops[1], RegisterOp::SetBusPrescaler(0b000));
    assert_eq!(ops[2], RegisterOp::SetAdcPrescaler(0b000));
    assert_eq!(ops.len(), 3);

    let clocks = plan.into_clocks();
    assert_eq!(clocks.ck_sys(), Hertz(32_000));
    assert_eq!(clocks.ck_usb(), Hertz(0));
    assert_eq!(clocks.stclk(), Hertz(4_000));
}

#[test]
fn no_targets_fall_back_to_low_speed_internal() {
    let plan = Configuration::new().resolve().unwrap();
    let ops = plan.ops().clone();
    assert_eq!(ops[0], RegisterOp::SetSysMux(0b111));
    let clocks = plan.into_clocks();
    assert_eq!(clocks.ck_sys(), Hertz(32_000));
    assert_eq!(clocks.ck_usb(), Hertz(0));
}

#[test]
fn no_target_prefers_declared_low_speed_external() {
    let plan = Configuration::new().use_lse(Hertz(32_768)).resolve().unwrap();
    assert_eq!(plan.ops()[0], RegisterOp::SetSysMux(0b110));
    assert_eq!(plan.into_clocks().ck_sys(), Hertz(32_768));
}

#[test]
fn high_speed_internal_target_matches_exactly() {
    let plan = Configuration::new().ck_sys(Hertz(8_000_000)).resolve().unwrap();
    assert_eq!(plan.ops()[0], RegisterOp::SetSysMux(0b011));
    let clocks = plan.into_clocks();
    assert_eq!(clocks.ck_sys(), Hertz(8_000_000));
    assert_eq!(clocks.ck_usb(), Hertz(0));
}

#[test]
fn declared_external_oscillator_matches_exactly() {
    let plan = Configuration::new()
        .use_hse(Hertz(12_000_000))
        .ck_sys(Hertz(12_000_000))
        .resolve()
        .unwrap();
    assert_eq!(plan.ops()[0], RegisterOp::SetSysMux(0b010));
    assert_eq!(plan.into_clocks().ck_sys(), Hertz(12_000_000));
}

#[test]
fn declared_low_speed_external_wins_over_internal_codes() {
    let plan = Configuration::new()
        .use_lse(Hertz(32_000))
        .ck_sys(Hertz(32_000))
        .resolve()
        .unwrap();
    // the low speed external match has precedence over the internal code
    assert_eq!(plan.ops()[0], RegisterOp::SetSysMux(0b110));
}

#[test]
fn low_speed_external_match_wins_over_high_speed_external() {
    let plan = Configuration::new()
        .use_lse(Hertz(4_000_000))
        .use_hse(Hertz(4_000_000))
        .ck_sys(Hertz(4_000_000))
        .resolve()
        .unwrap();
    assert_eq!(plan.ops()[0], RegisterOp::SetSysMux(0b110));
}

#[test]
fn pll_from_external_oscillator_sets_source_bit() {
    let plan = Configuration::new()
        .use_hse(Hertz(8_000_000))
        .ck_sys(Hertz(32_000_000))
        .resolve()
        .unwrap();
    assert_eq!(plan.ops()[0], RegisterOp::SetPllSource(true));
}

#[test]
fn pll_search_is_deterministic() {
    let first = ht32_hal::ckcu::pll_search(8_000_000, 32_000_000);
    let second = ht32_hal::ckcu::pll_search(8_000_000, 32_000_000);
    assert_eq!(first, Some((4, 1)));
    assert_eq!(first, second);
}

#[test]
fn pll_target_is_only_a_hint() {
    // 3 MHz from 8 MHz wants ratio 0.375, but every pair that close drives
    // the output below 4 MHz; the best legal pair is 5/8, achieving 5 MHz.
    assert_eq!(ht32_hal::ckcu::pll_search(8_000_000, 3_000_000), Some((5, 8)));
    let plan = Configuration::new().ck_sys(Hertz(3_000_000)).resolve().unwrap();
    assert_eq!(plan.into_clocks().ck_sys(), Hertz(5_000_000));
}

#[test]
fn pll_feedback_divider_sixteen_encodes_as_zero() {
    // 32 MHz from a declared 2 MHz source wants ratio 16.0: only feedback
    // 16 with output divider 1 reaches it, and 16 encodes as 0.
    assert_eq!(ht32_hal::ckcu::pll_search(2_000_000, 32_000_000), Some((16, 1)));
    let plan = Configuration::new()
        .use_hse(Hertz(2_000_000))
        .ck_sys(Hertz(32_000_000))
        .resolve()
        .unwrap();
    assert_eq!(plan.ops()[1], RegisterOp::SetPllDividers(0, 0b00));
    assert_eq!(plan.into_clocks().ck_sys(), Hertz(32_000_000));
}

#[test]
fn pll_outputs_stay_inside_the_hardware_window() {
    // targets that match no oscillator take the PLL path; whatever the
    // hint, the achieved system clock stays inside [4 MHz, 48 MHz)
    for target in [5_000_000u32, 13_500_000, 25_000_000, 31_000_000, 47_000_000] {
        let plan = Configuration::new().ck_sys(Hertz(target)).resolve().unwrap();
        let sys = plan.into_clocks().ck_sys().0;
        assert!((4_000_000..48_000_000).contains(&sys));
    }
}

#[test]
fn bus_divider_never_increases_with_the_target() {
    // raising the requested bus clock (system clock fixed at 8 MHz) never
    // raises the selected divider
    let targets = [250_000u32, 500_000, 1_000_000, 1_600_000, 2_000_000, 4_000_000, 8_000_000];
    let mut last_divider = u32::MAX;
    for target in targets {
        let plan = Configuration::new()
            .ck_sys(Hertz(8_000_000))
            .hclk(Hertz(target))
            .resolve()
            .unwrap();
        let divider = 8_000_000 / plan.into_clocks().hclk().0;
        assert!(divider <= last_divider);
        last_divider = divider;
    }
}

#[test]
fn system_clock_ceiling_is_enforced() {
    // 50 MHz exceeds the 48 MHz ceiling: resolution fails, no plan (and
    // so no register write) exists.
    let r = Configuration::new().ck_sys(Hertz(50_000_000)).resolve();
    assert_eq!(r.unwrap_err(), ClockError::SysClockTooHigh);
}

#[test]
fn usb_clock_ceiling_is_enforced() {
    let r = Configuration::new().ck_usb(Hertz(48_000_000)).resolve();
    assert_eq!(r.unwrap_err(), ClockError::UsbClockTooHigh);
}

#[test]
fn unreachable_pll_target_is_an_error() {
    // a 100 MHz source always drives the VCO beyond 96 MHz: no divider
    // pair is legal, and the resolver must say so rather than fall back
    let r = Configuration::new()
        .use_hse(Hertz(100_000_000))
        .ck_sys(Hertz(10_000_000))
        .resolve();
    assert_eq!(r.unwrap_err(), ClockError::PllUnreachable);
}

#[test]
fn usb_target_alone_runs_the_pll() {
    let plan = Configuration::new().ck_usb(Hertz(32_000_000)).resolve().unwrap();
    let clocks = plan.into_clocks();
    // the USB clock is the actual PLL output, and the reported system
    // clock follows it
    assert_eq!(clocks.ck_usb(), Hertz(32_000_000));
    assert_eq!(clocks.ck_sys(), Hertz(32_000_000));
}

#[test]
fn bus_prescaler_brackets() {
    // system clock 8 MHz (exact internal match); ratio -> divider:
    // 1 -> 1, 2 -> 2, 3 -> 2, 4 -> 4, 5 -> 4, 7 -> 4, 8 -> 8, 16 -> 16
    let cases: [(u32, u32); 8] = [
        (8_000_000, 8_000_000),
        (4_000_000, 4_000_000),
        (2_666_667, 4_000_000),
        (2_000_000, 2_000_000),
        (1_600_000, 2_000_000),
        (1_142_857, 2_000_000),
        (1_000_000, 1_000_000),
        (500_000, 500_000),
    ];
    for (target, achieved) in cases {
        let plan = Configuration::new()
            .ck_sys(Hertz(8_000_000))
            .hclk(Hertz(target))
            .resolve()
            .unwrap();
        let clocks = plan.into_clocks();
        assert_eq!(clocks.hclk(), Hertz(achieved));
        assert_eq!(clocks.stclk(), Hertz(achieved / 8));
    }
}

#[test]
fn bus_prescaler_codes() {
    // ratio 5 falls in the 4..=7 bracket: divider 4, register code 0b010
    let plan = Configuration::new()
        .ck_sys(Hertz(8_000_000))
        .hclk(Hertz(1_600_000))
        .resolve()
        .unwrap();
    assert_eq!(plan.ops()[1], RegisterOp::SetBusPrescaler(0b010));
    // ratio 16 and beyond: divider 16, register code 0b111
    let plan = Configuration::new()
        .ck_sys(Hertz(8_000_000))
        .hclk(Hertz(500_000))
        .resolve()
        .unwrap();
    assert_eq!(plan.ops()[1], RegisterOp::SetBusPrescaler(0b111));
}

#[test]
fn bus_clock_faster_than_system_clock_is_an_error() {
    let r = Configuration::new()
        .ck_sys(Hertz(8_000_000))
        .hclk(Hertz(16_000_000))
        .resolve();
    assert_eq!(r.unwrap_err(), ClockError::BusClockTooHigh);
}

#[test]
fn zero_bus_clock_target_is_an_error() {
    let r = Configuration::new().ck_sys(Hertz(8_000_000)).hclk(Hertz(0)).resolve();
    assert_eq!(r.unwrap_err(), ClockError::ZeroFrequencyTarget);
}

#[test]
fn adc_prescaler_brackets() {
    // bus clock 8 MHz; the ADC table has dedicated dividers 2 and 3
    let cases: [(u32, u32, u8); 5] = [
        (8_000_000, 8_000_000, 0b000),
        (4_000_000, 4_000_000, 0b001),
        (2_666_666, 2_666_666, 0b111),
        (2_000_000, 2_000_000, 0b010),
        (125_000, 125_000, 0b110),
    ];
    for (target, achieved, code) in cases {
        let plan = Configuration::new()
            .ck_sys(Hertz(8_000_000))
            .ck_adc_ip(Hertz(target))
            .resolve()
            .unwrap();
        assert_eq!(plan.ops()[2], RegisterOp::SetAdcPrescaler(code));
        assert_eq!(plan.into_clocks().ck_adc_ip(), Hertz(achieved));
    }
}

#[test]
fn adc_clock_faster_than_bus_clock_is_an_error() {
    let r = Configuration::new()
        .ck_sys(Hertz(8_000_000))
        .ck_adc_ip(Hertz(9_000_000))
        .resolve();
    assert_eq!(r.unwrap_err(), ClockError::AdcClockTooHigh);
}

#[test]
fn zero_adc_clock_target_is_an_error() {
    let r = Configuration::new().ck_adc_ip(Hertz(0)).resolve();
    assert_eq!(r.unwrap_err(), ClockError::ZeroFrequencyTarget);
}

#[test]
fn tick_clock_is_an_eighth_of_the_bus_clock() {
    for sys in [32_000u32, 8_000_000, 32_000_000] {
        let plan = Configuration::new().ck_sys(Hertz(sys)).resolve().unwrap();
        let clocks = plan.into_clocks();
        assert_eq!(clocks.stclk().0, clocks.hclk().0 / 8);
    }
}

#[test]
fn flash_wait_states_precede_mux_switch_above_24_mhz() {
    let plan = Configuration::new().ck_sys(Hertz(32_000_000)).resolve().unwrap();
    let ops = plan.ops();
    let wait_at = ops
        .iter()
        .position(|op| matches!(op, RegisterOp::SetFlashWaitStates(_)))
        .unwrap();
    let mux_at = ops.iter().position(|op| matches!(op, RegisterOp::SetSysMux(_))).unwrap();
    assert!(wait_at < mux_at);
}

#[test]
fn no_flash_wait_states_at_or_below_24_mhz() {
    let plan = Configuration::new().ck_sys(Hertz(24_000_000)).resolve().unwrap();
    assert!(!plan.ops().iter().any(|op| matches!(op, RegisterOp::SetFlashWaitStates(_))));
}

#[test]
fn ckout_selection_is_programmed_last() {
    let plan = Configuration::new()
        .ck_sys(Hertz(8_000_000))
        .ckout(CkoutSrc::CkSys)
        .resolve()
        .unwrap();
    let ops = plan.ops().clone();
    assert_eq!(ops[ops.len() - 1], RegisterOp::SetCkout(0b010));
    assert_eq!(plan.into_clocks().ckout(), Some(CkoutSrc::CkSys));
}

#[test]
fn ckout_codes_cover_every_source() {
    let sources = [
        (CkoutSrc::CkRef, 0b000u8),
        (CkoutSrc::Hclk, 0b001),
        (CkoutSrc::CkSys, 0b010),
        (CkoutSrc::CkHse, 0b011),
        (CkoutSrc::CkHsi, 0b100),
        (CkoutSrc::CkLse, 0b101),
        (CkoutSrc::CkLsi, 0b110),
    ];
    for (src, code) in sources {
        let plan = Configuration::new().ckout(src).resolve().unwrap();
        let ops = plan.ops().clone();
        assert_eq!(ops[ops.len() - 1], RegisterOp::SetCkout(code));
    }
}

#[test]
fn builder_setters_accumulate_their_fields() {
    let cfg = Configuration::new()
        .ckout(CkoutSrc::Hclk)
        .use_hse(Hertz(12_000_000))
        .use_lse(Hertz(32_768))
        .ck_usb(Hertz(24_000_000))
        .ck_adc_ip(Hertz(1_000_000))
        .ck_sys(Hertz(24_000_000))
        .hclk(Hertz(12_000_000));
    assert_eq!(cfg.ckout, Some(CkoutSrc::Hclk));
    assert_eq!(cfg.hse, Some(Hertz(12_000_000)));
    assert_eq!(cfg.lse, Some(Hertz(32_768)));
    assert_eq!(cfg.ck_usb, Some(Hertz(24_000_000)));
    assert_eq!(cfg.ck_adc_ip, Some(Hertz(1_000_000)));
    assert_eq!(cfg.ck_sys, Some(Hertz(24_000_000)));
    assert_eq!(cfg.hclk, Some(Hertz(12_000_000)));
}
