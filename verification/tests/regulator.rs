use board_firmware::current_regulator::{
    gpioe_clock_enabled, mv_to_dac_12bit, opamp_clock_enabled, opamp_follows_dac,
    regulator_dac_value, regulator_pins_analog, regulator_setup, round_div, RegulatorStep,
};
use stm32_metapac::gpio::regs::Moder;
use stm32_metapac::gpio::vals::Moder as PinMode;
use stm32_metapac::opamp::regs::Csr;
use stm32_metapac::opamp::vals::{VmSel, VpSel};
use stm32_metapac::rcc::regs::{Ahb4enr, Apb1henr};

const SAMPLES: [u32; 5] = [0, 0xffff_ffff, 0xa5a5_a5a5, 0x1234_5678, 0x0000_0060];

#[test]
fn round_div_rounds_to_nearest() {
    assert_eq!(round_div(10, 4), 3);
    assert_eq!(round_div(9, 4), 2);
    assert_eq!(round_div(7, 2), 4);
    assert_eq!(round_div(0, 7), 0);
    assert_eq!(round_div(14, 7), 2);
    assert_eq!(round_div(10, 3), 3);
    assert_eq!(round_div(11, 3), 4);
}

#[test]
fn dac_codes_of_known_voltages() {
    assert_eq!(mv_to_dac_12bit(47, 3300), 58);
    assert_eq!(mv_to_dac_12bit(0, 3300), 0);
    assert_eq!(mv_to_dac_12bit(3300, 3300), 4095);
    assert_eq!(mv_to_dac_12bit(1650, 3300), 2048);
    assert_eq!(regulator_dac_value(), 58);
}

#[test]
fn dac_code_at_or_above_reference_is_full_scale() {
    assert_eq!(mv_to_dac_12bit(6600, 3300), 4095);
    assert_eq!(mv_to_dac_12bit(4000, 1000), 4095);
    assert_eq!(mv_to_dac_12bit(100_000, 1), 4095);
    assert_eq!(mv_to_dac_12bit(3301, 3300), 4095);
}

#[test]
fn dac_code_depends_on_ratio_only() {
    assert_eq!(mv_to_dac_12bit(94, 6600), 58);
    assert_eq!(mv_to_dac_12bit(141, 9900), 58);
    for (mv, vref) in [(1u32, 3u32), (5, 7), (47, 3300), (1650, 3300), (999, 1000), (2, 1)] {
        for k in 1..=20u32 {
            assert_eq!(mv_to_dac_12bit(k * mv, k * vref), mv_to_dac_12bit(mv, vref));
        }
    }
}

#[test]
fn regulator_setup_order() {
    assert_eq!(
        regulator_setup(),
        [
            RegulatorStep::EnableGpioeClock,
            RegulatorStep::SetPinsAnalog,
            RegulatorStep::SetDac(58),
            RegulatorStep::EnableOpampClock,
            RegulatorStep::ConfigureOpamp,
        ]
    );
}

#[test]
fn dac_code_is_within_half_a_step() {
    for vref in [1000u32, 2500, 3300] {
        for mv in 0..=vref {
            let code = mv_to_dac_12bit(mv, vref) as i64;
            assert!(code <= 4095);
            let err = code * vref as i64 - mv as i64 * 4095;
            assert!(2 * err <= vref as i64 && 2 * err > -(vref as i64) - 1);
        }
    }
}

#[test]
fn clock_enables_match_register_layout() {
    for v in SAMPLES {
        let mut ahb = Ahb4enr(v);
        ahb.set_gpioeen(true);
        assert_eq!(gpioe_clock_enabled(v), ahb.0);
        let mut apb = Apb1henr(v);
        apb.set_opampen(true);
        assert_eq!(opamp_clock_enabled(v), apb.0);
    }
}

#[test]
fn analog_pins_match_register_layout() {
    for v in SAMPLES {
        let mut m = Moder(v);
        m.set_moder(7, PinMode::ANALOG);
        m.set_moder(8, PinMode::ANALOG);
        assert_eq!(regulator_pins_analog(v), m.0);
    }
    assert_eq!(regulator_pins_analog(0), 0x3_c000);
}

#[test]
fn opamp_setup_matches_register_layout() {
    for v in SAMPLES {
        let mut c = Csr(v);
        c.set_vp_sel(VpSel::DAC_OUT);
        c.set_vm_sel(VmSel::INM0);
        c.set_opampen(true);
        assert_eq!(opamp_follows_dac(v), c.0);
    }
    assert_eq!(opamp_follows_dac(0), 0x5);
    assert_eq!(opamp_follows_dac(0xffff_ffff), 0xffff_ff97);
}
