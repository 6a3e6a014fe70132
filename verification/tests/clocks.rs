use board_firmware::heartbeat::heartbeat_step;
use board_firmware::rcc::{rcc_config, ClockConfig, PllConfig, VoltageScale};

#[test]
fn clock_config_values() {
    assert_eq!(
        rcc_config(),
        ClockConfig {
            voltage_scale: VoltageScale::Scale0,
            hse_hz: 25_000_000,
            hse_bypass: true,
            pll1: PllConfig { prediv: 5, mul: 104, divp: Some(1), divq: None, divr: None },
            sys_from_pll1_p: true,
            ahb_div: 2,
            apb1_div: 2,
            apb2_div: 2,
            apb3_div: 2,
            apb4_div: 2,
        }
    );
}

#[test]
fn clock_tree_frequencies() {
    let c = rcc_config();
    let reference = c.hse_hz / c.pll1.prediv;
    let vco = reference * c.pll1.mul;
    let sys = vco / c.pll1.divp.unwrap();
    let hclk = sys / c.ahb_div;
    assert_eq!(reference, 5_000_000);
    assert_eq!(vco, 520_000_000);
    assert_eq!(sys, 520_000_000);
    assert_eq!(hclk, 260_000_000);
    for d in [c.apb1_div, c.apb2_div, c.apb3_div, c.apb4_div] {
        assert_eq!(hclk / d, 130_000_000);
        assert!(hclk / d <= 137_500_000);
    }
    assert!(hclk <= 275_000_000);
    // 19 and 121 HCLK cycles: about 73 ns and 465 ns.
    assert_eq!(19u64 * 1_000_000_000_000 / hclk as u64, 73_076);
    assert_eq!(121u64 * 1_000_000_000_000 / hclk as u64, 465_384);
}

#[test]
fn heartbeat_toggles_every_quarter_second() {
    assert_eq!(heartbeat_step(true), (false, 250));
    assert_eq!(heartbeat_step(false), (true, 250));
    let mut level = true;
    for n in 1..=10 {
        level = heartbeat_step(level).0;
        assert_eq!(level, n % 2 == 0);
    }
}
