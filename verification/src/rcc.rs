//! The clock tree: a 25 MHz external clock multiplied by PLL1 to a 520 MHz CPU clock.
use vstd::prelude::*;

verus! {

/// Core voltage scale.
#[derive(Clone, Copy, Debug, PartialEq, Eq, Structural)]
pub enum VoltageScale {
    Scale0,
    Scale1,
    Scale2,
    Scale3,
}

/// PLL settings: the reference is the input clock divided by `prediv`, the
/// VCO runs at the reference times `mul`, and each output divides the VCO.
#[derive(Clone, Copy, Debug, PartialEq, Eq, Structural)]
pub struct PllConfig {
    pub prediv: u32,
    pub mul: u32,
    pub divp: Option<u32>,
    pub divq: Option<u32>,
    pub divr: Option<u32>,
}

/// Clock configuration of the MCU: HSE feeds PLL1, whose P output is the
/// system clock, divided down for the AHB and the four APB buses.
#[derive(Clone, Copy, Debug, PartialEq, Eq, Structural)]
pub struct ClockConfig {
    pub voltage_scale: VoltageScale,
    /// Frequency of the external clock (HSE), in Hz.
    pub hse_hz: u32,
    /// The HSE input is an external clock (bypass), not a crystal.
    pub hse_bypass: bool,
    /// PLL1, fed by HSE.
    pub pll1: PllConfig,
    /// The system clock is PLL1's P output.
    pub sys_from_pll1_p: bool,
    pub ahb_div: u32,
    pub apb1_div: u32,
    pub apb2_div: u32,
    pub apb3_div: u32,
    pub apb4_div: u32,
}

/// The board's clock configuration.
pub open spec fn rcc_config_spec() -> ClockConfig {
    ClockConfig {
        voltage_scale: VoltageScale::Scale0,
        hse_hz: 25_000_000,
        hse_bypass: true,
        pll1: PllConfig { prediv: 5, mul: 104, divp: Some(1), divq: None, divr: None },
        sys_from_pll1_p: true,
        ahb_div: 2,
        apb1_div: 2,
        apb2_div: 2,
        apb3_div: 2,
        apb4_div: 2,
    }
}

/// PLL1 reference (input after the pre-divider), in Hz.
pub open spec fn pll1_ref_hz(c: ClockConfig) -> int {
    c.hse_hz as int / c.pll1.prediv as int
}

/// PLL1 VCO output, in Hz.
pub open spec fn pll1_vco_hz(c: ClockConfig) -> int {
    pll1_ref_hz(c) * c.pll1.mul
}

/// System (CPU) clock, in Hz.
pub open spec fn sysclk_hz(c: ClockConfig) -> int {
    pll1_vco_hz(c) / c.pll1.divp.unwrap() as int
}

/// AHB clock, in Hz (it also clocks the FMC).
pub open spec fn hclk_hz(c: ClockConfig) -> int {
    sysclk_hz(c) / c.ahb_div as int
}

/// APB clocks, in Hz.
pub open spec fn pclk_hz(c: ClockConfig, bus_div: u32) -> int {
    hclk_hz(c) / bus_div as int
}

/// Highest CPU, AHB and APB frequencies of each voltage scale (CPU boost off).
pub open spec fn clock_maxima(scale: VoltageScale) -> (int, int, int) {
    match scale {
        VoltageScale::Scale0 => (520_000_000, 275_000_000, 137_500_000),
        VoltageScale::Scale1 => (400_000_000, 200_000_000, 100_000_000),
        VoltageScale::Scale2 => (300_000_000, 150_000_000, 75_000_000),
        VoltageScale::Scale3 => (170_000_000, 85_000_000, 42_500_000),
    }
}

/// The clock tree is within what the chip allows: PLL1 reference at most
/// 16 MHz and at least 2 MHz (wide VCO range), VCO in 192..=836 MHz, P
/// divider 1 or even, and CPU, AHB and APB clocks under the maxima of the
/// voltage scale.
pub open spec fn clock_limits_hold(c: ClockConfig) -> bool {
    let (sys_max, hclk_max, pclk_max) = clock_maxima(c.voltage_scale);
    &&& c.pll1.prediv > 0
    &&& c.pll1.divp is Some
    &&& c.pll1.divp.unwrap() > 0
    &&& (c.pll1.divp.unwrap() == 1 || c.pll1.divp.unwrap() % 2 == 0)
    &&& c.ahb_div > 0 && c.apb1_div > 0 && c.apb2_div > 0 && c.apb3_div > 0 && c.apb4_div > 0
    &&& 2_000_000 <= pll1_ref_hz(c) <= 16_000_000
    &&& 192_000_000 <= pll1_vco_hz(c) <= 836_000_000
    &&& sysclk_hz(c) <= sys_max
    &&& hclk_hz(c) <= hclk_max
    &&& pclk_hz(c, c.apb1_div) <= pclk_max
    &&& pclk_hz(c, c.apb2_div) <= pclk_max
    &&& pclk_hz(c, c.apb3_div) <= pclk_max
    &&& pclk_hz(c, c.apb4_div) <= pclk_max
}

/// The board's clock configuration: 25 MHz HSE in bypass mode, PLL1 as
/// (25 MHz / 5) * 104 / 1 = 520 MHz system clock under voltage scale 0, AHB at
/// half of it, each APB bus at half of the AHB.
pub fn rcc_config() -> (c: ClockConfig)
    ensures
        c == rcc_config_spec(),
{
    ClockConfig {
        voltage_scale: VoltageScale::Scale0,
        hse_hz: 25_000_000,
        hse_bypass: true,
        pll1: PllConfig { prediv: 5, mul: 104, divp: Some(1), divq: None, divr: None },
        sys_from_pll1_p: true,
        ahb_div: 2,
        apb1_div: 2,
        apb2_div: 2,
        apb3_div: 2,
        apb4_div: 2,
    }
}

/// The board's clocks: 5 MHz PLL reference, 520 MHz VCO and CPU clock,
/// 260 MHz AHB, 130 MHz on every APB bus, all within the chip's limits.
pub proof fn lemma_rcc_config_clocks()
    ensures
        pll1_ref_hz(rcc_config_spec()) == 5_000_000,
        pll1_vco_hz(rcc_config_spec()) == 520_000_000,
        sysclk_hz(rcc_config_spec()) == 520_000_000,
        hclk_hz(rcc_config_spec()) == 260_000_000,
        pclk_hz(rcc_config_spec(), rcc_config_spec().apb1_div) == 130_000_000,
        pclk_hz(rcc_config_spec(), rcc_config_spec().apb2_div) == 130_000_000,
        pclk_hz(rcc_config_spec(), rcc_config_spec().apb3_div) == 130_000_000,
        pclk_hz(rcc_config_spec(), rcc_config_spec().apb4_div) == 130_000_000,
        clock_limits_hold(rcc_config_spec()),
{
}

/// A CPU clock above 400 MHz is only within the limits under voltage scale 0.
pub proof fn lemma_fast_clock_needs_scale0(c: ClockConfig)
    requires
        clock_limits_hold(c),
        sysclk_hz(c) > 400_000_000,
    ensures
        c.voltage_scale == VoltageScale::Scale0,
{
}

} // verus!
