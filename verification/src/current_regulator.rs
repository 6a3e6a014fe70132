//! The current regulator: a DAC set point buffered by an operational amplifier.
use vstd::prelude::*;

use crate::reg::{field_get, field_set, with_field};

verus! {

/// Full scale of the 12-bit DAC.
pub const MAX_DAC_VALUE: u32 = 4095;

/// Target voltage of the current regulator, in millivolts.
pub const REGULATOR_TARGET_MV: u32 = 47;

/// Analog reference voltage of the DAC, in millivolts.
pub const REGULATOR_VREF_MV: u32 = 3300;

/// `numerator / denominator`, rounded to the nearest integer (halves round up).
pub open spec fn rounded_quotient(numerator: int, denominator: int) -> int {
    (numerator + denominator / 2) / denominator
}

/// The 12-bit code for `mv` millivolts against a reference of `vref_mv` millivolts.
pub open spec fn dac_code(mv: int, vref_mv: int) -> int {
    rounded_quotient(mv * MAX_DAC_VALUE, vref_mv)
}

/// The 12-bit DAC value for `mv` millivolts: the nearest code, capped at full scale.
pub open spec fn dac_value(mv: int, vref_mv: int) -> int {
    if dac_code(mv, vref_mv) > MAX_DAC_VALUE {
        MAX_DAC_VALUE as int
    } else {
        dac_code(mv, vref_mv)
    }
}

/// Integer division with nearest-neighbour rounding.
pub fn round_div(numerator: u32, denominator: u32) -> (q: u32)
    requires
        denominator > 0,
        numerator + denominator / 2 <= u32::MAX,
    ensures
        q == rounded_quotient(numerator as int, denominator as int),
{
    (numerator + denominator / 2) / denominator
}

/// Converts a voltage target in millivolts to a 12-bit DAC value (0..=4095):
/// the nearest code, and full scale for targets at or above the reference.
pub fn mv_to_dac_12bit(mv: u32, vref_mv: u32) -> (code: u16)
    requires
        vref_mv > 0,
        mv * MAX_DAC_VALUE + vref_mv / 2 <= u32::MAX,
    ensures
        code == dac_value(mv as int, vref_mv as int),
        code <= MAX_DAC_VALUE,
        mv <= vref_mv ==> code == dac_code(mv as int, vref_mv as int),
{
    let q = round_div(mv * MAX_DAC_VALUE, vref_mv);
    proof {
        if mv <= vref_mv {
            lemma_dac_code_in_range(mv as int, vref_mv as int);
        }
    }
    if q > MAX_DAC_VALUE {
        MAX_DAC_VALUE as u16
    } else {
        q as u16
    }
}

/// The DAC code that holds the regulator at its target voltage.
pub fn regulator_dac_value() -> (code: u16)
    ensures
        code == dac_value(REGULATOR_TARGET_MV as int, REGULATOR_VREF_MV as int),
        code == 58,
{
    mv_to_dac_12bit(REGULATOR_TARGET_MV, REGULATOR_VREF_MV)
}

/// Rounding to the nearest: the rounded quotient times the denominator is
/// within half a denominator of the numerator.
pub proof fn lemma_round_div_nearest(numerator: int, denominator: int)
    requires
        numerator >= 0,
        denominator > 0,
    ensures
        rounded_quotient(numerator, denominator) * denominator <= numerator + denominator / 2,
        numerator + denominator / 2 < rounded_quotient(numerator, denominator) * denominator
            + denominator,
{
    let x = numerator + denominator / 2;
    vstd::arithmetic::div_mod::lemma_fundamental_div_mod(x, denominator);
    vstd::arithmetic::mul::lemma_mul_is_commutative(denominator, x / denominator);
    assert(0 <= x % denominator < denominator) by {
        vstd::arithmetic::div_mod::lemma_mod_bound(x, denominator);
    }
}

/// A voltage at most the reference maps to a code in 0..=4095.
pub proof fn lemma_dac_code_in_range(mv: int, vref_mv: int)
    requires
        0 <= mv <= vref_mv,
        vref_mv > 0,
    ensures
        0 <= dac_code(mv, vref_mv) <= MAX_DAC_VALUE,
{
    let h = vref_mv / 2;
    assert(mv * 4095 <= vref_mv * 4095) by (nonlinear_arith)
        requires
            0 <= mv <= vref_mv,
    ;
    assert(0 <= h < vref_mv);
    vstd::arithmetic::div_mod::lemma_div_is_ordered(mv * 4095 + h, vref_mv * 4095 + h, vref_mv);
    vstd::arithmetic::div_mod::lemma_fundamental_div_mod_converse_div(
        vref_mv * 4095 + h,
        vref_mv,
        4095,
        h,
    );
    assert(4095 * vref_mv == vref_mv * 4095) by (nonlinear_arith);
    vstd::arithmetic::div_mod::lemma_div_pos_is_pos(mv * 4095 + h, vref_mv);
}

/// Bit of GPIOEEN (GPIO port E clock enable) in RCC_AHB4ENR.
pub const RCC_AHB4ENR_GPIOEEN: u32 = 4;

/// Bit of OPAMPEN (operational amplifier clock enable) in RCC_APB1HENR.
pub const RCC_APB1HENR_OPAMPEN: u32 = 4;

/// Two-bit pin mode value of analog mode in GPIOx_MODER.
pub const GPIO_MODER_ANALOG: u32 = 3;

/// Pin of port E that carries the amplifier output (VOUT).
pub const REGULATOR_VOUT_PIN: u32 = 7;

/// Pin of port E that carries the inverting input (VINM).
pub const REGULATOR_VINM_PIN: u32 = 8;

/// Bit of OPAMPEN (amplifier enable) in OPAMPx_CSR.
pub const OPAMP_CSR_OPAMPEN: u32 = 0;

/// Offset of the two-bit VP_SEL field (non-inverting input) in OPAMPx_CSR.
pub const OPAMP_CSR_VP_SEL: u32 = 2;

/// Offset of the two-bit VM_SEL field (inverting input) in OPAMPx_CSR.
pub const OPAMP_CSR_VM_SEL: u32 = 5;

/// VP_SEL value that connects the DAC output to the non-inverting input.
pub const OPAMP_VP_SEL_DAC_OUT: u32 = 1;

/// VM_SEL value that connects pin INM0 to the inverting input.
pub const OPAMP_VM_SEL_INM0: u32 = 0;

/// RCC_AHB4ENR with the GPIO port E clock switched on.
pub fn gpioe_clock_enabled(ahb4enr: u32) -> (r: u32)
    ensures
        r == ahb4enr | 0x10,
        field_get(r, RCC_AHB4ENR_GPIOEEN, 1) == 1,
{
    let r = with_field(ahb4enr, RCC_AHB4ENR_GPIOEEN, 1, 1);
    assert(field_set(ahb4enr, 4, 1, 1) == ahb4enr | 0x10) by (bit_vector);
    assert(field_get(ahb4enr | 0x10, 4, 1) == 1) by (bit_vector);
    r
}

/// GPIOE_MODER with the regulator's two pins (PE7, PE8) in analog mode.
pub fn regulator_pins_analog(moder: u32) -> (r: u32)
    ensures
        r == moder | 0x3_c000,
        field_get(r, (2 * REGULATOR_VOUT_PIN) as u32, 3) == GPIO_MODER_ANALOG,
        field_get(r, (2 * REGULATOR_VINM_PIN) as u32, 3) == GPIO_MODER_ANALOG,
{
    let r1 = with_field(moder, 2 * REGULATOR_VOUT_PIN, 3, GPIO_MODER_ANALOG);
    let r = with_field(r1, 2 * REGULATOR_VINM_PIN, 3, GPIO_MODER_ANALOG);
    assert(field_set(field_set(moder, 14, 3, 3), 16, 3, 3) == moder | 0x3_c000) by (bit_vector);
    assert(field_get(moder | 0x3_c000, 14, 3) == 3 && field_get(moder | 0x3_c000, 16, 3) == 3)
        by (bit_vector);
    r
}

/// RCC_APB1HENR with the operational amplifier clock switched on.
pub fn opamp_clock_enabled(apb1henr: u32) -> (r: u32)
    ensures
        r == apb1henr | 0x10,
        field_get(r, RCC_APB1HENR_OPAMPEN, 1) == 1,
{
    let r = with_field(apb1henr, RCC_APB1HENR_OPAMPEN, 1, 1);
    assert(field_set(apb1henr, 4, 1, 1) == apb1henr | 0x10) by (bit_vector);
    assert(field_get(apb1henr | 0x10, 4, 1) == 1) by (bit_vector);
    r
}

/// OPAMP2_CSR set up as the regulator's amplifier: the DAC output drives the
/// non-inverting input, pin INM0 the inverting input, and the amplifier is on.
pub fn opamp_follows_dac(csr: u32) -> (r: u32)
    ensures
        r == (csr & !0x6du32) | 0x5,
        field_get(r, OPAMP_CSR_VP_SEL, 3) == OPAMP_VP_SEL_DAC_OUT,
        field_get(r, OPAMP_CSR_VM_SEL, 3) == OPAMP_VM_SEL_INM0,
        field_get(r, OPAMP_CSR_OPAMPEN, 1) == 1,
{
    let r1 = with_field(csr, OPAMP_CSR_VP_SEL, 3, OPAMP_VP_SEL_DAC_OUT);
    let r2 = with_field(r1, OPAMP_CSR_VM_SEL, 3, OPAMP_VM_SEL_INM0);
    let r = with_field(r2, OPAMP_CSR_OPAMPEN, 1, 1);
    assert(field_set(field_set(field_set(csr, 2, 3, 1), 5, 3, 0), 0, 1, 1) == (csr & !0x6du32)
        | 0x5) by (bit_vector);
    let v = (csr & !0x6du32) | 0x5;
    assert(field_get(v, 2, 3) == 1 && field_get(v, 5, 3) == 0 && field_get(v, 0, 1) == 1)
        by (bit_vector)
        requires
            v == (csr & !0x6du32) | 0x5,
    ;
    r
}

/// Scaling numerator and denominator by the same factor leaves the rounded
/// quotient unchanged.
pub proof fn lemma_rounded_quotient_scale(n: int, d: int, k: int)
    requires
        n >= 0,
        d > 0,
        k >= 1,
    ensures
        rounded_quotient(k * n, k * d) == rounded_quotient(n, d),
{
    let q = n / d;
    let r = n % d;
    vstd::arithmetic::div_mod::lemma_fundamental_div_mod(n, d);
    vstd::arithmetic::div_mod::lemma_mod_bound(n, d);
    assert(n == q * d + r) by (nonlinear_arith)
        requires
            n == d * (n / d) + (n % d),
            q == n / d,
            r == n % d,
    ;
    let h = d / 2;
    let kd = k * d;
    let hk = kd / 2;
    assert(kd > 0) by (nonlinear_arith)
        requires
            k >= 1,
            d > 0,
            kd == k * d,
    ;
    let c: int = if 2 * r >= d {
        1
    } else {
        0
    };
    // Right side: n + h == (q + c) * d + (r + h - c * d), with a remainder in 0..d.
    assert(0 <= r + h - c * d < d);
    assert(n + h == (q + c) * d + (r + h - c * d)) by (nonlinear_arith)
        requires
            n == q * d + r,
    ;
    vstd::arithmetic::div_mod::lemma_fundamental_div_mod_converse_div(
        n + h,
        d,
        q + c,
        r + h - c * d,
    );
    // Left side: the same with every quantity scaled by k.
    assert(2 * r >= d ==> 2 * (k * r) >= kd) by (nonlinear_arith)
        requires
            k >= 1,
            kd == k * d,
    ;
    assert(2 * r < d ==> 2 * (k * r) <= kd - 1) by (nonlinear_arith)
        requires
            k >= 1,
            kd == k * d,
    ;
    assert(0 <= k * r < kd) by (nonlinear_arith)
        requires
            k >= 1,
            0 <= r < d,
            kd == k * d,
    ;
    assert(0 <= k * r + hk - c * kd < kd);
    assert(k * n + hk == (q + c) * kd + (k * r + hk - c * kd)) by (nonlinear_arith)
        requires
            n == q * d + r,
            kd == k * d,
    ;
    vstd::arithmetic::div_mod::lemma_fundamental_div_mod_converse_div(
        k * n + hk,
        kd,
        q + c,
        k * r + hk - c * kd,
    );
}

/// Only the ratio of target to reference matters: scaling both by the same
/// factor gives the same DAC value (for example 94 mV against 6600 mV gives
/// the same code as 47 mV against 3300 mV).
pub proof fn lemma_dac_value_scale(mv: int, vref_mv: int, k: int)
    requires
        mv >= 0,
        vref_mv > 0,
        k >= 1,
    ensures
        dac_value(k * mv, k * vref_mv) == dac_value(mv, vref_mv),
{
    assert(k * mv * MAX_DAC_VALUE == k * (mv * MAX_DAC_VALUE)) by (nonlinear_arith);
    assert(mv * MAX_DAC_VALUE >= 0) by (nonlinear_arith)
        requires
            mv >= 0,
    ;
    lemma_rounded_quotient_scale(mv * MAX_DAC_VALUE, vref_mv, k);
}

/// One step of setting the current regulator up.
#[derive(Clone, Copy, Debug, PartialEq, Eq, Structural)]
pub enum RegulatorStep {
    /// Write RCC_AHB4ENR with `gpioe_clock_enabled`.
    EnableGpioeClock,
    /// Write GPIOE_MODER with `regulator_pins_analog`.
    SetPinsAnalog,
    /// Start DAC1 channel 2 (internal connection only) and output this 12-bit value.
    SetDac(u16),
    /// Write RCC_APB1HENR with `opamp_clock_enabled`.
    EnableOpampClock,
    /// Write OPAMP2_CSR with `opamp_follows_dac`.
    ConfigureOpamp,
}

/// The regulator set-up, in order: GPIO port E clock, analog pins, the DAC
/// set point, the amplifier clock, then the amplifier.
pub open spec fn regulator_setup_spec() -> Seq<RegulatorStep> {
    seq![
        RegulatorStep::EnableGpioeClock,
        RegulatorStep::SetPinsAnalog,
        RegulatorStep::SetDac(dac_value(REGULATOR_TARGET_MV as int, REGULATOR_VREF_MV as int) as u16),
        RegulatorStep::EnableOpampClock,
        RegulatorStep::ConfigureOpamp,
    ]
}

/// The steps that set the current regulator up.
pub fn regulator_setup() -> (steps: [RegulatorStep; 5])
    ensures
        steps@ == regulator_setup_spec(),
{
    let steps = [
        RegulatorStep::EnableGpioeClock,
        RegulatorStep::SetPinsAnalog,
        RegulatorStep::SetDac(regulator_dac_value()),
        RegulatorStep::EnableOpampClock,
        RegulatorStep::ConfigureOpamp,
    ];
    assert(steps@ =~= regulator_setup_spec());
    steps
}

/// Each peripheral's clock is switched on before its registers are written,
/// and the DAC drives the set point (58, within 12 bits) before the amplifier
/// that follows it is switched on.
pub proof fn lemma_regulator_setup_order()
    ensures
        regulator_setup_spec().len() == 5,
        regulator_setup_spec()[0] == RegulatorStep::EnableGpioeClock,
        regulator_setup_spec()[1] == RegulatorStep::SetPinsAnalog,
        regulator_setup_spec()[2] == RegulatorStep::SetDac(58),
        regulator_setup_spec()[3] == RegulatorStep::EnableOpampClock,
        regulator_setup_spec()[4] == RegulatorStep::ConfigureOpamp,
{
}

} // verus!
