//! The FMC bus that carries the display controller's 16-bit parallel interface.
use vstd::prelude::*;

use crate::rcc::{hclk_hz, lemma_rcc_config_clocks, rcc_config_spec};
use crate::reg::{field_get, field_set, with_field};

verus! {

/// Start of FMC bank 1, sub-bank 1, where the display controller is mapped.
pub const LCD_BASE: usize = 0x6000_0000;

/// The display's data/command select line (DCX) is wired to address line FMC_A22.
pub const RS_ADDR_LINE: u32 = 22;

/// Address whose access drives DCX low: a command.
pub const LCD_CMD_ADDR: usize = LCD_BASE;

/// Alternate function number of the FMC on the bus pins.
pub const FMC_PIN_ALTERNATE_FUNCTION: u8 = 12;

/// Bit of FMC_BCR1 and FMC_BTR/FMC_BWTR fields, with their right-aligned masks.
pub const BCR_MBKEN: u32 = 0;
pub const BCR_MUXEN: u32 = 1;
pub const BCR_MTYP: u32 = 2;
pub const BCR_MWID: u32 = 4;
pub const BCR_FACCEN: u32 = 6;
pub const BCR_BURSTEN: u32 = 8;
pub const BCR_WREN: u32 = 12;
pub const BCR_WAITEN: u32 = 13;
pub const BCR_EXTMOD: u32 = 14;
pub const BCR_ASYNCWAIT: u32 = 15;
pub const BCR_CBURSTRW: u32 = 19;
pub const TR_ADDSET: u32 = 0;
pub const TR_ADDHLD: u32 = 4;
pub const TR_DATAST: u32 = 8;
pub const TR_BUSTURN: u32 = 16;
pub const TR_ACCMOD: u32 = 28;

/// MTYP value of an SRAM.
pub const MTYP_SRAM: u32 = 0;
/// MWID value of a 16-bit data bus.
pub const MWID_BITS16: u32 = 1;
/// ACCMOD value of access mode A.
pub const ACCMOD_A: u32 = 0;

/// Address of the bus access that drives address line `line` high and no
/// other: with a 16-bit bus, FMC_A[n] carries bit n + 1 of the address.
pub open spec fn line_select_address(base: int, line: int) -> int {
    base + vstd::arithmetic::power2::pow2((line + 1) as nat)
}

/// Address whose access drives DCX high: pixel or parameter data.
pub fn lcd_data_addr() -> (addr: usize)
    ensures
        addr == LCD_BASE | (1usize << (RS_ADDR_LINE + 1)),
        addr == 0x6080_0000,
        addr == line_select_address(LCD_BASE as int, RS_ADDR_LINE as int),
{
    let addr = LCD_BASE | (1usize << (RS_ADDR_LINE + 1));
    assert(LCD_BASE | (1usize << 23usize) == 0x6080_0000usize) by (bit_vector);
    proof {
        vstd::arithmetic::power2::lemma2_to64();
    }
    addr
}

/// FMC_BCR1 for the display: bank enabled, address and data not multiplexed,
/// SRAM on a 16-bit bus, no flash access, no bursts, writes enabled, extended
/// mode (separate write timings), no wait signal.
pub fn display_bcr1(current: u32) -> (r: u32)
    ensures
        r == (current & !0x8_f17fu32) | 0x5011,
        field_get(r, BCR_MBKEN, 1) == 1,
        field_get(r, BCR_MUXEN, 1) == 0,
        field_get(r, BCR_MTYP, 3) == MTYP_SRAM,
        field_get(r, BCR_MWID, 3) == MWID_BITS16,
        field_get(r, BCR_WREN, 1) == 1,
        field_get(r, BCR_EXTMOD, 1) == 1,
        field_get(r, BCR_WAITEN, 1) == 0,
        field_get(r, BCR_ASYNCWAIT, 1) == 0,
{
    let mut w = current;
    w = with_field(w, BCR_MBKEN, 1, 1);
    w = with_field(w, BCR_MUXEN, 1, 0);
    w = with_field(w, BCR_MTYP, 3, MTYP_SRAM);
    w = with_field(w, BCR_MWID, 3, MWID_BITS16);
    w = with_field(w, BCR_FACCEN, 1, 0);
    w = with_field(w, BCR_BURSTEN, 1, 0);
    w = with_field(w, BCR_WREN, 1, 1);
    w = with_field(w, BCR_EXTMOD, 1, 1);
    w = with_field(w, BCR_ASYNCWAIT, 1, 0);
    w = with_field(w, BCR_WAITEN, 1, 0);
    w = with_field(w, BCR_CBURSTRW, 1, 0);
    assert(field_set(
        field_set(
            field_set(
                field_set(
                    field_set(
                        field_set(
                            field_set(
                                field_set(
                                    field_set(field_set(field_set(current, 0, 1, 1), 1, 1, 0), 2, 3, 0),
                                    4,
                                    3,
                                    1,
                                ),
                                6,
                                1,
                                0,
                            ),
                            8,
                            1,
                            0,
                        ),
                        12,
                        1,
                        1,
                    ),
                    14,
                    1,
                    1,
                ),
                15,
                1,
                0,
            ),
            13,
            1,
            0,
        ),
        19,
        1,
        0,
    ) == (current & !0x8_f17fu32) | 0x5011) by (bit_vector);
    let v = (current & !0x8_f17fu32) | 0x5011;
    assert(field_get(v, 0, 1) == 1 && field_get(v, 1, 1) == 0 && field_get(v, 2, 3) == 0
        && field_get(v, 4, 3) == 1 && field_get(v, 12, 1) == 1 && field_get(v, 14, 1) == 1
        && field_get(v, 13, 1) == 0 && field_get(v, 15, 1) == 0) by (bit_vector)
        requires
            v == (current & !0x8_f17fu32) | 0x5011,
    ;
    w
}

/// FMC_BWTR1 (write timings) for the display: access mode A, 3 cycles of
/// address setup, no address hold, 14 cycles of data phase.
pub fn display_bwtr(current: u32) -> (r: u32)
    ensures
        r == (current & !0x3000_ffffu32) | 0x0e03,
        field_get(r, TR_ACCMOD, 3) == ACCMOD_A,
        field_get(r, TR_ADDSET, 15) == 3,
        field_get(r, TR_ADDHLD, 15) == 0,
        field_get(r, TR_DATAST, 255) == 14,
{
    let mut w = current;
    w = with_field(w, TR_ACCMOD, 3, ACCMOD_A);
    w = with_field(w, TR_ADDSET, 15, 3);
    w = with_field(w, TR_ADDHLD, 15, 0);
    w = with_field(w, TR_DATAST, 255, 14);
    assert(field_set(field_set(field_set(field_set(current, 28, 3, 0), 0, 15, 3), 4, 15, 0), 8, 255, 14)
        == (current & !0x3000_ffffu32) | 0x0e03) by (bit_vector);
    let v = (current & !0x3000_ffffu32) | 0x0e03;
    assert(field_get(v, 28, 3) == 0 && field_get(v, 0, 15) == 3 && field_get(v, 4, 15) == 0
        && field_get(v, 8, 255) == 14) by (bit_vector)
        requires
            v == (current & !0x3000_ffffu32) | 0x0e03,
    ;
    w
}

/// FMC_BTR1 (read timings) for the display: access mode A, 4 cycles of
/// address setup, no address hold, 115 cycles of data phase, 2 cycles of bus
/// turnaround.
pub fn display_btr(current: u32) -> (r: u32)
    ensures
        r == (current & !0x300f_ffffu32) | 0x2_7304,
        field_get(r, TR_ACCMOD, 3) == ACCMOD_A,
        field_get(r, TR_ADDSET, 15) == 4,
        field_get(r, TR_ADDHLD, 15) == 0,
        field_get(r, TR_DATAST, 255) == 115,
        field_get(r, TR_BUSTURN, 15) == 2,
{
    let mut w = current;
    w = with_field(w, TR_ACCMOD, 3, ACCMOD_A);
    w = with_field(w, TR_ADDSET, 15, 4);
    w = with_field(w, TR_ADDHLD, 15, 0);
    w = with_field(w, TR_DATAST, 255, 115);
    w = with_field(w, TR_BUSTURN, 15, 2);
    assert(field_set(
        field_set(field_set(field_set(field_set(current, 28, 3, 0), 0, 15, 4), 4, 15, 0), 8, 255, 115),
        16,
        15,
        2,
    ) == (current & !0x300f_ffffu32) | 0x2_7304) by (bit_vector);
    let v = (current & !0x300f_ffffu32) | 0x2_7304;
    assert(field_get(v, 28, 3) == 0 && field_get(v, 0, 15) == 4 && field_get(v, 4, 15) == 0
        && field_get(v, 8, 255) == 115 && field_get(v, 16, 15) == 2) by (bit_vector)
        requires
            v == (current & !0x300f_ffffu32) | 0x2_7304,
    ;
    w
}

/// The 16-bit bus word that carries command byte `cmd`.
pub fn command_word(cmd: u8) -> (w: u16)
    ensures
        w == cmd as u16,
        w < 256,
{
    cmd as u16
}

/// Length of an access in HCLK cycles, taking the address-setup phase as
/// ADDSET + 1 cycles and the data phase as DATAST + 1 cycles.
pub open spec fn access_cycles(timing: u32) -> int {
    field_get(timing, TR_ADDSET, 15) + 1 + field_get(timing, TR_DATAST, 255) + 1
}

/// Duration of `cycles` HCLK cycles at `hclk_hz`, in picoseconds (rounded down).
pub open spec fn cycles_ps(cycles: int, hclk_hz: int) -> int {
    cycles * 1_000_000_000_000 / hclk_hz
}

/// With the board's 260 MHz AHB clock, a display write lasts 19 cycles (about
/// 73 ns) and a display read 121 cycles (about 465 ns), whatever the timing
/// registers held before.
pub proof fn lemma_display_access_times(bwtr: u32, btr: u32)
    ensures
        access_cycles((bwtr & !0x3000_ffffu32) | 0x0e03) == 19,
        access_cycles((btr & !0x300f_ffffu32) | 0x2_7304) == 121,
        73_000 <= cycles_ps(19, hclk_hz(rcc_config_spec())) < 74_000,
        465_000 <= cycles_ps(121, hclk_hz(rcc_config_spec())) < 466_000,
{
    lemma_rcc_config_clocks();
    let w = (bwtr & !0x3000_ffffu32) | 0x0e03;
    let r = (btr & !0x300f_ffffu32) | 0x2_7304;
    assert(field_get(w, 0, 15) == 3 && field_get(w, 8, 255) == 14) by (bit_vector)
        requires
            w == (bwtr & !0x3000_ffffu32) | 0x0e03,
    ;
    assert(field_get(r, 0, 15) == 4 && field_get(r, 8, 255) == 115) by (bit_vector)
        requires
            r == (btr & !0x300f_ffffu32) | 0x2_7304,
    ;
}

/// A pin of the display bus.
#[derive(Clone, Copy, Debug, PartialEq, Eq, Structural)]
pub enum FmcPin {
    D0,
    D1,
    D2,
    D3,
    D4,
    D5,
    D6,
    D7,
    D8,
    D9,
    D10,
    D11,
    D12,
    D13,
    D14,
    D15,
    /// Chip select.
    Csx,
    /// Data/command select (address line A22).
    Dcx,
    /// Write strobe.
    Wrx,
    /// Read strobe.
    Rdx,
}

/// One step of setting the display bus up.
#[derive(Clone, Copy, Debug, PartialEq, Eq, Structural)]
pub enum BusSetupStep {
    /// Set the signal's pin (`fmc_pin_location`) up as `bus_pin_config` says:
    /// alternate function 12, push-pull, very high speed.
    ConfigurePin(FmcPin),
    /// Switch the FMC's clock on and reset it.
    EnableClock,
    /// Set FMCEN: the memory controller runs.
    EnableController,
    /// Write FMC_BCR1 with `display_bcr1`.
    SetBankControl,
    /// Write FMC_BWTR1 with `display_bwtr`.
    SetWriteTiming,
    /// Write FMC_BTR1 with `display_btr`.
    SetReadTiming,
}

/// The bus set-up, in order: the twenty bus pins, the FMC clock, the memory
/// controller, then bank control, write timings and read timings.
pub open spec fn bus_setup_spec() -> Seq<BusSetupStep> {
    seq![
        BusSetupStep::ConfigurePin(FmcPin::D0),
        BusSetupStep::ConfigurePin(FmcPin::D1),
        BusSetupStep::ConfigurePin(FmcPin::D2),
        BusSetupStep::ConfigurePin(FmcPin::D3),
        BusSetupStep::ConfigurePin(FmcPin::D4),
        BusSetupStep::ConfigurePin(FmcPin::D5),
        BusSetupStep::ConfigurePin(FmcPin::D6),
        BusSetupStep::ConfigurePin(FmcPin::D7),
        BusSetupStep::ConfigurePin(FmcPin::D8),
        BusSetupStep::ConfigurePin(FmcPin::D9),
        BusSetupStep::ConfigurePin(FmcPin::D14),
        BusSetupStep::ConfigurePin(FmcPin::D10),
        BusSetupStep::ConfigurePin(FmcPin::D11),
        BusSetupStep::ConfigurePin(FmcPin::D12),
        BusSetupStep::ConfigurePin(FmcPin::D13),
        BusSetupStep::ConfigurePin(FmcPin::D15),
        BusSetupStep::ConfigurePin(FmcPin::Csx),
        BusSetupStep::ConfigurePin(FmcPin::Dcx),
        BusSetupStep::ConfigurePin(FmcPin::Wrx),
        BusSetupStep::ConfigurePin(FmcPin::Rdx),
        BusSetupStep::EnableClock,
        BusSetupStep::EnableController,
        BusSetupStep::SetBankControl,
        BusSetupStep::SetWriteTiming,
        BusSetupStep::SetReadTiming,
    ]
}

/// The steps that set the display bus up.
pub fn bus_setup() -> (steps: [BusSetupStep; 25])
    ensures
        steps@ == bus_setup_spec(),
{
    let steps = [
        BusSetupStep::ConfigurePin(FmcPin::D0),
        BusSetupStep::ConfigurePin(FmcPin::D1),
        BusSetupStep::ConfigurePin(FmcPin::D2),
        BusSetupStep::ConfigurePin(FmcPin::D3),
        BusSetupStep::ConfigurePin(FmcPin::D4),
        BusSetupStep::ConfigurePin(FmcPin::D5),
        BusSetupStep::ConfigurePin(FmcPin::D6),
        BusSetupStep::ConfigurePin(FmcPin::D7),
        BusSetupStep::ConfigurePin(FmcPin::D8),
        BusSetupStep::ConfigurePin(FmcPin::D9),
        BusSetupStep::ConfigurePin(FmcPin::D14),
        BusSetupStep::ConfigurePin(FmcPin::D10),
        BusSetupStep::ConfigurePin(FmcPin::D11),
        BusSetupStep::ConfigurePin(FmcPin::D12),
        BusSetupStep::ConfigurePin(FmcPin::D13),
        BusSetupStep::ConfigurePin(FmcPin::D15),
        BusSetupStep::ConfigurePin(FmcPin::Csx),
        BusSetupStep::ConfigurePin(FmcPin::Dcx),
        BusSetupStep::ConfigurePin(FmcPin::Wrx),
        BusSetupStep::ConfigurePin(FmcPin::Rdx),
        BusSetupStep::EnableClock,
        BusSetupStep::EnableController,
        BusSetupStep::SetBankControl,
        BusSetupStep::SetWriteTiming,
        BusSetupStep::SetReadTiming,
    ];
    assert(steps@ =~= bus_setup_spec());
    steps
}

/// Every bus pin is handed to the FMC exactly once, all before the FMC's
/// clock is switched on; the clock comes before the memory controller, and
/// the controller before the three register writes, which come last.
pub proof fn lemma_bus_setup_order()
    ensures
        forall|p: FmcPin|
            #[trigger] bus_setup_spec().subrange(0, 20).contains(BusSetupStep::ConfigurePin(p)),
        forall|i: int, j: int|
            0 <= i < j < 20 ==> #[trigger] bus_setup_spec()[i] != #[trigger] bus_setup_spec()[j],
        forall|i: int| 0 <= i < 20 ==> #[trigger] bus_setup_spec()[i] is ConfigurePin,
        forall|i: int| 20 <= i < 25 ==> !(#[trigger] bus_setup_spec()[i] is ConfigurePin),
        bus_setup_spec().len() == 25,
        bus_setup_spec()[20] == BusSetupStep::EnableClock,
        bus_setup_spec()[21] == BusSetupStep::EnableController,
        bus_setup_spec().subrange(22, 25) == seq![
            BusSetupStep::SetBankControl,
            BusSetupStep::SetWriteTiming,
            BusSetupStep::SetReadTiming,
        ],
{
    let s = bus_setup_spec();
    assert forall|p: FmcPin| #[trigger] s.subrange(0, 20).contains(BusSetupStep::ConfigurePin(p)) by {
        let pins = s.subrange(0, 20);
        match p {
            FmcPin::D0 => assert(pins[0] == BusSetupStep::ConfigurePin(p)),
            FmcPin::D1 => assert(pins[1] == BusSetupStep::ConfigurePin(p)),
            FmcPin::D2 => assert(pins[2] == BusSetupStep::ConfigurePin(p)),
            FmcPin::D3 => assert(pins[3] == BusSetupStep::ConfigurePin(p)),
            FmcPin::D4 => assert(pins[4] == BusSetupStep::ConfigurePin(p)),
            FmcPin::D5 => assert(pins[5] == BusSetupStep::ConfigurePin(p)),
            FmcPin::D6 => assert(pins[6] == BusSetupStep::ConfigurePin(p)),
            FmcPin::D7 => assert(pins[7] == BusSetupStep::ConfigurePin(p)),
            FmcPin::D8 => assert(pins[8] == BusSetupStep::ConfigurePin(p)),
            FmcPin::D9 => assert(pins[9] == BusSetupStep::ConfigurePin(p)),
            FmcPin::D14 => assert(pins[10] == BusSetupStep::ConfigurePin(p)),
            FmcPin::D10 => assert(pins[11] == BusSetupStep::ConfigurePin(p)),
            FmcPin::D11 => assert(pins[12] == BusSetupStep::ConfigurePin(p)),
            FmcPin::D12 => assert(pins[13] == BusSetupStep::ConfigurePin(p)),
            FmcPin::D13 => assert(pins[14] == BusSetupStep::ConfigurePin(p)),
            FmcPin::D15 => assert(pins[15] == BusSetupStep::ConfigurePin(p)),
            FmcPin::Csx => assert(pins[16] == BusSetupStep::ConfigurePin(p)),
            FmcPin::Dcx => assert(pins[17] == BusSetupStep::ConfigurePin(p)),
            FmcPin::Wrx => assert(pins[18] == BusSetupStep::ConfigurePin(p)),
            FmcPin::Rdx => assert(pins[19] == BusSetupStep::ConfigurePin(p)),
        }
    }
    assert(s.subrange(22, 25) =~= seq![
        BusSetupStep::SetBankControl,
        BusSetupStep::SetWriteTiming,
        BusSetupStep::SetReadTiming,
    ]);
}

/// Index of GPIO port D (port A is 0).
pub const GPIO_PORT_D: u8 = 3;

/// Index of GPIO port E.
pub const GPIO_PORT_E: u8 = 4;

/// A GPIO pin: its port index and its number within the port.
#[derive(Clone, Copy, Debug, PartialEq, Eq, Structural)]
pub struct PinLocation {
    pub port: u8,
    pub pin: u8,
}

/// Output driver of a pin.
#[derive(Clone, Copy, Debug, PartialEq, Eq, Structural)]
pub enum PinOutputType {
    PushPull,
    OpenDrain,
}

/// Slew-rate setting of a pin.
#[derive(Clone, Copy, Debug, PartialEq, Eq, Structural)]
pub enum PinSpeed {
    Low,
    Medium,
    High,
    VeryHigh,
}

/// How a bus pin is set up: the alternate function it is given, its output
/// driver and its speed.
#[derive(Clone, Copy, Debug, PartialEq, Eq, Structural)]
pub struct BusPinConfig {
    pub alternate_function: u8,
    pub output_type: PinOutputType,
    pub speed: PinSpeed,
}

/// The pin that carries each bus signal on this board.
pub open spec fn fmc_pin_location_spec(p: FmcPin) -> PinLocation {
    match p {
        FmcPin::D0 => PinLocation { port: GPIO_PORT_D, pin: 14 },
        FmcPin::D1 => PinLocation { port: GPIO_PORT_D, pin: 15 },
        FmcPin::D2 => PinLocation { port: GPIO_PORT_D, pin: 0 },
        FmcPin::D3 => PinLocation { port: GPIO_PORT_D, pin: 1 },
        FmcPin::D4 => PinLocation { port: GPIO_PORT_E, pin: 7 },
        FmcPin::D5 => PinLocation { port: GPIO_PORT_E, pin: 8 },
        FmcPin::D6 => PinLocation { port: GPIO_PORT_E, pin: 9 },
        FmcPin::D7 => PinLocation { port: GPIO_PORT_E, pin: 10 },
        FmcPin::D8 => PinLocation { port: GPIO_PORT_E, pin: 11 },
        FmcPin::D9 => PinLocation { port: GPIO_PORT_E, pin: 12 },
        FmcPin::D10 => PinLocation { port: GPIO_PORT_E, pin: 13 },
        FmcPin::D11 => PinLocation { port: GPIO_PORT_E, pin: 14 },
        FmcPin::D12 => PinLocation { port: GPIO_PORT_E, pin: 15 },
        FmcPin::D13 => PinLocation { port: GPIO_PORT_D, pin: 8 },
        FmcPin::D14 => PinLocation { port: GPIO_PORT_D, pin: 9 },
        FmcPin::D15 => PinLocation { port: GPIO_PORT_D, pin: 10 },
        FmcPin::Csx => PinLocation { port: GPIO_PORT_D, pin: 7 },
        FmcPin::Dcx => PinLocation { port: GPIO_PORT_E, pin: 6 },
        FmcPin::Wrx => PinLocation { port: GPIO_PORT_D, pin: 5 },
        FmcPin::Rdx => PinLocation { port: GPIO_PORT_D, pin: 4 },
    }
}

/// The pin that carries bus signal `p`: D0..D3 on PD14, PD15, PD0, PD1;
/// D4..D12 on PE7..PE15; D13..D15 on PD8..PD10; CSX (NE1) on PD7; DCX (A22)
/// on PE6; WRX (NWE) on PD5; RDX (NOE) on PD4.
pub fn fmc_pin_location(p: FmcPin) -> (l: PinLocation)
    ensures
        l == fmc_pin_location_spec(p),
{
    match p {
        FmcPin::D0 => PinLocation { port: GPIO_PORT_D, pin: 14 },
        FmcPin::D1 => PinLocation { port: GPIO_PORT_D, pin: 15 },
        FmcPin::D2 => PinLocation { port: GPIO_PORT_D, pin: 0 },
        FmcPin::D3 => PinLocation { port: GPIO_PORT_D, pin: 1 },
        FmcPin::D4 => PinLocation { port: GPIO_PORT_E, pin: 7 },
        FmcPin::D5 => PinLocation { port: GPIO_PORT_E, pin: 8 },
        FmcPin::D6 => PinLocation { port: GPIO_PORT_E, pin: 9 },
        FmcPin::D7 => PinLocation { port: GPIO_PORT_E, pin: 10 },
        FmcPin::D8 => PinLocation { port: GPIO_PORT_E, pin: 11 },
        FmcPin::D9 => PinLocation { port: GPIO_PORT_E, pin: 12 },
        FmcPin::D10 => PinLocation { port: GPIO_PORT_E, pin: 13 },
        FmcPin::D11 => PinLocation { port: GPIO_PORT_E, pin: 14 },
        FmcPin::D12 => PinLocation { port: GPIO_PORT_E, pin: 15 },
        FmcPin::D13 => PinLocation { port: GPIO_PORT_D, pin: 8 },
        FmcPin::D14 => PinLocation { port: GPIO_PORT_D, pin: 9 },
        FmcPin::D15 => PinLocation { port: GPIO_PORT_D, pin: 10 },
        FmcPin::Csx => PinLocation { port: GPIO_PORT_D, pin: 7 },
        FmcPin::Dcx => PinLocation { port: GPIO_PORT_E, pin: 6 },
        FmcPin::Wrx => PinLocation { port: GPIO_PORT_D, pin: 5 },
        FmcPin::Rdx => PinLocation { port: GPIO_PORT_D, pin: 4 },
    }
}

/// The set-up of every bus pin: FMC alternate function 12, push-pull output,
/// very high speed.
pub open spec fn bus_pin_config_spec() -> BusPinConfig {
    BusPinConfig {
        alternate_function: FMC_PIN_ALTERNATE_FUNCTION,
        output_type: PinOutputType::PushPull,
        speed: PinSpeed::VeryHigh,
    }
}

/// How every bus pin is set up.
pub fn bus_pin_config() -> (c: BusPinConfig)
    ensures
        c == bus_pin_config_spec(),
        c.alternate_function == 12,
{
    BusPinConfig {
        alternate_function: FMC_PIN_ALTERNATE_FUNCTION,
        output_type: PinOutputType::PushPull,
        speed: PinSpeed::VeryHigh,
    }
}

/// Distinct bus signals sit on distinct pins, all in ports D and E: the
/// set-up gives exactly twenty pins to the FMC and touches no other pin.
pub proof fn lemma_fmc_pins_distinct(a: FmcPin, b: FmcPin)
    ensures
        a != b ==> fmc_pin_location_spec(a) != fmc_pin_location_spec(b),
        fmc_pin_location_spec(a).port == GPIO_PORT_D || fmc_pin_location_spec(a).port == GPIO_PORT_E,
        fmc_pin_location_spec(a).pin < 16,
{
}

} // verus!
