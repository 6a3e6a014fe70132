use board_firmware::display::fmc::{
    bus_pin_config, bus_setup, fmc_pin_location, BusPinConfig, BusSetupStep, FmcPin,
    PinLocation, PinOutputType, PinSpeed, GPIO_PORT_D, GPIO_PORT_E, command_word, display_bcr1, display_btr, display_bwtr, lcd_data_addr, LCD_CMD_ADDR,
};
use board_firmware::display::{init_sequence, window_param_words, DisplayStep};
use stm32_metapac::fmc::regs::{Bcr1, Btr, Bwtr};
use stm32_metapac::fmc::vals::{Accmod, Mtyp, Mwid};

const SAMPLES: [u32; 5] = [0, 0xffff_ffff, 0xa5a5_a5a5, 0x1234_5678, 0x0000_30db];

#[test]
fn bank_control_matches_register_layout() {
    for v in SAMPLES {
        let mut w = Bcr1(v);
        w.set_mbken(true);
        w.set_muxen(false);
        w.set_mtyp(Mtyp::SRAM);
        w.set_mwid(Mwid::BITS16);
        w.set_faccen(false);
        w.set_bursten(false);
        w.set_wren(true);
        w.set_extmod(true);
        w.set_asyncwait(false);
        w.set_waiten(false);
        w.set_cburstrw(false);
        assert_eq!(display_bcr1(v), w.0);
    }
    // Reset value of FMC_BCR1.
    assert_eq!(display_bcr1(0x0000_30db), 0x0000_5091);
}

#[test]
fn write_timing_matches_register_layout() {
    for v in SAMPLES {
        let mut w = Bwtr(v);
        w.set_accmod(Accmod::A);
        w.set_addset(3);
        w.set_addhld(0);
        w.set_datast(14);
        assert_eq!(display_bwtr(v), w.0);
    }
    assert_eq!(display_bwtr(0x0fff_ffff), 0x0fff_0e03);
}

#[test]
fn read_timing_matches_register_layout() {
    for v in SAMPLES {
        let mut w = Btr(v);
        w.set_accmod(Accmod::A);
        w.set_addset(4);
        w.set_addhld(0);
        w.set_datast(115);
        w.set_busturn(2);
        assert_eq!(display_btr(v), w.0);
    }
    assert_eq!(display_btr(0x0fff_ffff), 0x0ff2_7304);
}

#[test]
fn display_addresses() {
    assert_eq!(LCD_CMD_ADDR, 0x6000_0000);
    assert_eq!(lcd_data_addr(), 0x6080_0000);
    assert_eq!(lcd_data_addr() - LCD_CMD_ADDR, 1 << 23);
    assert_eq!(command_word(0x2c), 0x002c);
    assert_eq!(command_word(0xff), 0x00ff);
}

#[test]
fn window_words_split_high_and_low_bytes() {
    assert_eq!(window_param_words(0, 319), [0x00, 0x00, 0x01, 0x3f]);
    assert_eq!(window_param_words(0, 479), [0x00, 0x00, 0x01, 0xdf]);
    assert_eq!(window_param_words(0x1234, 0xabcd), [0x12, 0x34, 0xab, 0xcd]);
}

#[test]
fn init_sequence_brings_panel_up() {
    let expected = [
        DisplayStep::ResetHigh,
        DisplayStep::ResetLow,
        DisplayStep::DelayMs(10),
        DisplayStep::ResetHigh,
        DisplayStep::DelayMs(10),
        DisplayStep::BusInit,
        DisplayStep::Command(0x11),
        DisplayStep::DelayMs(120),
        DisplayStep::Command(0x3a),
        DisplayStep::Data(0x55),
        DisplayStep::Command(0x36),
        DisplayStep::Data(0x48),
        DisplayStep::Command(0x2a),
        DisplayStep::Data(0x00),
        DisplayStep::Data(0x00),
        DisplayStep::Data(0x01),
        DisplayStep::Data(0x3f),
        DisplayStep::Command(0x2b),
        DisplayStep::Data(0x00),
        DisplayStep::Data(0x00),
        DisplayStep::Data(0x01),
        DisplayStep::Data(0xdf),
        DisplayStep::Command(0x21),
        DisplayStep::Command(0x29),
        DisplayStep::DelayMs(20),
        DisplayStep::Command(0x2c),
    ];
    assert_eq!(init_sequence(), expected);
}

#[test]
fn bus_setup_pins_first_then_controller_then_registers() {
    let steps = bus_setup();
    let pins = [
        FmcPin::D0, FmcPin::D1, FmcPin::D2, FmcPin::D3, FmcPin::D4, FmcPin::D5, FmcPin::D6,
        FmcPin::D7, FmcPin::D8, FmcPin::D9, FmcPin::D14, FmcPin::D10, FmcPin::D11, FmcPin::D12,
        FmcPin::D13, FmcPin::D15, FmcPin::Csx, FmcPin::Dcx, FmcPin::Wrx, FmcPin::Rdx,
    ];
    for (i, pin) in pins.iter().enumerate() {
        assert_eq!(steps[i], BusSetupStep::ConfigurePin(*pin));
    }
    assert_eq!(
        steps[20..],
        [
            BusSetupStep::EnableClock,
            BusSetupStep::EnableController,
            BusSetupStep::SetBankControl,
            BusSetupStep::SetWriteTiming,
            BusSetupStep::SetReadTiming,
        ]
    );
}

#[test]
fn bus_pins_and_their_set_up() {
    let d = |pin| PinLocation { port: GPIO_PORT_D, pin };
    let e = |pin| PinLocation { port: GPIO_PORT_E, pin };
    let expected = [
        (FmcPin::D0, d(14)),
        (FmcPin::D1, d(15)),
        (FmcPin::D2, d(0)),
        (FmcPin::D3, d(1)),
        (FmcPin::D4, e(7)),
        (FmcPin::D5, e(8)),
        (FmcPin::D6, e(9)),
        (FmcPin::D7, e(10)),
        (FmcPin::D8, e(11)),
        (FmcPin::D9, e(12)),
        (FmcPin::D10, e(13)),
        (FmcPin::D11, e(14)),
        (FmcPin::D12, e(15)),
        (FmcPin::D13, d(8)),
        (FmcPin::D14, d(9)),
        (FmcPin::D15, d(10)),
        (FmcPin::Csx, d(7)),
        (FmcPin::Dcx, e(6)),
        (FmcPin::Wrx, d(5)),
        (FmcPin::Rdx, d(4)),
    ];
    for (signal, location) in expected {
        assert_eq!(fmc_pin_location(signal), location);
    }
    for (i, (a, _)) in expected.iter().enumerate() {
        for (b, _) in &expected[i + 1..] {
            assert_ne!(fmc_pin_location(*a), fmc_pin_location(*b));
        }
    }
    assert_eq!(GPIO_PORT_D, 3);
    assert_eq!(GPIO_PORT_E, 4);
    assert_eq!(
        bus_pin_config(),
        BusPinConfig {
            alternate_function: 12,
            output_type: PinOutputType::PushPull,
            speed: PinSpeed::VeryHigh,
        }
    );
}
