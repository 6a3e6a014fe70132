//! The ST7796 display controller on the FMC bus.
use vstd::prelude::*;

use crate::plasma::{SCREEN_HEIGHT, SCREEN_WIDTH};

pub mod fmc;

verus! {

/// Sleep Out: wakes the internal oscillators and charge pumps.
pub const CMD_SLPOUT: u8 = 0x11;
/// Display Inversion On (the panel is IPS).
pub const CMD_INVON: u8 = 0x21;
/// Display On.
pub const CMD_DISPON: u8 = 0x29;
/// Column Address Set.
pub const CMD_CASET: u8 = 0x2a;
/// Row (page) Address Set.
pub const CMD_RASET: u8 = 0x2b;
/// Memory Write: the data that follows fills the frame memory.
pub const CMD_RAMWR: u8 = 0x2c;
/// Memory Access Control: orientation and RGB/BGR order.
pub const CMD_MADCTL: u8 = 0x36;
/// Interface Pixel Format.
pub const CMD_COLMOD: u8 = 0x3a;
/// COLMOD parameter for 16 bits per pixel (RGB565).
pub const COLMOD_RGB565: u16 = 0x55;
/// MADCTL parameter used by this board.
pub const MADCTL_VALUE: u16 = 0x48;
/// Time the reset line is held low, and the time allowed after it, in milliseconds.
pub const RESET_PULSE_MS: u32 = 10;
/// Mandatory wait after Sleep Out, in milliseconds.
pub const SLEEP_OUT_DELAY_MS: u32 = 120;
/// Wait after Display On, in milliseconds.
pub const DISPLAY_ON_DELAY_MS: u32 = 20;

/// One step of bringing the display up.
#[derive(Clone, Copy, Debug, PartialEq, Eq, Structural)]
pub enum DisplayStep {
    /// Drive the reset line (NRST) high: the controller runs.
    ResetHigh,
    /// Drive the reset line low: the controller is held in reset.
    ResetLow,
    /// Wait this many milliseconds.
    DelayMs(u32),
    /// Set up the FMC bus (pins, bank control and timings).
    BusInit,
    /// Write a command byte.
    Command(u8),
    /// Write a parameter or data word.
    Data(u16),
}

/// The four parameter words of CASET/RASET for the window `start..=end`:
/// start high byte, start low byte, end high byte, end low byte.
pub open spec fn window_params(start: u16, end: u16) -> Seq<u16> {
    seq![(start / 256) as u16, (start % 256) as u16, (end / 256) as u16, (end % 256) as u16]
}

/// The bring-up sequence of the display controller.
pub open spec fn init_sequence_spec() -> Seq<DisplayStep> {
    seq![
        DisplayStep::ResetHigh,
        DisplayStep::ResetLow,
        DisplayStep::DelayMs(RESET_PULSE_MS),
        DisplayStep::ResetHigh,
        DisplayStep::DelayMs(RESET_PULSE_MS),
        DisplayStep::BusInit,
        DisplayStep::Command(CMD_SLPOUT),
        DisplayStep::DelayMs(SLEEP_OUT_DELAY_MS),
        DisplayStep::Command(CMD_COLMOD),
        DisplayStep::Data(COLMOD_RGB565),
        DisplayStep::Command(CMD_MADCTL),
        DisplayStep::Data(MADCTL_VALUE),
        DisplayStep::Command(CMD_CASET),
        DisplayStep::Data(0),
        DisplayStep::Data(0),
        DisplayStep::Data(0x01),
        DisplayStep::Data(0x3f),
        DisplayStep::Command(CMD_RASET),
        DisplayStep::Data(0),
        DisplayStep::Data(0),
        DisplayStep::Data(0x01),
        DisplayStep::Data(0xdf),
        DisplayStep::Command(CMD_INVON),
        DisplayStep::Command(CMD_DISPON),
        DisplayStep::DelayMs(DISPLAY_ON_DELAY_MS),
        DisplayStep::Command(CMD_RAMWR),
    ]
}

/// Splits a window `start..=end` into the four CASET/RASET parameter words.
pub fn window_param_words(start: u16, end: u16) -> (w: [u16; 4])
    ensures
        w@ == window_params(start, end),
        w[0] * 256 + w[1] == start,
        w[2] * 256 + w[3] == end,
{
    let w = [start >> 8u16, start & 0xff, end >> 8u16, end & 0xff];
    assert(start >> 8u16 == start / 256 && start & 0xff == start % 256) by (bit_vector);
    assert(end >> 8u16 == end / 256 && end & 0xff == end % 256) by (bit_vector);
    w
}

/// The steps that bring the display up, in order: a reset pulse, the bus
/// set-up, Sleep Out and its wait, RGB565 pixels, orientation, the full
/// 320 x 480 window, inversion on, display on, and a final Memory Write so
/// that the words written afterwards are pixels.
pub fn init_sequence() -> (steps: [DisplayStep; 26])
    ensures
        steps@ == init_sequence_spec(),
{
    let columns = window_param_words(0, SCREEN_WIDTH - 1);
    let rows = window_param_words(0, SCREEN_HEIGHT - 1);
    let steps = [
        DisplayStep::ResetHigh,
        DisplayStep::ResetLow,
        DisplayStep::DelayMs(RESET_PULSE_MS),
        DisplayStep::ResetHigh,
        DisplayStep::DelayMs(RESET_PULSE_MS),
        DisplayStep::BusInit,
        DisplayStep::Command(CMD_SLPOUT),
        DisplayStep::DelayMs(SLEEP_OUT_DELAY_MS),
        DisplayStep::Command(CMD_COLMOD),
        DisplayStep::Data(COLMOD_RGB565),
        DisplayStep::Command(CMD_MADCTL),
        DisplayStep::Data(MADCTL_VALUE),
        DisplayStep::Command(CMD_CASET),
        DisplayStep::Data(columns[0]),
        DisplayStep::Data(columns[1]),
        DisplayStep::Data(columns[2]),
        DisplayStep::Data(columns[3]),
        DisplayStep::Command(CMD_RASET),
        DisplayStep::Data(rows[0]),
        DisplayStep::Data(rows[1]),
        DisplayStep::Data(rows[2]),
        DisplayStep::Data(rows[3]),
        DisplayStep::Command(CMD_INVON),
        DisplayStep::Command(CMD_DISPON),
        DisplayStep::DelayMs(DISPLAY_ON_DELAY_MS),
        DisplayStep::Command(CMD_RAMWR),
    ];
    assert(steps@ =~= init_sequence_spec());
    steps
}

/// The column and row windows set during bring-up are the whole panel,
/// 0..=319 by 0..=479, so a frame of 320 x 480 pixel words fills it.
pub proof fn lemma_init_window_is_full_panel()
    ensures
        init_sequence_spec()[12] == DisplayStep::Command(CMD_CASET),
        init_sequence_spec().subrange(13, 17) == seq![
            DisplayStep::Data(window_params(0, (SCREEN_WIDTH - 1) as u16)[0]),
            DisplayStep::Data(window_params(0, (SCREEN_WIDTH - 1) as u16)[1]),
            DisplayStep::Data(window_params(0, (SCREEN_WIDTH - 1) as u16)[2]),
            DisplayStep::Data(window_params(0, (SCREEN_WIDTH - 1) as u16)[3]),
        ],
        init_sequence_spec()[17] == DisplayStep::Command(CMD_RASET),
        init_sequence_spec().subrange(18, 22) == seq![
            DisplayStep::Data(window_params(0, (SCREEN_HEIGHT - 1) as u16)[0]),
            DisplayStep::Data(window_params(0, (SCREEN_HEIGHT - 1) as u16)[1]),
            DisplayStep::Data(window_params(0, (SCREEN_HEIGHT - 1) as u16)[2]),
            DisplayStep::Data(window_params(0, (SCREEN_HEIGHT - 1) as u16)[3]),
        ],
{
    assert(init_sequence_spec().subrange(13, 17) =~= seq![
        DisplayStep::Data(window_params(0, (SCREEN_WIDTH - 1) as u16)[0]),
        DisplayStep::Data(window_params(0, (SCREEN_WIDTH - 1) as u16)[1]),
        DisplayStep::Data(window_params(0, (SCREEN_WIDTH - 1) as u16)[2]),
        DisplayStep::Data(window_params(0, (SCREEN_WIDTH - 1) as u16)[3]),
    ]);
    assert(init_sequence_spec().subrange(18, 22) =~= seq![
        DisplayStep::Data(window_params(0, (SCREEN_HEIGHT - 1) as u16)[0]),
        DisplayStep::Data(window_params(0, (SCREEN_HEIGHT - 1) as u16)[1]),
        DisplayStep::Data(window_params(0, (SCREEN_HEIGHT - 1) as u16)[2]),
        DisplayStep::Data(window_params(0, (SCREEN_HEIGHT - 1) as u16)[3]),
    ]);
}

/// Sleep Out is the first command, and it is followed at once by its
/// mandatory 120 ms wait; the reset line ends high before the bus is used;
/// the last step is Memory Write.
pub proof fn lemma_init_sequence_order()
    ensures
        forall|i: int| 0 <= i < 6 ==> !(#[trigger] init_sequence_spec()[i] is Command),
        init_sequence_spec()[6] == DisplayStep::Command(CMD_SLPOUT),
        init_sequence_spec()[7] == DisplayStep::DelayMs(SLEEP_OUT_DELAY_MS),
        SLEEP_OUT_DELAY_MS >= 120,
        init_sequence_spec()[3] == DisplayStep::ResetHigh,
        forall|i: int| 3 < i < init_sequence_spec().len() ==> !(#[trigger] init_sequence_spec()[i] is ResetLow),
        init_sequence_spec().last() == DisplayStep::Command(CMD_RAMWR),
{
}

} // verus!
