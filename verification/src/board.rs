//! The two boards this firmware runs on, and what each one runs.
use vstd::prelude::*;

verus! {

/// Length of the STM32 96-bit unique device identifier, in bytes.
pub const UID_LEN: usize = 12;

/// The board a firmware image is built for.
#[derive(Clone, Copy, Debug, PartialEq, Eq, Structural)]
pub enum Board {
    /// The display board.
    M0,
    /// The current-regulator board.
    M1,
}

/// The firmware was flashed onto a device whose identifier is not the one of its board.
#[derive(Clone, Copy, Debug, PartialEq, Eq, Structural)]
pub struct UidMismatch {
    pub board: Board,
}

/// The unique device identifier of each board.
pub open spec fn expected_uid_spec(board: Board) -> Seq<u8> {
    match board {
        Board::M0 => seq![0x33u8, 0x0, 0x10, 0x0, 0x19, 0x51, 0x31, 0x32, 0x34, 0x35, 0x32, 0x30],
        Board::M1 => seq![0x34u8, 0x0, 0x10, 0x0, 0x19, 0x51, 0x31, 0x32, 0x34, 0x35, 0x32, 0x30],
    }
}

/// The unique device identifier the firmware of `board` expects.
pub fn expected_uid(board: Board) -> (uid: [u8; 12])
    ensures
        uid@ == expected_uid_spec(board),
{
    let uid = match board {
        Board::M0 => [0x33u8, 0x0, 0x10, 0x0, 0x19, 0x51, 0x31, 0x32, 0x34, 0x35, 0x32, 0x30],
        Board::M1 => [0x34u8, 0x0, 0x10, 0x0, 0x19, 0x51, 0x31, 0x32, 0x34, 0x35, 0x32, 0x30],
    };
    assert(uid@ =~= expected_uid_spec(board));
    uid
}

/// Checks that the firmware of `board` runs on that board's hardware, so that
/// it does not drive pins that are wired differently on the other board.
pub fn check_uid(board: Board, uid: &[u8; 12]) -> (r: Result<(), UidMismatch>)
    ensures
        r is Ok <==> uid@ == expected_uid_spec(board),
        r is Err ==> r == Err::<(), UidMismatch>(UidMismatch { board }),
{
    let expected = expected_uid(board);
    let mut i: usize = 0;
    while i < UID_LEN
        invariant
            i <= UID_LEN,
            expected@ == expected_uid_spec(board),
            forall|k: int| 0 <= k < i ==> uid@[k] == expected@[k],
        decreases UID_LEN - i,
    {
        if uid[i] != expected[i] {
            return Err(UidMismatch { board });
        }
        i = i + 1;
    }
    assert(uid@ =~= expected@);
    Ok(())
}

/// What the firmware of a board sets up and runs.
#[derive(Clone, Copy, Debug, PartialEq, Eq, Structural)]
pub struct BoardPlan {
    /// Pin of port E that drives the heartbeat LED.
    pub heartbeat_pin: u8,
    /// The power button and supply latch task runs.
    pub power_latch: bool,
    /// The display is brought up and the plasma animation runs.
    pub display: bool,
    /// The current regulator (DAC and amplifier) is set up.
    pub current_regulator: bool,
    /// The MPU maps the FMC bank as device memory.
    pub fmc_mpu_region: bool,
}

/// What each board runs.
pub open spec fn board_plan_spec(board: Board) -> BoardPlan {
    match board {
        Board::M0 => BoardPlan {
            heartbeat_pin: 3,
            power_latch: true,
            display: true,
            current_regulator: false,
            fmc_mpu_region: true,
        },
        Board::M1 => BoardPlan {
            heartbeat_pin: 2,
            power_latch: false,
            display: false,
            current_regulator: true,
            fmc_mpu_region: false,
        },
    }
}

/// What the firmware of `board` sets up and runs.
pub fn board_plan(board: Board) -> (plan: BoardPlan)
    ensures
        plan == board_plan_spec(board),
{
    match board {
        Board::M0 => BoardPlan {
            heartbeat_pin: 3,
            power_latch: true,
            display: true,
            current_regulator: false,
            fmc_mpu_region: true,
        },
        Board::M1 => BoardPlan {
            heartbeat_pin: 2,
            power_latch: false,
            display: false,
            current_regulator: true,
            fmc_mpu_region: false,
        },
    }
}

/// The two boards have different identifiers, so a firmware accepts at most
/// one of them; no board runs both the display and the regulator, which use
/// the same pins (PE7, PE8); and the FMC region is mapped exactly on the board
/// that drives the display.
pub proof fn lemma_boards_exclusive(uid: Seq<u8>)
    ensures
        !(uid == expected_uid_spec(Board::M0) && uid == expected_uid_spec(Board::M1)),
        forall|b: Board| !(#[trigger] board_plan_spec(b).display && board_plan_spec(b).current_regulator),
        forall|b: Board| #[trigger] board_plan_spec(b).display == board_plan_spec(b).fmc_mpu_region,
{
    if uid == expected_uid_spec(Board::M0) && uid == expected_uid_spec(Board::M1) {
        assert(expected_uid_spec(Board::M0)[0] != expected_uid_spec(Board::M1)[0]);
    }
}

} // verus!
