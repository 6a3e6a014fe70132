use board_firmware::board::{board_plan, check_uid, expected_uid, Board, BoardPlan, UidMismatch};

const M0_UID: [u8; 12] = [0x33, 0x0, 0x10, 0x0, 0x19, 0x51, 0x31, 0x32, 0x34, 0x35, 0x32, 0x30];
const M1_UID: [u8; 12] = [0x34, 0x0, 0x10, 0x0, 0x19, 0x51, 0x31, 0x32, 0x34, 0x35, 0x32, 0x30];

#[test]
fn uid_of_each_board_is_accepted() {
    assert_eq!(expected_uid(Board::M0), M0_UID);
    assert_eq!(expected_uid(Board::M1), M1_UID);
    assert_eq!(check_uid(Board::M0, &M0_UID), Ok(()));
    assert_eq!(check_uid(Board::M1, &M1_UID), Ok(()));
}

#[test]
fn firmware_on_the_other_board_is_refused() {
    assert_eq!(check_uid(Board::M0, &M1_UID), Err(UidMismatch { board: Board::M0 }));
    assert_eq!(check_uid(Board::M1, &M0_UID), Err(UidMismatch { board: Board::M1 }));
    let mut last_byte = M0_UID;
    last_byte[11] = 0x31;
    assert_eq!(check_uid(Board::M0, &last_byte), Err(UidMismatch { board: Board::M0 }));
    assert_eq!(check_uid(Board::M1, &[0u8; 12]), Err(UidMismatch { board: Board::M1 }));
}

#[test]
fn plans_of_the_boards() {
    assert_eq!(
        board_plan(Board::M0),
        BoardPlan {
            heartbeat_pin: 3,
            power_latch: true,
            display: true,
            current_regulator: false,
            fmc_mpu_region: true,
        }
    );
    assert_eq!(
        board_plan(Board::M1),
        BoardPlan {
            heartbeat_pin: 2,
            power_latch: false,
            display: false,
            current_regulator: true,
            fmc_mpu_region: false,
        }
    );
}
