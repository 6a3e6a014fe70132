use board_firmware::board::Board;
use board_firmware::mpu_conf::{fmc_region, mpu_writes, rasr_value, MpuRegion, MpuWrite};

#[test]
fn fmc_region_attributes() {
    let r = fmc_region();
    assert_eq!(r.number, 0);
    assert_eq!(r.base, 0x6000_0000);
    assert_eq!(r.size_field, 27);
    assert_eq!(1u64 << (r.size_field + 1), 256 * 1024 * 1024);
    assert_eq!(rasr_value(&r), (1 << 28) | (3 << 24) | (1 << 16) | (27 << 1) | 1);
    assert_eq!(rasr_value(&r), 0x1301_0037);
}

#[test]
fn rasr_of_other_attributes() {
    let r = MpuRegion {
        number: 1,
        base: 0x2000_0000,
        execute_never: false,
        access_permission: 6,
        tex: 1,
        shareable: true,
        cacheable: true,
        bufferable: false,
        size_field: 16,
        enabled: false,
    };
    assert_eq!(rasr_value(&r), (6 << 24) | (1 << 19) | (1 << 18) | (1 << 17) | (16 << 1));
}

#[test]
fn mpu_writes_per_board() {
    let (writes, len) = mpu_writes(Board::M0);
    assert_eq!(
        writes[..len].to_vec(),
        vec![
            MpuWrite::Ctrl(0),
            MpuWrite::Rnr(0),
            MpuWrite::Rbar(0x6000_0000),
            MpuWrite::Rasr(0x1301_0037),
            MpuWrite::Ctrl(5),
        ]
    );
    let (writes, len) = mpu_writes(Board::M1);
    assert_eq!(writes[..len].to_vec(), vec![MpuWrite::Ctrl(0), MpuWrite::Ctrl(1 | (1 << 2))]);
}
