//! The Cortex-M7 memory protection unit set-up.
use vstd::prelude::*;

use crate::board::Board;
use crate::display::fmc::{LCD_BASE, LCD_CMD_ADDR, line_select_address, RS_ADDR_LINE};
use crate::reg::field_get;

verus! {

/// MPU_CTRL.ENABLE.
pub const MPU_CTRL_ENABLE: u32 = 1;
/// MPU_CTRL.PRIVDEFENA: privileged accesses outside any region use the default memory map.
pub const MPU_CTRL_PRIVDEFENA: u32 = 4;
/// MPU_RASR field offsets.
pub const RASR_ENABLE: u32 = 0;
pub const RASR_SIZE: u32 = 1;
pub const RASR_B: u32 = 16;
pub const RASR_C: u32 = 17;
pub const RASR_S: u32 = 18;
pub const RASR_TEX: u32 = 19;
pub const RASR_AP: u32 = 24;
pub const RASR_XN: u32 = 28;
/// Access permission "full access" (read/write, privileged and unprivileged).
pub const AP_FULL_ACCESS: u32 = 3;

/// Attributes of one MPU region.
#[derive(Clone, Copy, Debug, PartialEq, Eq, Structural)]
pub struct MpuRegion {
    /// Region number (MPU_RNR).
    pub number: u32,
    /// Base address (MPU_RBAR).
    pub base: u32,
    /// Instruction fetches are not allowed.
    pub execute_never: bool,
    /// Access permission field (three bits).
    pub access_permission: u32,
    /// Type extension field (three bits).
    pub tex: u32,
    pub shareable: bool,
    pub cacheable: bool,
    pub bufferable: bool,
    /// Size field (five bits): the region spans 2^(size_field + 1) bytes.
    pub size_field: u32,
    pub enabled: bool,
}

/// One write to an MPU register.
#[derive(Clone, Copy, Debug, PartialEq, Eq, Structural)]
pub enum MpuWrite {
    Ctrl(u32),
    Rnr(u32),
    Rbar(u32),
    Rasr(u32),
}

pub open spec fn bit(b: bool) -> u32 {
    if b {
        1
    } else {
        0
    }
}

/// The region's fields laid out as MPU_RASR.
pub open spec fn rasr_spec(r: MpuRegion) -> u32 {
    (bit(r.execute_never) << 28u32) | (r.access_permission << 24u32) | (r.tex << 19u32) | (bit(
        r.shareable,
    ) << 18u32) | (bit(r.cacheable) << 17u32) | (bit(r.bufferable) << 16u32) | (r.size_field
        << 1u32) | bit(r.enabled)
}

/// Number of bytes the region spans.
pub open spec fn region_len(r: MpuRegion) -> int {
    vstd::arithmetic::power2::pow2((r.size_field + 1) as nat) as int
}

/// The region's fields are in range.
pub open spec fn region_fields_fit(r: MpuRegion) -> bool {
    r.access_permission < 8 && r.tex < 8 && r.size_field < 32
}

/// MPU_CTRL value that turns the MPU on over the default memory map.
pub open spec fn ctrl_enabled() -> u32 {
    MPU_CTRL_ENABLE | MPU_CTRL_PRIVDEFENA
}

/// The register writes that set the MPU up on `board`.
pub open spec fn mpu_writes_spec(board: Board) -> Seq<MpuWrite> {
    match board {
        Board::M0 => seq![
            MpuWrite::Ctrl(0),
            MpuWrite::Rnr(fmc_region_spec().number),
            MpuWrite::Rbar(fmc_region_spec().base),
            MpuWrite::Rasr(rasr_spec(fmc_region_spec())),
            MpuWrite::Ctrl(ctrl_enabled()),
        ],
        Board::M1 => seq![MpuWrite::Ctrl(0), MpuWrite::Ctrl(ctrl_enabled())],
    }
}

/// Region 0: FMC bank 1 (256 MB from 0x6000_0000) as device memory, shared,
/// not cacheable, fully accessible, never executed.
pub open spec fn fmc_region_spec() -> MpuRegion {
    MpuRegion {
        number: 0,
        base: LCD_BASE as u32,
        execute_never: true,
        access_permission: AP_FULL_ACCESS,
        tex: 0,
        shareable: false,
        cacheable: false,
        bufferable: true,
        size_field: 27,
        enabled: true,
    }
}

/// The MPU region that makes the display's FMC bank device memory.
pub fn fmc_region() -> (r: MpuRegion)
    ensures
        r == fmc_region_spec(),
{
    MpuRegion {
        number: 0,
        base: 0x6000_0000,
        execute_never: true,
        access_permission: AP_FULL_ACCESS,
        tex: 0,
        shareable: false,
        cacheable: false,
        bufferable: true,
        size_field: 27,
        enabled: true,
    }
}

/// MPU_RASR for a region.
pub fn rasr_value(r: &MpuRegion) -> (v: u32)
    requires
        region_fields_fit(*r),
    ensures
        v == rasr_spec(*r),
        field_get(v, RASR_XN, 1) == bit(r.execute_never),
        field_get(v, RASR_AP, 7) == r.access_permission,
        field_get(v, RASR_TEX, 7) == r.tex,
        field_get(v, RASR_S, 1) == bit(r.shareable),
        field_get(v, RASR_C, 1) == bit(r.cacheable),
        field_get(v, RASR_B, 1) == bit(r.bufferable),
        field_get(v, RASR_SIZE, 31) == r.size_field,
        field_get(v, RASR_ENABLE, 1) == bit(r.enabled),
{
    let xn: u32 = if r.execute_never {
        1
    } else {
        0
    };
    let s: u32 = if r.shareable {
        1
    } else {
        0
    };
    let c: u32 = if r.cacheable {
        1
    } else {
        0
    };
    let b: u32 = if r.bufferable {
        1
    } else {
        0
    };
    let en: u32 = if r.enabled {
        1
    } else {
        0
    };
    let ap = r.access_permission;
    let tex = r.tex;
    let size = r.size_field;
    let v = (xn << 28u32) | (ap << 24u32) | (tex << 19u32) | (s << 18u32) | (c << 17u32) | (b
        << 16u32) | (size << 1u32) | en;
    assert(field_get(v, 28, 1) == xn && field_get(v, 24, 7) == ap && field_get(v, 19, 7) == tex
        && field_get(v, 18, 1) == s && field_get(v, 17, 1) == c && field_get(v, 16, 1) == b
        && field_get(v, 1, 31) == size && field_get(v, 0, 1) == en) by (bit_vector)
        requires
            xn < 2,
            s < 2,
            c < 2,
            b < 2,
            en < 2,
            ap < 8,
            tex < 8,
            size < 32,
            v == (xn << 28u32) | (ap << 24u32) | (tex << 19u32) | (s << 18u32) | (c << 17u32) | (b
                << 16u32) | (size << 1u32) | en,
    ;
    v
}

/// The MPU register writes for `board`, in order: the MPU is switched off,
/// the FMC region is programmed on the display board, and the MPU is switched
/// back on over the default memory map. The first `len` entries are the
/// writes; the caller issues DSB and ISB after the last one.
pub fn mpu_writes(board: Board) -> (r: ([MpuWrite; 5], usize))
    ensures
        r.1 <= 5,
        r.0@.take(r.1 as int) == mpu_writes_spec(board),
{
    let on = MpuWrite::Ctrl(MPU_CTRL_ENABLE | MPU_CTRL_PRIVDEFENA);
    let r = match board {
        Board::M0 => {
            let region = fmc_region();
            let writes = [
                MpuWrite::Ctrl(0),
                MpuWrite::Rnr(region.number),
                MpuWrite::Rbar(region.base),
                MpuWrite::Rasr(rasr_value(&region)),
                on,
            ];
            assert(writes@.take(5) =~= mpu_writes_spec(board));
            (writes, 5)
        },
        Board::M1 => {
            let writes = [MpuWrite::Ctrl(0), on, on, on, on];
            assert(writes@.take(2) =~= mpu_writes_spec(board));
            (writes, 2)
        },
    };
    r
}

/// The FMC region is 256 MB, aligned on its size as the MPU requires, and
/// holds both display addresses (command and data), so that every display
/// access is a device-memory access.
pub proof fn lemma_fmc_region_covers_display()
    ensures
        region_len(fmc_region_spec()) == 0x1000_0000,
        (fmc_region_spec().base as int) % region_len(fmc_region_spec()) == 0,
        fmc_region_spec().base <= LCD_CMD_ADDR < fmc_region_spec().base + region_len(
            fmc_region_spec(),
        ),
        fmc_region_spec().base <= line_select_address(LCD_BASE as int, RS_ADDR_LINE as int)
            < fmc_region_spec().base + region_len(fmc_region_spec()),
        rasr_spec(fmc_region_spec()) == 0x1301_0037,
{
    vstd::arithmetic::power2::lemma2_to64();
    vstd::arithmetic::power2::lemma2_to64_rest();
    assert((1u32 << 28u32) | (3u32 << 24u32) | (0u32 << 19u32) | (0u32 << 18u32) | (0u32 << 17u32)
        | (1u32 << 16u32) | (27u32 << 1u32) | 1u32 == 0x1301_0037u32) by (bit_vector);
}

/// On every board the MPU is off while it is programmed and ends on, and
/// region registers are written only between those two writes.
pub proof fn lemma_mpu_writes_bracketed(board: Board)
    ensures
        mpu_writes_spec(board)[0] == MpuWrite::Ctrl(0),
        mpu_writes_spec(board).last() == MpuWrite::Ctrl(ctrl_enabled()),
        ctrl_enabled() == 5,
        forall|i: int|
            0 < i < mpu_writes_spec(board).len() - 1 ==> !(#[trigger] mpu_writes_spec(board)[i] is Ctrl),
{
    assert(MPU_CTRL_ENABLE | MPU_CTRL_PRIVDEFENA == 5) by (bit_vector);
}

} // verus!
