use board_firmware::plasma::{
    advance_phases, frame_pause, generate_palette, generate_sin_lut, plasma_index, plasma_row,
    PlasmaPhases,
};

const ZERO: PlasmaPhases = PlasmaPhases { t1: 0, t2: 0, t3: 0 };

#[test]
fn palette_known_entries() {
    let p = generate_palette();
    assert_eq!(p[0], 0xf800);
    assert_eq!(p[42], 0x83e0);
    assert_eq!(p[85], 0x07e0);
    assert_eq!(p[86], 0x07e0);
    assert_eq!(p[128], 0x040f);
    assert_eq!(p[170], 0x001f);
    assert_eq!(p[171], 0x001f);
    assert_eq!(p[213], 0x7810);
    assert_eq!(p[255], 0xf800);
}

#[test]
fn palette_parts_fit_their_fields() {
    for (i, e) in generate_palette().iter().enumerate() {
        let (r, g, b) = (e >> 11, (e >> 5) & 63, e & 31);
        assert_eq!((r << 11) | (g << 5) | b, *e, "entry {}", i);
        assert!(r <= 31 && g <= 63 && b <= 31);
    }
}

#[test]
fn sine_table_known_entries() {
    let s = generate_sin_lut();
    assert_eq!(s[0], 32);
    assert_eq!(s[32], 40);
    assert_eq!(s[63], 63);
    assert_eq!(s[64], 63);
    assert_eq!(s[65], 63);
    assert_eq!(s[100], 38);
    assert_eq!(s[128], 32);
    assert_eq!(s[160], 24);
    assert_eq!(s[192], 0);
    assert_eq!(s[255], 32);
}

#[test]
fn sine_table_range_and_mirror() {
    let s = generate_sin_lut();
    assert_eq!(*s.iter().min().unwrap(), 0);
    assert_eq!(*s.iter().max().unwrap(), 63);
    for i in 0..128 {
        if i != 64 {
            assert_eq!(s[i] as u32 + s[i + 128] as u32, 64);
        }
    }
    assert_eq!(s[64] as u32 + s[192] as u32, 63);
}

#[test]
fn plasma_indices() {
    let s = generate_sin_lut();
    assert_eq!(plasma_index(&s, 0, 0, ZERO), 96);
    assert_eq!(plasma_index(&s, 319, 479, ZERO), 124);
    assert_eq!(plasma_index(&s, 100, 200, PlasmaPhases { t1: 10, t2: 20, t3: 30 }), 77);
    assert_eq!(plasma_index(&s, 255, 1, PlasmaPhases { t1: 250, t2: 251, t3: 252 }), 96);
    for y in (0..480).step_by(37) {
        for x in (0..320).step_by(23) {
            assert!(plasma_index(&s, x, y, ZERO) <= 189);
        }
    }
}

#[test]
fn plasma_row_uses_palette() {
    let s = generate_sin_lut();
    let p = generate_palette();
    let phases = PlasmaPhases { t1: 10, t2: 20, t3: 30 };
    let mut row = [0u16; 320];
    plasma_row(&s, &p, 200, phases, &mut row);
    assert_eq!(row[100], p[77]);
    assert_eq!(row[100], 0x1f20);
    for x in 0..320u16 {
        assert_eq!(row[x as usize], p[plasma_index(&s, x, 200, phases)]);
    }
}

#[test]
fn phases_advance_and_wrap() {
    assert_eq!(advance_phases(ZERO), PlasmaPhases { t1: 2, t2: 3, t3: 1 });
    assert_eq!(
        advance_phases(PlasmaPhases { t1: 255, t2: 254, t3: 255 }),
        PlasmaPhases { t1: 1, t2: 1, t3: 0 }
    );
    let start = PlasmaPhases { t1: 7, t2: 200, t3: 99 };
    let mut p = start;
    for n in 1..=256 {
        p = advance_phases(p);
        if n < 256 {
            assert_ne!(p, start);
        }
    }
    assert_eq!(p, start);
}

#[test]
fn frame_pacing() {
    assert_eq!(frame_pause(16_000, 10_000), Some(6_000));
    assert_eq!(frame_pause(16_000, 16_000), None);
    assert_eq!(frame_pause(16_000, 20_000), None);
    assert_eq!(frame_pause(16, 0), Some(16));
}

#[test]
fn palette_is_smooth_and_wraps() {
    let p = generate_palette();
    for i in 0..256 {
        let a = p[i];
        let b = p[(i + 1) % 256];
        let parts = |e: u16| [(e >> 11) as i32, ((e >> 5) & 63) as i32, (e & 31) as i32];
        for (x, y) in parts(a).iter().zip(parts(b).iter()) {
            assert!((x - y).abs() <= 1, "entries {} and {}", i, (i + 1) % 256);
        }
    }
}
