//! The plasma animation: integer sine table, rainbow palette and per-pixel colours.
use vstd::prelude::*;

verus! {

/// Width of the panel in pixels.
pub const SCREEN_WIDTH: u16 = 320;

/// Height of the panel in pixels.
pub const SCREEN_HEIGHT: u16 = 480;

/// Number of entries of the sine table and of the palette.
pub const TABLE_LEN: usize = 256;

/// Target frame period of the animation, in milliseconds (about 60 frames per second).
pub const TARGET_FRAME_MS: u64 = 16;

/// An RGB565 word from its 5-bit red, 6-bit green and 5-bit blue parts.
pub open spec fn rgb565(r: int, g: int, b: int) -> int {
    r * 2048 + g * 32 + b
}

/// Red part of palette entry `i`.
pub open spec fn palette_red(i: int) -> int {
    if 0 <= i <= 85 {
        31 - i * 31 / 85
    } else if 171 <= i <= 255 {
        (i - 171) * 31 / 84
    } else {
        0
    }
}

/// Green part of palette entry `i`.
pub open spec fn palette_green(i: int) -> int {
    if 0 <= i <= 85 {
        i * 63 / 85
    } else if 86 <= i <= 170 {
        63 - (i - 86) * 63 / 84
    } else {
        0
    }
}

/// Blue part of palette entry `i`.
pub open spec fn palette_blue(i: int) -> int {
    if 86 <= i <= 170 {
        (i - 86) * 31 / 84
    } else if 171 <= i <= 255 {
        31 - (i - 171) * 31 / 84
    } else {
        0
    }
}

/// Palette entry `i`: a red-green-blue rainbow packed as RGB565.
pub open spec fn palette_entry(i: int) -> int {
    rgb565(palette_red(i), palette_green(i), palette_blue(i))
}

/// Largest value of the sine table.
pub const SIN_MAX: u8 = 63;

/// Entry `i` of the integer sine table: a quarter-wave parabola around 32,
/// capped at 63 so that every value fits six bits.
pub open spec fn sin_entry(i: int) -> int {
    let phase = i % 128;
    let val = if phase < 64 {
        phase
    } else {
        128 - phase
    };
    let curve = val * val / 64;
    if i < 128 {
        if 32 + curve / 2 > SIN_MAX {
            SIN_MAX as int
        } else {
            32 + curve / 2
        }
    } else {
        32 - curve / 2
    }
}

/// The three phase accumulators of the animation.
#[derive(Clone, Copy, Debug, PartialEq, Eq, Structural)]
pub struct PlasmaPhases {
    pub t1: u8,
    pub t2: u8,
    pub t3: u8,
}

/// The phases one frame later.
pub open spec fn next_phases(p: PlasmaPhases) -> PlasmaPhases {
    PlasmaPhases {
        t1: ((p.t1 + 2) % 256) as u8,
        t2: ((p.t2 + 3) % 256) as u8,
        t3: ((p.t3 + 1) % 256) as u8,
    }
}

/// The phases `n` frames after `p`.
pub open spec fn phases_after(p: PlasmaPhases, n: nat) -> PlasmaPhases
    decreases n,
{
    if n == 0 {
        p
    } else {
        next_phases(phases_after(p, (n - 1) as nat))
    }
}

/// Index into the sine table of the horizontal wave.
pub open spec fn x_wave_index(x: int, t1: int) -> int {
    (x % 256 + t1) % 256
}

/// Index into the sine table of the vertical wave.
pub open spec fn y_wave_index(y: int, t2: int) -> int {
    ((y / 2) % 256 + t2) % 256
}

/// Index into the sine table of the diagonal wave (`x + y` wraps as a 16-bit sum).
pub open spec fn xy_wave_index(x: int, y: int, t3: int) -> int {
    ((((x + y) % 65536) / 2) % 256 + t3) % 256
}

/// Palette index of pixel `(x, y)`: the sum of the three waves, kept to 8 bits.
pub open spec fn plasma_index_spec(lut: Seq<u8>, x: int, y: int, p: PlasmaPhases) -> int {
    (lut[x_wave_index(x, p.t1 as int)] + lut[y_wave_index(y, p.t2 as int)] + lut[xy_wave_index(
        x,
        y,
        p.t3 as int,
    )]) % 256
}

/// Builds the 256-entry RGB565 rainbow palette with integer arithmetic.
pub fn generate_palette() -> (palette: [u16; 256])
    ensures
        forall|i: int| 0 <= i < 256 ==> palette[i] == palette_entry(i),
        forall|i: int|
            0 <= i <= 85 ==> {
                &&& blue_part(#[trigger] palette[i]) == 0
                &&& on_ramp(31 - red_part(palette[i]), 31, 85, i)
                &&& on_ramp(green_part(palette[i]), 63, 85, i)
            },
        forall|i: int|
            86 <= i <= 170 ==> {
                &&& red_part(#[trigger] palette[i]) == 0
                &&& on_ramp(63 - green_part(palette[i]), 63, 84, i - 86)
                &&& on_ramp(blue_part(palette[i]), 31, 84, i - 86)
            },
        forall|i: int|
            171 <= i < 256 ==> {
                &&& green_part(#[trigger] palette[i]) == 0
                &&& on_ramp(red_part(palette[i]), 31, 84, i - 171)
                &&& on_ramp(31 - blue_part(palette[i]), 31, 84, i - 171)
            },
{
    let mut palette = [0u16; 256];
    let mut i: usize = 0;
    while i < TABLE_LEN
        invariant
            i <= TABLE_LEN,
            forall|k: int| 0 <= k < i ==> palette[k] == palette_entry(k),
        decreases TABLE_LEN - i,
    {
        proof {
            lemma_palette_parts_fit(i as int);
        }
        let r: usize = if i <= 85 {
            31 - (i * 31 / 85)
        } else if i >= 171 {
            (i - 171) * 31 / 84
        } else {
            0
        };
        let g: usize = if i <= 85 {
            i * 63 / 85
        } else if i <= 170 {
            63 - ((i - 86) * 63 / 84)
        } else {
            0
        };
        let b: usize = if i >= 86 && i <= 170 {
            (i - 86) * 31 / 84
        } else if i >= 171 {
            31 - ((i - 171) * 31 / 84)
        } else {
            0
        };
        let r16: u16 = r as u16;
        let g16: u16 = g as u16;
        let b16: u16 = b as u16;
        let entry: u16 = (r16 << 11u16) | (g16 << 5u16) | b16;
        proof {
            lemma_pack_rgb565(r16, g16, b16);
        }
        palette[i] = entry;
        i = i + 1;
    }
    assert forall|i: int| 0 <= i < 256 implies {
        &&& (i <= 85 ==> {
            &&& blue_part(#[trigger] palette[i]) == 0
            &&& on_ramp(31 - red_part(palette[i]), 31, 85, i)
            &&& on_ramp(green_part(palette[i]), 63, 85, i)
        })
        &&& (86 <= i <= 170 ==> {
            &&& red_part(palette[i]) == 0
            &&& on_ramp(63 - green_part(palette[i]), 63, 84, i - 86)
            &&& on_ramp(blue_part(palette[i]), 31, 84, i - 86)
        })
        &&& (171 <= i ==> {
            &&& green_part(palette[i]) == 0
            &&& on_ramp(red_part(palette[i]), 31, 84, i - 171)
            &&& on_ramp(31 - blue_part(palette[i]), 31, 84, i - 171)
        })
    } by {
        lemma_palette_ramps(i);
    }
    palette
}

/// Builds the 256-entry integer sine table, with values in 0..=63.
pub fn generate_sin_lut() -> (lut: [u8; 256])
    ensures
        forall|i: int| 0 <= i < 256 ==> lut[i] == sin_entry(i),
        forall|i: int|
            0 <= i < 128 && i != 64 ==> square_over_128(wave_distance(i), lut[i] - 32),
        forall|i: int| 128 <= i < 256 ==> square_over_128(wave_distance(i), 32 - lut[i]),
        lut[64] == SIN_MAX,
        forall|i: int| 0 <= i < 64 ==> lut[i] <= #[trigger] lut[i + 1] <= lut[i] + 1,
        forall|i: int| 64 <= i < 192 ==> lut[i + 1] <= lut[i] <= #[trigger] lut[i + 1] + 1,
        forall|i: int| 192 <= i < 255 ==> lut[i] <= #[trigger] lut[i + 1] <= lut[i] + 1,
{
    let mut lut = [0u8; 256];
    let mut i: usize = 0;
    while i < TABLE_LEN
        invariant
            i <= TABLE_LEN,
            forall|k: int| 0 <= k < i ==> lut[k] == sin_entry(k),
        decreases TABLE_LEN - i,
    {
        let phase: usize = i & 127;
        assert(phase == i % 128) by (bit_vector)
            requires
                phase == i & 127,
        ;
        let val: usize = if phase < 64 {
            phase
        } else {
            128 - phase
        };
        assert(val * val <= 4096) by (nonlinear_arith)
            requires
                val <= 64,
        ;
        let curve: usize = (val * val) / 64;
        let entry: u8 = if i < 128 {
            if 32 + curve / 2 > SIN_MAX as usize {
                SIN_MAX
            } else {
                (32 + curve / 2) as u8
            }
        } else {
            (32 - curve / 2) as u8
        };
        lut[i] = entry;
        i = i + 1;
    }
    assert forall|i: int| 0 <= i < 256 implies {
        &&& (i < 128 && i != 64 ==> square_over_128(wave_distance(i), lut[i] - 32))
        &&& (i >= 128 ==> square_over_128(wave_distance(i), 32 - lut[i]))
    } by {
        lemma_sin_parabola(i);
    }
    assert forall|i: int| 0 <= i < 255 implies {
        &&& (i < 64 ==> lut[i] <= #[trigger] lut[i + 1] <= lut[i] + 1)
        &&& (64 <= i < 192 ==> lut[i + 1] <= lut[i] <= lut[i + 1] + 1)
        &&& (192 <= i ==> lut[i] <= lut[i + 1] <= lut[i] + 1)
    } by {
        lemma_sin_steps(i);
    }
    proof {
        lemma_sin_mirror(64);
    }
    lut
}

/// Palette index of the pixel at `(x, y)` for the given phases.
pub fn plasma_index(sin_lut: &[u8; 256], x: u16, y: u16, phases: PlasmaPhases) -> (idx: usize)
    ensures
        idx == plasma_index_spec(sin_lut@, x as int, y as int, phases),
        idx < TABLE_LEN,
        x < SCREEN_WIDTH && y < SCREEN_HEIGHT ==> idx == (sin_lut@[(x + phases.t1) % 256]
            + sin_lut@[(y / 2 + phases.t2) % 256] + sin_lut@[((x + y) / 2 + phases.t3) % 256]) % 256,
{
    proof {
        if x < SCREEN_WIDTH && y < SCREEN_HEIGHT {
            lemma_wave_indices_on_screen(x as int, y as int, phases);
        }
    }
    let yi: u8 = ((y >> 1u16) as u8).wrapping_add(phases.t2);
    let xi: u8 = (x as u8).wrapping_add(phases.t1);
    let xyi: u8 = ((x.wrapping_add(y) >> 1u16) as u8).wrapping_add(phases.t3);
    proof {
        lemma_wave_indices(x, y, phases, yi, xi, xyi);
    }
    let y_wave = sin_lut[yi as usize] as usize;
    let x_wave = sin_lut[xi as usize] as usize;
    let xy_wave = sin_lut[xyi as usize] as usize;
    let sum: usize = x_wave + y_wave + xy_wave;
    let idx: usize = sum & 0xFF;
    assert(idx == sum % 256) by (bit_vector)
        requires
            idx == sum & 0xFF,
    ;
    idx
}

/// Fills `row` with the colours of row `y` of a frame, left to right.
pub fn plasma_row(
    sin_lut: &[u8; 256],
    palette: &[u16; 256],
    y: u16,
    phases: PlasmaPhases,
    row: &mut [u16; 320],
)
    ensures
        forall|x: int|
            0 <= x < SCREEN_WIDTH ==> final(row)@[x] == palette@[plasma_index_spec(
                sin_lut@,
                x,
                y as int,
                phases,
            )],
{
    let mut x: u16 = 0;
    while x < SCREEN_WIDTH
        invariant
            x <= SCREEN_WIDTH,
            forall|k: int|
                0 <= k < x ==> row@[k] == palette@[plasma_index_spec(sin_lut@, k, y as int, phases)],
        decreases SCREEN_WIDTH - x,
    {
        let idx = plasma_index(sin_lut, x, y, phases);
        row[x as usize] = palette[idx];
        x = x + 1;
    }
}

/// Advances the animation by one frame.
pub fn advance_phases(phases: PlasmaPhases) -> (next: PlasmaPhases)
    ensures
        next == next_phases(phases),
{
    PlasmaPhases {
        t1: phases.t1.wrapping_add(2),
        t2: phases.t2.wrapping_add(3),
        t3: phases.t3.wrapping_add(1),
    }
}

/// How long to wait after a frame that took `elapsed` so that frames start
/// every `target` (both in the same time unit); `None` when the frame ran late.
pub fn frame_pause(target: u64, elapsed: u64) -> (pause: Option<u64>)
    ensures
        elapsed < target ==> pause == Some((target - elapsed) as u64),
        elapsed >= target ==> pause.is_none(),
{
    if elapsed < target {
        Some(target - elapsed)
    } else {
        None
    }
}

proof fn lemma_pack_rgb565(r: u16, g: u16, b: u16)
    requires
        r < 32,
        g < 64,
        b < 32,
    ensures
        (r << 11u16) | (g << 5u16) | b == rgb565(r as int, g as int, b as int),
{
    assert((r << 11u16) | (g << 5u16) | b == r * 2048 + g * 32 + b) by (bit_vector)
        requires
            r < 32,
            g < 64,
            b < 32,
    ;
}

proof fn lemma_wave_indices(x: u16, y: u16, p: PlasmaPhases, yi: u8, xi: u8, xyi: u8)
    requires
        yi == ((y >> 1u16) as u8).wrapping_add(p.t2),
        xi == (x as u8).wrapping_add(p.t1),
        xyi == ((x.wrapping_add(y) >> 1u16) as u8).wrapping_add(p.t3),
    ensures
        yi == y_wave_index(y as int, p.t2 as int),
        xi == x_wave_index(x as int, p.t1 as int),
        xyi == xy_wave_index(x as int, y as int, p.t3 as int),
{
    let t1 = p.t1;
    let t2 = p.t2;
    let t3 = p.t3;
    let xy: u16 = x.wrapping_add(y);
    assert(xy == (x + y) % 65536);
    assert(yi == ((y / 2) % 256 + t2) % 256) by (bit_vector)
        requires
            yi == ((y >> 1u16) as u8).wrapping_add(t2),
    ;
    assert(xi == (x % 256 + t1) % 256) by (bit_vector)
        requires
            xi == (x as u8).wrapping_add(t1),
    ;
    assert(xyi == ((xy / 2) % 256 + t3) % 256) by (bit_vector)
        requires
            xyi == ((xy >> 1u16) as u8).wrapping_add(t3),
    ;
}

/// Every palette part fits its RGB565 field: red and blue in 0..=31, green in 0..=63.
pub proof fn lemma_palette_parts_fit(i: int)
    requires
        0 <= i < 256,
    ensures
        0 <= palette_red(i) <= 31,
        0 <= palette_green(i) <= 63,
        0 <= palette_blue(i) <= 31,
{
    if i <= 85 {
        assert(0 <= i * 31 / 85 <= 31) by (nonlinear_arith)
            requires
                0 <= i <= 85,
        ;
        assert(0 <= i * 63 / 85 <= 63) by (nonlinear_arith)
            requires
                0 <= i <= 85,
        ;
    } else if i <= 170 {
        assert(0 <= (i - 86) * 63 / 84 <= 63) by (nonlinear_arith)
            requires
                86 <= i <= 170,
        ;
        assert(0 <= (i - 86) * 31 / 84 <= 31) by (nonlinear_arith)
            requires
                86 <= i <= 170,
        ;
    } else {
        assert(0 <= (i - 171) * 31 / 84 <= 31) by (nonlinear_arith)
            requires
                171 <= i <= 255,
        ;
    }
}

/// Every entry of the sine table lies in 0..=63.
pub proof fn lemma_sin_range(i: int)
    requires
        0 <= i < 256,
    ensures
        0 <= sin_entry(i) <= 63,
{
    let phase = i % 128;
    let val = if phase < 64 {
        phase
    } else {
        128 - phase
    };
    assert(0 <= val * val / 64 <= 64) by (nonlinear_arith)
        requires
            0 <= val <= 64,
    ;
}

/// The second half of the sine table mirrors the first around 32, except
/// at the crest, where the cap at 63 takes one off.
pub proof fn lemma_sin_mirror(i: int)
    requires
        0 <= i < 128,
    ensures
        i != 64 ==> sin_entry(i) + sin_entry(i + 128) == 64,
        sin_entry(64) == 63,
        sin_entry(192) == 0,
{
    assert((i + 128) % 128 == i % 128);
    let phase = i % 128;
    let val = if phase < 64 {
        phase
    } else {
        128 - phase
    };
    if i != 64 {
        assert(0 <= val * val / 64 <= 62) by (nonlinear_arith)
            requires
                0 <= val <= 63,
        ;
    }
}

/// A palette entry decodes back to its red, green and blue parts.
pub proof fn lemma_palette_decode(i: int)
    requires
        0 <= i < 256,
    ensures
        0 <= palette_entry(i) < 65536,
        (palette_entry(i) as u16) >> 11u16 == palette_red(i),
        ((palette_entry(i) as u16) >> 5u16) & 63 == palette_green(i),
        (palette_entry(i) as u16) & 31 == palette_blue(i),
{
    lemma_palette_parts_fit(i);
    let r = palette_red(i) as u16;
    let g = palette_green(i) as u16;
    let b = palette_blue(i) as u16;
    lemma_pack_rgb565(r, g, b);
    let p: u16 = (r << 11u16) | (g << 5u16) | b;
    assert(p >> 11u16 == r && (p >> 5u16) & 63 == g && p & 31 == b) by (bit_vector)
        requires
            r < 32,
            g < 64,
            b < 32,
            p == (r << 11u16) | (g << 5u16) | b,
    ;
}

/// With the generated sine table, the three waves add up to at most 189, so
/// keeping the sum to 8 bits loses nothing.
pub proof fn lemma_plasma_index_is_wave_sum(lut: Seq<u8>, x: int, y: int, p: PlasmaPhases)
    requires
        lut.len() == 256,
        forall|i: int| 0 <= i < 256 ==> lut[i] == sin_entry(i),
    ensures
        plasma_index_spec(lut, x, y, p) == lut[x_wave_index(x, p.t1 as int)] + lut[y_wave_index(
            y,
            p.t2 as int,
        )] + lut[xy_wave_index(x, y, p.t3 as int)],
        plasma_index_spec(lut, x, y, p) <= 189,
{
    let a = x_wave_index(x, p.t1 as int);
    let b = y_wave_index(y, p.t2 as int);
    let c = xy_wave_index(x, y, p.t3 as int);
    lemma_sin_range(a);
    lemma_sin_range(b);
    lemma_sin_range(c);
}

/// After `n` frames each phase has moved by `n` times its speed, modulo 256.
pub proof fn lemma_phases_after(p: PlasmaPhases, n: nat)
    ensures
        phases_after(p, n).t1 == (p.t1 + 2 * n) % 256,
        phases_after(p, n).t2 == (p.t2 + 3 * n) % 256,
        phases_after(p, n).t3 == (p.t3 + n) % 256,
    decreases n,
{
    if n > 0 {
        lemma_phases_after(p, (n - 1) as nat);
        let m = (n - 1) as nat;
        vstd::arithmetic::div_mod::lemma_add_mod_noop(p.t1 + 2 * m, 2, 256);
        vstd::arithmetic::div_mod::lemma_add_mod_noop(p.t2 + 3 * m, 3, 256);
        vstd::arithmetic::div_mod::lemma_add_mod_noop(p.t3 + m, 1, 256);
        vstd::arithmetic::div_mod::lemma_small_mod(2, 256);
        vstd::arithmetic::div_mod::lemma_small_mod(3, 256);
        vstd::arithmetic::div_mod::lemma_small_mod(1, 256);
        vstd::arithmetic::div_mod::lemma_mod_twice(p.t1 + 2 * m, 256);
        vstd::arithmetic::div_mod::lemma_mod_twice(p.t2 + 3 * m, 256);
        vstd::arithmetic::div_mod::lemma_mod_twice(p.t3 + m, 256);
    }
}

/// The animation repeats every 256 frames.
pub proof fn lemma_phases_period(p: PlasmaPhases)
    ensures
        phases_after(p, 256) == p,
{
    lemma_phases_after(p, 256);
    vstd::arithmetic::div_mod::lemma_mod_multiples_vanish(2, p.t1 as int, 256);
    vstd::arithmetic::div_mod::lemma_mod_multiples_vanish(3, p.t2 as int, 256);
    vstd::arithmetic::div_mod::lemma_mod_multiples_vanish(1, p.t3 as int, 256);
    vstd::arithmetic::div_mod::lemma_small_mod(p.t1 as nat, 256);
    vstd::arithmetic::div_mod::lemma_small_mod(p.t2 as nat, 256);
    vstd::arithmetic::div_mod::lemma_small_mod(p.t3 as nat, 256);
}

/// Neighbouring palette entries differ by at most one step in each of red,
/// green and blue, entry 255 and entry 0 included: the rainbow is smooth and
/// wraps around without a jump.
pub proof fn lemma_palette_smooth(i: int)
    requires
        0 <= i < 256,
    ensures
        -1 <= palette_red((i + 1) % 256) - palette_red(i) <= 1,
        -1 <= palette_green((i + 1) % 256) - palette_green(i) <= 1,
        -1 <= palette_blue((i + 1) % 256) - palette_blue(i) <= 1,
{
    let j = (i + 1) % 256;
    if i == 255 {
        assert(j == 0);
        assert(84int * 31 / 84 == 31) by (nonlinear_arith);
    } else {
        assert(j == i + 1);
        lemma_floor_step(i, 31, 85);
        lemma_floor_step(i, 63, 85);
        lemma_floor_step(i - 86, 63, 84);
        lemma_floor_step(i - 86, 31, 84);
        lemma_floor_step(i - 171, 31, 84);
        assert(85int * 31 / 85 == 31 && 85int * 63 / 85 == 63) by (nonlinear_arith);
        assert(84int * 31 / 84 == 31 && 84int * 63 / 84 == 63) by (nonlinear_arith);
    }
}

proof fn lemma_floor_step(k: int, num: int, den: int)
    requires
        0 < num < den,
    ensures
        0 <= (k + 1) * num / den - k * num / den <= 1,
{
    assert(0 <= (k + 1) * num / den - k * num / den <= 1) by (nonlinear_arith)
        requires
            0 < num < den,
    {
        let a = k * num;
        let b = (k + 1) * num;
        assert(b == a + num);
        let qa = a / den;
        let qb = b / den;
        assert(qa * den <= a < qa * den + den);
        assert(qb * den <= b < qb * den + den);
    }
}

/// Distance of `i mod 128` from the nearest of 0 and 128.
pub open spec fn wave_distance(i: int) -> int {
    let ph = i % 128;
    if ph <= 64 {
        ph
    } else {
        128 - ph
    }
}

/// `q` is the whole number of times 128 fits into `v * v`.
pub open spec fn square_over_128(v: int, q: int) -> bool {
    128 * q <= v * v < 128 * q + 128
}

proof fn lemma_square_over_128(v: int)
    requires
        0 <= v <= 64,
    ensures
        (v * v / 64) / 2 == v * v / 128,
        square_over_128(v, v * v / 128),
        0 <= v * v / 128 <= 32,
{
    assert(v * v >= 0) by (nonlinear_arith);
    vstd::arithmetic::div_mod::lemma_div_denominator(v * v, 64, 2);
    vstd::arithmetic::div_mod::lemma_fundamental_div_mod(v * v, 128);
    vstd::arithmetic::div_mod::lemma_mod_bound(v * v, 128);
    assert(v * v <= 4096) by (nonlinear_arith)
        requires
            0 <= v <= 64,
    ;
}

proof fn lemma_square_over_128_step(v: int)
    requires
        0 <= v < 64,
    ensures
        v * v / 128 <= (v + 1) * (v + 1) / 128 <= v * v / 128 + 1,
{
    lemma_square_over_128(v);
    lemma_square_over_128(v + 1);
    assert((v + 1) * (v + 1) == v * v + 2 * v + 1) by (nonlinear_arith);
}

/// Each entry of the sine table is a parabola of its wave distance `v`: in
/// the first half the entry rises above 32 by the whole number of times 128
/// fits into `v * v` (the crest, entry 64, is cut to 63); in the second half
/// it falls below 32 by the same amount.
pub proof fn lemma_sin_parabola(i: int)
    requires
        0 <= i < 256,
    ensures
        i < 128 && i != 64 ==> square_over_128(wave_distance(i), sin_entry(i) - 32),
        i == 64 ==> sin_entry(i) == 63,
        i >= 128 ==> square_over_128(wave_distance(i), 32 - sin_entry(i)),
{
    lemma_square_over_128(wave_distance(i));
    if i == 64 {
        lemma_sin_mirror(64);
    }
    if i < 128 && i != 64 {
        assert(wave_distance(i) <= 63);
        assert(wave_distance(i) * wave_distance(i) <= 3969) by (nonlinear_arith)
            requires
                0 <= wave_distance(i) <= 63,
        ;
    }
}

proof fn lemma_sin_quotient(i: int)
    requires
        0 <= i < 256,
    ensures
        i < 128 && i != 64 ==> sin_entry(i) == 32 + wave_distance(i) * wave_distance(i) / 128,
        i == 64 ==> sin_entry(i) == 63,
        i >= 128 ==> sin_entry(i) == 32 - wave_distance(i) * wave_distance(i) / 128,
        0 <= wave_distance(i) <= 64,
{
    lemma_square_over_128(wave_distance(i));
    if i == 64 {
        lemma_sin_mirror(64);
    }
    if i < 128 && i != 64 {
        assert(wave_distance(i) * wave_distance(i) <= 3969) by (nonlinear_arith)
            requires
                0 <= wave_distance(i) <= 63,
        ;
    }
}

/// The table rises from 32 (entry 0) to its crest 63 (entry 64), falls to 0
/// (entry 192) and rises back towards 32 (entry 255), by steps of at most one.
pub proof fn lemma_sin_steps(i: int)
    requires
        0 <= i < 255,
    ensures
        i < 64 ==> sin_entry(i) <= sin_entry(i + 1) <= sin_entry(i) + 1,
        64 <= i < 192 ==> sin_entry(i + 1) <= sin_entry(i) <= sin_entry(i + 1) + 1,
        192 <= i ==> sin_entry(i) <= sin_entry(i + 1) <= sin_entry(i) + 1,
{
    lemma_sin_quotient(i);
    lemma_sin_quotient(i + 1);
    let v = wave_distance(i);
    let w = wave_distance(i + 1);
    if i < 64 {
        assert(w == v + 1);
        lemma_square_over_128_step(v);
    } else if i == 64 {
        assert(w == 63);
        assert(63 * 63 / 128 == 31) by (nonlinear_arith);
    } else if i == 127 {
        assert(v == 1 && w == 0);
        assert(1 * 1 / 128 == 0 && 0 * 0 / 128 == 0) by (nonlinear_arith);
    } else if i < 128 {
        assert(v == w + 1);
        lemma_square_over_128_step(w);
    } else if i < 192 {
        assert(w == v + 1);
        lemma_square_over_128_step(v);
    } else {
        assert(v == w + 1);
        lemma_square_over_128_step(w);
    }
}

/// Each half of the table is symmetric about its middle: entry `i` equals
/// entry `128 - i`, and entry `128 + i` equals entry `256 - i`; the table
/// starts at 32 and wraps back to 32.
pub proof fn lemma_sin_symmetry(i: int)
    requires
        0 < i < 128,
    ensures
        sin_entry(i) == sin_entry(128 - i),
        sin_entry(128 + i) == sin_entry(256 - i),
        sin_entry(0) == 32,
        sin_entry(255) == 32,
{
    assert(wave_distance(i) == wave_distance(128 - i));
    assert(wave_distance(128 + i) == wave_distance(256 - i));
    assert(wave_distance(0) == 0);
    assert(wave_distance(255) == 1);
    lemma_sin_quotient(0);
    lemma_sin_quotient(255);
}

/// Red part of an RGB565 colour.
pub open spec fn red_part(c: u16) -> int {
    (c >> 11u16) as int
}

/// Green part of an RGB565 colour.
pub open spec fn green_part(c: u16) -> int {
    ((c >> 5u16) & 63) as int
}

/// Blue part of an RGB565 colour.
pub open spec fn blue_part(c: u16) -> int {
    (c & 31) as int
}

/// `q` is `num * k / den` rounded down: the point `k` of a straight ramp of
/// slope `num / den`.
pub open spec fn on_ramp(q: int, num: int, den: int, k: int) -> bool {
    den * q <= num * k < den * q + den
}

proof fn lemma_floor_envelope(x: int, d: int)
    requires
        x >= 0,
        d > 0,
    ensures
        d * (x / d) <= x < d * (x / d) + d,
{
    vstd::arithmetic::div_mod::lemma_fundamental_div_mod(x, d);
    vstd::arithmetic::div_mod::lemma_mod_bound(x, d);
}

/// The palette is three straight colour ramps. On entries 0..=85 there is
/// no blue, red falls from 31 and green rises from 0 with the entry; on
/// 86..=170 there is no red, green falls from 63 and blue rises; on 171..=255
/// there is no green, red rises and blue falls from 31.
pub proof fn lemma_palette_ramps(i: int)
    requires
        0 <= i < 256,
    ensures
        0 <= palette_entry(i) < 65536,
        i <= 85 ==> blue_part(palette_entry(i) as u16) == 0,
        i <= 85 ==> on_ramp(31 - red_part(palette_entry(i) as u16), 31, 85, i),
        i <= 85 ==> on_ramp(green_part(palette_entry(i) as u16), 63, 85, i),
        86 <= i <= 170 ==> red_part(palette_entry(i) as u16) == 0,
        86 <= i <= 170 ==> on_ramp(63 - green_part(palette_entry(i) as u16), 63, 84, i - 86),
        86 <= i <= 170 ==> on_ramp(blue_part(palette_entry(i) as u16), 31, 84, i - 86),
        171 <= i ==> green_part(palette_entry(i) as u16) == 0,
        171 <= i ==> on_ramp(red_part(palette_entry(i) as u16), 31, 84, i - 171),
        171 <= i ==> on_ramp(31 - blue_part(palette_entry(i) as u16), 31, 84, i - 171),
{
    lemma_palette_decode(i);
    if i <= 85 {
        assert(i * 31 >= 0 && i * 63 >= 0) by (nonlinear_arith)
            requires
                i >= 0,
        ;
        lemma_floor_envelope(i * 31, 85);
        lemma_floor_envelope(i * 63, 85);
        assert(31 * i == i * 31 && 63 * i == i * 63) by (nonlinear_arith);
    } else if i <= 170 {
        let k = i - 86;
        assert(k * 31 >= 0 && k * 63 >= 0) by (nonlinear_arith)
            requires
                k >= 0,
        ;
        lemma_floor_envelope(k * 63, 84);
        lemma_floor_envelope(k * 31, 84);
        assert(31 * k == k * 31 && 63 * k == k * 63) by (nonlinear_arith);
    } else {
        let k = i - 171;
        assert(k * 31 >= 0) by (nonlinear_arith)
            requires
                k >= 0,
        ;
        lemma_floor_envelope(k * 31, 84);
        assert(31 * k == k * 31) by (nonlinear_arith);
    }
}

/// On screen the wave indices are the plain sums of position and phase,
/// modulo 256: the horizontal wave follows `x + t1`, the vertical wave
/// `y / 2 + t2` and the diagonal wave `(x + y) / 2 + t3`.
pub proof fn lemma_wave_indices_on_screen(x: int, y: int, p: PlasmaPhases)
    requires
        0 <= x < SCREEN_WIDTH,
        0 <= y < SCREEN_HEIGHT,
    ensures
        x_wave_index(x, p.t1 as int) == (x + p.t1) % 256,
        y_wave_index(y, p.t2 as int) == (y / 2 + p.t2) % 256,
        xy_wave_index(x, y, p.t3 as int) == ((x + y) / 2 + p.t3) % 256,
{
    vstd::arithmetic::div_mod::lemma_add_mod_noop(x, p.t1 as int, 256);
    vstd::arithmetic::div_mod::lemma_add_mod_noop(y / 2, p.t2 as int, 256);
    vstd::arithmetic::div_mod::lemma_add_mod_noop((x + y) / 2, p.t3 as int, 256);
    vstd::arithmetic::div_mod::lemma_small_mod(p.t1 as nat, 256);
    vstd::arithmetic::div_mod::lemma_small_mod(p.t2 as nat, 256);
    vstd::arithmetic::div_mod::lemma_small_mod(p.t3 as nat, 256);
    vstd::arithmetic::div_mod::lemma_small_mod((x + y) as nat, 65536);
    vstd::arithmetic::div_mod::lemma_mod_twice(x, 256);
    vstd::arithmetic::div_mod::lemma_mod_twice(y / 2, 256);
    vstd::arithmetic::div_mod::lemma_mod_twice((x + y) / 2, 256);
}

} // verus!
