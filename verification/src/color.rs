//! Colour animation in fixed point: hues that drift toward timed targets
//! along the shorter way round the colour wheel, and the palette derived from
//! them.
//!
//! Every fraction (a hue as part of a full turn, a saturation, a lightness, a
//! colour channel, an interpolation step) is a whole number of billionths;
//! durations are whole microseconds.

use vstd::prelude::*;

verus! {

/// One whole, in billionths: a full turn of hue, full saturation, full
/// lightness, a channel at full intensity.
pub const UNIT: u32 = 1_000_000_000;

/// Half a turn of hue.
pub const HALF_TURN: u32 = 500_000_000;

/// Time between two changes of the target hues: twenty seconds.
pub const HUE_CHANGE_INTERVAL: u64 = 20_000_000;

/// Billionths of the remaining way that a hue covers per microsecond
/// (a twentieth of the way per second).
pub const LERP_RATE: u64 = 50;

/// The state of the colour animation: the time since the targets last
/// changed, the period of such changes, the two current hues and their
/// targets.
#[derive(Clone, Copy, Debug, PartialEq, Eq, Structural)]
pub struct ColorAnimation {
    pub timer: u64,
    pub change_interval: u64,
    pub main_cube_hue: u32,
    pub leaf_cube_hue: u32,
    pub target_main_hue: u32,
    pub target_leaf_hue: u32,
}

impl Default for ColorAnimation {
    fn default() -> (animation: ColorAnimation)
        ensures
            animation == (ColorAnimation {
                timer: 0,
                change_interval: HUE_CHANGE_INTERVAL,
                main_cube_hue: 600_000_000,
                leaf_cube_hue: 800_000_000,
                target_main_hue: 600_000_000,
                target_leaf_hue: 800_000_000,
            }),
    {
        ColorAnimation {
            timer: 0,
            change_interval: HUE_CHANGE_INTERVAL,
            main_cube_hue: 600_000_000,
            leaf_cube_hue: 800_000_000,
            target_main_hue: 600_000_000,
            target_leaf_hue: 800_000_000,
        }
    }
}

/// A colour by its red, green and blue channel.
#[derive(Clone, Copy, Debug, PartialEq, Eq, Structural)]
pub struct Rgb {
    pub r: u32,
    pub g: u32,
    pub b: u32,
}

/// The colours of one frame.
#[derive(Clone, Copy, Debug, PartialEq, Eq, Structural)]
pub struct Palette {
    pub main_cube: Rgb,
    pub leaf_cube: Rgb,
    pub background: Rgb,
    pub ground: Rgb,
}

// ---------------------------------------------------------------------------
// Circular interpolation
// ---------------------------------------------------------------------------

/// The signed way from `current` to `target` taken round the shorter side of
/// the wheel: a raw difference of more than half a turn is taken the other
/// way round.
pub open spec fn short_diff(current: int, target: int) -> int {
    let diff = target - current;
    if diff > HALF_TURN {
        diff - UNIT
    } else if diff < -HALF_TURN {
        diff + UNIT
    } else {
        diff
    }
}

/// The step taken from `current` toward `target`: the fraction `t` of the
/// short way, rounded toward zero.
pub open spec fn hue_step(current: int, target: int, t: int) -> int {
    let way = short_diff(current, target);
    if way >= 0 {
        way * t / (UNIT as int)
    } else {
        -((-way) * t / (UNIT as int))
    }
}

/// The hue reached from `current` after one step toward `target`, wrapped
/// back into a single turn.
pub open spec fn lerped_hue(current: int, target: int, t: int) -> int {
    (current + hue_step(current, target, t)) % (UNIT as int)
}

/// `hue` lies on the shorter arc between `current` and `target`, ends
/// included. Where that arc crosses the seam of the wheel it is the part at
/// and above the higher of the two together with the part at and below the
/// lower.
pub open spec fn on_short_arc(current: int, target: int, hue: int) -> bool {
    let diff = target - current;
    if diff > HALF_TURN {
        hue <= current || target <= hue
    } else if diff < -HALF_TURN {
        current <= hue || hue <= target
    } else if diff >= 0 {
        current <= hue <= target
    } else {
        target <= hue <= current
    }
}

proof fn lemma_fraction_of(way: int, t: int)
    requires
        0 <= way,
        0 <= t <= UNIT,
    ensures
        0 <= way * t / (UNIT as int) <= way,
{
    assert(0 <= way * t <= way * UNIT) by (nonlinear_arith)
        requires
            0 <= way,
            0 <= t <= UNIT,
    ;
    assert(way * UNIT / (UNIT as int) == way) by (nonlinear_arith);
    vstd::arithmetic::div_mod::lemma_div_is_ordered(way * t, way * UNIT, UNIT as int);
}

/// A step of at most the whole way stays on the shorter arc between the hue
/// and its target: it never leaves the arc, and so never goes the long way
/// round.
pub proof fn lemma_lerp_takes_short_way(current: int, target: int, t: int)
    requires
        0 <= current < UNIT,
        0 <= target < UNIT,
        0 <= t <= UNIT,
    ensures
        on_short_arc(current, target, lerped_hue(current, target, t)),
{
    let way = short_diff(current, target);
    if way >= 0 {
        lemma_fraction_of(way, t);
    } else {
        lemma_fraction_of(-way, t);
    }
}

/// A step of the whole way lands on the target; a step of none stays put.
pub proof fn lemma_lerp_ends(current: int, target: int)
    requires
        0 <= current < UNIT,
        0 <= target < UNIT,
    ensures
        lerped_hue(current, target, UNIT as int) == target,
        lerped_hue(current, target, 0) == current,
{
    let way = short_diff(current, target);
    assert(way * UNIT / (UNIT as int) == way) by (nonlinear_arith);
    assert((-way) * UNIT / (UNIT as int) == -way) by (nonlinear_arith);
    assert(way * 0 == 0 && (-way) * 0 == 0) by (nonlinear_arith);
}

/// Moves `current` toward `target` by the fraction `t` (in billionths) of the
/// shorter way round the wheel.
pub fn lerp_hue(current: u32, target: u32, t: u64) -> (hue: u32)
    ensures
        hue == lerped_hue(current as int, target as int, t as int),
        hue < UNIT,
        current < UNIT && target < UNIT && t <= UNIT ==> on_short_arc(
            current as int,
            target as int,
            hue as int,
        ),
{
    let diff: i64 = target as i64 - current as i64;
    let way: i64 = if diff > HALF_TURN as i64 {
        diff - UNIT as i64
    } else if diff < -(HALF_TURN as i64) {
        diff + UNIT as i64
    } else {
        diff
    };
    proof {
        if current < UNIT && target < UNIT && t <= UNIT {
            lemma_lerp_takes_short_way(current as int, target as int, t as int);
        }
    }
    if way >= 0 {
        assert(0 <= way * t <= 0x1_0000_0000 * 0x1_0000_0000_0000_0000) by (nonlinear_arith)
            requires
                0 <= way <= 0x1_0000_0000,
                0 <= t <= 0x1_0000_0000_0000_0000,
        ;
        let step: u128 = (way as u128) * (t as u128) / (UNIT as u128);
        ((current as u128 + step) % (UNIT as u128)) as u32
    } else {
        assert(0 <= (-way) * t <= 0x1_0000_0000 * 0x1_0000_0000_0000_0000) by (nonlinear_arith)
            requires
                0 <= -way <= 0x1_0000_0000,
                0 <= t <= 0x1_0000_0000_0000_0000,
        ;
        let step: u128 = ((-way) as u128) * (t as u128) / (UNIT as u128);
        let back: u32 = (step % (UNIT as u128)) as u32;
        let base: u32 = current % UNIT;
        if base >= back {
            base - back
        } else {
            base + (UNIT - back)
        }
    }
}

// ---------------------------------------------------------------------------
// Hue, saturation, lightness to red, green, blue
// ---------------------------------------------------------------------------

/// The distance between two numbers.
pub open spec fn gap(a: int, b: int) -> int {
    if a >= b {
        a - b
    } else {
        b - a
    }
}

/// The chroma of a colour: the width of its channel range.
pub open spec fn chroma(s: int, l: int) -> int {
    (UNIT - gap(2 * l, UNIT as int)) * s / (UNIT as int)
}

/// The middle channel, before the lightness offset: the chroma scaled by how
/// far the hue stands into its sixth of the wheel.
pub open spec fn middle(h: int, c: int) -> int {
    c * (UNIT - gap((6 * h) % (2 * UNIT), UNIT as int)) / (UNIT as int)
}

/// Red, green and blue of the colour with hue `h`, saturation `s` and
/// lightness `l`.
pub open spec fn hsl_rgb(h: int, s: int, l: int) -> (int, int, int) {
    let c = chroma(s, l);
    let x = middle(h, c);
    let m = l - c / 2;
    let sixth = 6 * h / (UNIT as int);
    if sixth == 0 {
        (c + m, x + m, m)
    } else if sixth == 1 {
        (x + m, c + m, m)
    } else if sixth == 2 {
        (m, c + m, x + m)
    } else if sixth == 3 {
        (m, x + m, c + m)
    } else if sixth == 4 {
        (x + m, m, c + m)
    } else {
        (c + m, m, x + m)
    }
}

impl Rgb {
    /// The three channels as integers.
    pub open spec fn channels(&self) -> (int, int, int) {
        (self.r as int, self.g as int, self.b as int)
    }
}

/// Converts hue, saturation and lightness to red, green and blue.
pub fn hsl_to_rgb(h: u32, s: u32, l: u32) -> (rgb: Rgb)
    requires
        h < UNIT,
        s <= UNIT,
        l <= UNIT,
    ensures
        rgb.channels() == hsl_rgb(h as int, s as int, l as int),
        rgb.r <= UNIT,
        rgb.g <= UNIT,
        rgb.b <= UNIT,
{
    let unit: u64 = UNIT as u64;
    let twice: u64 = 2 * (l as u64);
    let span: u64 = if twice >= unit {
        unit - (twice - unit)
    } else {
        unit - (unit - twice)
    };
    proof {
        lemma_fraction_of(span as int, s as int);
    }
    assert(span * s <= span * unit) by (nonlinear_arith)
        requires
            s <= unit,
    ;
    let c: u64 = span * (s as u64) / unit;
    let position: u64 = (6 * (h as u64)) % (2 * unit);
    let ramp: u64 = if position >= unit {
        unit - (position - unit)
    } else {
        unit - (unit - position)
    };
    proof {
        lemma_fraction_of(c as int, ramp as int);
    }
    assert(c * ramp <= c * unit) by (nonlinear_arith)
        requires
            ramp <= unit,
    ;
    let x: u64 = c * ramp / unit;
    let m: u64 = (l as u64) - c / 2;
    let sixth: u64 = 6 * (h as u64) / unit;
    let (r, g, b): (u64, u64, u64) = if sixth == 0 {
        (c, x, 0)
    } else if sixth == 1 {
        (x, c, 0)
    } else if sixth == 2 {
        (0, c, x)
    } else if sixth == 3 {
        (0, x, c)
    } else if sixth == 4 {
        (x, 0, c)
    } else {
        (c, 0, x)
    };
    Rgb { r: (r + m) as u32, g: (g + m) as u32, b: (b + m) as u32 }
}

// ---------------------------------------------------------------------------
// The animation
// ---------------------------------------------------------------------------

/// The fraction of the remaining way covered in `delta` microseconds, capped
/// at what a `u64` holds.
pub open spec fn lerp_fraction(delta: u64) -> u64 {
    if delta * LERP_RATE <= u64::MAX {
        (delta * LERP_RATE) as u64
    } else {
        u64::MAX
    }
}

/// The main hue's new target, drawn from the time `elapsed` since start: a
/// tenth of a turn per second, wrapped.
pub open spec fn main_target_at(elapsed: u64) -> int {
    (elapsed * 100) % (UNIT as int)
}

/// The leaf hue's new target at time `elapsed`: thirteen hundredths of a turn
/// per second, half a turn ahead, wrapped.
pub open spec fn leaf_target_at(elapsed: u64) -> int {
    (elapsed * 130 + HALF_TURN) % (UNIT as int)
}

/// The animation state after a frame of `delta` microseconds that ends at
/// time `elapsed`. The timer runs; when it reaches the change interval it
/// restarts and both targets are drawn anew from `elapsed`. Then each hue
/// takes its step toward its target.
pub open spec fn animated(a: ColorAnimation, delta: u64, elapsed: u64) -> ColorAnimation {
    let due = a.timer + delta >= a.change_interval;
    let target_main = if due {
        main_target_at(elapsed)
    } else {
        a.target_main_hue as int
    };
    let target_leaf = if due {
        leaf_target_at(elapsed)
    } else {
        a.target_leaf_hue as int
    };
    ColorAnimation {
        timer: if due {
            0
        } else {
            (a.timer + delta) as u64
        },
        change_interval: a.change_interval,
        main_cube_hue: lerped_hue(
            a.main_cube_hue as int,
            target_main,
            lerp_fraction(delta) as int,
        ) as u32,
        leaf_cube_hue: lerped_hue(
            a.leaf_cube_hue as int,
            target_leaf,
            lerp_fraction(delta) as int,
        ) as u32,
        target_main_hue: target_main as u32,
        target_leaf_hue: target_leaf as u32,
    }
}

/// The hue opposite the mean of the two hues.
pub open spec fn complement_hue(main_hue: int, leaf_hue: int) -> int {
    ((main_hue + leaf_hue) / 2 + HALF_TURN) % (UNIT as int)
}

/// The palette for two hues: soft colours for the two cubes, and for the
/// background and the ground a dark and a light tint of the complement.
pub open spec fn palette_matches(palette: Palette, main_hue: int, leaf_hue: int) -> bool {
    let complement = complement_hue(main_hue, leaf_hue);
    &&& palette.main_cube.channels() == hsl_rgb(main_hue, 500_000_000, 600_000_000)
    &&& palette.leaf_cube.channels() == hsl_rgb(leaf_hue, 500_000_000, 500_000_000)
    &&& palette.background.channels() == hsl_rgb(complement, 150_000_000, 120_000_000)
    &&& palette.ground.channels() == hsl_rgb(complement, 80_000_000, 850_000_000)
}

/// The palette for two hues.
pub fn palette_for(main_hue: u32, leaf_hue: u32) -> (palette: Palette)
    requires
        main_hue < UNIT,
        leaf_hue < UNIT,
    ensures
        palette_matches(palette, main_hue as int, leaf_hue as int),
{
    let mean: u32 = ((main_hue as u64 + leaf_hue as u64) / 2) as u32;
    let complement: u32 = (mean + HALF_TURN) % UNIT;
    Palette {
        main_cube: hsl_to_rgb(main_hue, 500_000_000, 600_000_000),
        leaf_cube: hsl_to_rgb(leaf_hue, 500_000_000, 500_000_000),
        background: hsl_to_rgb(complement, 150_000_000, 120_000_000),
        ground: hsl_to_rgb(complement, 80_000_000, 850_000_000),
    }
}

/// Advances the colour animation by a frame of `delta` microseconds that ends
/// `elapsed` microseconds after start, and returns the frame's colours.
pub fn animate_cube_colors(delta: u64, elapsed: u64, color_anim: &mut ColorAnimation) -> (palette:
    Palette)
    ensures
        *final(color_anim) == animated(*old(color_anim), delta, elapsed),
        final(color_anim).main_cube_hue < UNIT,
        final(color_anim).leaf_cube_hue < UNIT,
        palette_matches(
            palette,
            final(color_anim).main_cube_hue as int,
            final(color_anim).leaf_cube_hue as int,
        ),
{
    let due = match color_anim.timer.checked_add(delta) {
        Some(timer) if timer < color_anim.change_interval => {
            color_anim.timer = timer;
            false
        },
        _ => true,
    };
    if due {
        color_anim.timer = 0;
        color_anim.target_main_hue = ((elapsed as u128 * 100) % (UNIT as u128)) as u32;
        color_anim.target_leaf_hue = ((elapsed as u128 * 130 + HALF_TURN as u128) % (
        UNIT as u128)) as u32;
    }
    let lerp_speed: u64 = match delta.checked_mul(LERP_RATE) {
        Some(t) => t,
        None => u64::MAX,
    };
    color_anim.main_cube_hue = lerp_hue(color_anim.main_cube_hue, color_anim.target_main_hue, lerp_speed);
    color_anim.leaf_cube_hue = lerp_hue(color_anim.leaf_cube_hue, color_anim.target_leaf_hue, lerp_speed);
    palette_for(color_anim.main_cube_hue, color_anim.leaf_cube_hue)
}

} // verus!
