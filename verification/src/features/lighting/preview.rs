//! The moving color samples of lighting effects.
//!
//! Phases and amounts are in parts per million. Colors are packed: red, green
//! and blue from the highest byte down.

use crate::features::mouse::geometry::WHOLE;
use crate::hid::{LightingEffect, Rgb};
use vstd::prelude::*;

verus! {

/// By how much the phase moves at each tick.
pub const PHASE_STEP: u32 = 40_000;

/// The phase after a tick.
pub fn next_phase(phase: u32) -> (next: u32)
    requires
        phase < WHOLE,
    ensures
        next == (phase + PHASE_STEP) % WHOLE as int,
        next < WHOLE,
{
    (phase + PHASE_STEP) % WHOLE
}

/// A color in one number.
pub open spec fn packed(red: int, green: int, blue: int) -> int {
    red * 65536 + green * 256 + blue
}

fn pack(red: u32, green: u32, blue: u32) -> (color: u32)
    requires
        red <= 255,
        green <= 255,
        blue <= 255,
    ensures
        color == packed(red as int, green as int, blue as int),
{
    red * 65536 + green * 256 + blue
}

/// A channel at an amount.
pub open spec fn scaled(channel: int, amount: int) -> int {
    (channel * amount) / WHOLE as int
}

fn scale(channel: u32, amount: u32) -> (part: u32)
    requires
        channel <= 255,
        amount <= WHOLE,
    ensures
        part == scaled(channel as int, amount as int),
        part <= channel,
{
    assert(0 <= channel * amount <= channel * WHOLE) by (nonlinear_arith)
        requires
            0 <= channel,
            0 <= amount <= WHOLE,
    ;
    (channel * amount) / WHOLE
}

/// A color at an amount.
pub open spec fn dimmed(color: Rgb, amount: int) -> int {
    packed(
        scaled(color.red as int, amount),
        scaled(color.green as int, amount),
        scaled(color.blue as int, amount),
    )
}

/// A color at an amount; more than all of it is all of it.
pub fn dim(color: Rgb, amount: u32) -> (dim: u32)
    ensures
        dim == dimmed(
            color,
            if amount > WHOLE {
                WHOLE as int
            } else {
                amount as int
            },
        ),
{
    let amount: u32 = if amount > WHOLE {
        WHOLE
    } else {
        amount
    };
    pack(
        scale(color.red as u32, amount),
        scale(color.green as u32, amount),
        scale(color.blue as u32, amount),
    )
}

/// The color of the rainbow at a phase: red, yellow, green, cyan, blue, magenta
/// and back, each sixth of the way blending into the next.
pub open spec fn rainbow(phase: int) -> int {
    let wrapped = (phase % WHOLE as int) * 6;
    let sector = wrapped / WHOLE as int;
    let frac = wrapped % WHOLE as int;
    let up = scaled(255, frac);
    let down = scaled(255, WHOLE - frac);
    if sector == 0 {
        packed(255, up, 0)
    } else if sector == 1 {
        packed(down, 255, 0)
    } else if sector == 2 {
        packed(0, 255, up)
    } else if sector == 3 {
        packed(0, down, 255)
    } else if sector == 4 {
        packed(up, 0, 255)
    } else {
        packed(255, 0, down)
    }
}

/// The color of the rainbow at a phase.
pub fn hue(phase: u32) -> (color: u32)
    ensures
        color == rainbow(phase as int),
{
    let wrapped: u32 = (phase % WHOLE) * 6;
    let sector = wrapped / WHOLE;
    let frac = wrapped % WHOLE;
    let up = scale(255, frac);
    let down = scale(255, WHOLE - frac);
    match sector {
        0 => pack(255, up, 0),
        1 => pack(down, 255, 0),
        2 => pack(0, 255, up),
        3 => pack(0, down, 255),
        4 => pack(up, 0, 255),
        _ => pack(255, 0, down),
    }
}

/// White.
pub const WHITE: u32 = 0x00ff_ffff;

/// The night sky between stars.
pub const NIGHT: u32 = 0x0008_1020;

/// What the sample of an effect shows at a phase. `swell` is how far the
/// breathing effects have swelled at that phase.
pub open spec fn sample(effect: LightingEffect, phase: int, swell: int, color: Rgb) -> int {
    match effect {
        LightingEffect::Solid => dimmed(color, WHOLE as int),
        LightingEffect::LightOnPress => dimmed(color, WHOLE as int),
        LightingEffect::EchoPress => dimmed(color, WHOLE as int),
        LightingEffect::ColorCycle => rainbow(phase),
        LightingEffect::ColorWave => rainbow(phase),
        LightingEffect::SpectrumPulse => rainbow(phase),
        LightingEffect::Neon => rainbow(phase),
        LightingEffect::Ocean => rainbow(phase),
        LightingEffect::Breathing => dimmed(color, swell),
        LightingEffect::Pulsar => dimmed(color, swell),
        LightingEffect::Starlight => star(phase),
        LightingEffect::SmoothStars => star(phase),
        LightingEffect::OuterSpace => star(phase),
        LightingEffect::Ripple => dimmed(color, swell),
        LightingEffect::SmoothWave => dimmed(color, swell),
        LightingEffect::Tide => dimmed(color, swell),
        LightingEffect::Lightning => if (phase * 7) % WHOLE as int > 920_000 {
            WHITE as int
        } else {
            dimmed(color, 150_000)
        },
        LightingEffect::VerticalFade => rainbow((phase + 330_000) % WHOLE as int),
        LightingEffect::Contrast => rainbow((phase + 330_000) % WHOLE as int),
        LightingEffect::RedWhiteBlue => if 3 * phase < WHOLE {
            0x00c4_1e3a
        } else if 3 * phase < 2 * WHOLE {
            WHITE as int
        } else {
            0x0000_52a5
        },
        LightingEffect::ScreenSampler => rainbow((phase / 5) % WHOLE as int),
        LightingEffect::AudioVisualizer => dimmed(
            Rgb { red: 0x00, green: 0xa2, blue: 0xff },
            swell,
        ),
    }
}

/// Whether a star twinkles at a phase.
pub open spec fn star(phase: int) -> int {
    if (phase * 11) % WHOLE as int > 700_000 {
        WHITE as int
    } else {
        NIGHT as int
    }
}

fn starlight(phase: u32) -> (color: u32)
    requires
        phase < WHOLE,
    ensures
        color == star(phase as int),
{
    if (phase * 11) % WHOLE > 700_000 {
        WHITE
    } else {
        NIGHT
    }
}

/// What the sample of an effect shows at a phase.
pub fn preview_rgb(effect: LightingEffect, phase: u32, swell: u32, color: Rgb) -> (shown: u32)
    requires
        phase < WHOLE,
        swell <= WHOLE,
    ensures
        shown == sample(effect, phase as int, swell as int, color),
{
    match effect {
        LightingEffect::Solid => dim(color, WHOLE),
        LightingEffect::LightOnPress => dim(color, WHOLE),
        LightingEffect::EchoPress => dim(color, WHOLE),
        LightingEffect::ColorCycle => hue(phase),
        LightingEffect::ColorWave => hue(phase),
        LightingEffect::SpectrumPulse => hue(phase),
        LightingEffect::Neon => hue(phase),
        LightingEffect::Ocean => hue(phase),
        LightingEffect::Breathing => dim(color, swell),
        LightingEffect::Pulsar => dim(color, swell),
        LightingEffect::Starlight => starlight(phase),
        LightingEffect::SmoothStars => starlight(phase),
        LightingEffect::OuterSpace => starlight(phase),
        LightingEffect::Ripple => dim(color, swell),
        LightingEffect::SmoothWave => dim(color, swell),
        LightingEffect::Tide => dim(color, swell),
        LightingEffect::Lightning => if (phase * 7) % WHOLE > 920_000 {
            WHITE
        } else {
            dim(color, 150_000)
        },
        LightingEffect::VerticalFade => hue((phase + 330_000) % WHOLE),
        LightingEffect::Contrast => hue((phase + 330_000) % WHOLE),
        LightingEffect::RedWhiteBlue => if 3 * phase < WHOLE {
            0x00c4_1e3a
        } else if 3 * phase < 2 * WHOLE {
            WHITE
        } else {
            0x0000_52a5
        },
        LightingEffect::ScreenSampler => hue((phase / 5) % WHOLE),
        LightingEffect::AudioVisualizer => dim(
            Rgb { red: 0x00, green: 0xa2, blue: 0xff },
            swell,
        ),
    }
}

/// A still effect shows the color itself, and dimming never makes a channel
/// brighter.
pub proof fn dimming_keeps_or_darkens(color: Rgb, amount: int)
    requires
        0 <= amount <= WHOLE,
    ensures
        dimmed(color, WHOLE as int) == packed(
            color.red as int,
            color.green as int,
            color.blue as int,
        ),
        0 <= scaled(color.red as int, amount) <= color.red,
        0 <= scaled(color.green as int, amount) <= color.green,
        0 <= scaled(color.blue as int, amount) <= color.blue,
{
    assert(0 <= color.red * amount <= color.red * WHOLE) by (nonlinear_arith)
        requires
            0 <= amount <= WHOLE,
            0 <= color.red,
    ;
    assert(0 <= color.green * amount <= color.green * WHOLE) by (nonlinear_arith)
        requires
            0 <= amount <= WHOLE,
            0 <= color.green,
    ;
    assert(0 <= color.blue * amount <= color.blue * WHOLE) by (nonlinear_arith)
        requires
            0 <= amount <= WHOLE,
            0 <= color.blue,
    ;
}

} // verus!
