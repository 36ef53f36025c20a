//! The pixel that the status indicator shows for a status colour.
//!
//! The indicator is one RGB pixel. Each status colour has a base colour from
//! the `smart_leds` palette, which is dimmed to a brightness level before it
//! goes to the pixel.

use vstd::prelude::*;
use vstd::pervasive::unreached;
use crate::status::StatusColor;

verus! {

/// Brightness level of the indicator while the report loop runs.
pub const INDICATOR_LEVEL: u8 = 12;

/// One pixel.
#[derive(Clone, Copy, Debug, PartialEq, Eq, Structural)]
pub struct Rgb {
    pub r: u8,
    pub g: u8,
    pub b: u8,
}

/// The base colour of a status colour.
pub open spec fn base_color(color: StatusColor) -> Rgb {
    match color {
        StatusColor::Red => Rgb { r: 0xFF, g: 0x00, b: 0x00 },
        StatusColor::Green => Rgb { r: 0x00, g: 0x80, b: 0x00 },
        StatusColor::Orange => Rgb { r: 0xFF, g: 0xA5, b: 0x00 },
        StatusColor::Cyan => Rgb { r: 0x00, g: 0x8B, b: 0x8B },
    }
}

/// One channel at a brightness level: level 255 keeps the channel, level 0
/// leaves a 256th of it.
pub open spec fn dim_channel(value: u8, level: u8) -> u8 {
    ((value as int * (level as int + 1)) / 256) as u8
}

/// A pixel at a brightness level.
pub open spec fn dim(pixel: Rgb, level: u8) -> Rgb {
    Rgb {
        r: dim_channel(pixel.r, level),
        g: dim_channel(pixel.g, level),
        b: dim_channel(pixel.b, level),
    }
}

/// The pixel of a status colour at a brightness level.
pub open spec fn pixel_spec(color: StatusColor, level: u8) -> Rgb {
    dim(base_color(color), level)
}

/// `smart_leds::colors::RED`, which is full red and nothing else.
#[verifier::external_body]
fn palette_red() -> (out: Rgb)
    ensures
        out == (Rgb { r: 0xFF, g: 0x00, b: 0x00 }),
{
    let c = smart_leds::colors::RED;
    Rgb { r: c.r, g: c.g, b: c.b }
}

/// `smart_leds::colors::GREEN`, which is green at half strength.
#[verifier::external_body]
fn palette_green() -> (out: Rgb)
    ensures
        out == (Rgb { r: 0x00, g: 0x80, b: 0x00 }),
{
    let c = smart_leds::colors::GREEN;
    Rgb { r: c.r, g: c.g, b: c.b }
}

/// `smart_leds::colors::ORANGE`.
#[verifier::external_body]
fn palette_orange() -> (out: Rgb)
    ensures
        out == (Rgb { r: 0xFF, g: 0xA5, b: 0x00 }),
{
    let c = smart_leds::colors::ORANGE;
    Rgb { r: c.r, g: c.g, b: c.b }
}

/// `smart_leds::colors::DARK_CYAN`.
#[verifier::external_body]
fn palette_dark_cyan() -> (out: Rgb)
    ensures
        out == (Rgb { r: 0x00, g: 0x8B, b: 0x8B }),
{
    let c = smart_leds::colors::DARK_CYAN;
    Rgb { r: c.r, g: c.g, b: c.b }
}

/// `smart_leds::brightness` over a run of one pixel, and the first item of
/// what it gives. The run has one pixel, so there is an item; each of its
/// channels is the channel given, times the level plus one, divided by 256
/// with the fraction dropped.
#[verifier::external_body]
fn reduce_brightness(pixel: Rgb, level: u8) -> (out: Option<Rgb>)
    ensures
        out == Some(dim(pixel, level)),
{
    let source = core::iter::once(smart_leds::RGB8 { r: pixel.r, g: pixel.g, b: pixel.b });
    smart_leds::brightness(source, level).next().map(|p| Rgb { r: p.r, g: p.g, b: p.b })
}

/// The pixel to show for a status colour at a brightness level.
pub fn pixel(color: StatusColor, level: u8) -> (out: Rgb)
    ensures
        out == pixel_spec(color, level),
{
    let base = match color {
        StatusColor::Red => palette_red(),
        StatusColor::Green => palette_green(),
        StatusColor::Orange => palette_orange(),
        StatusColor::Cyan => palette_dark_cyan(),
    };
    match reduce_brightness(base, level) {
        Some(dimmed) => dimmed,
        None => unreached(),
    }
}

} // verus!
