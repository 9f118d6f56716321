//! The board's front: what keys send, and how its lights look.

use crate::layout::FB_HEIGHT;
use vstd::prelude::*;

verus! {

/// What a byte from the terminal does.
#[derive(Clone, Copy, Debug, PartialEq, Eq, Structural)]
pub enum KeyInput {
    /// The user stops the emulator.
    Quit,
    /// The byte goes to the serial line.
    Send(u8),
}

/// A colour, by its red, green and blue.
#[derive(Clone, Copy, Debug, PartialEq, Eq, Structural)]
pub struct Rgb {
    pub r: u8,
    pub g: u8,
    pub b: u8,
}

/// How one light is drawn.
#[derive(Clone, Copy, Debug, PartialEq, Eq, Structural)]
pub struct LedFace {
    /// Where its box stands in the window.
    pub x: u32,
    pub y: u32,
    pub fill: Rgb,
    /// A light that is on has a halo.
    pub halo: bool,
}

/// The number of lights.
pub const LED_COUNT: u32 = 4;

/// The shortest time between two updates of the picture, in milliseconds.
pub const FRAME_MILLIS: u128 = 33;

/// The byte that the serial line gets for an entered byte: a line feed becomes a
/// carriage return.
pub open spec fn line_byte(b: u8) -> u8 {
    if b == 0x0A {
        0x0D
    } else {
        b
    }
}

/// The light `i` is on.
pub open spec fn led_on(leds: u32, i: u32) -> bool {
    leds & (1u32 << i) != 0
}

/// The colours of the light `i`: red, green, yellow and blue, each bright when it is on
/// and dim when it is off.
pub open spec fn led_fill(i: u32, on: bool) -> Rgb {
    if i == 0 {
        if on {
            Rgb { r: 255, g: 0, b: 0 }
        } else {
            Rgb { r: 50, g: 0, b: 0 }
        }
    } else if i == 1 {
        if on {
            Rgb { r: 0, g: 255, b: 0 }
        } else {
            Rgb { r: 0, g: 50, b: 0 }
        }
    } else if i == 2 {
        if on {
            Rgb { r: 255, g: 255, b: 0 }
        } else {
            Rgb { r: 50, g: 50, b: 0 }
        }
    } else {
        if on {
            Rgb { r: 0, g: 100, b: 255 }
        } else {
            Rgb { r: 0, g: 0, b: 50 }
        }
    }
}

/// What a byte from the terminal does.
pub fn terminal_byte(b: u8) -> (r: KeyInput)
    ensures
        r == if b == 0x03 {
            KeyInput::Quit
        } else {
            KeyInput::Send(line_byte(b))
        },
{
    if b == 0x03 {
        KeyInput::Quit
    } else if b == 0x0A {
        KeyInput::Send(0x0D)
    } else {
        KeyInput::Send(b)
    }
}

/// The byte that a character entered in the window sends: its low byte, a line feed
/// turned to a carriage return.
pub fn window_char(c: char) -> (r: u8)
    ensures
        r == line_byte((c as u32 % 0x100) as u8),
{
    let b: u8 = (c as u32 % 0x100) as u8;
    if b == 0x0A {
        0x0D
    } else {
        b
    }
}

/// How the light `i` is drawn.
pub fn led_face(leds: u32, i: u32) -> (r: LedFace)
    requires
        i < LED_COUNT,
    ensures
        r.x == 40 + 40 * i,
        r.y == FB_HEIGHT + 15,
        r.fill == led_fill(i, led_on(leds, i)),
        r.halo == led_on(leds, i),
{
    let on = (leds & (1u32 << i)) != 0;
    let fill = if i == 0 {
        if on {
            Rgb { r: 255, g: 0, b: 0 }
        } else {
            Rgb { r: 50, g: 0, b: 0 }
        }
    } else if i == 1 {
        if on {
            Rgb { r: 0, g: 255, b: 0 }
        } else {
            Rgb { r: 0, g: 50, b: 0 }
        }
    } else if i == 2 {
        if on {
            Rgb { r: 255, g: 255, b: 0 }
        } else {
            Rgb { r: 50, g: 50, b: 0 }
        }
    } else {
        if on {
            Rgb { r: 0, g: 100, b: 255 }
        } else {
            Rgb { r: 0, g: 0, b: 50 }
        }
    };
    LedFace { x: 40 + 40 * i, y: FB_HEIGHT as u32 + 15, fill, halo: on }
}

/// Is it time to update the picture?
pub fn frame_due(elapsed_millis: u128) -> (r: bool)
    ensures
        r == (elapsed_millis >= FRAME_MILLIS),
{
    elapsed_millis >= FRAME_MILLIS
}

} // verus!
