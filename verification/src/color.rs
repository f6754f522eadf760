//! Colours with eight bits a channel, and the transforms that derive the
//! colour of a label from the colour of its widget.

use vstd::prelude::*;
use crate::units::{clamped, floor_div};

verus! {

/// Red, green, blue and opacity.
#[derive(Clone, Copy, Debug, PartialEq, Eq, Structural)]
pub struct Color {
    pub r: u8,
    pub g: u8,
    pub b: u8,
    pub a: u8,
}

impl Color {
    /// An opaque colour.
    pub fn rgb(r: u8, g: u8, b: u8) -> (c: Color)
        ensures
            c == (Color { r, g, b, a: 255 }),
    {
        Color { r, g, b, a: 255 }
    }

    /// A colour with the given opacity.
    pub fn rgba(r: u8, g: u8, b: u8, a: u8) -> (c: Color)
        ensures
            c == (Color { r, g, b, a }),
    {
        Color { r, g, b, a }
    }
}

/// A factor in thousandths confined to zero to one.
pub open spec fn unit_factor(factor: int) -> int {
    clamped(factor, 0, 1000)
}

/// One channel moved toward black.
pub open spec fn darkened_channel(c: u8, factor: int) -> u8 {
    ((c as int * (1000 - unit_factor(factor))) / 1000) as u8
}

/// One channel moved toward white.
pub open spec fn brightened_channel(c: u8, factor: int) -> u8 {
    (c as int + ((255 - c as int) * unit_factor(factor)) / 1000) as u8
}

/// The brightest channel of a colour.
pub open spec fn strongest(c: Color) -> int {
    let rg = if c.r >= c.g { c.r as int } else { c.g as int };
    if rg >= c.b as int { rg } else { c.b as int }
}

/// The darkest channel of a colour.
pub open spec fn weakest(c: Color) -> int {
    let rg = if c.r <= c.g { c.r as int } else { c.g as int };
    if rg <= c.b as int { rg } else { c.b as int }
}

/// Twice the lightness of a colour: its brightest and darkest channel added.
pub open spec fn double_lightness(c: Color) -> int {
    strongest(c) + weakest(c)
}

/// The saturation of a colour in thousandths: the spread of its channels
/// over the spread that its lightness allows, zero for a grey.
pub open spec fn saturation(c: Color) -> int {
    let spread = strongest(c) - weakest(c);
    let room = if double_lightness(c) >= 255 {
        510 - double_lightness(c)
    } else {
        double_lightness(c)
    };
    if spread == 0 {
        0
    } else {
        (spread * 1000) / room
    }
}

/// The saturation after a boost, never above one.
pub open spec fn boosted_saturation(c: Color, factor: int) -> int {
    let s = saturation(c) + unit_factor(factor);
    if s > 1000 { 1000 } else { s }
}

/// One channel pushed away from the grey of the colour's lightness, by one
/// plus the boosted saturation.
pub open spec fn saturated_channel(c: Color, channel: u8, factor: int) -> u8 {
    let l2 = double_lightness(c);
    let gain = 1000 + boosted_saturation(c, factor);
    clamped((l2 * 1000 + (2 * channel as int - l2) * gain) / 2000, 0, 255) as u8
}

/// Transforms of a colour by a factor in thousandths.
pub trait ColorExt: Sized {
    /// The colour that `darken` returns.
    spec fn darkened(&self, factor: int) -> Self;

    /// The colour that `brighten` returns.
    spec fn brightened(&self, factor: int) -> Self;

    /// The colour that `saturate` returns.
    spec fn saturated(&self, factor: int) -> Self;

    /// Scales the colour channels toward black; opacity stays.
    fn darken(&self, factor: i32) -> (out: Self)
        ensures
            out == self.darkened(factor as int),
    ;

    /// Scales the colour channels toward white; opacity stays.
    fn brighten(&self, factor: i32) -> (out: Self)
        ensures
            out == self.brightened(factor as int),
    ;

    /// Pushes the colour channels away from grey; opacity stays.
    fn saturate(&self, factor: i32) -> (out: Self)
        ensures
            out == self.saturated(factor as int),
    ;
}

fn clamp_factor(factor: i32) -> (f: i64)
    ensures
        f == unit_factor(factor as int),
{
    if factor < 0 {
        0
    } else if factor > 1000 {
        1000
    } else {
        factor as i64
    }
}

fn darken_channel(c: u8, f: i64) -> (out: u8)
    requires
        0 <= f <= 1000,
    ensures
        out as int == (c as int * (1000 - f)) / 1000,
{
    proof {
        assert(0 <= c as int * (1000 - f) <= 255000) by (nonlinear_arith)
            requires
                0 <= c <= 255,
                0 <= f <= 1000,
        ;
    }
    let product: i64 = c as i64 * (1000 - f);
    (product / 1000) as u8
}

fn brighten_channel(c: u8, f: i64) -> (out: u8)
    requires
        0 <= f <= 1000,
    ensures
        out as int == c as int + ((255 - c as int) * f) / 1000,
{
    proof {
        assert(0 <= (255 - c as int) * f <= (255 - c as int) * 1000) by (nonlinear_arith)
            requires
                0 <= c <= 255,
                0 <= f <= 1000,
        ;
    }
    let product: i64 = (255 - c as i64) * f;
    (c as i64 + product / 1000) as u8
}

fn saturate_channel(channel: u8, l2: i64, gain: i64) -> (out: u8)
    requires
        0 <= l2 <= 510,
        1000 <= gain <= 2000,
    ensures
        out as int == clamped(
            (l2 * 1000 + (2 * channel as int - l2) * gain) / 2000,
            0,
            255,
        ),
{
    let offset: i64 = 2 * channel as i64 - l2;
    proof {
        assert(-1020000 <= offset * gain <= 1020000) by (nonlinear_arith)
            requires
                -510 <= offset <= 510,
                1000 <= gain <= 2000,
        ;
    }
    let numerator: i64 = l2 * 1000 + offset * gain;
    let q: i64 = floor_div(numerator, 2000);
    if q < 0 {
        0
    } else if q > 255 {
        255
    } else {
        q as u8
    }
}

impl ColorExt for Color {
    open spec fn darkened(&self, factor: int) -> Color {
        Color {
            r: darkened_channel(self.r, factor),
            g: darkened_channel(self.g, factor),
            b: darkened_channel(self.b, factor),
            a: self.a,
        }
    }

    open spec fn brightened(&self, factor: int) -> Color {
        Color {
            r: brightened_channel(self.r, factor),
            g: brightened_channel(self.g, factor),
            b: brightened_channel(self.b, factor),
            a: self.a,
        }
    }

    open spec fn saturated(&self, factor: int) -> Color {
        Color {
            r: saturated_channel(*self, self.r, factor),
            g: saturated_channel(*self, self.g, factor),
            b: saturated_channel(*self, self.b, factor),
            a: self.a,
        }
    }

    fn darken(&self, factor: i32) -> (out: Color) {
        let f = clamp_factor(factor);
        Color {
            r: darken_channel(self.r, f),
            g: darken_channel(self.g, f),
            b: darken_channel(self.b, f),
            a: self.a,
        }
    }

    fn brighten(&self, factor: i32) -> (out: Color) {
        let f = clamp_factor(factor);
        Color {
            r: brighten_channel(self.r, f),
            g: brighten_channel(self.g, f),
            b: brighten_channel(self.b, f),
            a: self.a,
        }
    }

    fn saturate(&self, factor: i32) -> (out: Color) {
        let f = clamp_factor(factor);
        let rg_max: u8 = if self.r >= self.g { self.r } else { self.g };
        let max: u8 = if rg_max >= self.b { rg_max } else { self.b };
        let rg_min: u8 = if self.r <= self.g { self.r } else { self.g };
        let min: u8 = if rg_min <= self.b { rg_min } else { self.b };
        let l2: i64 = max as i64 + min as i64;
        let spread: i64 = max as i64 - min as i64;
        let room: i64 = if l2 >= 255 { 510 - l2 } else { l2 };
        let s: i64 = if spread == 0 { 0 } else { spread * 1000 / room };
        proof {
            assert(spread <= room);
            if spread != 0 {
                assert(0 <= (spread * 1000) / (room as int) <= 1000) by (nonlinear_arith)
                    requires
                        0 < spread <= room,
                ;
            }
        }
        let boosted: i64 = if s + f > 1000 { 1000 } else { s + f };
        let gain: i64 = 1000 + boosted;
        Color {
            r: saturate_channel(self.r, l2, gain),
            g: saturate_channel(self.g, l2, gain),
            b: saturate_channel(self.b, l2, gain),
            a: self.a,
        }
    }
}

proof fn lemma_channel_ends(c: u8)
    ensures
        (c as int * 1000) / 1000 == c,
        (c as int * 0) / 1000 == 0,
        ((255 - c as int) * 0) / 1000 == 0,
        ((255 - c as int) * 1000) / 1000 == 255 - c,
{
}

/// Darkening by nothing changes nothing.
pub proof fn lemma_darken_zero(c: Color)
    ensures
        c.darkened(0) == c,
{
    lemma_channel_ends(c.r);
    lemma_channel_ends(c.g);
    lemma_channel_ends(c.b);
}

/// Darkening in full gives black of the same opacity, and so does any
/// factor beyond one.
pub proof fn lemma_darken_full(c: Color, factor: int)
    requires
        factor >= 1000,
    ensures
        c.darkened(factor) == (Color { r: 0, g: 0, b: 0, a: c.a }),
{
    lemma_channel_ends(c.r);
    lemma_channel_ends(c.g);
    lemma_channel_ends(c.b);
}

/// Brightening by nothing changes nothing.
pub proof fn lemma_brighten_zero(c: Color)
    ensures
        c.brightened(0) == c,
{
    lemma_channel_ends(c.r);
    lemma_channel_ends(c.g);
    lemma_channel_ends(c.b);
}

/// Brightening in full gives white of the same opacity, and so does any
/// factor beyond one.
pub proof fn lemma_brighten_full(c: Color, factor: int)
    requires
        factor >= 1000,
    ensures
        c.brightened(factor) == (Color { r: 255, g: 255, b: 255, a: c.a }),
{
    lemma_channel_ends(c.r);
    lemma_channel_ends(c.g);
    lemma_channel_ends(c.b);
}

/// A factor outside zero to one acts as the nearest end of that range, in
/// each of the three transforms.
pub proof fn lemma_factor_is_clamped(c: Color, factor: int)
    ensures
        c.darkened(factor) == c.darkened(unit_factor(factor)),
        c.brightened(factor) == c.brightened(unit_factor(factor)),
        c.saturated(factor) == c.saturated(unit_factor(factor)),
        factor <= 0 ==> c.darkened(factor) == c && c.brightened(factor) == c,
{
    lemma_channel_ends(c.r);
    lemma_channel_ends(c.g);
    lemma_channel_ends(c.b);
}

} // verus!
