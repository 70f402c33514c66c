use embedded_graphics_core::pixelcolor::{
    Bgr555, Bgr565, Bgr888, BinaryColor, Gray2, Gray4, Gray8, GrayColor, Rgb555, Rgb565, Rgb888,
    RgbColor,
};
use vstd::arithmetic::div_mod::{lemma_div_by_multiple, lemma_fundamental_div_mod};
use vstd::arithmetic::power2::{lemma2_to64, lemma_pow2_pos, pow2};
use vstd::prelude::*;

verus! {

/// Declares embedded-graphics-core's `Rgb555` color type, opaque to the verifier.
#[verifier::external_type_specification]
#[verifier::external_body]
pub struct ExRgb555(Rgb555);

/// Declares embedded-graphics-core's `Bgr555` color type, opaque to the verifier.
#[verifier::external_type_specification]
#[verifier::external_body]
pub struct ExBgr555(Bgr555);

/// Declares embedded-graphics-core's `Rgb565` color type, opaque to the verifier.
#[verifier::external_type_specification]
#[verifier::external_body]
pub struct ExRgb565(Rgb565);

/// Declares embedded-graphics-core's `Bgr565` color type, opaque to the verifier.
#[verifier::external_type_specification]
#[verifier::external_body]
pub struct ExBgr565(Bgr565);

/// Declares embedded-graphics-core's `Rgb888` color type, opaque to the verifier.
#[verifier::external_type_specification]
#[verifier::external_body]
pub struct ExRgb888(Rgb888);

/// Declares embedded-graphics-core's `Bgr888` color type, opaque to the verifier.
#[verifier::external_type_specification]
#[verifier::external_body]
pub struct ExBgr888(Bgr888);

/// Declares embedded-graphics-core's `Gray2` color type, opaque to the verifier.
#[verifier::external_type_specification]
#[verifier::external_body]
pub struct ExGray2(Gray2);

/// Declares embedded-graphics-core's `Gray4` color type, opaque to the verifier.
#[verifier::external_type_specification]
#[verifier::external_body]
pub struct ExGray4(Gray4);

/// Declares embedded-graphics-core's `Gray8` color type, opaque to the verifier.
#[verifier::external_type_specification]
#[verifier::external_body]
pub struct ExGray8(Gray8);

/// Declares embedded-graphics-core's `BinaryColor`, whose two variants the
/// verifier reads.
#[verifier::external_type_specification]
pub struct ExBinaryColor(BinaryColor);

/// The red, green and blue channels of a `Rgb555` color, as its `r`, `g` and `b` return them.
pub uninterp spec fn rgb555_channels(p: Rgb555) -> (u8, u8, u8);

/// The red, green and blue channels of a `Bgr555` color, as its `r`, `g` and `b` return them.
pub uninterp spec fn bgr555_channels(p: Bgr555) -> (u8, u8, u8);

/// The red, green and blue channels of a `Rgb565` color, as its `r`, `g` and `b` return them.
pub uninterp spec fn rgb565_channels(p: Rgb565) -> (u8, u8, u8);

/// The red, green and blue channels of a `Bgr565` color, as its `r`, `g` and `b` return them.
pub uninterp spec fn bgr565_channels(p: Bgr565) -> (u8, u8, u8);

/// The red, green and blue channels of a `Rgb888` color, as its `r`, `g` and `b` return them.
pub uninterp spec fn rgb888_channels(p: Rgb888) -> (u8, u8, u8);

/// The red, green and blue channels of a `Bgr888` color, as its `r`, `g` and `b` return them.
pub uninterp spec fn bgr888_channels(p: Bgr888) -> (u8, u8, u8);

/// The luma of a `Gray2` color, as its `luma` returns it.
pub uninterp spec fn gray2_luma(p: Gray2) -> u8;

/// The luma of a `Gray4` color, as its `luma` returns it.
pub uninterp spec fn gray4_luma(p: Gray4) -> u8;

/// The luma of a `Gray8` color, as its `luma` returns it.
pub uninterp spec fn gray8_luma(p: Gray8) -> u8;

/// Relies on `RgbColor::r`, `g` and `b` of `Rgb555`: the channels of 5, 5 and 5 bits.
#[verifier::external_body]
fn channels_rgb555(p: Rgb555) -> (c: (u8, u8, u8))
    ensures
        c == rgb555_channels(p),
        c.0 < 32,
        c.1 < 32,
        c.2 < 32,
{
    (p.r(), p.g(), p.b())
}

/// Relies on `RgbColor::r`, `g` and `b` of `Bgr555`: the channels of 5, 5 and 5 bits.
#[verifier::external_body]
fn channels_bgr555(p: Bgr555) -> (c: (u8, u8, u8))
    ensures
        c == bgr555_channels(p),
        c.0 < 32,
        c.1 < 32,
        c.2 < 32,
{
    (p.r(), p.g(), p.b())
}

/// Relies on `RgbColor::r`, `g` and `b` of `Rgb565`: the channels of 5, 6 and 5 bits.
#[verifier::external_body]
fn channels_rgb565(p: Rgb565) -> (c: (u8, u8, u8))
    ensures
        c == rgb565_channels(p),
        c.0 < 32,
        c.1 < 64,
        c.2 < 32,
{
    (p.r(), p.g(), p.b())
}

/// Relies on `RgbColor::r`, `g` and `b` of `Bgr565`: the channels of 5, 6 and 5 bits.
#[verifier::external_body]
fn channels_bgr565(p: Bgr565) -> (c: (u8, u8, u8))
    ensures
        c == bgr565_channels(p),
        c.0 < 32,
        c.1 < 64,
        c.2 < 32,
{
    (p.r(), p.g(), p.b())
}

/// Relies on `RgbColor::r`, `g` and `b` of `Rgb888`: the channels of 8, 8 and 8 bits.
#[verifier::external_body]
fn channels_rgb888(p: Rgb888) -> (c: (u8, u8, u8))
    ensures
        c == rgb888_channels(p),
{
    (p.r(), p.g(), p.b())
}

/// Relies on `RgbColor::r`, `g` and `b` of `Bgr888`: the channels of 8, 8 and 8 bits.
#[verifier::external_body]
fn channels_bgr888(p: Bgr888) -> (c: (u8, u8, u8))
    ensures
        c == bgr888_channels(p),
{
    (p.r(), p.g(), p.b())
}

/// Relies on `GrayColor::luma` of `Gray2`: the luma value of 2 bits.
#[verifier::external_body]
fn luma_gray2(p: Gray2) -> (v: u8)
    ensures
        v == gray2_luma(p),
        v < 4,
{
    p.luma()
}

/// Relies on `GrayColor::luma` of `Gray4`: the luma value of 4 bits.
#[verifier::external_body]
fn luma_gray4(p: Gray4) -> (v: u8)
    ensures
        v == gray4_luma(p),
        v < 16,
{
    p.luma()
}

/// Relies on `GrayColor::luma` of `Gray8`: the luma value of 8 bits.
#[verifier::external_body]
fn luma_gray8(p: Gray8) -> (v: u8)
    ensures
        v == gray8_luma(p),
{
    p.luma()
}

/// A 24-bit RGB color as the panel displays it.
#[derive(Clone, Copy, Debug, PartialEq, Eq, Structural)]
pub struct LedColor {
    /// the red channel value
    pub red: u8,
    /// the green channel value
    pub green: u8,
    /// the blue channel value
    pub blue: u8,
}

/// The factor by which a channel of `bits` bits is widened to eight bits.
pub open spec fn widen_factor(bits: nat) -> nat {
    pow2((8 - bits) as nat)
}

/// A channel of `bits` bits widened to eight bits by shifting it left.
pub open spec fn widen(value: int, bits: nat) -> int {
    value * widen_factor(bits)
}

/// An eight-bit channel narrowed to `bits` bits by shifting it right.
pub open spec fn narrow(value: int, bits: nat) -> int {
    value / (widen_factor(bits) as int)
}

/// The widening factors of the channel widths that the panel formats use.
pub proof fn lemma_widen_factors()
    ensures
        widen_factor(1) == 128,
        widen_factor(2) == 64,
        widen_factor(4) == 16,
        widen_factor(5) == 8,
        widen_factor(6) == 4,
        widen_factor(8) == 1,
{
    lemma2_to64();
    assert((8 - 1) as nat == 7);
    assert((8 - 2) as nat == 6);
    assert((8 - 4) as nat == 4);
    assert((8 - 5) as nat == 3);
    assert((8 - 6) as nat == 2);
    assert((8 - 8) as nat == 0);
}

/// Widening a channel of `bits` bits to eight bits and narrowing it back
/// gives the channel unchanged: no widening loses information.
pub proof fn lemma_widen_then_narrow(value: int, bits: nat)
    requires
        1 <= bits <= 8,
        0 <= value < pow2(bits),
    ensures
        narrow(widen(value, bits), bits) == value,
{
    lemma_pow2_pos((8 - bits) as nat);
    lemma_div_by_multiple(value, widen_factor(bits) as int);
}

/// Narrowing an eight-bit value to `bits` bits and widening it back gives the
/// value unchanged exactly when the bits that narrowing drops are zero; every
/// other value comes back smaller.
pub proof fn lemma_narrow_then_widen(value: int, bits: nat)
    requires
        1 <= bits <= 8,
        0 <= value < 256,
    ensures
        widen(narrow(value, bits), bits) == value <==> value % (widen_factor(bits) as int) == 0,
        widen(narrow(value, bits), bits) <= value,
{
    let f = widen_factor(bits) as int;
    lemma_pow2_pos((8 - bits) as nat);
    lemma_fundamental_div_mod(value, f);
    assert(widen(narrow(value, bits), bits) == (value / f) * f);
    assert((value / f) * f == f * (value / f)) by (nonlinear_arith);
}

/// The color of a one-bit pixel: on is white, off is black.
pub open spec fn bit_color(on: bool) -> LedColor {
    if on {
        LedColor { red: 255, green: 255, blue: 255 }
    } else {
        LedColor { red: 0, green: 0, blue: 0 }
    }
}

impl LedColor {
    /// The color with all three channels set to `value`.
    pub fn gray(value: u8) -> (r: LedColor)
        ensures
            r == (LedColor { red: value, green: value, blue: value }),
    {
        LedColor { red: value, green: value, blue: value }
    }

    /// Widens a color with 5 bits per channel (as in RGB555 and BGR555).
    pub fn from_555(r: u8, g: u8, b: u8) -> (c: LedColor)
        requires
            r < 32,
            g < 32,
            b < 32,
    ensures
        c.red == widen(r as int, 5),
            c.green == widen(g as int, 5),
            c.blue == widen(b as int, 5),
    {
        proof {
            lemma_widen_factors();
        }
        LedColor { red: r * 8, green: g * 8, blue: b * 8 }
    }

    /// Widens a color with 5, 6 and 5 bits per channel (as in RGB565 and BGR565).
    pub fn from_565(r: u8, g: u8, b: u8) -> (c: LedColor)
        requires
            r < 32,
            g < 64,
            b < 32,
    ensures
        c.red == widen(r as int, 5),
            c.green == widen(g as int, 6),
            c.blue == widen(b as int, 5),
    {
        proof {
            lemma_widen_factors();
        }
        LedColor { red: r * 8, green: g * 4, blue: b * 8 }
    }

    /// A color with 8 bits per channel, taken as it is.
    pub fn from_888(r: u8, g: u8, b: u8) -> (c: LedColor)
        ensures
            c == (LedColor { red: r, green: g, blue: b }),
            c.red == widen(r as int, 8),
            c.green == widen(g as int, 8),
            c.blue == widen(b as int, 8),
    {
        proof {
            lemma_widen_factors();
        }
        LedColor { red: r, green: g, blue: b }
    }

    /// Widens a luma value of 2, 4 or 8 bits to a gray color.
    pub fn from_luma(luma: u8, bits: u8) -> (c: LedColor)
        requires
            bits == 2 || bits == 4 || bits == 8,
            luma < pow2(bits as nat),
    ensures
        c.red == widen(luma as int, bits as nat),
            c.green == c.red,
            c.blue == c.red,
    {
        proof {
            lemma2_to64();
            lemma_widen_factors();
        }
        let v: u8 = if bits == 2 {
            luma * 64
        } else if bits == 4 {
            luma * 16
        } else {
            luma
        };
        LedColor::gray(v)
    }

    /// A one-bit color: on is white, off is black.
    pub fn from_bit(on: bool) -> (c: LedColor)
        ensures
            c == bit_color(on),
    {
        if on {
            LedColor::gray(255)
        } else {
            LedColor::gray(0)
        }
    }

    /// Converts a `Rgb555` color by widening its channels.
    pub fn from_rgb555(p: Rgb555) -> (c: LedColor)
        ensures
            c.red == widen(rgb555_channels(p).0 as int, 5),
            c.green == widen(rgb555_channels(p).1 as int, 5),
            c.blue == widen(rgb555_channels(p).2 as int, 5),
    {
        let (r, g, b) = channels_rgb555(p);
        let c = LedColor::from_555(r, g, b);
        proof {
            lemma_widen_factors();
        }
        c
    }

    /// Converts a `Bgr555` color by widening its channels.
    pub fn from_bgr555(p: Bgr555) -> (c: LedColor)
        ensures
            c.red == widen(bgr555_channels(p).0 as int, 5),
            c.green == widen(bgr555_channels(p).1 as int, 5),
            c.blue == widen(bgr555_channels(p).2 as int, 5),
    {
        let (r, g, b) = channels_bgr555(p);
        let c = LedColor::from_555(r, g, b);
        proof {
            lemma_widen_factors();
        }
        c
    }

    /// Converts a `Rgb565` color by widening its channels.
    pub fn from_rgb565(p: Rgb565) -> (c: LedColor)
        ensures
            c.red == widen(rgb565_channels(p).0 as int, 5),
            c.green == widen(rgb565_channels(p).1 as int, 6),
            c.blue == widen(rgb565_channels(p).2 as int, 5),
    {
        let (r, g, b) = channels_rgb565(p);
        let c = LedColor::from_565(r, g, b);
        proof {
            lemma_widen_factors();
        }
        c
    }

    /// Converts a `Bgr565` color by widening its channels.
    pub fn from_bgr565(p: Bgr565) -> (c: LedColor)
        ensures
            c.red == widen(bgr565_channels(p).0 as int, 5),
            c.green == widen(bgr565_channels(p).1 as int, 6),
            c.blue == widen(bgr565_channels(p).2 as int, 5),
    {
        let (r, g, b) = channels_bgr565(p);
        let c = LedColor::from_565(r, g, b);
        proof {
            lemma_widen_factors();
        }
        c
    }

    /// Converts a `Rgb888` color, whose channels already have 8 bits.
    pub fn from_rgb888(p: Rgb888) -> (c: LedColor)
        ensures
            c == (LedColor {
                red: rgb888_channels(p).0,
                green: rgb888_channels(p).1,
                blue: rgb888_channels(p).2,
            }),
    {
        let (r, g, b) = channels_rgb888(p);
        LedColor::from_888(r, g, b)
    }

    /// Converts a `Bgr888` color, whose channels already have 8 bits.
    pub fn from_bgr888(p: Bgr888) -> (c: LedColor)
        ensures
            c == (LedColor {
                red: bgr888_channels(p).0,
                green: bgr888_channels(p).1,
                blue: bgr888_channels(p).2,
            }),
    {
        let (r, g, b) = channels_bgr888(p);
        LedColor::from_888(r, g, b)
    }

    /// Converts a `Gray2` color to the gray with its widened luma.
    pub fn from_gray2(p: Gray2) -> (c: LedColor)
        ensures
            c.red == widen(gray2_luma(p) as int, 2),
            c.green == c.red,
            c.blue == c.red,
    {
        let v = luma_gray2(p);
        proof {
            lemma2_to64();
            lemma_widen_factors();
        }
        LedColor::from_luma(v, 2)
    }

    /// Converts a `Gray4` color to the gray with its widened luma.
    pub fn from_gray4(p: Gray4) -> (c: LedColor)
        ensures
            c.red == widen(gray4_luma(p) as int, 4),
            c.green == c.red,
            c.blue == c.red,
    {
        let v = luma_gray4(p);
        proof {
            lemma2_to64();
            lemma_widen_factors();
        }
        LedColor::from_luma(v, 4)
    }

    /// Converts a `Gray8` color to the gray with its widened luma.
    pub fn from_gray8(p: Gray8) -> (c: LedColor)
        ensures
            c.red == widen(gray8_luma(p) as int, 8),
            c.green == c.red,
            c.blue == c.red,
    {
        let v = luma_gray8(p);
        proof {
            lemma2_to64();
            lemma_widen_factors();
        }
        LedColor::from_luma(v, 8)
    }

    /// Converts a `BinaryColor`: on is white, off is black.
    pub fn from_binary_color(p: BinaryColor) -> (c: LedColor)
        ensures
            c == bit_color(p == BinaryColor::On),
    {
        match p {
            BinaryColor::On => LedColor::from_bit(true),
            BinaryColor::Off => LedColor::from_bit(false),
        }
    }
}

} // verus!
