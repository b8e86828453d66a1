//! One RGB color and the per-pixel transforms on it.

use vstd::prelude::*;

verus! {

/// An RGB color with three 8-bit channels: red, green, blue.
#[derive(Debug, Clone, Copy, PartialEq, Eq, Structural)]
pub struct RGB(pub u8, pub u8, pub u8);

/// The luminosity level of a color: 0.21 red + 0.72 green + 0.07 blue,
/// truncated to an integer.
pub open spec fn gray_level(c: RGB) -> int {
    (21 * c.0 + 72 * c.1 + 7 * c.2) / 100
}

/// The gray color whose three channels all hold the luminosity level of `c`.
pub open spec fn gray_of(c: RGB) -> RGB {
    RGB(gray_level(c) as u8, gray_level(c) as u8, gray_level(c) as u8)
}

/// Luminosity grayscale: every channel of the result is
/// `trunc(0.21 * red + 0.72 * green + 0.07 * blue)`.
pub fn grayscale(color: &RGB) -> (r: RGB)
    ensures
        r == gray_of(*color),
        0 <= gray_level(*color) <= 255,
{
    let sum: u32 = 21 * (color.0 as u32) + 72 * (color.1 as u32) + 7 * (color.2 as u32);
    let level: u8 = (sum / 100) as u8;
    RGB(level, level, level)
}

/// The largest opacity, in percent.
pub const MAX_OPACITY: u8 = 100;

/// Why a blend was refused.
#[derive(Debug, Clone, Copy, PartialEq, Eq, Structural)]
pub enum ColorError {
    /// The opacity lies outside `0..=100`.
    InvalidOpacity,
    /// A pixel buffer whose length is not a multiple of three.
    IncompletePixel,
}

/// One channel of the truncating blend:
/// `base + (overlay - base) * (opacity / 100)`, with `opacity / 100` an
/// integer division taken first.
pub open spec fn mix_channel(base: u8, overlay: u8, opacity: u8) -> int {
    base + (overlay - base) * (opacity / 100)
}

/// The truncating blend of two colors, channel by channel.
pub open spec fn mix_of(base: RGB, overlay: RGB, opacity: u8) -> RGB {
    RGB(
        mix_channel(base.0, overlay.0, opacity) as u8,
        mix_channel(base.1, overlay.1, opacity) as u8,
        mix_channel(base.2, overlay.2, opacity) as u8,
    )
}

/// One channel of the linear blend, rounded half up once at the end:
/// `round(base + (overlay - base) * opacity / 100)`.
pub open spec fn lerp_channel(base: u8, overlay: u8, opacity: u8) -> int {
    (base * (100 - opacity) + overlay * opacity + 50) / 100
}

/// The truncating blend with its opacity check: `InvalidOpacity` above 100.
pub open spec fn checked_mix_of(base: RGB, overlay: RGB, opacity: u8) -> Result<RGB, ColorError> {
    if opacity > 100 {
        Err(ColorError::InvalidOpacity)
    } else {
        Ok(mix_of(base, overlay, opacity))
    }
}

/// The checked pixel transform, channel by channel: `InvalidOpacity` above
/// 100, else each channel is the gray level of `pixel` blended toward the
/// matching channel of `party_color`.
pub open spec fn pixel_transform_of(pixel: RGB, party_color: RGB, opacity: u8) -> Result<
    RGB,
    ColorError,
> {
    if opacity > 100 {
        Err(ColorError::InvalidOpacity)
    } else {
        Ok(
            RGB(
                mix_channel(gray_level(pixel) as u8, party_color.0, opacity) as u8,
                mix_channel(gray_level(pixel) as u8, party_color.1, opacity) as u8,
                mix_channel(gray_level(pixel) as u8, party_color.2, opacity) as u8,
            ),
        )
    }
}

/// The linear blend of two colors, channel by channel.
pub open spec fn lerp_of(base: RGB, overlay: RGB, opacity: u8) -> RGB {
    RGB(
        lerp_channel(base.0, overlay.0, opacity) as u8,
        lerp_channel(base.1, overlay.1, opacity) as u8,
        lerp_channel(base.2, overlay.2, opacity) as u8,
    )
}

fn mix_channel_exec(base: u8, overlay: u8, opacity: u8) -> (r: u8)
    requires
        opacity <= 100,
    ensures
        r == mix_channel(base, overlay, opacity),
        opacity < 100 ==> r == base,
        opacity == 100 ==> r == overlay,
{
    let step: i16 = (opacity / 100) as i16;
    let delta: i16 = overlay as i16 - base as i16;
    assert(step == 0 || step == 1);
    let v: i16 = delta * step + base as i16;
    v as u8
}

/// Truncating blend of `color` toward `overlayed_color`. Because
/// `opacity / 100` is taken in integers first, an opacity below 100 leaves
/// `color` unchanged and an opacity of 100 gives `overlayed_color`. The
/// difference of channels is taken in a signed type, so it never wraps.
pub fn mix(color: &RGB, overlayed_color: &RGB, opacity: u8) -> (r: RGB)
    requires
        opacity <= 100,
    ensures
        r == mix_of(*color, *overlayed_color, opacity),
        opacity < 100 ==> r == *color,
        opacity == 100 ==> r == *overlayed_color,
{
    RGB(
        mix_channel_exec(color.0, overlayed_color.0, opacity),
        mix_channel_exec(color.1, overlayed_color.1, opacity),
        mix_channel_exec(color.2, overlayed_color.2, opacity),
    )
}

/// The truncating blend with the opacity checked first: `InvalidOpacity`
/// exactly when `opacity` exceeds 100.
pub fn checked_mix(color: &RGB, overlayed_color: &RGB, opacity: u8) -> (r: Result<RGB, ColorError>)
    ensures
        r == checked_mix_of(*color, *overlayed_color, opacity),
        opacity > 100 <==> r == Err::<RGB, ColorError>(ColorError::InvalidOpacity),
        opacity <= 100 ==> r == Ok::<RGB, ColorError>(mix_of(*color, *overlayed_color, opacity)),
{
    if opacity > MAX_OPACITY {
        Err(ColorError::InvalidOpacity)
    } else {
        Ok(mix(color, overlayed_color, opacity))
    }
}

fn lerp_channel_exec(base: u8, overlay: u8, opacity: u8) -> (r: u8)
    requires
        opacity <= 100,
    ensures
        r == lerp_channel(base, overlay, opacity),
        opacity == 0 ==> r == base,
        opacity == 100 ==> r == overlay,
{
    let b: u32 = base as u32;
    let o: u32 = overlay as u32;
    let p: u32 = opacity as u32;
    assert(b * (100 - p) <= 255 * (100 - p)) by (nonlinear_arith)
        requires b <= 255, p <= 100;
    assert(o * p <= 255 * p) by (nonlinear_arith)
        requires o <= 255, p <= 100;
    let sum: u32 = b * (100 - p) + o * p + 50;
    if p == 0 {
        assert(sum == b * 100 + 50);
    } else if p == 100 {
        assert(sum == o * 100 + 50);
    }
    (sum / 100) as u8
}

/// Linear blend of `color` toward `overlayed_color`: each channel is
/// `base + (overlay - base) * opacity / 100`, rounded half up once.
pub fn mix_linear(color: &RGB, overlayed_color: &RGB, opacity: u8) -> (r: RGB)
    requires
        opacity <= 100,
    ensures
        r == lerp_of(*color, *overlayed_color, opacity),
        opacity == 0 ==> r == *color,
        opacity == 100 ==> r == *overlayed_color,
{
    RGB(
        lerp_channel_exec(color.0, overlayed_color.0, opacity),
        lerp_channel_exec(color.1, overlayed_color.1, opacity),
        lerp_channel_exec(color.2, overlayed_color.2, opacity),
    )
}

/// Grays `pixel`, then blends it toward `party_color` with [`mix`].
#[allow(non_snake_case)]
pub fn transformPixel(pixel: &RGB, party_color: &RGB, opacity: u8) -> (r: RGB)
    requires
        opacity <= 100,
    ensures
        r == mix_of(gray_of(*pixel), *party_color, opacity),
{
    mix(&grayscale(pixel), party_color, opacity)
}

/// The pixel transform with the opacity checked first: `InvalidOpacity`
/// exactly when `opacity` exceeds 100, else the result of [`transformPixel`].
pub fn checked_transform_pixel(pixel: &RGB, party_color: &RGB, opacity: u8) -> (r: Result<
    RGB,
    ColorError,
>)
    ensures
        r == pixel_transform_of(*pixel, *party_color, opacity),
        opacity > 100 <==> r == Err::<RGB, ColorError>(ColorError::InvalidOpacity),
        opacity <= 100 ==> r == Ok::<RGB, ColorError>(mix_of(gray_of(*pixel), *party_color, opacity)),
{
    if opacity > MAX_OPACITY {
        Err(ColorError::InvalidOpacity)
    } else {
        Ok(transformPixel(pixel, party_color, opacity))
    }
}

/// The pixel transform is exactly the checked blend of the pixel's gray
/// toward the party color, failures included: no step is added or left out.
pub proof fn lemma_transform_is_mix_of_gray(pixel: RGB, party_color: RGB, opacity: u8)
    ensures
        pixel_transform_of(pixel, party_color, opacity) == checked_mix_of(
            gray_of(pixel),
            party_color,
            opacity,
        ),
{
    let v = gray_level(pixel);
    assert(0 <= v <= 255);
    assert(gray_of(pixel).0 == v as u8);
}

/// Grayscale is idempotent: a gray color is its own gray.
pub proof fn lemma_grayscale_idempotent(c: RGB)
    ensures
        gray_of(gray_of(c)) == gray_of(c),
{
    let v = gray_level(c);
    assert(0 <= v <= 255);
    assert(gray_level(gray_of(c)) == (21 * v + 72 * v + 7 * v) / 100);
    assert(gray_level(gray_of(c)) == v);
}

/// Blending a color with itself gives the color back, at every opacity.
pub proof fn lemma_mix_self(c: RGB, opacity: u8)
    ensures
        mix_of(c, c, opacity) == c,
{
}

/// At full opacity the blend is the overlay.
pub proof fn lemma_mix_full_opacity(base: RGB, overlay: RGB)
    ensures
        mix_of(base, overlay, 100) == overlay,
{
    assert(100u8 / 100 == 1);
    assert(mix_channel(base.0, overlay.0, 100) == overlay.0);
    assert(mix_channel(base.1, overlay.1, 100) == overlay.1);
    assert(mix_channel(base.2, overlay.2, 100) == overlay.2);
}

/// At zero opacity the blend is the base.
pub proof fn lemma_mix_zero_opacity(base: RGB, overlay: RGB)
    ensures
        mix_of(base, overlay, 0) == base,
{
    assert(0u8 / 100 == 0);
    assert(mix_channel(base.0, overlay.0, 0) == base.0);
    assert(mix_channel(base.1, overlay.1, 0) == base.1);
    assert(mix_channel(base.2, overlay.2, 0) == base.2);
}

/// The ten party colors, in order.
pub open spec fn party_palette() -> Seq<RGB> {
    seq![
        RGB(255, 141, 139),
        RGB(254, 214, 137),
        RGB(136, 255, 137),
        RGB(135, 255, 255),
        RGB(139, 181, 254),
        RGB(215, 140, 255),
        RGB(255, 140, 255),
        RGB(255, 104, 247),
        RGB(254, 108, 183),
        RGB(255, 105, 104),
    ]
}

/// The ten party colors, in order.
pub fn party_colors() -> (r: Vec<RGB>)
    ensures
        r@ == party_palette(),
{
    let r = vec![
        RGB(255, 141, 139),
        RGB(254, 214, 137),
        RGB(136, 255, 137),
        RGB(135, 255, 255),
        RGB(139, 181, 254),
        RGB(215, 140, 255),
        RGB(255, 140, 255),
        RGB(255, 104, 247),
        RGB(254, 108, 183),
        RGB(255, 105, 104),
    ];
    assert(r@ =~= party_palette());
    r
}

} // verus!
