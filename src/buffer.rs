//! The pixel transform applied to a whole RGB buffer.

use vstd::prelude::*;
use crate::color::{
    gray_of, grayscale, lerp_of, mix, mix_linear, mix_of, ColorError, RGB, MAX_OPACITY,
};

verus! {

/// How a gray pixel is blended toward the party color.
#[derive(Debug, Clone, Copy, PartialEq, Eq, Structural)]
pub enum BlendMode {
    /// [`mix`]: `opacity / 100` in integers first, so below 100 the gray is kept.
    Truncating,
    /// [`mix_linear`]: a true linear blend, rounded once.
    Linear,
}

/// The blend that `mode` selects.
pub open spec fn blend_of(mode: BlendMode, base: RGB, overlay: RGB, opacity: u8) -> RGB {
    match mode {
        BlendMode::Truncating => mix_of(base, overlay, opacity),
        BlendMode::Linear => lerp_of(base, overlay, opacity),
    }
}

/// The pixel made of the three bytes at `3 * i` in `s`.
pub open spec fn pixel_at(s: Seq<u8>, i: int) -> RGB {
    RGB(s[3 * i], s[3 * i + 1], s[3 * i + 2])
}

/// `out` is `pixels` with every pixel grayed and blended toward `party_color`.
pub open spec fn transformed(
    pixels: Seq<u8>,
    out: Seq<u8>,
    party_color: RGB,
    opacity: u8,
    mode: BlendMode,
) -> bool {
    &&& out.len() == pixels.len()
    &&& forall|i: int|
        0 <= i < pixels.len() / 3 ==> #[trigger] pixel_at(out, i) == blend_of(
            mode,
            gray_of(pixel_at(pixels, i)),
            party_color,
            opacity,
        )
}

/// The bytes of `pixels` with every pixel grayed and blended toward
/// `party_color`, one channel per byte.
pub open spec fn blended_pixels(pixels: Seq<u8>, party_color: RGB, opacity: u8, mode: BlendMode) -> Seq<u8> {
    Seq::new(
        pixels.len(),
        |j: int|
            {
                let b = blend_of(mode, gray_of(pixel_at(pixels, j / 3)), party_color, opacity);
                if j % 3 == 0 {
                    b.0
                } else if j % 3 == 1 {
                    b.1
                } else {
                    b.2
                }
            },
    )
}

/// On whole pixels, a transformed buffer is the blended one.
pub proof fn lemma_transformed_is_blended(
    pixels: Seq<u8>,
    out: Seq<u8>,
    party_color: RGB,
    opacity: u8,
    mode: BlendMode,
)
    requires
        pixels.len() % 3 == 0,
        transformed(pixels, out, party_color, opacity, mode),
    ensures
        out == blended_pixels(pixels, party_color, opacity, mode),
{
    let want = blended_pixels(pixels, party_color, opacity, mode);
    assert forall|j: int| 0 <= j < out.len() implies out[j] == want[j] by {
        let k = j / 3;
        assert(0 <= k < pixels.len() / 3);
        assert(pixel_at(out, k) == blend_of(mode, gray_of(pixel_at(pixels, k)), party_color, opacity));
        assert(j == 3 * k + j % 3);
    }
    assert(out =~= want);
}

/// Grays every pixel of an RGB buffer (three bytes per pixel) and blends it
/// toward `party_color`, writing all three channels of each result into a
/// new buffer. Fails with `InvalidOpacity` when `opacity` exceeds 100, and
/// otherwise with `IncompletePixel` when the length is not a multiple of three.
pub fn transform_pixels(
    pixels: &Vec<u8>,
    party_color: &RGB,
    opacity: u8,
    mode: BlendMode,
) -> (r: Result<Vec<u8>, ColorError>)
    ensures
        opacity > 100 ==> r == Err::<Vec<u8>, ColorError>(ColorError::InvalidOpacity),
        opacity <= 100 && pixels@.len() % 3 != 0 ==> r == Err::<Vec<u8>, ColorError>(
            ColorError::IncompletePixel,
        ),
        opacity <= 100 && pixels@.len() % 3 == 0 <==> r is Ok,
        r is Ok ==> transformed(pixels@, r->Ok_0@, *party_color, opacity, mode),
{
    if opacity > MAX_OPACITY {
        return Err(ColorError::InvalidOpacity);
    }
    if pixels.len() % 3 != 0 {
        return Err(ColorError::IncompletePixel);
    }
    let n: usize = pixels.len();
    let mut out: Vec<u8> = Vec::with_capacity(n);
    let mut i: usize = 0;
    while i < n
        invariant
            n == pixels@.len(),
            n % 3 == 0,
            i % 3 == 0,
            i <= n,
            opacity <= 100,
            out@.len() == i,
            forall|k: int|
                0 <= k < i / 3 ==> #[trigger] pixel_at(out@, k) == blend_of(
                    mode,
                    gray_of(pixel_at(pixels@, k)),
                    *party_color,
                    opacity,
                ),
        decreases n - i,
    {
        let pixel = RGB(pixels[i], pixels[i + 1], pixels[i + 2]);
        let gray = grayscale(&pixel);
        let blended = match mode {
            BlendMode::Truncating => mix(&gray, party_color, opacity),
            BlendMode::Linear => mix_linear(&gray, party_color, opacity),
        };
        assert(pixel == pixel_at(pixels@, i as int / 3));
        let ghost prev = out@;
        out.push(blended.0);
        out.push(blended.1);
        out.push(blended.2);
        assert forall|k: int| 0 <= k < (i + 3) / 3 implies #[trigger] pixel_at(out@, k)
            == blend_of(mode, gray_of(pixel_at(pixels@, k)), *party_color, opacity) by {
            if k < i / 3 {
                assert(pixel_at(out@, k) == pixel_at(prev, k));
            } else {
                assert(k == i / 3);
            }
        }
        i = i + 3;
    }
    Ok(out)
}

} // verus!
