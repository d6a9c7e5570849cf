use vstd::arithmetic::div_mod::lemma_fundamental_div_mod_converse;
use vstd::prelude::*;

verus! {

/// How the samples of one pixel are laid out in a source buffer.
#[derive(Clone, Copy, Debug, PartialEq, Eq, Structural)]
pub enum PixelLayout {
    /// One gray sample.
    Luma,
    /// A gray sample followed by an alpha sample.
    LumaAlpha,
    /// Red, green and blue samples.
    Rgb,
    /// Red, green, blue and alpha samples.
    Rgba,
}

impl PixelLayout {
    /// Number of samples per pixel.
    pub open spec fn channel_count(self) -> nat {
        match self {
            PixelLayout::Luma => 1,
            PixelLayout::LumaAlpha => 2,
            PixelLayout::Rgb => 3,
            PixelLayout::Rgba => 4,
        }
    }

    /// The sample of a source pixel that colour channel `c` of the RGB pixel
    /// is taken from: gray is replicated, alpha is never read.
    pub open spec fn source_channel(self, c: int) -> int {
        match self {
            PixelLayout::Luma | PixelLayout::LumaAlpha => 0,
            PixelLayout::Rgb | PixelLayout::Rgba => c,
        }
    }

    pub fn channels(&self) -> (r: usize)
        ensures
            r as nat == self.channel_count(),
    {
        match self {
            PixelLayout::Luma => 1,
            PixelLayout::LumaAlpha => 2,
            PixelLayout::Rgb => 3,
            PixelLayout::Rgba => 4,
        }
    }
}

/// Sample `c` of pixel `p` of a buffer in the given layout.
pub open spec fn pixel_sample(layout: PixelLayout, samples: Seq<u8>, p: int, c: int) -> u8 {
    samples[p * layout.channel_count() + c]
}

/// The interleaved RGB samples of a source buffer in the given layout:
/// three samples per pixel, pixel after pixel.
pub open spec fn rgb_of(layout: PixelLayout, samples: Seq<u8>) -> Seq<u8> {
    Seq::new(
        (samples.len() / layout.channel_count()) * 3,
        |i: int| pixel_sample(layout, samples, i / 3, layout.source_channel(i % 3)),
    )
}

/// A buffer of `n` pixels reduces to `3 * n` RGB samples.
pub proof fn lemma_rgb_len(layout: PixelLayout, samples: Seq<u8>, n: nat)
    requires
        samples.len() == n * layout.channel_count(),
    ensures
        rgb_of(layout, samples).len() == 3 * n,
{
    let ch = layout.channel_count() as int;
    assert((n * ch) / ch == n) by (nonlinear_arith)
        requires
            ch >= 1,
    ;
}

/// Index of channel `c` of the pixel in row `h`, column `w` of an interleaved
/// (height-width-channel) RGB buffer.
pub open spec fn interleaved_index(width: nat, h: int, w: int, c: int) -> int {
    h * (width * 3) + w * 3 + c
}

/// Index of channel `c` of the pixel in row `h`, column `w` of a planar
/// (channel-height-width) buffer.
pub open spec fn planar_index(height: nat, width: nat, c: int, h: int, w: int) -> int {
    c * (height * width) + h * width + w
}

/// The planar buffer holding the same samples as the interleaved RGB buffer
/// `rgb`: all red samples row by row, then all green, then all blue.
pub open spec fn planar_of(height: nat, width: nat, rgb: Seq<u8>) -> Seq<u8> {
    Seq::new(
        3 * (height * width),
        |i: int|
            {
                let c = i / (height * width) as int;
                let rest = i % (height * width) as int;
                rgb[interleaved_index(width, rest / width as int, rest % width as int, c)]
            },
    )
}

/// Position `(c, h, w)` of the planar buffer holds channel `c` of the pixel
/// in row `h`, column `w`.
pub proof fn lemma_planar_index(height: nat, width: nat, rgb: Seq<u8>, c: int, h: int, w: int)
    requires
        0 <= c < 3,
        0 <= h < height,
        0 <= w < width,
    ensures
        0 <= planar_index(height, width, c, h, w) < 3 * (height * width),
        0 <= interleaved_index(width, h, w, c) < 3 * (height * width),
        planar_of(height, width, rgb)[planar_index(height, width, c, h, w)] == rgb[interleaved_index(
            width,
            h,
            w,
            c,
        )],
{
    let plane = (height * width) as int;
    let rest = h * width + w;
    assert(0 <= rest < plane) by (nonlinear_arith)
        requires
            0 <= h < height,
            0 <= w < width,
            rest == h * width + w,
            plane == height * width,
    ;
    assert(0 <= c * plane + rest < 3 * plane) by (nonlinear_arith)
        requires
            0 <= c < 3,
            0 <= rest < plane,
    ;
    assert(0 <= h * (width * 3) + w * 3 + c < 3 * plane) by (nonlinear_arith)
        requires
            0 <= c < 3,
            0 <= h < height,
            0 <= w < width,
            plane == height * width,
    ;
    lemma_fundamental_div_mod_converse(c * plane + rest, plane, c, rest);
    lemma_fundamental_div_mod_converse(rest, width as int, h, w);
}

/// Reorders an interleaved RGB buffer of `height` rows and `width` columns
/// into planar order, visiting the destination channel by channel, row by
/// row, column by column.
pub fn interleaved_to_planar(width: usize, height: usize, rgb: &Vec<u8>) -> (r: Vec<u8>)
    requires
        rgb@.len() == 3 * (width * height),
    ensures
        r@ == planar_of(height as nat, width as nat, rgb@),
{
    let ghost planar = planar_of(height as nat, width as nat, rgb@);
    assert(width * height == height * width) by (nonlinear_arith);
    let len: usize = rgb.len();
    assert(height * width <= len);
    let plane: usize = height * width;
    let mut out: Vec<u8> = Vec::with_capacity(len);
    let mut c: usize = 0;
    while c < 3
        invariant
            c <= 3,
            plane == height * width,
            rgb@.len() == 3 * plane,
            len == 3 * plane,
            planar == planar_of(height as nat, width as nat, rgb@),
            out@ == planar.take(c * plane),
        decreases 3 - c,
    {
        let mut h: usize = 0;
        while h < height
            invariant
                c < 3,
                h <= height,
                plane == height * width,
                rgb@.len() == 3 * plane,
            len == 3 * plane,
                planar == planar_of(height as nat, width as nat, rgb@),
                out@ == planar.take(c * plane + h * width),
            decreases height - h,
        {
            let mut w: usize = 0;
            while w < width
                invariant
                    c < 3,
                    h < height,
                    w <= width,
                    plane == height * width,
                    rgb@.len() == 3 * plane,
                    len == 3 * plane,
                    planar == planar_of(height as nat, width as nat, rgb@),
                    out@ == planar.take(c * plane + h * width + w),
                decreases width - w,
            {
                proof {
                    lemma_planar_index(height as nat, width as nat, rgb@, c as int, h as int, w as int);
                }
                assert(width * 3 <= 3 * plane) by (nonlinear_arith)
                    requires
                        h < height,
                        plane == height * width,
                ;
                let idx: usize = h * (width * 3) + w * 3 + c;
                out.push(rgb[idx]);
                assert(out@ =~= planar.take(c * plane + h * width + w + 1));
                w = w + 1;
            }
            assert((h + 1) * width == h * width + width) by (nonlinear_arith);
            h = h + 1;
        }
        assert(height * width + c * plane == (c + 1) * plane) by (nonlinear_arith)
            requires
                plane == height * width,
        ;
        c = c + 1;
    }
    assert(out@ =~= planar);
    out
}

} // verus!
