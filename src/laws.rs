use crate::layout::{
    interleaved_index, lemma_planar_index, lemma_rgb_len, pixel_sample, planar_index, PixelLayout,
};
use crate::tensor::{SourceImage, TensorBuffer, FULL_SCALE};
use vstd::arithmetic::div_mod::lemma_fundamental_div_mod_converse;
use vstd::prelude::*;

verus! {

/// Every level of a tensor lies between zero and the full scale, so every
/// element value `level / FULL_SCALE` lies in `[0, 1]`.
pub proof fn lemma_levels_in_unit_range(t: &TensorBuffer)
    ensures
        forall|i: int|
            0 <= i < t.levels@.len() ==> 0 <= #[trigger] t.levels@[i] <= FULL_SCALE,
{
}

/// The tensor of an image has shape `[3, height, width]` and holds exactly
/// `3 * height * width` levels.
pub proof fn lemma_tensor_shape(src: &SourceImage, t: &TensorBuffer)
    requires
        src.wf(),
        t.is_tensor_of(src),
    ensures
        t.channels == 3,
        t.height == src.height,
        t.width == src.width,
        t.levels@.len() == 3 * (src.height * src.width),
{
}

/// The element of a tensor at channel `c`, row `h`, column `w` is channel
/// `c` of the image's RGB pixel in row `h`, column `w`.
pub proof fn lemma_element_source(src: &SourceImage, t: &TensorBuffer, c: int, h: int, w: int)
    requires
        src.wf(),
        t.is_tensor_of(src),
        0 <= c < 3,
        0 <= h < src.height,
        0 <= w < src.width,
    ensures
        t.levels@[planar_index(t.height as nat, t.width as nat, c, h, w)] == src.rgb()[interleaved_index(
            t.width as nat,
            h,
            w,
            c,
        )],
{
    lemma_planar_index(src.height as nat, src.width as nat, src.rgb(), c, h, w);
}

/// Alpha never contributes: an RGBA image and the RGB image holding the same
/// colour samples give the same tensor.
pub proof fn lemma_alpha_discard(
    with_alpha: &SourceImage,
    stripped: &SourceImage,
    ta: &TensorBuffer,
    tb: &TensorBuffer,
)
    requires
        with_alpha.wf(),
        stripped.wf(),
        with_alpha.layout == PixelLayout::Rgba,
        stripped.layout == PixelLayout::Rgb,
        with_alpha.width == stripped.width,
        with_alpha.height == stripped.height,
        forall|p: int, c: int|
            0 <= p < with_alpha.width * with_alpha.height && 0 <= c < 3 ==> #[trigger] pixel_sample(
                PixelLayout::Rgba,
                with_alpha.samples@,
                p,
                c,
            ) == pixel_sample(PixelLayout::Rgb, stripped.samples@, p, c),
        ta.is_tensor_of(with_alpha),
        tb.is_tensor_of(stripped),
    ensures
        ta.levels@ == tb.levels@,
{
    let n = (with_alpha.width * with_alpha.height) as nat;
    lemma_rgb_len(PixelLayout::Rgba, with_alpha.samples@, n);
    lemma_rgb_len(PixelLayout::Rgb, stripped.samples@, n);
    assert forall|i: int| 0 <= i < 3 * n implies with_alpha.rgb()[i] == stripped.rgb()[i] by {
        lemma_fundamental_div_mod_converse(i, 3, i / 3, i % 3);
        assert(0 <= i / 3 < n);
        assert(pixel_sample(PixelLayout::Rgba, with_alpha.samples@, i / 3, i % 3)
            == pixel_sample(PixelLayout::Rgb, stripped.samples@, i / 3, i % 3));
    }
    assert(with_alpha.rgb() =~= stripped.rgb());
}

/// A gray pixel of value `v` gives the level `v` in all three channels.
pub proof fn lemma_gray_replicated(src: &SourceImage, t: &TensorBuffer, c: int, h: int, w: int)
    requires
        src.wf(),
        src.layout == PixelLayout::Luma || src.layout == PixelLayout::LumaAlpha,
        t.is_tensor_of(src),
        0 <= c < 3,
        0 <= h < src.height,
        0 <= w < src.width,
    ensures
        t.levels@[planar_index(t.height as nat, t.width as nat, c, h, w)] == pixel_sample(
            src.layout,
            src.samples@,
            h * src.width + w,
            0,
        ),
{
    let width = src.width as int;
    let n = (src.width * src.height) as nat;
    lemma_rgb_len(src.layout, src.samples@, n);
    lemma_planar_index(src.height as nat, src.width as nat, src.rgb(), c, h, w);
    let k = interleaved_index(src.width as nat, h, w, c);
    assert(k == (h * width + w) * 3 + c) by (nonlinear_arith)
        requires
            k == h * (width * 3) + w * 3 + c,
    ;
    assert(src.width * src.height == src.height * src.width) by (nonlinear_arith);
    lemma_fundamental_div_mod_converse(k, 3, h * width + w, c);
}

} // verus!
