use crate::codec::{decode_bytes, decoded_image, rgb8_samples};
use crate::layout::{interleaved_to_planar, lemma_rgb_len, planar_index, planar_of, rgb_of, PixelLayout};
use vstd::prelude::*;

verus! {

/// The level that stands for the value `1.0`: an element of a tensor is the
/// value `level / FULL_SCALE`.
pub const FULL_SCALE: u8 = 255;

/// Why a tensor could not be produced or used.
#[derive(Clone, Copy, Debug, PartialEq, Eq, Structural)]
pub enum PipelineError {
    /// The image source could not be read.
    Io,
    /// The bytes are not an image in a supported encoding.
    Decode,
    /// A tensor's shape differs from the shape a model expects.
    ShapeMismatch,
}

/// A decoded image: `width * height` pixels, row after row, each pixel's
/// samples next to each other in the given layout.
pub struct SourceImage {
    pub layout: PixelLayout,
    pub width: u32,
    pub height: u32,
    pub samples: Vec<u8>,
}

/// A tensor of shape `[channels, height, width]` whose levels are stored
/// channel by channel, row by row, column by column.
pub struct TensorBuffer {
    pub channels: usize,
    pub height: usize,
    pub width: usize,
    pub levels: Vec<u8>,
}

impl SourceImage {
    pub open spec fn wf(&self) -> bool {
        self.samples@.len() == self.width * self.height * self.layout.channel_count()
    }

    /// The image reduced to three channels, in interleaved order.
    pub open spec fn rgb(&self) -> Seq<u8> {
        rgb_of(self.layout, self.samples@)
    }

    /// The levels of the planar tensor made from this image.
    pub open spec fn tensor_levels(&self) -> Seq<u8> {
        planar_of(self.height as nat, self.width as nat, self.rgb())
    }

    /// Wraps raw samples; `None` when their number is not exactly
    /// `width * height` pixels of the layout.
    pub fn new(layout: PixelLayout, width: u32, height: u32, samples: Vec<u8>) -> (r: Option<SourceImage>)
        ensures
            r is Some <==> samples@.len() == width * height * layout.channel_count(),
            r matches Some(s) ==> s.layout == layout && s.width == width && s.height == height
                && s.samples@ == samples@,
    {
        let len: usize = samples.len();
        let pixels = (width as usize).checked_mul(height as usize);
        let needed = match pixels {
            Some(p) => p.checked_mul(layout.channels()),
            None => None,
        };
        proof {
            if samples@.len() == width * height * layout.channel_count() {
                assert(width * height <= samples@.len()) by (nonlinear_arith)
                    requires
                        samples@.len() == width * height * layout.channel_count(),
                        layout.channel_count() >= 1,
                ;
            }
        }
        match needed {
            Some(n) => {
                if n == len {
                    Some(SourceImage { layout, width, height, samples })
                } else {
                    None
                }
            },
            None => None,
        }
    }

    /// Reduces the image to RGB and reorders it into a planar tensor of
    /// shape `[3, height, width]`.
    pub fn into_tensor(self) -> (r: TensorBuffer)
        requires
            self.wf(),
        ensures
            r.wf(),
            r.is_tensor_of(&self),
    {
        let ghost src = self;
        let w = self.width;
        let h = self.height;
        let rgb = rgb8_samples(self.layout, w, h, self.samples);
        proof {
            assert(w * h == (w as usize) * (h as usize));
            lemma_rgb_len(src.layout, src.samples@, (w * h) as nat);
        }
        let levels = interleaved_to_planar(w as usize, h as usize, &rgb);
        proof {
            assert(3 * ((h as nat) * (w as nat)) == 3 * ((h as usize) * (w as usize)));
        }
        TensorBuffer { channels: 3, height: h as usize, width: w as usize, levels }
    }
}

impl TensorBuffer {
    pub open spec fn wf(&self) -> bool {
        &&& self.channels == 3
        &&& self.levels@.len() == 3 * (self.height * self.width)
    }

    /// This tensor is the one made from `src`: same height and width, and
    /// its levels are those of `src` in planar order.
    pub open spec fn is_tensor_of(&self, src: &SourceImage) -> bool {
        &&& self.channels == 3
        &&& self.height == src.height
        &&& self.width == src.width
        &&& self.levels@ == src.tensor_levels()
    }

    /// The shape `[1, channels, height, width]` under which the tensor is
    /// handed to a model: a batch of one, with the levels in the same order.
    pub open spec fn batched(&self) -> Seq<usize> {
        seq![1usize, self.channels, self.height, self.width]
    }

    /// The shape `[channels, height, width]`.
    pub fn shape(&self) -> (r: [usize; 3])
        ensures
            r@ == seq![self.channels, self.height, self.width],
    {
        [self.channels, self.height, self.width]
    }

    /// The shape with a leading batch dimension of one.
    pub fn batched_shape(&self) -> (r: [usize; 4])
        ensures
            r@ == self.batched(),
    {
        [1, self.channels, self.height, self.width]
    }

    /// Succeeds when `expected` is the batched shape of this tensor.
    pub fn check_input_shape(&self, expected: [usize; 4]) -> (r: Result<(), PipelineError>)
        ensures
            r is Ok <==> expected@ == self.batched(),
            r is Err ==> r == Err::<(), PipelineError>(PipelineError::ShapeMismatch),
    {
        if expected[0] == 1 && expected[1] == self.channels && expected[2] == self.height
            && expected[3] == self.width {
            assert(expected@ =~= self.batched());
            Ok(())
        } else {
            assert(expected@[0] != 1usize || expected@[1] != self.channels || expected@[2]
                != self.height || expected@[3] != self.width);
            Err(PipelineError::ShapeMismatch)
        }
    }

    /// The level at channel `c`, row `h`, column `w`.
    pub fn level(&self, c: usize, h: usize, w: usize) -> (r: u8)
        requires
            self.wf(),
            c < 3,
            h < self.height,
            w < self.width,
        ensures
            r == self.levels@[planar_index(self.height as nat, self.width as nat, c as int, h as int, w as int)],
    {
        proof {
            crate::layout::lemma_planar_index(self.height as nat, self.width as nat, Seq::empty(), c as int, h as int, w as int);
            assert(self.height * self.width <= 3 * (self.height * self.width));
        }
        let len: usize = self.levels.len();
        self.levels[c * (self.height * self.width) + h * self.width + w]
    }
}

/// Decodes an encoded image into its samples. Images of 8 bits per sample
/// keep their layout; any other is reduced to 8-bit RGBA by the codec.
pub fn decode_source(bytes: &[u8]) -> (r: Result<SourceImage, PipelineError>)
    ensures
        r is Ok <==> decoded_image(bytes@) is Some,
        r matches Ok(s) ==> s.wf() && decoded_image(bytes@) == Some(
            (s.layout, s.width, s.height, s.samples@),
        ),
        r is Err ==> r == Err::<SourceImage, PipelineError>(PipelineError::Decode),
{
    match decode_bytes(bytes) {
        Some((layout, width, height, samples)) => {
            match SourceImage::new(layout, width, height, samples) {
                Some(src) => Ok(src),
                None => Err(PipelineError::Decode),
            }
        },
        None => Err(PipelineError::Decode),
    }
}

/// Decodes an encoded image and turns it into a planar tensor of shape
/// `[3, height, width]`. Fails with `Decode`, and produces nothing, exactly
/// when the bytes are not a supported image.
pub fn load_image_to_tensor(bytes: &[u8]) -> (r: Result<TensorBuffer, PipelineError>)
    ensures
        r is Ok <==> decoded_image(bytes@) is Some,
        decoded_image(bytes@) matches Some((l, w, h, s)) ==> (r matches Ok(t) && t.wf()
            && t.channels == 3 && t.height == h as usize && t.width == w as usize
            && t.levels@ == planar_of(h as nat, w as nat, rgb_of(l, s))),
        r is Err ==> r == Err::<TensorBuffer, PipelineError>(PipelineError::Decode),
{
    let src = decode_source(bytes)?;
    Ok(src.into_tensor())
}

} // verus!
