//! Turns a decoded still image into a planar (channel-major) tensor of 8-bit
//! levels, ready to be scaled to `[0, 1]` and handed to a model.
//!
//! An element of a tensor stands for the value `level / 255`. The levels are
//! kept as integers here so that their layout and range can be proved; the
//! division happens where the tensor is handed to the numeric backend.

mod codec;

pub use codec::decoded_image;
mod laws;
mod layout;
mod tensor;

pub use layout::{
    interleaved_index, interleaved_to_planar, lemma_planar_index, lemma_rgb_len, pixel_sample,
    planar_index, planar_of, rgb_of, PixelLayout,
};
pub use tensor::{
    decode_source, load_image_to_tensor, PipelineError, SourceImage, TensorBuffer, FULL_SCALE,
};
pub use laws::{
    lemma_alpha_discard, lemma_element_source, lemma_gray_replicated, lemma_levels_in_unit_range,
    lemma_tensor_shape,
};
