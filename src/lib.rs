//! Value datatypes of a 3D/UI engine (offset-and-scale pairs, colors, color
//! ramps) with their arithmetic, their constructor overloads and their
//! conversion to and from the engine's tagged value representation.

mod color;
mod constructor;
mod float32;
mod text;
mod udim;
mod udim2;
mod variant;

pub use color::{
    is_unit_time, time_rank, valid_keypoints, Color3, ColorSequence, ColorSequenceKeypoint,
};
pub use constructor::{
    fills_offset, fills_scale, fills_udim, matches_numbers, matches_udims, offset_at, resolve_udim2,
    scale_at, udim_at, Arg,
};
pub use float32::Float32;
pub use text::{decimal_text, digit_char, digits_of, field_separator};
pub use udim::{
    lemma_offset_additive_identity, lemma_offset_sub_is_add_neg, offset_add, offset_neg,
    offset_sub, wrap_i32, UDim,
};
pub use udim2::{offset_or_zero, scale_or_zero, UDim2};
pub use variant::{projection, DatatypeError, Variant, VariantType};
