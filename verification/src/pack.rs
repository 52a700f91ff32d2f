//! Bit-packed words of the GPU paint layout.

use vstd::prelude::*;

verus! {

/// Image-source flag in an image's parameter word (bit 14): set where the texture is bound by
/// the user and sampled directly, clear where the image lies in the atlas.
pub const EXTERNAL_IMAGE_SOURCE_FLAG: u32 = 0x4000;

/// The word that holds two 16-bit values, `high` in the upper half.
pub open spec fn halves(high: u16, low: u16) -> u32 {
    (high * 0x1_0000 + low) as u32
}

/// The image parameter word: `quality` in bits 0-1, `x_extend` in bits 2-3, `y_extend` in
/// bits 4-5, `atlas_index` in bits 6-13.
pub open spec fn image_params(quality: u32, x_extend: u32, y_extend: u32, atlas_index: u32) -> u32 {
    (quality + 4 * x_extend + 16 * y_extend + 64 * atlas_index) as u32
}

/// The gradient word: the ramp's width with the extend mode in bits 30-31.
pub open spec fn width_and_extend(texture_width: u32, extend_mode: u32) -> u32 {
    texture_width | (extend_mode << 30u32)
}

/// The radial gradient word: the kind in bits 0-1, the swapped flag in bit 2.
pub open spec fn kind_and_swapped(kind: u32, f_is_swapped: u32) -> u32 {
    (kind + 4 * f_is_swapped) as u32
}

/// Packs an image's size, in pixels.
pub fn pack_image_size(width: u16, height: u16) -> (word: u32)
    ensures
        word == halves(width, height),
        word as int == width * 0x1_0000 + height,
{
    pack_halves(width, height)
}

/// Packs the offset of an image within its texture, in pixels.
pub fn pack_image_offset(x: u16, y: u16) -> (word: u32)
    ensures
        word == halves(x, y),
        word as int == x * 0x1_0000 + y,
{
    pack_halves(x, y)
}

fn pack_halves(high: u16, low: u16) -> (word: u32)
    ensures
        word == halves(high, low),
        word as int == high * 0x1_0000 + low,
{
    let h: u32 = high as u32;
    let l: u32 = low as u32;
    assert((h << 16u32) | l == h * 0x1_0000 + l) by (bit_vector)
        requires
            h <= 0xffff,
            l <= 0xffff,
    ;
    (h << 16) | l
}

/// Packs an image's sampling parameters. Each must fit the bits that the word has for it.
pub fn pack_image_params(
    quality: u32,
    x_extend: u32,
    y_extend: u32,
    atlas_index: u32,
) -> (word: u32)
    requires
        quality < 4,
        x_extend < 4,
        y_extend < 4,
        atlas_index < 256,
    ensures
        word == image_params(quality, x_extend, y_extend, atlas_index),
        word as int == quality + 4 * x_extend + 16 * y_extend + 64 * atlas_index,
{
    assert((atlas_index << 6u32) | (y_extend << 4u32) | (x_extend << 2u32) | quality == quality + 4
        * x_extend + 16 * y_extend + 64 * atlas_index) by (bit_vector)
        requires
            quality < 4,
            x_extend < 4,
            y_extend < 4,
            atlas_index < 256,
    ;
    (atlas_index << 6) | (y_extend << 4) | (x_extend << 2) | quality
}

/// Packs the width of a gradient's ramp and its extend mode.
pub fn pack_texture_width_and_extend_mode(texture_width: u32, extend_mode: u32) -> (word: u32)
    ensures
        word == width_and_extend(texture_width, extend_mode),
        word & 0x3fff_ffff == texture_width & 0x3fff_ffff,
        word >> 30u32 == (texture_width >> 30u32) | (extend_mode & 3),
{
    proof {
        width_and_extend_bits(texture_width, extend_mode);
    }
    texture_width | (extend_mode << 30)
}

/// Packs the kind of a radial gradient and whether its focal points were swapped.
pub fn pack_radial_kind_and_swapped(kind: u32, f_is_swapped: u32) -> (word: u32)
    requires
        kind < 4,
        f_is_swapped < 2,
    ensures
        word == kind_and_swapped(kind, f_is_swapped),
        word as int == kind + 4 * f_is_swapped,
{
    assert((f_is_swapped << 2u32) | kind == kind + 4 * f_is_swapped) by (bit_vector)
        requires
            kind < 4,
            f_is_swapped < 2,
    ;
    (f_is_swapped << 2) | kind
}

/// The two halves of a packed size or offset are read back by a shift and a mask.
pub proof fn halves_unpack(high: u16, low: u16)
    ensures
        halves(high, low) >> 16u32 == high,
        halves(high, low) & 0xffff == low,
{
    let h: u32 = high as u32;
    let l: u32 = low as u32;
    let word: u32 = halves(high, low);
    assert(word >> 16u32 == h && word & 0xffff == l) by (bit_vector)
        requires
            h <= 0xffff,
            l <= 0xffff,
            word == h * 0x1_0000 + l,
    ;
}

/// Every field of an image parameter word is read back from the bits that hold it, and the
/// external-source flag lies above all of them.
pub proof fn image_params_unpack(quality: u32, x_extend: u32, y_extend: u32, atlas_index: u32)
    requires
        quality < 4,
        x_extend < 4,
        y_extend < 4,
        atlas_index < 256,
    ensures
        ({
            let word = image_params(quality, x_extend, y_extend, atlas_index);
            &&& word & 3 == quality
            &&& (word >> 2u32) & 3 == x_extend
            &&& (word >> 4u32) & 3 == y_extend
            &&& (word >> 6u32) & 0xff == atlas_index
            &&& word & EXTERNAL_IMAGE_SOURCE_FLAG == 0
            &&& word < 0x4000
        }),
{
    let word: u32 = image_params(quality, x_extend, y_extend, atlas_index);
    assert(word & 3 == quality && (word >> 2u32) & 3 == x_extend && (word >> 4u32) & 3 == y_extend
        && (word >> 6u32) & 0xff == atlas_index && word & 0x4000 == 0) by (bit_vector)
        requires
            quality < 4,
            x_extend < 4,
            y_extend < 4,
            atlas_index < 256,
            word == quality + 4 * x_extend + 16 * y_extend + 64 * atlas_index,
    ;
}

/// A ramp width that fits 30 bits and an extend mode that fits 2 are both read back from the
/// gradient word.
pub proof fn width_and_extend_unpack(texture_width: u32, extend_mode: u32)
    requires
        texture_width < 0x4000_0000,
        extend_mode < 4,
    ensures
        width_and_extend(texture_width, extend_mode) & 0x3fff_ffff == texture_width,
        width_and_extend(texture_width, extend_mode) >> 30u32 == extend_mode,
{
    assert((texture_width | (extend_mode << 30u32)) & 0x3fff_ffff == texture_width && (texture_width
        | (extend_mode << 30u32)) >> 30u32 == extend_mode) by (bit_vector)
        requires
            texture_width < 0x4000_0000,
            extend_mode < 4,
    ;
}

/// Whatever the ramp's width, the lower 30 bits of the gradient word are those of the width, and
/// its upper two bits are those of the width, or-ed with the lower two of the extend mode.
pub proof fn width_and_extend_bits(texture_width: u32, extend_mode: u32)
    ensures
        width_and_extend(texture_width, extend_mode) & 0x3fff_ffff == texture_width & 0x3fff_ffff,
        width_and_extend(texture_width, extend_mode) >> 30u32 == (texture_width >> 30u32) | (
        extend_mode & 3),
{
    let width = texture_width;
    let mode = extend_mode;
    assert((width | (mode << 30u32)) & 0x3fff_ffff == width & 0x3fff_ffff && (width | (mode
        << 30u32)) >> 30u32 == (width >> 30u32) | (mode & 3)) by (bit_vector);
}

/// The kind and the swapped flag are read back from the radial gradient word.
pub proof fn kind_and_swapped_unpack(kind: u32, f_is_swapped: u32)
    requires
        kind < 4,
        f_is_swapped < 2,
    ensures
        kind_and_swapped(kind, f_is_swapped) & 3 == kind,
        kind_and_swapped(kind, f_is_swapped) >> 2u32 == f_is_swapped,
{
    let word: u32 = kind_and_swapped(kind, f_is_swapped);
    assert(word & 3 == kind && word >> 2u32 == f_is_swapped) by (bit_vector)
        requires
            kind < 4,
            f_is_swapped < 2,
            word == kind + 4 * f_is_swapped,
    ;
}

} // verus!
