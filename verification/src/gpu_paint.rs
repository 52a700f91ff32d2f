//! The GPU form of a paint and its serialized bytes.
//!
//! A GPU paint is a whole number of texels, each of four 32-bit words.

use crate::byte_order;
use crate::byte_order::ByteOrder;
use crate::paint::{FloatBits, Transform};
use vstd::prelude::*;

verus! {

/// The number of bytes of one texel of the paint texture.
pub const TEXEL_BYTES: usize = 16;

/// A linear gradient as the GPU reads it.
#[derive(Debug, Clone, Copy)]
pub struct GpuLinearGradient {
    /// Ramp width and extend mode.
    pub texture_width_and_extend_mode: u32,
    /// First texel of the ramp.
    pub gradient_start: u32,
    /// Scene to gradient space.
    pub transform: Transform,
}

/// A radial gradient as the GPU reads it.
#[derive(Debug, Clone, Copy)]
pub struct GpuRadialGradient {
    /// Ramp width and extend mode.
    pub texture_width_and_extend_mode: u32,
    /// First texel of the ramp.
    pub gradient_start: u32,
    /// Scene to gradient space.
    pub transform: Transform,
    /// Kind of radial gradient and swapped flag.
    pub kind_and_f_is_swapped: u32,
    /// Correction added to the scaled distance.
    pub bias: FloatBits,
    /// Scale from the start radius to the end radius.
    pub scale: FloatBits,
    /// First focal parameter.
    pub fp0: FloatBits,
    /// Second focal parameter.
    pub fp1: FloatBits,
    /// Normalized outer radius in focal space.
    pub fr1: FloatBits,
    /// X-coordinate of the focal point.
    pub f_focal_x: FloatBits,
    /// Square of the scaled start radius.
    pub scaled_r0_squared: FloatBits,
}

/// A sweep gradient as the GPU reads it. Two words of padding follow.
#[derive(Debug, Clone, Copy)]
pub struct GpuSweepGradient {
    /// Ramp width and extend mode.
    pub texture_width_and_extend_mode: u32,
    /// First texel of the ramp.
    pub gradient_start: u32,
    /// Scene to gradient space.
    pub transform: Transform,
    /// The angle at which the sweep starts.
    pub start_angle: FloatBits,
    /// The inverse of the angle that the sweep covers.
    pub inv_angle_delta: FloatBits,
}

/// An image as the GPU reads it. One word of padding follows.
#[derive(Debug, Clone, Copy)]
pub struct GpuEncodedImage {
    /// Sampling parameters and the image-source flag.
    pub image_params: u32,
    /// Size of the sampled region.
    pub image_size: u32,
    /// Offset of the sampled region.
    pub image_offset: u32,
    /// Scene to image space.
    pub transform: Transform,
    /// Tint color.
    pub tint: u32,
    /// Tint mode.
    pub tint_mode: u32,
}

/// A blurred rounded rectangle as the GPU reads it. Two words of padding follow.
#[derive(Debug, Clone, Copy)]
pub struct GpuBlurredRoundedRect {
    /// Scene to rectangle space.
    pub transform: Transform,
    /// Premultiplied color.
    pub color: u32,
    /// 1 where the inverse of the coverage is painted, 0 otherwise.
    pub invert: u32,
    /// Exponent, its reciprocal, scale, reciprocal of the standard deviation.
    pub params0: [FloatBits; 4],
    /// Shorter edge, adjusted width, adjusted height, adjusted radius.
    pub params1: [FloatBits; 4],
    /// Width and height.
    pub size: [FloatBits; 2],
}

/// A paint as the GPU reads it.
#[derive(Debug, Clone, Copy)]
pub enum GpuEncodedPaint {
    /// A linear gradient.
    LinearGradient(GpuLinearGradient),
    /// A radial gradient.
    RadialGradient(GpuRadialGradient),
    /// A sweep gradient.
    SweepGradient(GpuSweepGradient),
    /// An image.
    Image(GpuEncodedImage),
    /// A blurred rounded rectangle.
    BlurredRoundedRect(GpuBlurredRoundedRect),
}

impl GpuEncodedPaint {
    /// The words of the paint in memory order, padding included.
    pub open spec fn words(self) -> Seq<u32> {
        match self {
            GpuEncodedPaint::LinearGradient(g) => seq![
                g.texture_width_and_extend_mode,
                g.gradient_start,
            ] + g.transform@,
            GpuEncodedPaint::RadialGradient(g) => seq![
                g.texture_width_and_extend_mode,
                g.gradient_start,
            ] + g.transform@ + seq![
                g.kind_and_f_is_swapped,
                g.bias,
                g.scale,
                g.fp0,
                g.fp1,
                g.fr1,
                g.f_focal_x,
                g.scaled_r0_squared,
            ],
            GpuEncodedPaint::SweepGradient(g) => seq![
                g.texture_width_and_extend_mode,
                g.gradient_start,
            ] + g.transform@ + seq![g.start_angle, g.inv_angle_delta, 0, 0],
            GpuEncodedPaint::Image(image) => seq![
                image.image_params,
                image.image_size,
                image.image_offset,
            ] + image.transform@ + seq![image.tint, image.tint_mode, 0],
            GpuEncodedPaint::BlurredRoundedRect(rect) => rect.transform@ + seq![
                rect.color,
                rect.invert,
            ] + rect.params0@ + rect.params1@ + rect.size@ + seq![0u32, 0u32],
        }
    }

    /// The serialized bytes of the paint.
    pub open spec fn bytes(self, order: ByteOrder) -> Seq<u8> {
        order.words_bytes(self.words())
    }

    /// The number of texels that the paint takes up.
    pub open spec fn texels(self) -> nat {
        match self {
            GpuEncodedPaint::LinearGradient(_) => 2,
            GpuEncodedPaint::RadialGradient(_) => 4,
            GpuEncodedPaint::SweepGradient(_) => 3,
            GpuEncodedPaint::Image(_) => 3,
            GpuEncodedPaint::BlurredRoundedRect(_) => 5,
        }
    }

    /// The serialized bytes of a paint are exactly its texels.
    pub proof fn bytes_fill_texels(self, order: ByteOrder)
        ensures
            self.words().len() == 4 * self.texels(),
            self.bytes(order).len() == TEXEL_BYTES * self.texels(),
    {
    }

    /// A linear gradient takes up eight words: the ramp word, the start of the ramp and the six
    /// coefficients of the transform.
    pub proof fn linear_gradient_words(gradient: GpuLinearGradient)
        ensures
            ({
                let words = GpuEncodedPaint::LinearGradient(gradient).words();
                &&& words.len() == 8
                &&& words[0] == gradient.texture_width_and_extend_mode
                &&& words[1] == gradient.gradient_start
                &&& forall|j: int| 0 <= j < 6 ==> words[2 + j] == #[trigger] gradient.transform@[j]
            }),
    {
    }

    /// A radial gradient takes up sixteen words: those of a linear gradient, then its own.
    pub proof fn radial_gradient_words(gradient: GpuRadialGradient)
        ensures
            ({
                let words = GpuEncodedPaint::RadialGradient(gradient).words();
                &&& words.len() == 16
                &&& words[0] == gradient.texture_width_and_extend_mode
                &&& words[1] == gradient.gradient_start
                &&& forall|j: int| 0 <= j < 6 ==> words[2 + j] == #[trigger] gradient.transform@[j]
                &&& words[8] == gradient.kind_and_f_is_swapped
                &&& words[9] == gradient.bias
                &&& words[10] == gradient.scale
                &&& words[11] == gradient.fp0
                &&& words[12] == gradient.fp1
                &&& words[13] == gradient.fr1
                &&& words[14] == gradient.f_focal_x
                &&& words[15] == gradient.scaled_r0_squared
            }),
    {
    }

    /// A sweep gradient takes up twelve words: those of a linear gradient, its two angles and
    /// two zeros.
    pub proof fn sweep_gradient_words(gradient: GpuSweepGradient)
        ensures
            ({
                let words = GpuEncodedPaint::SweepGradient(gradient).words();
                &&& words.len() == 12
                &&& words[0] == gradient.texture_width_and_extend_mode
                &&& words[1] == gradient.gradient_start
                &&& forall|j: int| 0 <= j < 6 ==> words[2 + j] == #[trigger] gradient.transform@[j]
                &&& words[8] == gradient.start_angle
                &&& words[9] == gradient.inv_angle_delta
                &&& words[10] == 0
                &&& words[11] == 0
            }),
    {
    }

    /// An image takes up twelve words: its parameters, size and offset, the six coefficients of
    /// the transform, the tint with its mode, and a zero.
    pub proof fn image_words(image: GpuEncodedImage)
        ensures
            ({
                let words = GpuEncodedPaint::Image(image).words();
                &&& words.len() == 12
                &&& words[0] == image.image_params
                &&& words[1] == image.image_size
                &&& words[2] == image.image_offset
                &&& forall|j: int| 0 <= j < 6 ==> words[3 + j] == #[trigger] image.transform@[j]
                &&& words[9] == image.tint
                &&& words[10] == image.tint_mode
                &&& words[11] == 0
            }),
    {
    }

    /// A blurred rounded rectangle takes up twenty words: the six coefficients of the transform,
    /// the color, the invert flag, twice four parameters, the size, and two zeros.
    pub proof fn blurred_rounded_rect_words(rect: GpuBlurredRoundedRect)
        ensures
            ({
                let words = GpuEncodedPaint::BlurredRoundedRect(rect).words();
                &&& words.len() == 20
                &&& forall|j: int| 0 <= j < 6 ==> words[j] == #[trigger] rect.transform@[j]
                &&& words[6] == rect.color
                &&& words[7] == rect.invert
                &&& forall|j: int| 0 <= j < 4 ==> words[8 + j] == #[trigger] rect.params0@[j]
                &&& forall|j: int| 0 <= j < 4 ==> words[12 + j] == #[trigger] rect.params1@[j]
                &&& words[16] == rect.size@[0]
                &&& words[17] == rect.size@[1]
                &&& words[18] == 0
                &&& words[19] == 0
            }),
    {
    }

    /// The bytes of a serialized paint are those of its words, in order: the four bytes of each
    /// word, weighed by their significance, add up to it.
    pub proof fn bytes_add_up_to_words(self, order: ByteOrder, k: int)
        requires
            0 <= k < self.words().len(),
        ensures
            ({
                let bytes = self.bytes(order);
                let words = self.words();
                &&& bytes.len() == 4 * words.len()
                &&& order is Little ==> words[k] == bytes[4 * k] + 0x100 * bytes[4 * k + 1]
                    + 0x1_0000 * bytes[4 * k + 2] + 0x100_0000 * bytes[4 * k + 3]
                &&& order is Big ==> words[k] == 0x100_0000 * bytes[4 * k] + 0x1_0000 * bytes[4 * k
                    + 1] + 0x100 * bytes[4 * k + 2] + bytes[4 * k + 3]
            }),
    {
        byte_order::bytes_add_up(order, self.words(), k);
    }

    /// The words of the paint in memory order, padding included.
    fn to_words(&self) -> (words: Vec<u32>)
        ensures
            words@ == self.words(),
    {
        let mut words: Vec<u32> = Vec::new();
        match self {
            GpuEncodedPaint::LinearGradient(g) => {
                words.push(g.texture_width_and_extend_mode);
                words.push(g.gradient_start);
                push_all(&mut words, &g.transform);
            },
            GpuEncodedPaint::RadialGradient(g) => {
                words.push(g.texture_width_and_extend_mode);
                words.push(g.gradient_start);
                push_all(&mut words, &g.transform);
                words.push(g.kind_and_f_is_swapped);
                words.push(g.bias);
                words.push(g.scale);
                words.push(g.fp0);
                words.push(g.fp1);
                words.push(g.fr1);
                words.push(g.f_focal_x);
                words.push(g.scaled_r0_squared);
            },
            GpuEncodedPaint::SweepGradient(g) => {
                words.push(g.texture_width_and_extend_mode);
                words.push(g.gradient_start);
                push_all(&mut words, &g.transform);
                words.push(g.start_angle);
                words.push(g.inv_angle_delta);
                words.push(0);
                words.push(0);
            },
            GpuEncodedPaint::Image(image) => {
                words.push(image.image_params);
                words.push(image.image_size);
                words.push(image.image_offset);
                push_all(&mut words, &image.transform);
                words.push(image.tint);
                words.push(image.tint_mode);
                words.push(0);
            },
            GpuEncodedPaint::BlurredRoundedRect(rect) => {
                push_all(&mut words, &rect.transform);
                words.push(rect.color);
                words.push(rect.invert);
                push_all(&mut words, &rect.params0);
                push_all(&mut words, &rect.params1);
                push_all(&mut words, &rect.size);
                words.push(0);
                words.push(0);
            },
        }
        words
    }

    /// Serializes the paint.
    pub fn as_bytes(&self, order: ByteOrder) -> (bytes: Vec<u8>)
        ensures
            bytes@ == self.bytes(order),
            bytes@.len() == TEXEL_BYTES * self.texels(),
            self is LinearGradient ==> bytes@.len() == 32,
            self is RadialGradient ==> bytes@.len() == 64,
            self is SweepGradient || self is Image ==> bytes@.len() == 48,
            self is BlurredRoundedRect ==> bytes@.len() == 80,
    {
        let words = self.to_words();
        let mut bytes: Vec<u8> = Vec::new();
        for i in 0..words.len()
            invariant
                words@ == self.words(),
                bytes@ == order.words_bytes(words@.take(i as int)),
        {
            order.push_word(&mut bytes, words[i]);
            assert(bytes@ =~= order.words_bytes(words@.take(i + 1)));
        }
        assert(words@.take(words@.len() as int) == words@);
        bytes
    }

    /// Serializes paints one after the other into the start of `buffer`.
    pub fn serialize_to_buffer(
        paints: &[GpuEncodedPaint],
        order: ByteOrder,
        buffer: &mut Vec<u8>,
    )
        requires
            paints_bytes(paints@, order).len() <= old(buffer)@.len(),
        ensures
            final(buffer)@ == paints_bytes(paints@, order) + old(buffer)@.skip(
                paints_bytes(paints@, order).len() as int,
            ),
    {
        let ghost before = buffer@;
        let mut offset: usize = 0;
        for i in 0..paints.len()
            invariant
                paints_bytes(paints@, order).len() <= before.len() == buffer.len(),
                offset == paints_bytes(paints@.take(i as int), order).len(),
                buffer@ == paints_bytes(paints@.take(i as int), order) + before.skip(offset as int),
        {
            proof {
                assert(paints@.take(i + 1).drop_last() == paints@.take(i as int));
                paints_bytes_of_prefix(paints@, order, i + 1);
            }
            let bytes = paints[i].as_bytes(order);
            write_at(buffer, offset, &bytes);
            offset = offset + bytes.len();
        }
        assert(paints@.take(paints@.len() as int) == paints@);
    }
}

/// The serialized bytes of paints, one after the other.
pub open spec fn paints_bytes(paints: Seq<GpuEncodedPaint>, order: ByteOrder) -> Seq<u8>
    decreases paints.len(),
{
    if paints.len() == 0 {
        Seq::empty()
    } else {
        paints_bytes(paints.drop_last(), order) + paints.last().bytes(order)
    }
}

/// A single paint is serialized as its own bytes, and paints behind each other as bytes behind
/// each other, whatever the paints are.
pub proof fn paints_bytes_append(
    a: Seq<GpuEncodedPaint>,
    b: Seq<GpuEncodedPaint>,
    paint: GpuEncodedPaint,
    order: ByteOrder,
)
    ensures
        paints_bytes(seq![paint], order) == paint.bytes(order),
        paints_bytes(a + b, order) == paints_bytes(a, order) + paints_bytes(b, order),
    decreases b.len(),
{
    reveal_with_fuel(paints_bytes, 2);
    assert(seq![paint].drop_last() =~= Seq::<GpuEncodedPaint>::empty());
    assert(paints_bytes(seq![paint], order) =~= paint.bytes(order));
    if b.len() > 0 {
        paints_bytes_append(a, b.drop_last(), paint, order);
        assert((a + b).drop_last() =~= a + b.drop_last());
        assert(paints_bytes(a + b, order) =~= paints_bytes(a, order) + paints_bytes(b, order));
    } else {
        assert(a + b =~= a);
        assert(paints_bytes(a + b, order) =~= paints_bytes(a, order) + paints_bytes(b, order));
    }
}

/// Serialized paints take up sixteen bytes for each texel, where a linear gradient has two texels,
/// a radial gradient four, a sweep gradient and an image three each and a blurred rounded
/// rectangle five.
pub proof fn paint_bytes_by_kind(paint: GpuEncodedPaint, order: ByteOrder)
    ensures
        paint is LinearGradient ==> paint.texels() == 2,
        paint is RadialGradient ==> paint.texels() == 4,
        paint is SweepGradient ==> paint.texels() == 3,
        paint is Image ==> paint.texels() == 3,
        paint is BlurredRoundedRect ==> paint.texels() == 5,
        paint.bytes(order).len() == 16 * paint.texels(),
{
}

proof fn paints_bytes_of_prefix(paints: Seq<GpuEncodedPaint>, order: ByteOrder, n: int)
    requires
        0 <= n <= paints.len(),
    ensures
        paints_bytes(paints.take(n), order).len() <= paints_bytes(paints, order).len(),
    decreases paints.len() - n,
{
    if n < paints.len() {
        assert(paints.take(n + 1).drop_last() == paints.take(n));
        paints_bytes_of_prefix(paints, order, n + 1);
    } else {
        assert(paints.take(n) == paints);
    }
}

fn push_all(words: &mut Vec<u32>, more: &[u32])
    ensures
        final(words)@ == old(words)@ + more@,
{
    let ghost before = words@;
    for i in 0..more.len()
        invariant
            words@ == before + more@.take(i as int),
    {
        words.push(more[i]);
        assert(words@ =~= before + more@.take(i + 1));
    }
    assert(more@.take(more@.len() as int) == more@);
}

fn write_at(buffer: &mut Vec<u8>, offset: usize, bytes: &Vec<u8>)
    requires
        offset + bytes@.len() <= old(buffer)@.len(),
    ensures
        final(buffer)@ == old(buffer)@.take(offset as int) + bytes@ + old(buffer)@.skip(
            offset + bytes@.len(),
        ),
{
    let ghost before = buffer@;
    for i in 0..bytes.len()
        invariant
            offset + bytes@.len() <= before.len() == buffer.len(),
            buffer@ == before.take(offset as int) + bytes@.take(i as int) + before.skip(offset + i),
    {
        buffer.set(offset + i, bytes[i]);
        assert(buffer@ =~= before.take(offset as int) + bytes@.take(i + 1) + before.skip(
            offset + i + 1,
        ));
    }
    assert(bytes@.take(bytes@.len() as int) == bytes@);
}

} // verus!
