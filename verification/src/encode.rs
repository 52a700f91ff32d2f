//! From a scene paint to its GPU form.

use crate::byte_order;
use crate::byte_order::ByteOrder;
use crate::gpu_paint::{
    GpuBlurredRoundedRect, GpuEncodedImage, GpuEncodedPaint, GpuLinearGradient, GpuRadialGradient,
    GpuSweepGradient,
};
use crate::pack;
use crate::paint::{
    EncodedBlurredRoundedRectangle, EncodedExternalTexture, EncodedGradient, EncodedKind,
    EncodedPaint, Extend, GradientRamp, ImageQuality, RadialKind, Transform,
};
use vstd::prelude::*;

verus! {

/// The GPU form of a radial gradient, given the words that all gradients share.
///
/// The concentric form has a bias and a scale; the strip form only its squared radius; the
/// focal form repeats its two focal parameters as bias and scale. Whatever a form lacks is zero.
pub open spec fn gpu_radial_gradient(
    radial: RadialKind,
    texture_width_and_extend_mode: u32,
    gradient_start: u32,
    transform: Transform,
) -> GpuRadialGradient {
    let blank = GpuRadialGradient {
        texture_width_and_extend_mode,
        gradient_start,
        transform,
        kind_and_f_is_swapped: pack::kind_and_swapped(0, 0),
        bias: 0,
        scale: 0,
        fp0: 0,
        fp1: 0,
        fr1: 0,
        f_focal_x: 0,
        scaled_r0_squared: 0,
    };
    match radial {
        RadialKind::Radial { bias, scale } => GpuRadialGradient { bias, scale, ..blank },
        RadialKind::Strip { scaled_r0_squared } => GpuRadialGradient {
            kind_and_f_is_swapped: pack::kind_and_swapped(1, 0),
            scaled_r0_squared,
            ..blank
        },
        RadialKind::Focal { focal_data, fp0, fp1 } => GpuRadialGradient {
            kind_and_f_is_swapped: pack::kind_and_swapped(
                2,
                if focal_data.f_is_swapped {
                    1
                } else {
                    0
                },
            ),
            bias: fp0,
            scale: fp1,
            fp0,
            fp1,
            fr1: focal_data.fr1,
            f_focal_x: focal_data.f_focal_x,
            ..blank
        },
    }
}

/// The GPU form of a gradient whose color ramp has `gradient_width` texels from
/// `gradient_start` on.
pub open spec fn gpu_gradient(
    gradient: EncodedGradient,
    gradient_width: u32,
    gradient_start: u32,
) -> GpuEncodedPaint {
    let texture_width_and_extend_mode = pack::width_and_extend(
        gradient_width,
        gradient.extend.spec_code(),
    );
    let transform = gradient.transform;
    match gradient.kind {
        EncodedKind::Linear => GpuEncodedPaint::LinearGradient(
            GpuLinearGradient { texture_width_and_extend_mode, gradient_start, transform },
        ),
        EncodedKind::Radial(radial) => GpuEncodedPaint::RadialGradient(
            gpu_radial_gradient(radial, texture_width_and_extend_mode, gradient_start, transform),
        ),
        EncodedKind::Sweep(sweep) => GpuEncodedPaint::SweepGradient(
            GpuSweepGradient {
                texture_width_and_extend_mode,
                gradient_start,
                transform,
                start_angle: sweep.start_angle,
                inv_angle_delta: sweep.inv_angle_delta,
            },
        ),
    }
}

/// The GPU form of an external texture: an image outside the atlas whose size and offset are
/// those of the source region.
pub open spec fn gpu_external_texture(image: EncodedExternalTexture) -> GpuEncodedImage {
    GpuEncodedImage {
        image_params: (pack::image_params(
            image.sampler.quality.spec_code(),
            image.sampler.x_extend.spec_code(),
            image.sampler.y_extend.spec_code(),
            0,
        ) + pack::EXTERNAL_IMAGE_SOURCE_FLAG) as u32,
        image_size: pack::halves(
            image.source_region.spec_width(),
            image.source_region.spec_height(),
        ),
        image_offset: pack::halves(image.source_region.x0, image.source_region.y0),
        transform: image.transform,
        tint: image.tint,
        tint_mode: image.tint_mode,
    }
}

/// The GPU form of a blurred rounded rectangle.
pub open spec fn gpu_blurred_rounded_rect(
    rect: EncodedBlurredRoundedRectangle,
    order: ByteOrder,
) -> GpuBlurredRoundedRect {
    GpuBlurredRoundedRect {
        transform: rect.transform,
        color: rect.color.spec_to_u32(order),
        invert: if rect.invert {
            1
        } else {
            0
        },
        params0: [rect.exponent, rect.recip_exponent, rect.scale, rect.std_dev_inv],
        params1: [rect.min_edge, rect.w, rect.h, rect.r1],
        size: [rect.width, rect.height],
    }
}

/// The GPU form of a scene paint, if it has one. Atlas images have none. `ramp` is the place of
/// the paint's color ramp; only gradients have one.
pub open spec fn gpu_form(
    paint: EncodedPaint,
    ramp: GradientRamp,
    order: ByteOrder,
) -> Option<GpuEncodedPaint> {
    match paint {
        EncodedPaint::Gradient(gradient) => Some(gpu_gradient(gradient, ramp.width, ramp.start)),
        EncodedPaint::BlurredRoundedRect(rect) => Some(
            GpuEncodedPaint::BlurredRoundedRect(gpu_blurred_rounded_rect(rect, order)),
        ),
        EncodedPaint::ExternalTexture(image) => Some(
            GpuEncodedPaint::Image(gpu_external_texture(image)),
        ),
        EncodedPaint::Image => None,
    }
}

/// Encodes a gradient paint. `gradient_width` and `gradient_start` tell where its color ramp
/// lies.
pub fn encode_gradient_paint(
    gradient: &EncodedGradient,
    gradient_width: u32,
    gradient_start: u32,
) -> (paint: GpuEncodedPaint)
    ensures
        paint == gpu_gradient(*gradient, gradient_width, gradient_start),
        gradient.kind is Linear ==> {
            &&& paint matches GpuEncodedPaint::LinearGradient(gpu)
            &&& gpu.gradient_start == gradient_start
            &&& gpu.transform == gradient.transform
        },
        gradient.kind is Radial ==> {
            &&& paint matches GpuEncodedPaint::RadialGradient(gpu)
            &&& gpu.gradient_start == gradient_start
            &&& gpu.transform == gradient.transform
        },
        gradient.kind matches EncodedKind::Sweep(sweep) ==> {
            &&& paint matches GpuEncodedPaint::SweepGradient(gpu)
            &&& gpu.gradient_start == gradient_start
            &&& gpu.transform == gradient.transform
            &&& gpu.start_angle == sweep.start_angle
            &&& gpu.inv_angle_delta == sweep.inv_angle_delta
        },
{
    let transform = gradient.transform;
    let extend_mode: u32 = match gradient.extend {
        Extend::Pad => 0,
        Extend::Repeat => 1,
        Extend::Reflect => 2,
    };
    let texture_width_and_extend_mode = pack::pack_texture_width_and_extend_mode(
        gradient_width,
        extend_mode,
    );

    match gradient.kind {
        EncodedKind::Linear => GpuEncodedPaint::LinearGradient(
            GpuLinearGradient { texture_width_and_extend_mode, gradient_start, transform },
        ),
        EncodedKind::Radial(radial) => {
            let (kind, bias, scale, fp0, fp1, fr1, f_focal_x, f_is_swapped, scaled_r0_squared): (
                u32,
                u32,
                u32,
                u32,
                u32,
                u32,
                u32,
                u32,
                u32,
            ) = match radial {
                RadialKind::Radial { bias, scale } => (0, bias, scale, 0, 0, 0, 0, 0, 0),
                RadialKind::Strip { scaled_r0_squared } => {
                    (1, 0, 0, 0, 0, 0, 0, 0, scaled_r0_squared)
                },
                RadialKind::Focal { focal_data, fp0, fp1 } => (
                    2,
                    fp0,
                    fp1,
                    fp0,
                    fp1,
                    focal_data.fr1,
                    focal_data.f_focal_x,
                    if focal_data.f_is_swapped {
                        1
                    } else {
                        0
                    },
                    0,
                ),
            };
            GpuEncodedPaint::RadialGradient(
                GpuRadialGradient {
                    texture_width_and_extend_mode,
                    gradient_start,
                    transform,
                    kind_and_f_is_swapped: pack::pack_radial_kind_and_swapped(kind, f_is_swapped),
                    bias,
                    scale,
                    fp0,
                    fp1,
                    fr1,
                    f_focal_x,
                    scaled_r0_squared,
                },
            )
        },
        EncodedKind::Sweep(sweep) => GpuEncodedPaint::SweepGradient(
            GpuSweepGradient {
                texture_width_and_extend_mode,
                gradient_start,
                transform,
                start_angle: sweep.start_angle,
                inv_angle_delta: sweep.inv_angle_delta,
            },
        ),
    }
}

/// Encodes an external texture paint. The identity of the texture is not part of it: it travels
/// with the runs of the pass that draws it.
pub fn encode_external_texture_paint(image: &EncodedExternalTexture) -> (paint: GpuEncodedPaint)
    ensures
        paint == GpuEncodedPaint::Image(gpu_external_texture(*image)),
        ({
            &&& paint matches GpuEncodedPaint::Image(gpu)
            &&& gpu.image_offset == 0x1_0000 * image.source_region.x0 + image.source_region.y0
            &&& gpu.transform == image.transform
            &&& gpu.tint == image.tint
            &&& gpu.tint_mode == image.tint_mode
        }),
{
    let region = image.source_region;
    let params = pack::pack_image_params(
        image.sampler.quality.code(),
        image.sampler.x_extend.code(),
        image.sampler.y_extend.code(),
        0,
    );
    assert(params | 0x4000 == params + 0x4000) by (bit_vector)
        requires
            params < 0x4000,
    ;
    GpuEncodedPaint::Image(
        GpuEncodedImage {
            image_params: params | pack::EXTERNAL_IMAGE_SOURCE_FLAG,
            image_size: pack::pack_image_size(region.width(), region.height()),
            image_offset: pack::pack_image_offset(region.x0, region.y0),
            transform: image.transform,
            tint: image.tint,
            tint_mode: image.tint_mode,
        },
    )
}

/// Encodes a blurred rounded rectangle paint. Its color word depends on the byte order.
pub fn encode_blurred_rounded_rect_paint(
    rect: &EncodedBlurredRoundedRectangle,
    order: ByteOrder,
) -> (paint: GpuEncodedPaint)
    ensures
        paint == GpuEncodedPaint::BlurredRoundedRect(gpu_blurred_rounded_rect(*rect, order)),
        ({
            &&& paint matches GpuEncodedPaint::BlurredRoundedRect(gpu)
            &&& gpu.transform == rect.transform
            &&& order.words_bytes(seq![gpu.color]) == seq![
                rect.color.r,
                rect.color.g,
                rect.color.b,
                rect.color.a,
            ]
            &&& gpu.invert == 1 <==> rect.invert
            &&& gpu.invert == 0 <==> !rect.invert
            &&& gpu.params0@ == seq![
                rect.exponent,
                rect.recip_exponent,
                rect.scale,
                rect.std_dev_inv,
            ]
            &&& gpu.params1@ == seq![rect.min_edge, rect.w, rect.h, rect.r1]
            &&& gpu.size@ == seq![rect.width, rect.height]
        }),
{
    GpuEncodedPaint::BlurredRoundedRect(
        GpuBlurredRoundedRect {
            transform: rect.transform,
            color: rect.color.to_u32(order),
            invert: if rect.invert {
                1
            } else {
                0
            },
            params0: [rect.exponent, rect.recip_exponent, rect.scale, rect.std_dev_inv],
            params1: [rect.min_edge, rect.w, rect.h, rect.r1],
            size: [rect.width, rect.height],
        },
    )
}

/// The number that stands for a form of radial gradient in GPU data.
pub open spec fn radial_code(radial: RadialKind) -> u32 {
    match radial {
        RadialKind::Radial { .. } => 0,
        RadialKind::Strip { .. } => 1,
        RadialKind::Focal { .. } => 2,
    }
}

/// The GPU form of every gradient starts with the same eight words, which give back the width of
/// its ramp (where that fits the 30 bits that the word has for it), the extend mode, the start of
/// the ramp and the transform. In a radial gradient the next word gives back its form and
/// whether its focal points were swapped.
pub proof fn gradient_reads_back(gradient: EncodedGradient, width: u32, start: u32)
    requires
        width < 0x4000_0000,
    ensures
        ({
            let words = gpu_gradient(gradient, width, start).words();
            &&& words[0] & 0x3fff_ffff == width
            &&& words[0] >> 30u32 == gradient.extend.spec_code()
            &&& words[1] == start
            &&& words.subrange(2, 8) == gradient.transform@
            &&& gradient.kind matches EncodedKind::Radial(radial) ==> {
                &&& words[8] & 3 == radial_code(radial)
                &&& words[8] >> 2u32 == if radial matches RadialKind::Focal { focal_data, .. }
                    && focal_data.f_is_swapped {
                    1u32
                } else {
                    0u32
                }
            }
        }),
{
    pack::width_and_extend_unpack(width, gradient.extend.spec_code());
    pack::kind_and_swapped_unpack(0, 0);
    pack::kind_and_swapped_unpack(1, 0);
    pack::kind_and_swapped_unpack(2, 0);
    pack::kind_and_swapped_unpack(2, 1);
    let words = gpu_gradient(gradient, width, start).words();
    assert(words.subrange(2, 8) =~= gradient.transform@);
}

/// In either byte order, the color of a blurred rounded rectangle lies in memory as its red,
/// green, blue and alpha components.
pub proof fn color_bytes_read_back(rect: EncodedBlurredRoundedRectangle, order: ByteOrder)
    ensures
        order.words_bytes(seq![gpu_blurred_rounded_rect(rect, order).color]) == seq![
            rect.color.r,
            rect.color.g,
            rect.color.b,
            rect.color.a,
        ],
{
    byte_order::bytes_read_back(order, rect.color.r, rect.color.g, rect.color.b, rect.color.a);
}

/// The GPU form of an external texture is marked as external, addresses no atlas, and gives
/// back the sampler, the size and the offset that the paint was made with.
pub proof fn external_texture_reads_back(image: EncodedExternalTexture)
    ensures
        ({
            let gpu = gpu_external_texture(image);
            &&& gpu.image_params & pack::EXTERNAL_IMAGE_SOURCE_FLAG
                == pack::EXTERNAL_IMAGE_SOURCE_FLAG
            &&& gpu.image_params & 3 == image.sampler.quality.spec_code()
            &&& (gpu.image_params >> 2u32) & 3 == image.sampler.x_extend.spec_code()
            &&& (gpu.image_params >> 4u32) & 3 == image.sampler.y_extend.spec_code()
            &&& (gpu.image_params >> 6u32) & 0xff == 0
            &&& gpu.image_size >> 16u32 == image.source_region.spec_width()
            &&& gpu.image_size & 0xffff == image.source_region.spec_height()
            &&& gpu.image_offset >> 16u32 == image.source_region.x0
            &&& gpu.image_offset & 0xffff == image.source_region.y0
        }),
{
    let quality: u32 = image.sampler.quality.spec_code();
    let x_extend: u32 = image.sampler.x_extend.spec_code();
    let y_extend: u32 = image.sampler.y_extend.spec_code();
    let word: u32 = gpu_external_texture(image).image_params;
    assert(word & 0x4000 == 0x4000 && word & 3 == quality && (word >> 2u32) & 3 == x_extend && (word
        >> 4u32) & 3 == y_extend && (word >> 6u32) & 0xff == 0) by (bit_vector)
        requires
            quality < 4,
            x_extend < 4,
            y_extend < 4,
            word == quality + 4 * x_extend + 16 * y_extend + 0x4000,
    ;
    pack::halves_unpack(image.source_region.spec_width(), image.source_region.spec_height());
    pack::halves_unpack(image.source_region.x0, image.source_region.y0);
}

/// The words with which the GPU form of every gradient starts, for every kind, extend mode and
/// ramp. The lower 30 bits of the first are those of the ramp's width; its upper two are those of
/// the width, or-ed with the extend mode, 0 for pad, 1 for repeat and 2 for reflect. The start of
/// the ramp and the six coefficients of the transform follow.
pub proof fn gradient_head_words(gradient: EncodedGradient, width: u32, start: u32)
    ensures
        ({
            let words = gpu_gradient(gradient, width, start).words();
            &&& words[0] & 0x3fff_ffff == width & 0x3fff_ffff
            &&& gradient.extend is Pad ==> words[0] >> 30u32 == width >> 30u32
            &&& gradient.extend is Repeat ==> words[0] >> 30u32 == (width >> 30u32) | 1
            &&& gradient.extend is Reflect ==> words[0] >> 30u32 == (width >> 30u32) | 2
            &&& words[1] == start
            &&& words[2] == gradient.transform@[0]
            &&& words[3] == gradient.transform@[1]
            &&& words[4] == gradient.transform@[2]
            &&& words[5] == gradient.transform@[3]
            &&& words[6] == gradient.transform@[4]
            &&& words[7] == gradient.transform@[5]
        }),
{
    pack::width_and_extend_bits(width, gradient.extend.spec_code());
    assert(0u32 & 3 == 0 && 1u32 & 3 == 1 && 2u32 & 3 == 2) by (bit_vector);
    assert((width >> 30u32) | 0 == width >> 30u32) by (bit_vector);
}

/// A linear gradient has no words but those that all gradients start with.
pub proof fn linear_gradient_words(gradient: EncodedGradient, width: u32, start: u32)
    requires
        gradient.kind is Linear,
    ensures
        gpu_gradient(gradient, width, start) is LinearGradient,
        gpu_gradient(gradient, width, start).words().len() == 8,
{
}

/// Whatever its extend mode, a sweep gradient has its start angle, the inverse of the angle that
/// it covers and two zeros behind the words that all gradients start with.
pub proof fn sweep_gradient_words(gradient: EncodedGradient, width: u32, start: u32)
    requires
        gradient.kind is Sweep,
    ensures
        ({
            let sweep = gradient.kind->Sweep_0;
            let words = gpu_gradient(gradient, width, start).words();
            &&& gpu_gradient(gradient, width, start) is SweepGradient
            &&& words.len() == 12
            &&& words[8] == sweep.start_angle
            &&& words[9] == sweep.inv_angle_delta
            &&& words[10] == 0
            &&& words[11] == 0
        }),
{
}

/// Whatever its extend mode, a radial gradient has the number of its form, 4 more where its focal
/// points were swapped, and seven parameters behind the words that all gradients start with. The
/// concentric form fills the first two of the seven, the strip form the last; the focal form fills
/// the first two and the next two with its focal parameters and the two after that with its focal
/// data. What a form does not fill is zero.
pub proof fn radial_gradient_words(gradient: EncodedGradient, width: u32, start: u32)
    requires
        gradient.kind is Radial,
    ensures
        ({
            let words = gpu_gradient(gradient, width, start).words();
            &&& gpu_gradient(gradient, width, start) is RadialGradient
            &&& words.len() == 16
            &&& gradient.kind->Radial_0 matches RadialKind::Radial { bias, scale } ==> {
                &&& words[8] == 0
                &&& words[9] == bias
                &&& words[10] == scale
                &&& words[11] == 0
                &&& words[12] == 0
                &&& words[13] == 0
                &&& words[14] == 0
                &&& words[15] == 0
            }
            &&& gradient.kind->Radial_0 matches RadialKind::Strip { scaled_r0_squared } ==> {
                &&& words[8] == 1
                &&& words[9] == 0
                &&& words[10] == 0
                &&& words[11] == 0
                &&& words[12] == 0
                &&& words[13] == 0
                &&& words[14] == 0
                &&& words[15] == scaled_r0_squared
            }
            &&& gradient.kind->Radial_0 matches RadialKind::Focal { focal_data, fp0, fp1 } ==> {
                &&& focal_data.f_is_swapped ==> words[8] == 6
                &&& !focal_data.f_is_swapped ==> words[8] == 2
                &&& words[9] == fp0
                &&& words[10] == fp1
                &&& words[11] == fp0
                &&& words[12] == fp1
                &&& words[13] == focal_data.fr1
                &&& words[14] == focal_data.f_focal_x
                &&& words[15] == 0
            }
        }),
{
}

/// The words of every external texture: the sampling codes two bits each, quality first, with
/// bit 14 above them and nothing else; the size of the source region, a side of which is zero
/// where its corners are the wrong way round; its upper left corner; the six coefficients of the
/// transform; the tint and its mode; a zero.
pub proof fn external_texture_words(image: EncodedExternalTexture)
    ensures
        ({
            let words = GpuEncodedPaint::Image(gpu_external_texture(image)).words();
            let region = image.source_region;
            let quality: int = match image.sampler.quality {
                ImageQuality::Low => 0,
                ImageQuality::Medium => 1,
                ImageQuality::High => 2,
            };
            let x_extend: int = match image.sampler.x_extend {
                Extend::Pad => 0,
                Extend::Repeat => 1,
                Extend::Reflect => 2,
            };
            let y_extend: int = match image.sampler.y_extend {
                Extend::Pad => 0,
                Extend::Repeat => 1,
                Extend::Reflect => 2,
            };
            &&& words.len() == 12
            &&& words[0] == 0x4000 + 16 * y_extend + 4 * x_extend + quality
            &&& region.x0 <= region.x1 ==> words[1] / 0x1_0000 == region.x1 - region.x0
            &&& region.x0 > region.x1 ==> words[1] / 0x1_0000 == 0
            &&& region.y0 <= region.y1 ==> words[1] % 0x1_0000 == region.y1 - region.y0
            &&& region.y0 > region.y1 ==> words[1] % 0x1_0000 == 0
            &&& words[2] / 0x1_0000 == region.x0
            &&& words[2] % 0x1_0000 == region.y0
            &&& words[3] == image.transform@[0]
            &&& words[4] == image.transform@[1]
            &&& words[5] == image.transform@[2]
            &&& words[6] == image.transform@[3]
            &&& words[7] == image.transform@[4]
            &&& words[8] == image.transform@[5]
            &&& words[9] == image.tint
            &&& words[10] == image.tint_mode
            &&& words[11] == 0
        }),
{
}

/// The words of every blurred rounded rectangle: the six coefficients of the transform; the color,
/// with red first in memory in either byte order; the invert flag; exponent, its reciprocal, scale
/// and reciprocal of the standard deviation; shorter edge, adjusted width, height and radius;
/// width, then height; two zeros.
pub proof fn blurred_rounded_rect_words(rect: EncodedBlurredRoundedRectangle, order: ByteOrder)
    ensures
        ({
            let words = GpuEncodedPaint::BlurredRoundedRect(
                gpu_blurred_rounded_rect(rect, order),
            ).words();
            &&& words.len() == 20
            &&& words[0] == rect.transform@[0]
            &&& words[1] == rect.transform@[1]
            &&& words[2] == rect.transform@[2]
            &&& words[3] == rect.transform@[3]
            &&& words[4] == rect.transform@[4]
            &&& words[5] == rect.transform@[5]
            &&& order is Little ==> words[6] == rect.color.r + 0x100 * rect.color.g + 0x1_0000
                * rect.color.b + 0x100_0000 * rect.color.a
            &&& order is Big ==> words[6] == 0x100_0000 * rect.color.r + 0x1_0000 * rect.color.g
                + 0x100 * rect.color.b + rect.color.a
            &&& rect.invert ==> words[7] == 1
            &&& !rect.invert ==> words[7] == 0
            &&& words[8] == rect.exponent
            &&& words[9] == rect.recip_exponent
            &&& words[10] == rect.scale
            &&& words[11] == rect.std_dev_inv
            &&& words[12] == rect.min_edge
            &&& words[13] == rect.w
            &&& words[14] == rect.h
            &&& words[15] == rect.r1
            &&& words[16] == rect.width
            &&& words[17] == rect.height
            &&& words[18] == 0
            &&& words[19] == 0
        }),
{
}

/// An atlas image is the only paint without a GPU form. Every gradient, external texture and
/// blurred rounded rectangle, whatever its fields, has the GPU form of its own kind, and a
/// gradient has it for the ramp that it was given.
pub proof fn only_images_lack_a_gpu_form(paint: EncodedPaint, ramp: GradientRamp, order: ByteOrder)
    ensures
        gpu_form(paint, ramp, order) is None <==> paint is Image,
        paint matches EncodedPaint::Gradient(gradient) ==> gpu_form(paint, ramp, order) == Some(
            gpu_gradient(gradient, ramp.width, ramp.start),
        ),
        paint matches EncodedPaint::ExternalTexture(image) ==> gpu_form(paint, ramp, order) == Some(
            GpuEncodedPaint::Image(gpu_external_texture(image)),
        ),
        paint matches EncodedPaint::BlurredRoundedRect(rect) ==> gpu_form(paint, ramp, order)
            == Some(GpuEncodedPaint::BlurredRoundedRect(gpu_blurred_rounded_rect(rect, order))),
{
}

/// The ramp of a paint reaches the GPU form of a gradient alone, the byte order that of a blurred
/// rounded rectangle alone, and there only the color.
pub proof fn gpu_form_depends(
    paint: EncodedPaint,
    ramp: GradientRamp,
    other_ramp: GradientRamp,
    order: ByteOrder,
    other_order: ByteOrder,
)
    ensures
        paint !is Gradient ==> gpu_form(paint, ramp, order) == gpu_form(paint, other_ramp, order),
        paint !is BlurredRoundedRect ==> gpu_form(paint, ramp, order) == gpu_form(
            paint,
            ramp,
            other_order,
        ),
        forall|k: int|
            #![trigger gpu_form(paint, ramp, order)->0.words()[k]]
            paint is BlurredRoundedRect && 0 <= k < 20 && k != 6 ==> gpu_form(
                paint,
                ramp,
                order,
            )->0.words()[k] == gpu_form(paint, ramp, other_order)->0.words()[k],
        forall|k: int|
            #![trigger gpu_form(paint, ramp, order)->0.words()[k]]
            paint is Gradient && 2 <= k < gpu_form(paint, ramp, order)->0.words().len()
                ==> gpu_form(paint, ramp, order)->0.words()[k] == gpu_form(
                paint,
                other_ramp,
                order,
            )->0.words()[k],
{
}

} // verus!
