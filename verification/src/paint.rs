//! The paints of a scene, as plain values.
//!
//! Floating-point values are carried as the bit patterns of 32-bit floats: the library moves
//! them to the GPU layout and never computes with them.

use crate::byte_order;
use crate::byte_order::ByteOrder;
use crate::outside;
use vstd::prelude::*;

verus! {

/// The bit pattern of a 32-bit float.
pub type FloatBits = u32;

/// How a gradient or an image continues beyond its own extent.
#[derive(Debug, Clone, Copy, PartialEq, Eq, Structural)]
pub enum Extend {
    /// The edge color is repeated.
    Pad,
    /// The content is repeated.
    Repeat,
    /// The content is repeated, mirrored every other time.
    Reflect,
}

impl Extend {
    /// The number that stands for the mode in GPU data.
    pub open spec fn spec_code(self) -> u32 {
        match self {
            Extend::Pad => 0,
            Extend::Repeat => 1,
            Extend::Reflect => 2,
        }
    }

    /// The number that stands for the mode in GPU data.
    pub fn code(self) -> (code: u32)
        ensures
            code == self.spec_code(),
            code <= 2,
            self is Pad <==> code == 0,
            self is Repeat <==> code == 1,
            self is Reflect <==> code == 2,
    {
        match self {
            Extend::Pad => 0,
            Extend::Repeat => 1,
            Extend::Reflect => 2,
        }
    }
}

/// The quality with which an image is sampled.
#[derive(Debug, Clone, Copy, PartialEq, Eq, Structural)]
pub enum ImageQuality {
    /// Nearest neighbor.
    Low,
    /// Bilinear.
    Medium,
    /// Bicubic.
    High,
}

impl ImageQuality {
    /// The number that stands for the quality in GPU data.
    pub open spec fn spec_code(self) -> u32 {
        match self {
            ImageQuality::Low => 0,
            ImageQuality::Medium => 1,
            ImageQuality::High => 2,
        }
    }

    /// The number that stands for the quality in GPU data.
    pub fn code(self) -> (code: u32)
        ensures
            code == self.spec_code(),
            code <= 2,
            self is Low <==> code == 0,
            self is Medium <==> code == 1,
            self is High <==> code == 2,
    {
        match self {
            ImageQuality::Low => 0,
            ImageQuality::Medium => 1,
            ImageQuality::High => 2,
        }
    }
}

/// How an image is sampled.
#[derive(Debug, Clone, Copy, PartialEq, Eq, Structural)]
pub struct ImageSampler {
    /// Extend mode in the horizontal direction.
    pub x_extend: Extend,
    /// Extend mode in the vertical direction.
    pub y_extend: Extend,
    /// Sampling quality.
    pub quality: ImageQuality,
}

/// An axis-aligned rectangle with corners `(x0, y0)` and `(x1, y1)`.
#[derive(Debug, Clone, Copy, PartialEq, Eq, Structural)]
pub struct RectU16 {
    /// Left edge.
    pub x0: u16,
    /// Top edge.
    pub y0: u16,
    /// Right edge, exclusive.
    pub x1: u16,
    /// Bottom edge, exclusive.
    pub y1: u16,
}

impl RectU16 {
    /// `x1 - x0`, or zero where the corners are the wrong way round.
    pub open spec fn spec_width(self) -> u16 {
        if self.x0 <= self.x1 {
            (self.x1 - self.x0) as u16
        } else {
            0
        }
    }

    /// `y1 - y0`, or zero where the corners are the wrong way round.
    pub open spec fn spec_height(self) -> u16 {
        if self.y0 <= self.y1 {
            (self.y1 - self.y0) as u16
        } else {
            0
        }
    }

    /// The width of the rectangle.
    pub fn width(self) -> (width: u16)
        ensures
            width == self.spec_width(),
            self.x0 <= self.x1 ==> self.x0 + width == self.x1,
            self.x0 > self.x1 ==> width == 0,
    {
        outside::rect_width(self.x0, self.y0, self.x1, self.y1)
    }

    /// The height of the rectangle.
    pub fn height(self) -> (height: u16)
        ensures
            height == self.spec_height(),
            self.y0 <= self.y1 ==> self.y0 + height == self.y1,
            self.y0 > self.y1 ==> height == 0,
    {
        outside::rect_height(self.x0, self.y0, self.x1, self.y1)
    }
}

/// A premultiplied color with 8 bits per component.
#[derive(Debug, Clone, Copy, PartialEq, Eq, Structural)]
pub struct PremulRgba8 {
    /// Red component.
    pub r: u8,
    /// Green component.
    pub g: u8,
    /// Blue component.
    pub b: u8,
    /// Alpha component.
    pub a: u8,
}

impl PremulRgba8 {
    /// The color as one word whose bytes lie in memory in the order `r`, `g`, `b`, `a`.
    pub open spec fn spec_to_u32(self, order: ByteOrder) -> u32 {
        order.word(self.r, self.g, self.b, self.a)
    }

    /// The color as one word whose bytes lie in memory in the order `r`, `g`, `b`, `a`.
    pub fn to_u32(self, order: ByteOrder) -> (packed: u32)
        ensures
            packed == self.spec_to_u32(order),
            order.words_bytes(seq![packed]) == seq![self.r, self.g, self.b, self.a],
    {
        let packed = outside::premul_rgba8_to_u32(self.r, self.g, self.b, self.a);
        proof {
            byte_order::bytes_read_back(order, self.r, self.g, self.b, self.a);
            byte_order::significant_bytes_of_sum(packed, self.r, self.g, self.b, self.a);
        }
        order.from_little_endian(packed)
    }
}

/// The six coefficients of an affine transform.
pub type Transform = [FloatBits; 6];

/// Focal data of a two-point conical gradient.
#[derive(Debug, Clone, Copy)]
pub struct FocalData {
    /// The normalized radius of the outer circle in focal space.
    pub fr1: FloatBits,
    /// The x-coordinate of the focal point in normalized space.
    pub f_focal_x: FloatBits,
    /// Whether the focal points have been swapped.
    pub f_is_swapped: bool,
}

/// The three forms of a radial gradient.
#[derive(Debug, Clone, Copy)]
pub enum RadialKind {
    /// The start and end centers are the same.
    Radial {
        /// Correction added to the scaled distance.
        bias: FloatBits,
        /// Scale from the start radius to the end radius.
        scale: FloatBits,
    },
    /// The start and end radii are the same.
    Strip {
        /// The square of the scaled start radius.
        scaled_r0_squared: FloatBits,
    },
    /// A general two-point conical gradient.
    Focal {
        /// The focal data.
        focal_data: FocalData,
        /// First focal parameter.
        fp0: FloatBits,
        /// Second focal parameter.
        fp1: FloatBits,
    },
}

/// Properties of a sweep gradient.
#[derive(Debug, Clone, Copy)]
pub struct SweepKind {
    /// The angle at which the sweep starts.
    pub start_angle: FloatBits,
    /// The inverse of the angle that the sweep covers.
    pub inv_angle_delta: FloatBits,
}

/// The kind of a gradient.
#[derive(Debug, Clone, Copy)]
pub enum EncodedKind {
    /// A linear gradient.
    Linear,
    /// A radial gradient.
    Radial(RadialKind),
    /// A sweep gradient.
    Sweep(SweepKind),
}

/// A gradient paint.
#[derive(Debug, Clone, Copy)]
pub struct EncodedGradient {
    /// The kind of gradient.
    pub kind: EncodedKind,
    /// Maps scene coordinates to gradient space.
    pub transform: Transform,
    /// How the gradient continues beyond its end points.
    pub extend: Extend,
}

/// The place of a gradient's color ramp in the ramp texture.
#[derive(Debug, Clone, Copy, PartialEq, Eq, Structural)]
pub struct GradientRamp {
    /// The first texel of the ramp.
    pub start: u32,
    /// The number of texels of the ramp.
    pub width: u32,
}

/// A paint that samples a texture which the user binds at render time.
#[derive(Debug, Clone, Copy)]
pub struct EncodedExternalTexture {
    /// The region of the texture to sample.
    pub source_region: RectU16,
    /// How to sample it.
    pub sampler: ImageSampler,
    /// Maps scene coordinates to the source region.
    pub transform: Transform,
    /// The tint color word, as uploaded.
    pub tint: u32,
    /// The tint mode word, as uploaded.
    pub tint_mode: u32,
}

/// A paint for the blurred image of a rounded rectangle.
#[derive(Debug, Clone, Copy)]
pub struct EncodedBlurredRoundedRectangle {
    /// Exponent of the corner shape.
    pub exponent: FloatBits,
    /// Reciprocal of `exponent`.
    pub recip_exponent: FloatBits,
    /// Scale of the coverage.
    pub scale: FloatBits,
    /// Reciprocal of the standard deviation of the blur.
    pub std_dev_inv: FloatBits,
    /// The shorter edge.
    pub min_edge: FloatBits,
    /// Adjusted width.
    pub w: FloatBits,
    /// Adjusted height.
    pub h: FloatBits,
    /// Width of the rectangle.
    pub width: FloatBits,
    /// Height of the rectangle.
    pub height: FloatBits,
    /// Adjusted corner radius.
    pub r1: FloatBits,
    /// Whether the inverse of the coverage is painted.
    pub invert: bool,
    /// The color of the rectangle.
    pub color: PremulRgba8,
    /// Maps scene coordinates to the rectangle.
    pub transform: Transform,
}

/// One paint of a scene.
#[derive(Debug, Clone, Copy)]
pub enum EncodedPaint {
    /// A gradient.
    Gradient(EncodedGradient),
    /// An image in the atlas.
    Image,
    /// An external texture.
    ExternalTexture(EncodedExternalTexture),
    /// A blurred rounded rectangle.
    BlurredRoundedRect(EncodedBlurredRoundedRectangle),
}

} // verus!
