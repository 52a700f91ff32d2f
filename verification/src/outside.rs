//! Calls into `vello_common` and the crates it re-exports.

use crate::capture::TILE_HEIGHT;
use vstd::prelude::*;

verus! {

/// Reads the constant `vello_common::tile::Tile::HEIGHT`.
///
/// Trusted: its value is `4`.
#[verifier::external_body]
pub(crate) fn tile_height() -> (height: u16)
    ensures
        height == TILE_HEIGHT,
{
    vello_common::tile::Tile::HEIGHT
}

/// Calls `vello_common::geometry::RectU16::width` on the rectangle with the given corners.
///
/// Trusted: the width is `x1 - x0`, and zero where `x1` lies left of `x0`.
#[verifier::external_body]
pub(crate) fn rect_width(x0: u16, y0: u16, x1: u16, y1: u16) -> (width: u16)
    ensures
        width as int == if x0 <= x1 { x1 - x0 } else { 0 },
{
    vello_common::geometry::RectU16::new(x0, y0, x1, y1).width()
}

/// Calls `vello_common::geometry::RectU16::height` on the rectangle with the given corners.
///
/// Trusted: the height is `y1 - y0`, and zero where `y1` lies above `y0`.
#[verifier::external_body]
pub(crate) fn rect_height(x0: u16, y0: u16, x1: u16, y1: u16) -> (height: u16)
    ensures
        height as int == if y0 <= y1 { y1 - y0 } else { 0 },
{
    vello_common::geometry::RectU16::new(x0, y0, x1, y1).height()
}

/// Calls `to_u32` on the `PremulRgba8` (of the `color` crate, re-exported by `vello_common`)
/// with the given components.
///
/// Trusted: the value has `r` in its least significant byte, then `g`, `b`, and `a` in its most
/// significant one. `to_u32` reads the four bytes in the machine's byte order; `to_le` undoes
/// that where the order is not little-endian.
#[verifier::external_body]
pub(crate) fn premul_rgba8_to_u32(r: u8, g: u8, b: u8, a: u8) -> (packed: u32)
    ensures
        packed as int == r + 0x100 * g + 0x1_0000 * b + 0x100_0000 * a,
{
    vello_common::peniko::color::PremulRgba8 { r, g, b, a }.to_u32().to_le()
}

} // verus!
