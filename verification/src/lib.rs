//! Records the GPU work of one sparse-strip scene render instead of drawing it.
//!
//! A renderer that owns its own graphics backend hands this library the encoded paints of a
//! scene and the calls its strip scheduler makes; the library lays the paints out as texels,
//! records the calls in order, and returns everything the backend has to upload and replay as
//! one [`capture::CapturedFrame`].
//!
//! - [`paint`]: the scene's paints, as plain values.
//! - [`byte_order`]: the byte order in which words lie in memory.
//! - [`pack`]: the bit-packed words of the GPU paint layout.
//! - [`gpu_paint`]: the GPU form of a paint and its serialized bytes.
//! - [`encode`]: from a scene paint to its GPU form.
//! - [`layout`]: where each paint of a scene lies in the paint texture.
//! - [`pass`]: recorded scheduler operations.
//! - [`capture`]: the captured frame and the function that produces it.

mod outside;

pub mod byte_order;
pub mod capture;
pub mod encode;
pub mod gpu_paint;
pub mod layout;
pub mod pack;
pub mod paint;
pub mod pass;
