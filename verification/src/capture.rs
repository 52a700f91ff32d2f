//! The captured frame and the function that produces it.

use crate::byte_order::ByteOrder;
use crate::encode;
use crate::gpu_paint;
use crate::layout;
use crate::layout::{prepare_encoded_paints, PaintBuffers};
use crate::outside;
use crate::paint::{EncodedPaint, GradientRamp};
use crate::pass;
use crate::pass::{copied, CaptureBackend, CaptureOp, OpView};
use vstd::arithmetic::power::pow;
use vstd::arithmetic::power2::{is_pow2, pow2};
use vstd::prelude::*;

verus! {

/// The height of a tile, and so of a strip, in pixels.
pub const TILE_HEIGHT: u16 = 4;

/// What the capture reads of a scene.
#[derive(Debug)]
pub struct Scene {
    /// The paints of the scene, by paint index.
    pub encoded_paints: Vec<EncodedPaint>,
    /// The alpha coverage of the strips.
    pub alphas: Vec<u8>,
}

/// The renderer's configuration uniform.
#[derive(Debug, Clone, Copy, PartialEq, Eq, Structural)]
pub struct Config {
    /// Width of the render target, in pixels.
    pub width: u32,
    /// Height of the render target, in pixels.
    pub height: u32,
    /// Height of a strip, in pixels.
    pub strip_height: u32,
    /// Base-2 logarithm of the width of the alpha texture.
    pub alphas_tex_width_bits: u32,
    /// Base-2 logarithm of the width of the paint texture.
    pub encoded_paints_tex_width_bits: u32,
    /// Horizontal offset of all strips.
    pub strip_offset_x: i32,
    /// Vertical offset of all strips.
    pub strip_offset_y: i32,
    /// 1 where the y-axis of normalized device coordinates is negated, 0 otherwise.
    pub negate_ndc: u32,
}

/// The recorded GPU work of one scene render. It owns every buffer that has to be uploaded.
#[derive(Debug)]
pub struct CapturedFrame<S> {
    /// The configuration uniform.
    pub config: Config,
    /// Alpha coverage, uploaded row by row, 16 values per texel.
    pub alphas: Vec<u8>,
    /// The texels of the encoded paints.
    pub encoded_paints: Vec<u8>,
    /// For each scene paint its first texel in `encoded_paints`, then the end of the last one.
    pub paint_idxs: Vec<u32>,
    /// The color ramps of the gradients.
    pub gradient_lut: Vec<u8>,
    /// The scheduler's operations, in execution order.
    pub ops: Vec<CaptureOp<S>>,
}

/// Everything that has to be ready before the scheduler runs.
#[derive(Debug)]
pub struct PreparedCapture {
    /// The configuration uniform.
    pub config: Config,
    /// The number of slots that the scheduler is given.
    pub total_slots: usize,
    /// The paints of the scene, encoded.
    pub paints: PaintBuffers,
    /// The color ramps of the gradients.
    pub gradient_lut: Vec<u8>,
}

/// The number of slots that the scheduler is given: one for each tile height that fits the width
/// of the alpha texture.
pub open spec fn total_slots(alphas_tex_width: u32) -> usize {
    (alphas_tex_width / TILE_HEIGHT as u32) as usize
}

/// The configuration for a target of the given size and textures of the given widths.
pub open spec fn config_for(
    width: u32,
    height: u32,
    alphas_tex_width: u32,
    encoded_paints_tex_width: u32,
) -> Config {
    Config {
        width,
        height,
        strip_height: TILE_HEIGHT as u32,
        alphas_tex_width_bits: alphas_tex_width.trailing_zeros(),
        encoded_paints_tex_width_bits: encoded_paints_tex_width.trailing_zeros(),
        strip_offset_x: 0,
        strip_offset_y: 0,
        negate_ndc: 0,
    }
}

/// Whether a frame holds what is captured of a scene whose gradients have their color ramps at
/// `ramps` in `gradient_lut`, when the scheduler's calls were recorded as `ops`.
pub open spec fn captures<S>(
    frame: CapturedFrame<S>,
    scene: Scene,
    config: Config,
    order: ByteOrder,
    ramps: Seq<GradientRamp>,
    gradient_lut: Seq<u8>,
    ops: Seq<OpView<S>>,
) -> bool {
    &&& frame.config == config
    &&& frame.alphas@ == scene.alphas@
    &&& frame.encoded_paints@ == layout::scene_bytes(scene.encoded_paints@, ramps, order)
    &&& frame.paint_idxs@ == layout::paint_offsets(scene.encoded_paints@)
    &&& frame.gradient_lut@ == gradient_lut
    &&& pass::ops_view(frame.ops@) == ops
}

/// Encodes the paints of a scene and sets up the configuration.
///
/// This has to come before the scheduler runs, which packs the paint offsets into its strips.
/// The parameters are those of [`render_to_capture`].
pub fn prepare_capture<C, G, L>(
    scene: &Scene,
    width: u32,
    height: u32,
    alphas_tex_width: u32,
    encoded_paints_tex_width: u32,
    order: ByteOrder,
    ramp_cache: C,
    get_or_create_ramp: G,
    take_luts: L,
) -> (prepared: PreparedCapture) where
    G: Fn(C, usize) -> (C, GradientRamp),
    L: FnOnce(C) -> Vec<u8>,

    requires
        is_pow2(alphas_tex_width as int),
        is_pow2(encoded_paints_tex_width as int),
        layout::fits(scene.encoded_paints@),
        forall|cache: C, i: usize|
            i < scene.encoded_paints@.len() && scene.encoded_paints@[i as int] is Gradient
                ==> #[trigger] get_or_create_ramp.requires((cache, i)),
        forall|cache: C| #[trigger] take_luts.requires((cache,)),
    ensures
        prepared.config == config_for(width, height, alphas_tex_width, encoded_paints_tex_width),
        pow2(prepared.config.alphas_tex_width_bits as nat) == alphas_tex_width,
        pow2(prepared.config.encoded_paints_tex_width_bits as nat) == encoded_paints_tex_width,
        prepared.total_slots == total_slots(alphas_tex_width),
        prepared.config.width == width,
        prepared.config.height == height,
        prepared.config.strip_height == 4,
        prepared.config.strip_offset_x == 0,
        prepared.config.strip_offset_y == 0,
        prepared.config.negate_ndc == 0,
        4 * prepared.total_slots <= alphas_tex_width < 4 * prepared.total_slots + 4,
        prepared.paints.paint_idxs@.len() == scene.encoded_paints@.len() + 1,
        prepared.paints.paint_idxs@[0] == 0,
        prepared.paints.encoded_paints@.len() == 16 * prepared.paints.paint_idxs@.last(),
        prepared.paints.paint_idxs@ == layout::paint_offsets(scene.encoded_paints@),
        exists|caches: Seq<C>, ramps: Seq<GradientRamp>|
            {
                &&& #[trigger] layout::ramps_drawn(
                    get_or_create_ramp,
                    scene.encoded_paints@,
                    caches,
                    ramps,
                )
                &&& caches.first() == ramp_cache
                &&& prepared.paints.encoded_paints@ == layout::scene_bytes(
                    scene.encoded_paints@,
                    ramps,
                    order,
                )
                &&& take_luts.ensures((caches.last(),), prepared.gradient_lut)
            },
{
    proof {
        trailing_zeros_is_log2(alphas_tex_width);
        trailing_zeros_is_log2(encoded_paints_tex_width);
    }
    let tile_height = outside::tile_height() as u32;
    let total_slots = (alphas_tex_width / tile_height) as usize;
    let (paints, ramp_cache) = prepare_encoded_paints(
        &scene.encoded_paints,
        order,
        ramp_cache,
        get_or_create_ramp,
    );
    let gradient_lut = take_luts(ramp_cache);
    let config = Config {
        width,
        height,
        strip_height: tile_height,
        alphas_tex_width_bits: alphas_tex_width.trailing_zeros(),
        encoded_paints_tex_width_bits: encoded_paints_tex_width.trailing_zeros(),
        strip_offset_x: 0,
        strip_offset_y: 0,
        // Only backends whose framebuffer has its y-axis pointing up negate it.
        negate_ndc: 0,
    };
    PreparedCapture { config, total_slots, paints, gradient_lut }
}

/// Puts a frame together once the scheduler has run, or hands on the scheduler's error.
pub fn finish_capture<S: Copy, E>(
    prepared: PreparedCapture,
    scene: &Scene,
    scheduled: Result<CaptureBackend<S>, E>,
) -> (result: Result<CapturedFrame<S>, E>)
    ensures
        match (scheduled, result) {
            (Ok(backend), Ok(frame)) => {
                &&& frame.config == prepared.config
                &&& frame.alphas@ == scene.alphas@
                &&& frame.encoded_paints@ == prepared.paints.encoded_paints@
                &&& frame.paint_idxs@ == prepared.paints.paint_idxs@
                &&& frame.gradient_lut@ == prepared.gradient_lut@
                &&& pass::ops_view(frame.ops@) == backend@
                &&& frame.ops@ == backend.ops@
            },
            (Err(error), Err(returned)) => returned == error,
            _ => false,
        },
{
    match scheduled {
        Ok(backend) => Ok(
            CapturedFrame {
                config: prepared.config,
                alphas: copied(&scene.alphas),
                encoded_paints: prepared.paints.encoded_paints,
                paint_idxs: prepared.paints.paint_idxs,
                gradient_lut: prepared.gradient_lut,
                ops: backend.ops,
            },
        ),
        Err(error) => Err(error),
    }
}

/// Whether a render of `scene` ends in `result`: the ramp cache was asked for the ramp of each
/// gradient in scene order and its ramps were taken, the scheduler was called with the number of
/// slots, the paint offsets and an empty backend, and the frame holds what came of it, or the
/// error is the scheduler's.
pub open spec fn renders_to<S, E, C, G, L, F>(
    scene: Scene,
    width: u32,
    height: u32,
    alphas_tex_width: u32,
    encoded_paints_tex_width: u32,
    order: ByteOrder,
    ramp_cache: C,
    get_or_create_ramp: G,
    take_luts: L,
    do_scene: F,
    result: Result<CapturedFrame<S>, E>,
) -> bool where
    G: Fn(C, usize) -> (C, GradientRamp),
    L: FnOnce(C) -> Vec<u8>,
    F: FnOnce(usize, &Vec<u32>, CaptureBackend<S>) -> Result<CaptureBackend<S>, E>,
 {
    exists|
        caches: Seq<C>,
        ramps: Seq<GradientRamp>,
        gradient_lut: Vec<u8>,
        paint_idxs: &Vec<u32>,
        backend: CaptureBackend<S>,
        scheduled: Result<CaptureBackend<S>, E>,
    |
        {
            &&& #[trigger] layout::ramps_drawn(
                get_or_create_ramp,
                scene.encoded_paints@,
                caches,
                ramps,
            )
            &&& caches.first() == ramp_cache
            &&& #[trigger] take_luts.ensures((caches.last(),), gradient_lut)
            &&& paint_idxs@ == layout::paint_offsets(scene.encoded_paints@)
            &&& backend@ == Seq::<OpView<S>>::empty()
            &&& #[trigger] do_scene.ensures(
                (total_slots(alphas_tex_width), paint_idxs, backend),
                scheduled,
            )
            &&& match (scheduled, result) {
                (Ok(recorded), Ok(frame)) => captures(
                    frame,
                    scene,
                    config_for(width, height, alphas_tex_width, encoded_paints_tex_width),
                    order,
                    ramps,
                    gradient_lut@,
                    recorded@,
                ),
                (Err(error), Err(returned)) => returned == error,
                _ => false,
            }
        }
}

/// Runs the scheduler against `scene` and captures the GPU work without a GPU.
///
/// `width` and `height` are the size of the render target in pixels. `alphas_tex_width` and
/// `encoded_paints_tex_width` are the widths in texels of the textures that the backend
/// allocates for the alphas and the paints. They have to be powers of two: the shader finds rows
/// and columns from the logarithms in [`Config`]. `alphas_tex_width` also sets the number of
/// slots. `order` is the byte order of the machine.
///
/// `get_or_create_ramp` asks `ramp_cache` for the color ramp of the paint with the given index
/// and gives the cache back; it is called once for each gradient, in scene order. `take_luts`
/// then takes all ramps out of the cache.
///
/// `do_scene` is the scheduler. It is called once, with the number of slots, the paint offsets,
/// and a backend on which nothing has been recorded, and gives that backend back with the calls
/// it made, or an error, which is returned.
pub fn render_to_capture<S: Copy, E, C, G, L, F>(
    scene: &Scene,
    width: u32,
    height: u32,
    alphas_tex_width: u32,
    encoded_paints_tex_width: u32,
    order: ByteOrder,
    ramp_cache: C,
    get_or_create_ramp: G,
    take_luts: L,
    do_scene: F,
) -> (result: Result<CapturedFrame<S>, E>) where
    G: Fn(C, usize) -> (C, GradientRamp),
    L: FnOnce(C) -> Vec<u8>,
    F: FnOnce(usize, &Vec<u32>, CaptureBackend<S>) -> Result<CaptureBackend<S>, E>,

    requires
        is_pow2(alphas_tex_width as int),
        is_pow2(encoded_paints_tex_width as int),
        layout::fits(scene.encoded_paints@),
        forall|cache: C, i: usize|
            i < scene.encoded_paints@.len() && scene.encoded_paints@[i as int] is Gradient
                ==> #[trigger] get_or_create_ramp.requires((cache, i)),
        forall|cache: C| #[trigger] take_luts.requires((cache,)),
        forall|paint_idxs: &Vec<u32>, backend: CaptureBackend<S>|
            paint_idxs@ == layout::paint_offsets(scene.encoded_paints@) && backend@ == Seq::<
                OpView<S>,
            >::empty() ==> #[trigger] do_scene.requires(
                (total_slots(alphas_tex_width), paint_idxs, backend),
            ),
    ensures
        renders_to(
            *scene,
            width,
            height,
            alphas_tex_width,
            encoded_paints_tex_width,
            order,
            ramp_cache,
            get_or_create_ramp,
            take_luts,
            do_scene,
            result,
        ),
        result matches Ok(frame) ==> {
            &&& frame.config.width == width
            &&& frame.config.height == height
            &&& frame.config.strip_height == 4
            &&& pow2(frame.config.alphas_tex_width_bits as nat) == alphas_tex_width
            &&& pow2(frame.config.encoded_paints_tex_width_bits as nat) == encoded_paints_tex_width
            &&& frame.config.strip_offset_x == 0
            &&& frame.config.strip_offset_y == 0
            &&& frame.config.negate_ndc == 0
            &&& frame.alphas@ == scene.alphas@
            &&& frame.paint_idxs@.len() == scene.encoded_paints@.len() + 1
            &&& frame.paint_idxs@[0] == 0
            &&& frame.encoded_paints@.len() == 16 * frame.paint_idxs@.last()
        },
        exists|
            slots: usize,
            paint_idxs: &Vec<u32>,
            backend: CaptureBackend<S>,
            scheduled: Result<CaptureBackend<S>, E>,
        |
            {
                &&& #[trigger] do_scene.ensures((slots, paint_idxs, backend), scheduled)
                &&& 4 * slots <= alphas_tex_width < 4 * slots + 4
                &&& paint_idxs@ == layout::paint_offsets(scene.encoded_paints@)
                &&& backend.ops@.len() == 0
                &&& match (scheduled, result) {
                    (Ok(recorded), Ok(frame)) => {
                        &&& frame.ops@ == recorded.ops@
                        &&& frame.paint_idxs@ == paint_idxs@
                    },
                    (Err(error), Err(returned)) => returned == error,
                    _ => false,
                }
            },
{
    let prepared = prepare_capture(
        scene,
        width,
        height,
        alphas_tex_width,
        encoded_paints_tex_width,
        order,
        ramp_cache,
        get_or_create_ramp,
        take_luts,
    );
    let backend = CaptureBackend::new();
    let ghost fresh = backend;
    let scheduled = do_scene(prepared.total_slots, &prepared.paints.paint_idxs, backend);
    assert(do_scene.ensures(
        (total_slots(alphas_tex_width), &prepared.paints.paint_idxs, fresh),
        scheduled,
    ));
    finish_capture(prepared, scene, scheduled)
}

/// Two configurations that differ at most in the size of the target and in the width of the
/// paint texture.
pub open spec fn same_but_for_sizes(a: Config, b: Config) -> bool {
    a == Config {
        width: a.width,
        height: a.height,
        encoded_paints_tex_width_bits: a.encoded_paints_tex_width_bits,
        ..b
    }
}

/// A result as it is for a target of another size and a paint texture of another width: the three
/// fields of the configuration that hold them are replaced, and nothing else.
pub open spec fn resized<S, E>(
    result: Result<CapturedFrame<S>, E>,
    width: u32,
    height: u32,
    encoded_paints_tex_width: u32,
) -> Result<CapturedFrame<S>, E> {
    match result {
        Ok(frame) => Ok(
            CapturedFrame {
                config: Config {
                    width,
                    height,
                    encoded_paints_tex_width_bits: encoded_paints_tex_width.trailing_zeros(),
                    ..frame.config
                },
                ..frame
            },
        ),
        Err(error) => Err(error),
    }
}

/// The size of the target and the width of the paint texture decide nothing but the three fields
/// of the configuration that hold them: whatever a render can end in, a render that differs only
/// in these sizes can end in, with these three fields replaced. This holds of every ramp cache and
/// every scheduler.
pub proof fn sizes_decide_only_the_config<S, E, C, G, L, F>(
    scene: Scene,
    alphas_tex_width: u32,
    order: ByteOrder,
    ramp_cache: C,
    get_or_create_ramp: G,
    take_luts: L,
    do_scene: F,
    width_a: u32,
    height_a: u32,
    encoded_paints_tex_width_a: u32,
    result: Result<CapturedFrame<S>, E>,
    width_b: u32,
    height_b: u32,
    encoded_paints_tex_width_b: u32,
) where
    G: Fn(C, usize) -> (C, GradientRamp),
    L: FnOnce(C) -> Vec<u8>,
    F: FnOnce(usize, &Vec<u32>, CaptureBackend<S>) -> Result<CaptureBackend<S>, E>,

    requires
        renders_to(
            scene,
            width_a,
            height_a,
            alphas_tex_width,
            encoded_paints_tex_width_a,
            order,
            ramp_cache,
            get_or_create_ramp,
            take_luts,
            do_scene,
            result,
        ),
    ensures
        renders_to(
            scene,
            width_b,
            height_b,
            alphas_tex_width,
            encoded_paints_tex_width_b,
            order,
            ramp_cache,
            get_or_create_ramp,
            take_luts,
            do_scene,
            resized(result, width_b, height_b, encoded_paints_tex_width_b),
        ),
{
}

/// Whether a ramp cache and a scheduler have one outcome for the same arguments. Buffers and
/// backends count as the same if they hold the same; `same_cache` tells which states of the cache
/// count as the same, and `same_error` which errors do.
pub open spec fn deterministic<S, E, C, G, L, F>(
    get_or_create_ramp: G,
    take_luts: L,
    do_scene: F,
    same_cache: spec_fn(C, C) -> bool,
    same_error: spec_fn(E, E) -> bool,
) -> bool where
    G: Fn(C, usize) -> (C, GradientRamp),
    L: FnOnce(C) -> Vec<u8>,
    F: FnOnce(usize, &Vec<u32>, CaptureBackend<S>) -> Result<CaptureBackend<S>, E>,
 {
    &&& layout::ramps_determined(get_or_create_ramp, same_cache)
    &&& forall|cache_a: C, cache_b: C, a: Vec<u8>, b: Vec<u8>|
        #[trigger] take_luts.ensures((cache_a,), a) && #[trigger] take_luts.ensures((cache_b,), b)
            && same_cache(cache_a, cache_b) ==> a@ == b@
    &&& forall|
        slots: usize,
        idxs_a: &Vec<u32>,
        idxs_b: &Vec<u32>,
        backend_a: CaptureBackend<S>,
        backend_b: CaptureBackend<S>,
        a: Result<CaptureBackend<S>, E>,
        b: Result<CaptureBackend<S>, E>,
    |
        #[trigger] do_scene.ensures((slots, idxs_a, backend_a), a) && #[trigger] do_scene.ensures(
            (slots, idxs_b, backend_b),
            b,
        ) && idxs_a@ == idxs_b@ && backend_a@ == backend_b@ ==> match (a, b) {
            (Ok(recorded_a), Ok(recorded_b)) => recorded_a@ == recorded_b@,
            (Err(error_a), Err(error_b)) => same_error(error_a, error_b),
            _ => false,
        }
}

/// Two renders of one scene that differ only in the size of the target and in the width of the
/// paint texture fail with the same error, or succeed with the same buffers, the same operations
/// and configurations that differ at most in the three fields that hold these sizes, provided
/// that they start from ramp caches in the same state and that the cache and the scheduler have
/// one outcome for the same arguments. `same_cache` and `same_error` tell what is the same, as in
/// [`deterministic`]; equality is one choice, and to hold the same another.
pub proof fn sizes_reach_only_the_config<S, E, C, G, L, F>(
    scene: Scene,
    alphas_tex_width: u32,
    order: ByteOrder,
    get_or_create_ramp: G,
    take_luts: L,
    do_scene: F,
    same_cache: spec_fn(C, C) -> bool,
    same_error: spec_fn(E, E) -> bool,
    width_a: u32,
    height_a: u32,
    encoded_paints_tex_width_a: u32,
    ramp_cache_a: C,
    result_a: Result<CapturedFrame<S>, E>,
    width_b: u32,
    height_b: u32,
    encoded_paints_tex_width_b: u32,
    ramp_cache_b: C,
    result_b: Result<CapturedFrame<S>, E>,
) where
    G: Fn(C, usize) -> (C, GradientRamp),
    L: FnOnce(C) -> Vec<u8>,
    F: FnOnce(usize, &Vec<u32>, CaptureBackend<S>) -> Result<CaptureBackend<S>, E>,

    requires
        deterministic::<S, E, C, G, L, F>(
            get_or_create_ramp,
            take_luts,
            do_scene,
            same_cache,
            same_error,
        ),
        same_cache(ramp_cache_a, ramp_cache_b),
        renders_to(
            scene,
            width_a,
            height_a,
            alphas_tex_width,
            encoded_paints_tex_width_a,
            order,
            ramp_cache_a,
            get_or_create_ramp,
            take_luts,
            do_scene,
            result_a,
        ),
        renders_to(
            scene,
            width_b,
            height_b,
            alphas_tex_width,
            encoded_paints_tex_width_b,
            order,
            ramp_cache_b,
            get_or_create_ramp,
            take_luts,
            do_scene,
            result_b,
        ),
    ensures
        match (result_a, result_b) {
            (Ok(a), Ok(b)) => {
                &&& same_but_for_sizes(a.config, b.config)
                &&& a.alphas@ == b.alphas@
                &&& a.encoded_paints@ == b.encoded_paints@
                &&& a.paint_idxs@ == b.paint_idxs@
                &&& a.gradient_lut@ == b.gradient_lut@
                &&& pass::ops_view(a.ops@) == pass::ops_view(b.ops@)
            },
            (Err(error_a), Err(error_b)) => same_error(error_a, error_b),
            _ => false,
        },
{
    let paints = scene.encoded_paints@;
    assert forall|
        caches_a: Seq<C>,
        ramps_a: Seq<GradientRamp>,
        caches_b: Seq<C>,
        ramps_b: Seq<GradientRamp>,
    |
        #[trigger] layout::ramps_drawn(get_or_create_ramp, paints, caches_a, ramps_a)
            && #[trigger] layout::ramps_drawn(get_or_create_ramp, paints, caches_b, ramps_b)
            && caches_a.first() == ramp_cache_a && caches_b.first() == ramp_cache_b implies {
        &&& same_cache(caches_a.last(), caches_b.last())
        &&& layout::scene_bytes(paints, ramps_a, order) == layout::scene_bytes(
            paints,
            ramps_b,
            order,
        )
    } by {
        layout::same_caches_give_same_ramps(
            get_or_create_ramp,
            same_cache,
            paints,
            caches_a,
            ramps_a,
            caches_b,
            ramps_b,
            paints.len() as int,
        );
        layout::gpu_paints_of_same_ramps(paints, ramps_a, ramps_b, order);
    }
}

/// The number of trailing zero bits of a power of two is its base-2 logarithm.
pub proof fn trailing_zeros_is_log2(width: u32)
    requires
        is_pow2(width as int),
    ensures
        width.trailing_zeros() < 32,
        pow2(width.trailing_zeros() as nat) == width,
{
    vstd::arithmetic::power2::is_pow2_equiv(width as int);
    let n = choose|n: nat| pow(2, n) == width;
    assert(n < 32) by {
        if n >= 32 {
            vstd::arithmetic::power2::lemma2_to64();
            if n > 32 {
                vstd::arithmetic::power2::lemma_pow2_strictly_increases(32, n);
            }
        }
    }
    let e: u32 = n as u32;
    vstd::bits::lemma_u32_pow2_no_overflow(n);
    vstd::bits::lemma_u32_shl_is_mul(1, e);
    let z: u32 = width.trailing_zeros();
    vstd::std_specs::bits::axiom_u32_trailing_zeros(width);
    vstd::arithmetic::power2::lemma_pow2_pos(n);
    assert(z == e) by (bit_vector)
        requires
            e < 32,
            z < 32,
            width == 1u32 << e,
            (width >> z) & 1u32 == 1u32,
    ;
}

/// With the logarithm of a texture's width, a shift and a mask find the row and the column of
/// a texel.
pub proof fn texel_row_and_column(texel: u32, width: u32)
    requires
        is_pow2(width as int),
    ensures
        ({
            let row = texel >> width.trailing_zeros();
            let column = texel & ((width - 1) as u32);
            &&& column < width
            &&& row * width + column == texel
        }),
{
    trailing_zeros_is_log2(width);
    let bits: u32 = width.trailing_zeros();
    vstd::bits::lemma_u32_shr_is_div(texel, bits);
    vstd::bits::lemma_u32_low_bits_mask_is_mod(texel, bits as nat);
    vstd::arithmetic::div_mod::lemma_fundamental_div_mod(texel as int, width as int);
    vstd::arithmetic::mul::lemma_mul_is_commutative(width as int, texel as int / width as int);
    vstd::arithmetic::power2::lemma_pow2_pos(bits as nat);
}

/// The slots use up the width of the alpha texture exactly, where that is at least one tile height.
pub proof fn slots_use_up_width(alphas_tex_width: u32)
    requires
        is_pow2(alphas_tex_width as int),
        alphas_tex_width >= TILE_HEIGHT,
    ensures
        total_slots(alphas_tex_width) * TILE_HEIGHT == alphas_tex_width,
{
    let width = alphas_tex_width as int;
    reveal(is_pow2);
    assert(is_pow2(width / 2));
    assert(width / 2 % 2 == 0);
    let slots = total_slots(alphas_tex_width) as int;
    assert(slots == width / 4);
    assert(slots * TILE_HEIGHT == width) by (nonlinear_arith)
        requires
            slots == width / 4,
            width % 4 == 0,
            TILE_HEIGHT == 4,
    ;
}

/// A captured frame has one offset more than the scene has paints; they start at zero, never
/// decrease, and end where the paint texture ends.
pub proof fn captured_offsets<S>(
    frame: CapturedFrame<S>,
    scene: Scene,
    config: Config,
    order: ByteOrder,
    ramps: Seq<GradientRamp>,
    gradient_lut: Seq<u8>,
    ops: Seq<OpView<S>>,
)
    requires
        layout::fits(scene.encoded_paints@),
        captures(frame, scene, config, order, ramps, gradient_lut, ops),
    ensures
        frame.paint_idxs@.len() == scene.encoded_paints@.len() + 1,
        frame.paint_idxs@[0] == 0,
        forall|i: int, j: int|
            0 <= i <= j < frame.paint_idxs@.len() ==> #[trigger] frame.paint_idxs@[i]
                <= #[trigger] frame.paint_idxs@[j],
        gpu_paint::TEXEL_BYTES * frame.paint_idxs@.last() == frame.encoded_paints@.len(),
{
    let paints = scene.encoded_paints@;
    layout::scene_bytes_len(paints, ramps, order);
    assert forall|i: int, j: int| 0 <= i <= j < frame.paint_idxs@.len() implies (
    #[trigger] frame.paint_idxs@[i]) <= (#[trigger] frame.paint_idxs@[j]) by {
        layout::texels_before_monotone(paints, i, j);
        layout::texels_before_monotone(paints, j, paints.len() as int);
    }
}

/// In a captured frame, the texels from a paint's offset to the next one are the serialized GPU
/// form of that paint, and there are none where it has no GPU form.
pub proof fn captured_paint_texels<S>(
    frame: CapturedFrame<S>,
    scene: Scene,
    config: Config,
    order: ByteOrder,
    ramps: Seq<GradientRamp>,
    gradient_lut: Seq<u8>,
    ops: Seq<OpView<S>>,
    i: int,
)
    requires
        layout::fits(scene.encoded_paints@),
        captures(frame, scene, config, order, ramps, gradient_lut, ops),
        0 <= i < scene.encoded_paints@.len(),
    ensures
        frame.encoded_paints@.subrange(
            gpu_paint::TEXEL_BYTES * frame.paint_idxs@[i],
            gpu_paint::TEXEL_BYTES * frame.paint_idxs@[i + 1],
        ) == match encode::gpu_form(scene.encoded_paints@[i], ramps[i], order) {
            Some(gpu) => gpu.bytes(order),
            None => Seq::<u8>::empty(),
        },
{
    layout::paint_lies_between_offsets(scene.encoded_paints@, ramps, order, i);
}

/// In a captured frame, reading word `k` from the texel at a paint's offset gives back word `k`
/// of the paint's GPU form.
pub proof fn captured_paint_word<S>(
    frame: CapturedFrame<S>,
    scene: Scene,
    config: Config,
    order: ByteOrder,
    ramps: Seq<GradientRamp>,
    gradient_lut: Seq<u8>,
    ops: Seq<OpView<S>>,
    i: int,
    k: int,
)
    requires
        layout::fits(scene.encoded_paints@),
        captures(frame, scene, config, order, ramps, gradient_lut, ops),
        0 <= i < scene.encoded_paints@.len(),
        encode::gpu_form(scene.encoded_paints@[i], ramps[i], order) is Some,
        0 <= k < encode::gpu_form(scene.encoded_paints@[i], ramps[i], order)->0.words().len(),
    ensures
        order.word_at(frame.encoded_paints@, 4 * frame.paint_idxs@[i] + k)
            == encode::gpu_form(scene.encoded_paints@[i], ramps[i], order)->0.words()[k],
{
    layout::paint_lies_between_offsets(scene.encoded_paints@, ramps, order, i);
    layout::paint_word_reads_back(scene.encoded_paints@, ramps, order, i, k);
}

/// For every texture width, the slots are as many whole tile heights of four as fit it.
pub proof fn slots_fill_width(alphas_tex_width: u32)
    ensures
        4 * total_slots(alphas_tex_width) <= alphas_tex_width < 4 * total_slots(alphas_tex_width)
            + 4,
{
    assert(total_slots(alphas_tex_width) == alphas_tex_width / 4);
}

/// Whatever the size of the target and the widths of the textures, the configuration holds the
/// size of the target, strips four high, no strip offset and no negated y-axis.
pub proof fn config_fields(
    width: u32,
    height: u32,
    alphas_tex_width: u32,
    encoded_paints_tex_width: u32,
)
    ensures
        ({
            let config = config_for(width, height, alphas_tex_width, encoded_paints_tex_width);
            &&& config.width == width
            &&& config.height == height
            &&& config.strip_height == 4
            &&& config.strip_offset_x == 0
            &&& config.strip_offset_y == 0
            &&& config.negate_ndc == 0
        }),
{
}

/// The shader finds a texel of either texture from the configuration alone: a shift by the
/// logarithm that the configuration holds of that texture's width gives the row, and what is left
/// the column.
pub proof fn config_finds_texels(
    width: u32,
    height: u32,
    alphas_tex_width: u32,
    encoded_paints_tex_width: u32,
    texel: u32,
)
    requires
        is_pow2(alphas_tex_width as int),
        is_pow2(encoded_paints_tex_width as int),
    ensures
        ({
            let config = config_for(width, height, alphas_tex_width, encoded_paints_tex_width);
            &&& pow2(config.alphas_tex_width_bits as nat) == alphas_tex_width
            &&& pow2(config.encoded_paints_tex_width_bits as nat) == encoded_paints_tex_width
            &&& texel >> config.alphas_tex_width_bits == texel / alphas_tex_width
            &&& texel >> config.encoded_paints_tex_width_bits == texel / encoded_paints_tex_width
        }),
{
    trailing_zeros_is_log2(alphas_tex_width);
    trailing_zeros_is_log2(encoded_paints_tex_width);
    vstd::bits::lemma_u32_shr_is_div(texel, alphas_tex_width.trailing_zeros());
    vstd::bits::lemma_u32_shr_is_div(texel, encoded_paints_tex_width.trailing_zeros());
}

/// Every frame that a render can end in has the size of its target, strips four high, the
/// logarithms of its texture widths, no strip offset and no negated y-axis in its configuration.
pub proof fn captured_config<S, E, C, G, L, F>(
    scene: Scene,
    width: u32,
    height: u32,
    alphas_tex_width: u32,
    encoded_paints_tex_width: u32,
    order: ByteOrder,
    ramp_cache: C,
    get_or_create_ramp: G,
    take_luts: L,
    do_scene: F,
    result: Result<CapturedFrame<S>, E>,
) where
    G: Fn(C, usize) -> (C, GradientRamp),
    L: FnOnce(C) -> Vec<u8>,
    F: FnOnce(usize, &Vec<u32>, CaptureBackend<S>) -> Result<CaptureBackend<S>, E>,

    requires
        is_pow2(alphas_tex_width as int),
        is_pow2(encoded_paints_tex_width as int),
        renders_to(
            scene,
            width,
            height,
            alphas_tex_width,
            encoded_paints_tex_width,
            order,
            ramp_cache,
            get_or_create_ramp,
            take_luts,
            do_scene,
            result,
        ),
    ensures
        result matches Ok(frame) ==> {
            &&& frame.config.width == width
            &&& frame.config.height == height
            &&& frame.config.strip_height == 4
            &&& pow2(frame.config.alphas_tex_width_bits as nat) == alphas_tex_width
            &&& pow2(frame.config.encoded_paints_tex_width_bits as nat) == encoded_paints_tex_width
            &&& frame.config.strip_offset_x == 0
            &&& frame.config.strip_offset_y == 0
            &&& frame.config.negate_ndc == 0
        },
{
    trailing_zeros_is_log2(alphas_tex_width);
    trailing_zeros_is_log2(encoded_paints_tex_width);
}

/// Every frame that a render can end in holds the alphas of the scene, and its offsets start at
/// zero and move on from each paint by the texels of its kind.
pub proof fn captured_scene<S, E, C, G, L, F>(
    scene: Scene,
    width: u32,
    height: u32,
    alphas_tex_width: u32,
    encoded_paints_tex_width: u32,
    order: ByteOrder,
    ramp_cache: C,
    get_or_create_ramp: G,
    take_luts: L,
    do_scene: F,
    result: Result<CapturedFrame<S>, E>,
    i: int,
) where
    G: Fn(C, usize) -> (C, GradientRamp),
    L: FnOnce(C) -> Vec<u8>,
    F: FnOnce(usize, &Vec<u32>, CaptureBackend<S>) -> Result<CaptureBackend<S>, E>,

    requires
        layout::fits(scene.encoded_paints@),
        renders_to(
            scene,
            width,
            height,
            alphas_tex_width,
            encoded_paints_tex_width,
            order,
            ramp_cache,
            get_or_create_ramp,
            take_luts,
            do_scene,
            result,
        ),
        0 <= i < scene.encoded_paints@.len(),
    ensures
        result matches Ok(frame) ==> {
            let paint = scene.encoded_paints@[i];
            let texels = frame.paint_idxs@[i + 1] - frame.paint_idxs@[i];
            &&& frame.alphas@ == scene.alphas@
            &&& frame.paint_idxs@.len() == scene.encoded_paints@.len() + 1
            &&& frame.paint_idxs@[0] == 0
            &&& frame.encoded_paints@.len() == 16 * frame.paint_idxs@.last()
            &&& paint is Image ==> texels == 0
            &&& paint is ExternalTexture ==> texels == 3
            &&& paint is BlurredRoundedRect ==> texels == 5
            &&& paint is Gradient ==> {
                &&& paint->Gradient_0.kind is Linear ==> texels == 2
                &&& paint->Gradient_0.kind is Radial ==> texels == 4
                &&& paint->Gradient_0.kind is Sweep ==> texels == 3
            }
        },
{
    layout::offsets_step_by_kind(scene.encoded_paints@, i);
    assert forall|ramps: Seq<GradientRamp>| #[trigger]
        layout::scene_bytes(scene.encoded_paints@, ramps, order).len() == 16 * layout::total_texels(
            scene.encoded_paints@,
        ) by {
        layout::scene_bytes_len(scene.encoded_paints@, ramps, order);
    }
}

/// A captured frame holds each of its parts as it was given: the configuration, the alphas of the
/// scene, the ramps and the operations. The words behind the offsets of its paints are those of
/// the scene.
pub proof fn captured_parts<S>(
    frame: CapturedFrame<S>,
    scene: Scene,
    config: Config,
    order: ByteOrder,
    ramps: Seq<GradientRamp>,
    gradient_lut: Seq<u8>,
    ops: Seq<OpView<S>>,
    i: int,
    k: int,
)
    requires
        captures(frame, scene, config, order, ramps, gradient_lut, ops),
    ensures
        frame.config == config,
        frame.alphas@ == scene.alphas@,
        frame.gradient_lut@ == gradient_lut,
        pass::ops_view(frame.ops@) == ops,
        order.word_at(frame.encoded_paints@, 4 * frame.paint_idxs@[i] + k) == layout::scene_word(
            scene.encoded_paints@,
            ramps,
            order,
            i,
            k,
        ),
{
}

/// The scheduler decides how a render ends: whatever holds of all its outcomes, when it is given as
/// many slots as there are whole tile heights of four in the width of the alpha texture, the
/// offsets of the scene and a backend without operations, holds of the operations of the frame or
/// of the error that is returned.
pub proof fn scheduler_decides<S, E, C, G, L, F>(
    scene: Scene,
    width: u32,
    height: u32,
    alphas_tex_width: u32,
    encoded_paints_tex_width: u32,
    order: ByteOrder,
    ramp_cache: C,
    get_or_create_ramp: G,
    take_luts: L,
    do_scene: F,
    result: Result<CapturedFrame<S>, E>,
    allowed: spec_fn(Result<Seq<OpView<S>>, E>) -> bool,
) where
    G: Fn(C, usize) -> (C, GradientRamp),
    L: FnOnce(C) -> Vec<u8>,
    F: FnOnce(usize, &Vec<u32>, CaptureBackend<S>) -> Result<CaptureBackend<S>, E>,

    requires
        renders_to(
            scene,
            width,
            height,
            alphas_tex_width,
            encoded_paints_tex_width,
            order,
            ramp_cache,
            get_or_create_ramp,
            take_luts,
            do_scene,
            result,
        ),
        forall|
            slots: usize,
            paint_idxs: &Vec<u32>,
            backend: CaptureBackend<S>,
            scheduled: Result<CaptureBackend<S>, E>,
        |
            {
                &&& #[trigger] do_scene.ensures((slots, paint_idxs, backend), scheduled)
                &&& 4 * slots <= alphas_tex_width < 4 * slots + 4
                &&& paint_idxs@ == layout::paint_offsets(scene.encoded_paints@)
                &&& backend.ops@.len() == 0
            } ==> allowed(
                match scheduled {
                    Ok(recorded) => Ok(pass::ops_view(recorded.ops@)),
                    Err(error) => Err(error),
                },
            ),
    ensures
        allowed(
            match result {
                Ok(frame) => Ok(pass::ops_view(frame.ops@)),
                Err(error) => Err(error),
            },
        ),
{
    slots_fill_width(alphas_tex_width);
    assert forall|backend: CaptureBackend<S>| #[trigger] backend@ == Seq::<
        OpView<S>,
    >::empty() implies backend.ops@.len() == 0 by {
        assert(pass::ops_view(backend.ops@).len() == backend.ops@.len());
    }
}

/// The ramps of a frame are those that the cache gives up after it has been asked for the ramp of
/// each gradient of the scene, once and in scene order, and for no other: this is told of a cache
/// whose ramps follow from the list of what it was asked for.
pub proof fn captured_ramps<S, E, C, G, L, F>(
    scene: Scene,
    width: u32,
    height: u32,
    alphas_tex_width: u32,
    encoded_paints_tex_width: u32,
    order: ByteOrder,
    ramp_cache: C,
    get_or_create_ramp: G,
    take_luts: L,
    do_scene: F,
    result: Result<CapturedFrame<S>, E>,
    asked: spec_fn(C) -> Seq<int>,
    luts: spec_fn(Seq<int>) -> Seq<u8>,
) where
    G: Fn(C, usize) -> (C, GradientRamp),
    L: FnOnce(C) -> Vec<u8>,
    F: FnOnce(usize, &Vec<u32>, CaptureBackend<S>) -> Result<CaptureBackend<S>, E>,

    requires
        renders_to(
            scene,
            width,
            height,
            alphas_tex_width,
            encoded_paints_tex_width,
            order,
            ramp_cache,
            get_or_create_ramp,
            take_luts,
            do_scene,
            result,
        ),
        scene.encoded_paints@.len() <= usize::MAX,
        forall|cache: C, index: usize, drawn: (C, GradientRamp)| #[trigger]
            get_or_create_ramp.ensures((cache, index), drawn) ==> asked(drawn.0) == asked(
                cache,
            ).push(index as int),
        forall|cache: C, taken: Vec<u8>| #[trigger]
            take_luts.ensures((cache,), taken) ==> taken@ == luts(asked(cache)),
    ensures
        result matches Ok(frame) ==> frame.gradient_lut@ == luts(
            asked(ramp_cache) + layout::gradients_among(
                scene.encoded_paints@,
                scene.encoded_paints@.len() as int,
            ),
        ),
{
    let paints = scene.encoded_paints@;
    assert forall|caches: Seq<C>, ramps: Seq<GradientRamp>| #[trigger]
        layout::ramps_drawn(get_or_create_ramp, paints, caches, ramps) implies asked(caches.last())
        == asked(caches.first()) + layout::gradients_among(paints, paints.len() as int) by {
        layout::ramps_are_asked_for_in_scene_order(
            get_or_create_ramp,
            asked,
            paints,
            caches,
            ramps,
            paints.len() as int,
        );
    }
}

/// Every gradient of a frame points at the ramp that the cache has for the index of that gradient:
/// this is told of a cache that puts the ramp of each paint in one place.
pub proof fn captured_gradients_find_their_ramps<S, E, C, G, L, F>(
    scene: Scene,
    width: u32,
    height: u32,
    alphas_tex_width: u32,
    encoded_paints_tex_width: u32,
    order: ByteOrder,
    ramp_cache: C,
    get_or_create_ramp: G,
    take_luts: L,
    do_scene: F,
    result: Result<CapturedFrame<S>, E>,
    place: spec_fn(int) -> GradientRamp,
    i: int,
) where
    G: Fn(C, usize) -> (C, GradientRamp),
    L: FnOnce(C) -> Vec<u8>,
    F: FnOnce(usize, &Vec<u32>, CaptureBackend<S>) -> Result<CaptureBackend<S>, E>,

    requires
        renders_to(
            scene,
            width,
            height,
            alphas_tex_width,
            encoded_paints_tex_width,
            order,
            ramp_cache,
            get_or_create_ramp,
            take_luts,
            do_scene,
            result,
        ),
        layout::fits(scene.encoded_paints@),
        0 <= i < scene.encoded_paints@.len() <= usize::MAX,
        scene.encoded_paints@[i] is Gradient,
        forall|cache: C, index: usize, drawn: (C, GradientRamp)| #[trigger]
            get_or_create_ramp.ensures((cache, index), drawn) ==> drawn.1 == place(index as int),
    ensures
        result matches Ok(frame) ==> {
            let first = 4 * frame.paint_idxs@[i];
            &&& order.word_at(frame.encoded_paints@, first) & 0x3fff_ffff == place(i).width
                & 0x3fff_ffff
            &&& order.word_at(frame.encoded_paints@, first + 1) == place(i).start
        },
{
    let paints = scene.encoded_paints@;
    assert forall|caches: Seq<C>, ramps: Seq<GradientRamp>| #[trigger]
        layout::ramps_drawn(get_or_create_ramp, paints, caches, ramps) implies {
        &&& layout::scene_word(paints, ramps, order, i, 0) & 0x3fff_ffff == place(i).width
            & 0x3fff_ffff
        &&& layout::scene_word(paints, ramps, order, i, 1) == place(i).start
    } by {
        layout::gradients_draw_their_own_ramps(
            get_or_create_ramp,
            place,
            paints,
            caches,
            ramps,
            i,
        );
        layout::scene_holds_gradient(paints, ramps, order, i);
    }
}

} // verus!
