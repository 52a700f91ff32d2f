//! Where each paint of a scene lies in the paint texture.

use crate::byte_order;
use crate::byte_order::ByteOrder;
use crate::encode;
use crate::encode::{
    encode_blurred_rounded_rect_paint, encode_external_texture_paint, encode_gradient_paint,
};
use crate::gpu_paint;
use crate::gpu_paint::{GpuEncodedPaint, TEXEL_BYTES};
use crate::paint::{EncodedKind, EncodedPaint, Extend, GradientRamp, ImageQuality, RadialKind};
use vstd::prelude::*;

verus! {

/// The number of texels that a scene paint takes up. A paint without a GPU form takes none.
pub open spec fn paint_texels(paint: EncodedPaint) -> nat {
    match paint {
        EncodedPaint::Gradient(gradient) => match gradient.kind {
            EncodedKind::Linear => 2,
            EncodedKind::Radial(_) => 4,
            EncodedKind::Sweep(_) => 3,
        },
        EncodedPaint::Image => 0,
        EncodedPaint::ExternalTexture(_) => 3,
        EncodedPaint::BlurredRoundedRect(_) => 5,
    }
}

/// The number of texels that the first `n` paints take up.
pub open spec fn texels_before(paints: Seq<EncodedPaint>, n: int) -> nat
    decreases n,
{
    if n <= 0 {
        0
    } else {
        texels_before(paints, n - 1) + paint_texels(paints[n - 1])
    }
}

/// The number of texels that all the paints take up.
pub open spec fn total_texels(paints: Seq<EncodedPaint>) -> nat {
    texels_before(paints, paints.len() as int)
}

/// Whether the texels of the paints can be counted by a 32-bit index and their bytes be held in
/// memory.
pub open spec fn fits(paints: Seq<EncodedPaint>) -> bool {
    &&& total_texels(paints) <= u32::MAX
    &&& TEXEL_BYTES * total_texels(paints) <= usize::MAX
}

/// The texel offset of each paint, and of the end of the last one.
pub open spec fn paint_offsets(paints: Seq<EncodedPaint>) -> Seq<u32> {
    Seq::new(paints.len() + 1, |i: int| texels_before(paints, i) as u32)
}

/// The GPU forms of the paints that have one, in order.
pub open spec fn gpu_paints(
    paints: Seq<EncodedPaint>,
    ramps: Seq<GradientRamp>,
    order: ByteOrder,
) -> Seq<GpuEncodedPaint>
    decreases paints.len(),
{
    if paints.len() == 0 {
        Seq::empty()
    } else {
        let earlier = gpu_paints(paints.drop_last(), ramps, order);
        match encode::gpu_form(paints.last(), ramps[paints.len() - 1], order) {
            Some(gpu) => earlier.push(gpu),
            None => earlier,
        }
    }
}

/// The bytes of the paint texture, where `ramps` tells for each gradient where its color ramp
/// lies.
pub open spec fn scene_bytes(
    paints: Seq<EncodedPaint>,
    ramps: Seq<GradientRamp>,
    order: ByteOrder,
) -> Seq<u8> {
    gpu_paint::paints_bytes(gpu_paints(paints, ramps, order), order)
}

/// Whether the ramp of paint `i` came from the ramp cache: for a gradient, the cache was asked
/// for it; for any other paint, it was not.
pub open spec fn ramp_drawn<C, G: Fn(C, usize) -> (C, GradientRamp)>(
    get_or_create_ramp: G,
    paints: Seq<EncodedPaint>,
    caches: Seq<C>,
    ramps: Seq<GradientRamp>,
    i: int,
) -> bool {
    if paints[i] is Gradient {
        get_or_create_ramp.ensures((caches[i], i as usize), (caches[i + 1], ramps[i]))
    } else {
        caches[i + 1] == caches[i]
    }
}

/// Whether the ramps of the paints came from a ramp cache that was asked for each gradient once,
/// in scene order. `caches` are the states of the cache before each paint, then the last one.
pub open spec fn ramps_drawn<C, G: Fn(C, usize) -> (C, GradientRamp)>(
    get_or_create_ramp: G,
    paints: Seq<EncodedPaint>,
    caches: Seq<C>,
    ramps: Seq<GradientRamp>,
) -> bool {
    &&& caches.len() == paints.len() + 1
    &&& ramps.len() == paints.len()
    &&& forall|i: int|
        0 <= i < paints.len() ==> #[trigger] ramp_drawn(
            get_or_create_ramp,
            paints,
            caches,
            ramps,
            i,
        )
}

/// The paints of a scene as the GPU reads them.
#[derive(Debug)]
pub struct PaintBuffers {
    /// The texels of the paints, serialized.
    pub encoded_paints: Vec<u8>,
    /// For each scene paint the index of its first texel, then the index past the last texel.
    pub paint_idxs: Vec<u32>,
}

/// Counts the texels that the paints take up, or returns `None` where the count does not fit a
/// 32-bit index or the bytes do not fit memory.
pub fn count_texels(paints: &[EncodedPaint]) -> (count: Option<u32>)
    ensures
        count is Some <==> fits(paints@),
        count matches Some(n) ==> n == total_texels(paints@),
        count is None <==> total_texels(paints@) > u32::MAX || 16 * total_texels(paints@)
            > usize::MAX,
{
    let mut count: u32 = 0;
    for i in 0..paints.len()
        invariant
            count == texels_before(paints@, i as int),
    {
        proof {
            texels_before_monotone(paints@, i + 1, paints@.len() as int);
        }
        let texels: u32 = match &paints[i] {
            EncodedPaint::Gradient(gradient) => match gradient.kind {
                EncodedKind::Linear => 2,
                EncodedKind::Radial(_) => 4,
                EncodedKind::Sweep(_) => 3,
            },
            EncodedPaint::Image => 0,
            EncodedPaint::ExternalTexture(_) => 3,
            EncodedPaint::BlurredRoundedRect(_) => 5,
        };
        if count > u32::MAX - texels {
            return None;
        }
        count = count + texels;
    }
    if count as usize > usize::MAX / TEXEL_BYTES {
        return None;
    }
    Some(count)
}

/// Encodes the paints of a scene in order and records where each of them starts.
///
/// For each gradient, `get_or_create_ramp` asks the ramp cache for the place of the color ramp
/// of the paint with the given index. A paint without a GPU form gets the offset at which the
/// next one starts, and no texels.
pub fn prepare_encoded_paints<C, G: Fn(C, usize) -> (C, GradientRamp)>(
    paints: &[EncodedPaint],
    order: ByteOrder,
    ramp_cache: C,
    get_or_create_ramp: G,
) -> (prepared: (PaintBuffers, C))
    requires
        fits(paints@),
        forall|cache: C, i: usize|
            i < paints@.len() && paints@[i as int] is Gradient
                ==> #[trigger] get_or_create_ramp.requires((cache, i)),
    ensures
        prepared.0.paint_idxs@ == paint_offsets(paints@),
        prepared.0.encoded_paints@.len() == TEXEL_BYTES * total_texels(paints@),
        prepared.0.paint_idxs@.len() == paints@.len() + 1,
        prepared.0.paint_idxs@[0] == 0,
        prepared.0.encoded_paints@.len() == 16 * prepared.0.paint_idxs@.last(),
        forall|i: int|
            0 <= i < paints@.len() ==> prepared.0.paint_idxs@[i + 1] == prepared.0.paint_idxs@[i]
                + match #[trigger] paints@[i] {
                EncodedPaint::Gradient(gradient) => match gradient.kind {
                    EncodedKind::Linear => 2int,
                    EncodedKind::Radial(_) => 4,
                    EncodedKind::Sweep(_) => 3,
                },
                EncodedPaint::Image => 0,
                EncodedPaint::ExternalTexture(_) => 3,
                EncodedPaint::BlurredRoundedRect(_) => 5,
            },
        exists|caches: Seq<C>, ramps: Seq<GradientRamp>|
            {
                &&& #[trigger] ramps_drawn(get_or_create_ramp, paints@, caches, ramps)
                &&& caches.first() == ramp_cache
                &&& caches.last() == prepared.1
                &&& prepared.0.encoded_paints@ == scene_bytes(paints@, ramps, order)
            },
{
    let mut cache = ramp_cache;
    let ghost mut caches = seq![cache];
    let ghost mut ramps = Seq::<GradientRamp>::empty();
    let mut encoded: Vec<GpuEncodedPaint> = Vec::new();
    let mut paint_idxs: Vec<u32> = Vec::new();
    let mut current_idx: u32 = 0;
    for i in 0..paints.len()
        invariant
            fits(paints@),
            forall|cache: C, i: usize|
                i < paints@.len() && paints@[i as int] is Gradient
                    ==> #[trigger] get_or_create_ramp.requires((cache, i)),
            caches.len() == i + 1,
            ramps.len() == i,
            caches.first() == ramp_cache,
            caches.last() == cache,
            forall|j: int|
                0 <= j < i ==> #[trigger] ramp_drawn(get_or_create_ramp, paints@, caches, ramps, j),
            current_idx == texels_before(paints@, i as int),
            encoded@ == gpu_paints(paints@.take(i as int), ramps, order),
            paint_idxs@ == Seq::new(i as nat, |j: int| texels_before(paints@, j) as u32),
    {
        let ghost caches_before = caches;
        let ghost ramps_before = ramps;
        let ghost mut drawn = GradientRamp { start: 0, width: 0 };
        paint_idxs.push(current_idx);
        let encoded_paint = match &paints[i] {
            EncodedPaint::Gradient(gradient) => {
                let (next, ramp) = get_or_create_ramp(cache, i);
                cache = next;
                proof {
                    drawn = ramp;
                }
                Some(encode_gradient_paint(gradient, ramp.width, ramp.start))
            },
            EncodedPaint::BlurredRoundedRect(rect) => Some(
                encode_blurred_rounded_rect_paint(rect, order),
            ),
            EncodedPaint::ExternalTexture(image) => Some(encode_external_texture_paint(image)),
            // Atlas images are not encoded; they draw as transparent.
            EncodedPaint::Image => None,
        };
        proof {
            caches = caches.push(cache);
            ramps = ramps.push(drawn);
            assert(paints@.take(i + 1).drop_last() == paints@.take(i as int));
            gpu_paints_of_same_ramps(paints@.take(i as int), ramps_before, ramps, order);
            gpu_form_fills_texels(paints@[i as int], drawn, order);
            texels_before_monotone(paints@, i + 1, paints@.len() as int);
            assert forall|j: int| 0 <= j < i + 1 implies #[trigger] ramp_drawn(
                get_or_create_ramp,
                paints@,
                caches,
                ramps,
                j,
            ) by {
                if j < i {
                    assert(ramp_drawn(get_or_create_ramp, paints@, caches_before, ramps_before, j));
                }
            }
        }
        if let Some(gpu) = encoded_paint {
            let bytes = gpu.as_bytes(order);
            current_idx = current_idx + (bytes.len() / TEXEL_BYTES) as u32;
            encoded.push(gpu);
        }
        assert(paint_idxs@ =~= Seq::new(
            (i + 1) as nat,
            |j: int| texels_before(paints@, j) as u32,
        ));
    }
    paint_idxs.push(current_idx);
    assert(paint_idxs@ =~= paint_offsets(paints@));
    assert(paints@.take(paints@.len() as int) == paints@);

    let mut encoded_paints: Vec<u8> = vec![0; current_idx as usize * TEXEL_BYTES];
    proof {
        scene_bytes_len(paints@, ramps, order);
    }
    GpuEncodedPaint::serialize_to_buffer(&encoded, order, &mut encoded_paints);
    assert(encoded_paints@ =~= scene_bytes(paints@, ramps, order));
    assert(ramps_drawn(get_or_create_ramp, paints@, caches, ramps));
    assert forall|i: int| 0 <= i < paints@.len() implies paint_offsets(paints@)[i + 1]
        - paint_offsets(paints@)[i] == paint_texels(#[trigger] paints@[i]) by {
        offsets_step_by_kind(paints@, i);
    }
    (PaintBuffers { encoded_paints, paint_idxs }, cache)
}

/// The GPU forms of the paints depend on the ramps of the gradients alone.
pub proof fn gpu_paints_of_same_ramps(
    paints: Seq<EncodedPaint>,
    ramps: Seq<GradientRamp>,
    others: Seq<GradientRamp>,
    order: ByteOrder,
)
    requires
        forall|i: int|
            0 <= i < paints.len() && paints[i] is Gradient ==> #[trigger] ramps[i] == others[i],
    ensures
        gpu_paints(paints, ramps, order) == gpu_paints(paints, others, order),
    decreases paints.len(),
{
    if paints.len() > 0 {
        gpu_paints_of_same_ramps(paints.drop_last(), ramps, others, order);
        assert(paints.last() is Gradient ==> ramps[paints.len() - 1] == others[paints.len() - 1]);
    }
}

/// Whether a ramp cache gives the same ramp, and goes on to the same state, whenever it is asked
/// for the ramp of the same paint in the same state. `same` tells which states count as the same.
pub open spec fn ramps_determined<C, G: Fn(C, usize) -> (C, GradientRamp)>(
    get_or_create_ramp: G,
    same: spec_fn(C, C) -> bool,
) -> bool {
    forall|cache_a: C, cache_b: C, i: usize, a: (C, GradientRamp), b: (C, GradientRamp)|
        #[trigger] get_or_create_ramp.ensures((cache_a, i), a)
            && #[trigger] get_or_create_ramp.ensures((cache_b, i), b) && same(cache_a, cache_b)
            ==> same(a.0, b.0) && a.1 == b.1
}

/// Two ramp caches in the same state, asked for the ramps of the same paints, go through the same
/// states and give the same ramps.
pub proof fn same_caches_give_same_ramps<C, G: Fn(C, usize) -> (C, GradientRamp)>(
    get_or_create_ramp: G,
    same: spec_fn(C, C) -> bool,
    paints: Seq<EncodedPaint>,
    caches_a: Seq<C>,
    ramps_a: Seq<GradientRamp>,
    caches_b: Seq<C>,
    ramps_b: Seq<GradientRamp>,
    n: int,
)
    requires
        ramps_determined(get_or_create_ramp, same),
        ramps_drawn(get_or_create_ramp, paints, caches_a, ramps_a),
        ramps_drawn(get_or_create_ramp, paints, caches_b, ramps_b),
        same(caches_a.first(), caches_b.first()),
        0 <= n <= paints.len(),
    ensures
        same(caches_a[n], caches_b[n]),
        forall|i: int| 0 <= i < n && paints[i] is Gradient ==> #[trigger] ramps_a[i] == ramps_b[i],
    decreases n,
{
    if n > 0 {
        same_caches_give_same_ramps(
            get_or_create_ramp,
            same,
            paints,
            caches_a,
            ramps_a,
            caches_b,
            ramps_b,
            n - 1,
        );
        assert(ramp_drawn(get_or_create_ramp, paints, caches_a, ramps_a, n - 1));
        assert(ramp_drawn(get_or_create_ramp, paints, caches_b, ramps_b, n - 1));
    }
}

/// The GPU form of a paint takes up the texels that the paint is given, wherever its color ramp
/// lies.
pub proof fn gpu_form_fills_texels(paint: EncodedPaint, ramp: GradientRamp, order: ByteOrder)
    ensures
        match encode::gpu_form(paint, ramp, order) {
            Some(gpu) => gpu.texels() == paint_texels(paint),
            None => paint_texels(paint) == 0,
        },
{
}

/// Offsets never decrease along the scene, so the texels of two paints never overlap.
pub proof fn texels_before_monotone(paints: Seq<EncodedPaint>, i: int, j: int)
    requires
        i <= j,
    ensures
        texels_before(paints, i) <= texels_before(paints, j),
    decreases j - i,
{
    if i < j {
        texels_before_monotone(paints, i, j - 1);
    }
}

/// The paint texture is as long as the last offset says.
pub proof fn scene_bytes_len(
    paints: Seq<EncodedPaint>,
    ramps: Seq<GradientRamp>,
    order: ByteOrder,
)
    ensures
        scene_bytes(paints, ramps, order).len() == TEXEL_BYTES * total_texels(paints),
    decreases paints.len(),
{
    if paints.len() > 0 {
        let last = paints.len() - 1;
        let shorter = paints.drop_last();
        scene_bytes_len(shorter, ramps, order);
        texels_before_of_prefix(paints, last, last);
        assert(paints.take(last) == shorter);
        gpu_form_fills_texels(paints.last(), ramps[last], order);
        if let Some(gpu) = encode::gpu_form(paints.last(), ramps[last], order) {
            gpu.bytes_fill_texels(order);
            assert(gpu_paints(paints, ramps, order).drop_last() == gpu_paints(shorter, ramps, order));
        }
    }
}

proof fn texels_before_of_prefix(paints: Seq<EncodedPaint>, n: int, i: int)
    requires
        i <= n <= paints.len(),
    ensures
        texels_before(paints.take(n), i) == texels_before(paints, i),
    decreases i,
{
    if i > 0 {
        texels_before_of_prefix(paints, n, i - 1);
    }
}

/// The texels between the offset of a paint and the next offset are the serialized GPU form of
/// that paint, and there are none where it has no GPU form.
pub proof fn paint_lies_between_offsets(
    paints: Seq<EncodedPaint>,
    ramps: Seq<GradientRamp>,
    order: ByteOrder,
    i: int,
)
    requires
        0 <= i < paints.len(),
    ensures
        texels_before(paints, i) <= texels_before(paints, i + 1) <= total_texels(paints),
        scene_bytes(paints, ramps, order).subrange(
            TEXEL_BYTES * texels_before(paints, i),
            TEXEL_BYTES * texels_before(paints, i + 1),
        ) == match encode::gpu_form(paints[i], ramps[i], order) {
            Some(gpu) => gpu.bytes(order),
            None => Seq::<u8>::empty(),
        },
    decreases paints.len(),
{
    let last = paints.len() - 1;
    let shorter = paints.drop_last();
    let bytes = scene_bytes(paints, ramps, order);
    let earlier = scene_bytes(shorter, ramps, order);
    assert(paints.take(last) == shorter);
    texels_before_monotone(paints, i + 1, paints.len() as int);
    texels_before_of_prefix(paints, last, last);
    scene_bytes_len(shorter, ramps, order);
    scene_bytes_len(paints, ramps, order);
    gpu_form_fills_texels(paints.last(), ramps[last], order);
    if let Some(gpu) = encode::gpu_form(paints.last(), ramps[last], order) {
        gpu.bytes_fill_texels(order);
        assert(gpu_paints(paints, ramps, order).drop_last() == gpu_paints(shorter, ramps, order));
        assert(bytes == earlier + gpu.bytes(order));
    }
    let from = TEXEL_BYTES * texels_before(paints, i);
    let to = TEXEL_BYTES * texels_before(paints, i + 1);
    if i < last {
        texels_before_of_prefix(paints, last, i);
        texels_before_of_prefix(paints, last, i + 1);
        paint_lies_between_offsets(shorter, ramps, order, i);
        assert(bytes.subrange(from, to) =~= earlier.subrange(from, to));
    } else {
        match encode::gpu_form(paints[i], ramps[i], order) {
            Some(gpu) => assert(bytes.subrange(from, to) =~= gpu.bytes(order)),
            None => assert(bytes.subrange(from, to) =~= Seq::<u8>::empty()),
        }
    }
}

/// Reading word `k` from the texel at which a paint starts gives back word `k` of its GPU form.
pub proof fn paint_word_reads_back(
    paints: Seq<EncodedPaint>,
    ramps: Seq<GradientRamp>,
    order: ByteOrder,
    i: int,
    k: int,
)
    requires
        0 <= i < paints.len(),
        encode::gpu_form(paints[i], ramps[i], order) is Some,
        0 <= k < encode::gpu_form(paints[i], ramps[i], order)->0.words().len(),
    ensures
        4 * (4 * texels_before(paints, i) + k) + 4 <= scene_bytes(paints, ramps, order).len(),
        order.word_at(scene_bytes(paints, ramps, order), 4 * texels_before(paints, i) + k)
            == encode::gpu_form(paints[i], ramps[i], order)->0.words()[k],
{
    let gpu = encode::gpu_form(paints[i], ramps[i], order)->0;
    let bytes = scene_bytes(paints, ramps, order);
    let start = 4 * texels_before(paints, i) as int;
    let end = TEXEL_BYTES * texels_before(paints, i + 1);
    paint_lies_between_offsets(paints, ramps, order, i);
    scene_bytes_len(paints, ramps, order);
    gpu_form_fills_texels(paints[i], ramps[i], order);
    gpu.bytes_fill_texels(order);
    byte_order::word_reads_back(order, gpu.words(), k);
    assert(bytes.subrange(4 * start, end) == order.words_bytes(gpu.words()));
    word_at_of_subrange(bytes, order, start, end, k);
}

proof fn word_at_of_subrange(bytes: Seq<u8>, order: ByteOrder, start: int, end: int, k: int)
    requires
        0 <= start,
        0 <= k,
        4 * (start + k) + 4 <= end <= bytes.len(),
    ensures
        order.word_at(bytes.subrange(4 * start, end), k) == order.word_at(bytes, start + k),
{
}

/// Every paint moves the texel count on by what its kind takes up, whatever its fields: a linear
/// gradient by two texels, a radial gradient by four, a sweep gradient and an external texture by
/// three each, a blurred rounded rectangle by five, and an atlas image by none.
pub proof fn texels_step_by_kind(paints: Seq<EncodedPaint>, i: int)
    requires
        0 <= i < paints.len(),
    ensures
        texels_before(paints, 0) == 0,
        paints[i] is Image ==> texels_before(paints, i + 1) == texels_before(paints, i),
        paints[i] is ExternalTexture ==> texels_before(paints, i + 1) == texels_before(paints, i)
            + 3,
        paints[i] is BlurredRoundedRect ==> texels_before(paints, i + 1) == texels_before(paints, i)
            + 5,
        paints[i] matches EncodedPaint::Gradient(gradient) ==> {
            &&& gradient.kind is Linear ==> texels_before(paints, i + 1) == texels_before(paints, i)
                + 2
            &&& gradient.kind is Radial ==> texels_before(paints, i + 1) == texels_before(paints, i)
                + 4
            &&& gradient.kind is Sweep ==> texels_before(paints, i + 1) == texels_before(paints, i)
                + 3
        },
{
}

/// The offsets of a scene start at zero, are one more than its paints, and move on from each
/// paint by the texels of its kind: two for a linear gradient, four for a radial one, three for a
/// sweep gradient or an external texture, five for a blurred rounded rectangle, none for an atlas
/// image.
pub proof fn offsets_step_by_kind(paints: Seq<EncodedPaint>, i: int)
    requires
        fits(paints),
        0 <= i < paints.len(),
    ensures
        ({
            let offsets = paint_offsets(paints);
            &&& offsets.len() == paints.len() + 1
            &&& offsets[0] == 0
            &&& offsets[i] <= offsets[i + 1] <= offsets.last()
            &&& paints[i] is Image ==> offsets[i + 1] - offsets[i] == 0
            &&& paints[i] is ExternalTexture ==> offsets[i + 1] - offsets[i] == 3
            &&& paints[i] is BlurredRoundedRect ==> offsets[i + 1] - offsets[i] == 5
            &&& paints[i] matches EncodedPaint::Gradient(gradient) ==> {
                &&& gradient.kind is Linear ==> offsets[i + 1] - offsets[i] == 2
                &&& gradient.kind is Radial ==> offsets[i + 1] - offsets[i] == 4
                &&& gradient.kind is Sweep ==> offsets[i + 1] - offsets[i] == 3
            }
        }),
{
    texels_before_monotone(paints, i, i + 1);
    texels_before_monotone(paints, i + 1, paints.len() as int);
}

/// No paint takes up more than five texels, so a scene of few enough paints always fits.
pub proof fn short_scenes_fit(paints: Seq<EncodedPaint>)
    requires
        5 * paints.len() <= u32::MAX,
        80 * paints.len() <= usize::MAX,
    ensures
        fits(paints),
{
    texels_at_most(paints, paints.len() as int);
}

proof fn texels_at_most(paints: Seq<EncodedPaint>, n: int)
    requires
        0 <= n,
    ensures
        texels_before(paints, n) <= 5 * n,
    decreases n,
{
    if n > 0 {
        texels_at_most(paints, n - 1);
    }
}

/// A scene fits exactly where its texels can be counted in 32 bits and sixteen bytes for each of
/// them can be held in memory.
pub proof fn fits_tells_the_limits(paints: Seq<EncodedPaint>)
    ensures
        fits(paints) <==> total_texels(paints) <= 0xffff_ffff && 16 * total_texels(paints)
            <= usize::MAX,
{
}

/// Paints behind the others move none of them: the offsets of the others, and their bytes, stay
/// what they were.
pub proof fn later_paints_move_nothing(
    paints: Seq<EncodedPaint>,
    more: EncodedPaint,
    ramps: Seq<GradientRamp>,
    order: ByteOrder,
)
    requires
        fits(paints.push(more)),
    ensures
        paint_offsets(paints.push(more)).drop_last() == paint_offsets(paints),
        scene_bytes(paints, ramps, order).is_prefix_of(
            scene_bytes(paints.push(more), ramps, order),
        ),
{
    let longer = paints.push(more);
    let n = paints.len() as int;
    assert(longer.drop_last() =~= paints);
    assert(longer.take(n) =~= paints);
    assert forall|i: int| 0 <= i <= n implies texels_before(longer, i) == texels_before(
        paints,
        i,
    ) by {
        texels_before_of_prefix(longer, n, i);
    }
    assert(paint_offsets(longer).drop_last() =~= paint_offsets(paints));
    if let Some(gpu) = encode::gpu_form(more, ramps[n], order) {
        assert(gpu_paints(longer, ramps, order).drop_last() =~= gpu_paints(paints, ramps, order));
    }
}

/// Word `k` behind the offset of paint `i` in the paint texture of a scene.
pub open spec fn scene_word(
    paints: Seq<EncodedPaint>,
    ramps: Seq<GradientRamp>,
    order: ByteOrder,
    i: int,
    k: int,
) -> u32 {
    order.word_at(scene_bytes(paints, ramps, order), 4 * paint_offsets(paints)[i] + k)
}

/// The four bytes of a word behind the offset of a paint, weighed by their significance, add up
/// to that word.
pub proof fn scene_word_bytes(
    paints: Seq<EncodedPaint>,
    ramps: Seq<GradientRamp>,
    order: ByteOrder,
    i: int,
    k: int,
)
    ensures
        ({
            let bytes = scene_bytes(paints, ramps, order);
            let at = 16 * paint_offsets(paints)[i] + 4 * k;
            let word = scene_word(paints, ramps, order, i, k);
            &&& order is Little ==> word == bytes[at] + 0x100 * bytes[at + 1] + 0x1_0000 * bytes[at
                + 2] + 0x100_0000 * bytes[at + 3]
            &&& order is Big ==> word == 0x100_0000 * bytes[at] + 0x1_0000 * bytes[at + 1] + 0x100
                * bytes[at + 2] + bytes[at + 3]
        }),
{
}

proof fn scene_words_read_back(
    paints: Seq<EncodedPaint>,
    ramps: Seq<GradientRamp>,
    order: ByteOrder,
    i: int,
)
    requires
        fits(paints),
        0 <= i < paints.len(),
        encode::gpu_form(paints[i], ramps[i], order) is Some,
    ensures
        forall|k: int|
            0 <= k < encode::gpu_form(paints[i], ramps[i], order)->0.words().len()
                ==> #[trigger] scene_word(paints, ramps, order, i, k) == encode::gpu_form(
                paints[i],
                ramps[i],
                order,
            )->0.words()[k],
{
    texels_before_monotone(paints, i, paints.len() as int);
    assert(paint_offsets(paints)[i] == texels_before(paints, i));
    assert forall|k: int|
        0 <= k < encode::gpu_form(
            paints[i],
            ramps[i],
            order,
        )->0.words().len() implies #[trigger] scene_word(paints, ramps, order, i, k)
        == encode::gpu_form(paints[i], ramps[i], order)->0.words()[k] by {
        paint_word_reads_back(paints, ramps, order, i, k);
    }
}

/// Every gradient of a scene lies behind its offset with the place of its ramp, its extend mode
/// and its transform.
pub proof fn scene_holds_gradient(
    paints: Seq<EncodedPaint>,
    ramps: Seq<GradientRamp>,
    order: ByteOrder,
    i: int,
)
    requires
        fits(paints),
        0 <= i < paints.len(),
        paints[i] is Gradient,
    ensures
        ({
            let gradient = paints[i]->Gradient_0;
            let word = |k: int| scene_word(paints, ramps, order, i, k);
            &&& word(0) & 0x3fff_ffff == ramps[i].width & 0x3fff_ffff
            &&& gradient.extend is Pad ==> word(0) >> 30u32 == ramps[i].width >> 30u32
            &&& gradient.extend is Repeat ==> word(0) >> 30u32 == (ramps[i].width >> 30u32) | 1
            &&& gradient.extend is Reflect ==> word(0) >> 30u32 == (ramps[i].width >> 30u32) | 2
            &&& word(1) == ramps[i].start
            &&& word(2) == gradient.transform@[0]
            &&& word(3) == gradient.transform@[1]
            &&& word(4) == gradient.transform@[2]
            &&& word(5) == gradient.transform@[3]
            &&& word(6) == gradient.transform@[4]
            &&& word(7) == gradient.transform@[5]
        }),
{
    scene_words_read_back(paints, ramps, order, i);
    encode::gradient_head_words(paints[i]->Gradient_0, ramps[i].width, ramps[i].start);
}

/// Every sweep gradient of a scene lies behind its offset with its two angles, in that order, and
/// two zeros.
pub proof fn scene_holds_sweep_gradient(
    paints: Seq<EncodedPaint>,
    ramps: Seq<GradientRamp>,
    order: ByteOrder,
    i: int,
)
    requires
        fits(paints),
        0 <= i < paints.len(),
        paints[i] is Gradient,
        paints[i]->Gradient_0.kind is Sweep,
    ensures
        ({
            let sweep = paints[i]->Gradient_0.kind->Sweep_0;
            let word = |k: int| scene_word(paints, ramps, order, i, k);
            &&& paint_offsets(paints)[i + 1] - paint_offsets(paints)[i] == 3
            &&& word(8) == sweep.start_angle
            &&& word(9) == sweep.inv_angle_delta
            &&& word(10) == 0
            &&& word(11) == 0
        }),
{
    scene_words_read_back(paints, ramps, order, i);
    offsets_step_by_kind(paints, i);
    encode::sweep_gradient_words(paints[i]->Gradient_0, ramps[i].width, ramps[i].start);
}

/// Every radial gradient of a scene lies behind its offset with the number of its form and the
/// parameters of that form, zero where the form has none.
pub proof fn scene_holds_radial_gradient(
    paints: Seq<EncodedPaint>,
    ramps: Seq<GradientRamp>,
    order: ByteOrder,
    i: int,
)
    requires
        fits(paints),
        0 <= i < paints.len(),
        paints[i] is Gradient,
        paints[i]->Gradient_0.kind is Radial,
    ensures
        ({
            let radial = paints[i]->Gradient_0.kind->Radial_0;
            let word = |k: int| scene_word(paints, ramps, order, i, k);
            &&& paint_offsets(paints)[i + 1] - paint_offsets(paints)[i] == 4
            &&& radial matches RadialKind::Radial { bias, scale } ==> {
                &&& word(8) == 0
                &&& word(9) == bias
                &&& word(10) == scale
                &&& word(11) == 0
                &&& word(12) == 0
                &&& word(13) == 0
                &&& word(14) == 0
                &&& word(15) == 0
            }
            &&& radial matches RadialKind::Strip { scaled_r0_squared } ==> {
                &&& word(8) == 1
                &&& word(9) == 0
                &&& word(10) == 0
                &&& word(11) == 0
                &&& word(12) == 0
                &&& word(13) == 0
                &&& word(14) == 0
                &&& word(15) == scaled_r0_squared
            }
            &&& radial matches RadialKind::Focal { focal_data, fp0, fp1 } ==> {
                &&& focal_data.f_is_swapped ==> word(8) == 6
                &&& !focal_data.f_is_swapped ==> word(8) == 2
                &&& word(9) == fp0
                &&& word(10) == fp1
                &&& word(11) == fp0
                &&& word(12) == fp1
                &&& word(13) == focal_data.fr1
                &&& word(14) == focal_data.f_focal_x
                &&& word(15) == 0
            }
        }),
{
    scene_words_read_back(paints, ramps, order, i);
    offsets_step_by_kind(paints, i);
    encode::radial_gradient_words(paints[i]->Gradient_0, ramps[i].width, ramps[i].start);
}

/// Every external texture of a scene lies behind its offset with its sampling codes marked as
/// external, the size and the corner of its region, its transform, its tint and a zero.
pub proof fn scene_holds_external_texture(
    paints: Seq<EncodedPaint>,
    ramps: Seq<GradientRamp>,
    order: ByteOrder,
    i: int,
)
    requires
        fits(paints),
        0 <= i < paints.len(),
        paints[i] is ExternalTexture,
    ensures
        ({
            let image = paints[i]->ExternalTexture_0;
            let region = image.source_region;
            let word = |k: int| scene_word(paints, ramps, order, i, k);
            let quality: int = match image.sampler.quality {
                ImageQuality::Low => 0,
                ImageQuality::Medium => 1,
                ImageQuality::High => 2,
            };
            let x_extend: int = match image.sampler.x_extend {
                Extend::Pad => 0,
                Extend::Repeat => 1,
                Extend::Reflect => 2,
            };
            let y_extend: int = match image.sampler.y_extend {
                Extend::Pad => 0,
                Extend::Repeat => 1,
                Extend::Reflect => 2,
            };
            &&& paint_offsets(paints)[i + 1] - paint_offsets(paints)[i] == 3
            &&& word(0) == 0x4000 + 16 * y_extend + 4 * x_extend + quality
            &&& region.x0 <= region.x1 ==> word(1) / 0x1_0000 == region.x1 - region.x0
            &&& region.x0 > region.x1 ==> word(1) / 0x1_0000 == 0
            &&& region.y0 <= region.y1 ==> word(1) % 0x1_0000 == region.y1 - region.y0
            &&& region.y0 > region.y1 ==> word(1) % 0x1_0000 == 0
            &&& word(2) / 0x1_0000 == region.x0
            &&& word(2) % 0x1_0000 == region.y0
            &&& word(3) == image.transform@[0]
            &&& word(4) == image.transform@[1]
            &&& word(5) == image.transform@[2]
            &&& word(6) == image.transform@[3]
            &&& word(7) == image.transform@[4]
            &&& word(8) == image.transform@[5]
            &&& word(9) == image.tint
            &&& word(10) == image.tint_mode
            &&& word(11) == 0
        }),
{
    scene_words_read_back(paints, ramps, order, i);
    offsets_step_by_kind(paints, i);
    encode::external_texture_words(paints[i]->ExternalTexture_0);
}

/// Every blurred rounded rectangle of a scene, whatever its fields, lies behind its offset in five
/// texels: its transform, color, invert flag, parameters, width and height, and two zeros.
pub proof fn scene_holds_blurred_rounded_rect(
    paints: Seq<EncodedPaint>,
    ramps: Seq<GradientRamp>,
    order: ByteOrder,
    i: int,
)
    requires
        fits(paints),
        0 <= i < paints.len(),
        paints[i] is BlurredRoundedRect,
    ensures
        ({
            let rect = paints[i]->BlurredRoundedRect_0;
            let word = |k: int| scene_word(paints, ramps, order, i, k);
            &&& paint_offsets(paints)[i + 1] - paint_offsets(paints)[i] == 5
            &&& word(0) == rect.transform@[0]
            &&& word(1) == rect.transform@[1]
            &&& word(2) == rect.transform@[2]
            &&& word(3) == rect.transform@[3]
            &&& word(4) == rect.transform@[4]
            &&& word(5) == rect.transform@[5]
            &&& order is Little ==> word(6) == rect.color.r + 0x100 * rect.color.g + 0x1_0000
                * rect.color.b + 0x100_0000 * rect.color.a
            &&& order is Big ==> word(6) == 0x100_0000 * rect.color.r + 0x1_0000 * rect.color.g
                + 0x100 * rect.color.b + rect.color.a
            &&& rect.invert ==> word(7) == 1
            &&& !rect.invert ==> word(7) == 0
            &&& word(8) == rect.exponent
            &&& word(9) == rect.recip_exponent
            &&& word(10) == rect.scale
            &&& word(11) == rect.std_dev_inv
            &&& word(12) == rect.min_edge
            &&& word(13) == rect.w
            &&& word(14) == rect.h
            &&& word(15) == rect.r1
            &&& word(16) == rect.width
            &&& word(17) == rect.height
            &&& word(18) == 0
            &&& word(19) == 0
        }),
{
    scene_words_read_back(paints, ramps, order, i);
    offsets_step_by_kind(paints, i);
    encode::blurred_rounded_rect_words(paints[i]->BlurredRoundedRect_0, order);
}

/// The ramp cache is asked for the ramp of a gradient under the index of that gradient, in the
/// state that the paints before it have left, and the ramp that it gives is the gradient's. No
/// other paint touches the cache.
pub proof fn gradients_draw_their_own_ramps<C, G: Fn(C, usize) -> (C, GradientRamp)>(
    get_or_create_ramp: G,
    place: spec_fn(int) -> GradientRamp,
    paints: Seq<EncodedPaint>,
    caches: Seq<C>,
    ramps: Seq<GradientRamp>,
    i: int,
)
    requires
        ramps_drawn(get_or_create_ramp, paints, caches, ramps),
        forall|cache: C, index: usize, drawn: (C, GradientRamp)| #[trigger]
            get_or_create_ramp.ensures((cache, index), drawn) ==> drawn.1 == place(index as int),
        0 <= i < paints.len() <= usize::MAX,
    ensures
        paints[i] is Gradient ==> ramps[i] == place(i) && get_or_create_ramp.ensures(
            (caches[i], i as usize),
            (caches[i + 1], ramps[i]),
        ),
        paints[i] !is Gradient ==> caches[i + 1] == caches[i],
{
    assert(ramp_drawn(get_or_create_ramp, paints, caches, ramps, i));
}

/// The indices of the gradients among the first `n` paints, in order.
pub open spec fn gradients_among(paints: Seq<EncodedPaint>, n: int) -> Seq<int>
    decreases n,
{
    if n <= 0 {
        Seq::empty()
    } else if paints[n - 1] is Gradient {
        gradients_among(paints, n - 1).push(n - 1)
    } else {
        gradients_among(paints, n - 1)
    }
}

/// A cache that keeps a list of the indices that it is asked for ends up with those of the
/// gradients of the scene, each once and in scene order.
pub proof fn ramps_are_asked_for_in_scene_order<C, G: Fn(C, usize) -> (C, GradientRamp)>(
    get_or_create_ramp: G,
    asked: spec_fn(C) -> Seq<int>,
    paints: Seq<EncodedPaint>,
    caches: Seq<C>,
    ramps: Seq<GradientRamp>,
    n: int,
)
    requires
        ramps_drawn(get_or_create_ramp, paints, caches, ramps),
        forall|cache: C, index: usize, drawn: (C, GradientRamp)| #[trigger]
            get_or_create_ramp.ensures((cache, index), drawn) ==> asked(drawn.0) == asked(
                cache,
            ).push(index as int),
        0 <= n <= paints.len() <= usize::MAX,
    ensures
        caches.len() == paints.len() + 1,
        ramps.len() == paints.len(),
        asked(caches[n]) == asked(caches[0]) + gradients_among(paints, n),
    decreases n,
{
    if n > 0 {
        ramps_are_asked_for_in_scene_order(
            get_or_create_ramp,
            asked,
            paints,
            caches,
            ramps,
            n - 1,
        );
        assert(ramp_drawn(get_or_create_ramp, paints, caches, ramps, n - 1));
    }
    assert(asked(caches[n]) =~= asked(caches[0]) + gradients_among(paints, n));
}

} // verus!
