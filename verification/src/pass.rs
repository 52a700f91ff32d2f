//! Recorded scheduler operations.
//!
//! Strips are carried through unread, so their type is a parameter: `S` is whatever the renderer
//! hands to its instanced-quad draws.

use vstd::prelude::*;

verus! {

/// Identifies a filter layer.
pub type LayerId = u32;

/// The kind of render target that a pass draws into.
#[derive(Debug, Clone, Copy, PartialEq, Eq, Structural)]
pub enum CaptureTargetKind {
    /// The root output. The target index is unused.
    Root,
    /// One of the two clip and blend slot textures. The target index tells which.
    SlotTexture,
    /// A filter atlas layer. The target index is its [`LayerId`].
    FilterLayer,
}

impl CaptureTargetKind {
    /// The number that stands for the kind in foreign code.
    pub open spec fn spec_code(self) -> u32 {
        match self {
            CaptureTargetKind::Root => 0,
            CaptureTargetKind::SlotTexture => 1,
            CaptureTargetKind::FilterLayer => 2,
        }
    }

    /// The number that stands for the kind in foreign code.
    pub fn code(self) -> (code: u32)
        ensures
            code == self.spec_code(),
            code <= 2,
            self is Root <==> code == 0,
            self is SlotTexture <==> code == 1,
            self is FilterLayer <==> code == 2,
    {
        match self {
            CaptureTargetKind::Root => 0,
            CaptureTargetKind::SlotTexture => 1,
            CaptureTargetKind::FilterLayer => 2,
        }
    }
}

/// Whether a pass loads or clears its target before drawing.
#[derive(Debug, Clone, Copy, PartialEq, Eq, Structural)]
pub enum CaptureLoadOp {
    /// The contents of the target are kept.
    Load,
    /// The target is cleared to transparent black first.
    Clear,
}

impl CaptureLoadOp {
    /// The number that stands for the operation in foreign code.
    pub open spec fn spec_code(self) -> u32 {
        match self {
            CaptureLoadOp::Load => 0,
            CaptureLoadOp::Clear => 1,
        }
    }

    /// The number that stands for the operation in foreign code.
    pub fn code(self) -> (code: u32)
        ensures
            code == self.spec_code(),
            code <= 1,
            self is Load <==> code == 0,
            self is Clear <==> code == 1,
    {
        match self {
            CaptureLoadOp::Load => 0,
            CaptureLoadOp::Clear => 1,
        }
    }
}

/// The render target that the scheduler names when it draws strips.
#[derive(Debug, Clone, Copy, PartialEq, Eq, Structural)]
pub enum StripPassRenderTarget {
    /// The root output.
    Root,
    /// A slot texture, 0 or 1.
    SlotTexture(u8),
    /// A filter atlas layer.
    FilterLayer(LayerId),
}

impl StripPassRenderTarget {
    /// The kind and the index under which the target is recorded.
    pub open spec fn flattened(self) -> (CaptureTargetKind, u32) {
        match self {
            StripPassRenderTarget::Root => (CaptureTargetKind::Root, 0),
            StripPassRenderTarget::SlotTexture(i) => (CaptureTargetKind::SlotTexture, i as u32),
            StripPassRenderTarget::FilterLayer(layer_id) => (
                CaptureTargetKind::FilterLayer,
                layer_id,
            ),
        }
    }
}

/// What the scheduler wants done to a target before it draws.
#[derive(Debug, Clone, Copy, PartialEq, Eq, Structural)]
pub enum LoadOp {
    /// Keep the contents.
    Load,
    /// Clear to transparent black.
    Clear,
}

impl LoadOp {
    /// The operation as it is recorded.
    pub open spec fn captured(self) -> CaptureLoadOp {
        match self {
            LoadOp::Load => CaptureLoadOp::Load,
            LoadOp::Clear => CaptureLoadOp::Clear,
        }
    }
}

/// A run of alpha strips that share one external texture.
#[derive(Debug, Clone, Copy, PartialEq, Eq, Structural)]
pub struct ExternalTextureRun {
    /// The handle of the texture.
    pub texture_id: u64,
    /// The first strip of the run.
    pub strip_start: usize,
    /// The strip past the last one of the run.
    pub strip_end: usize,
}

/// The name under which readers of a captured pass know its runs.
pub type CapturedExternalTextureRun = ExternalTextureRun;

/// One recorded draw: an opaque batch, then an alpha batch, into a single target.
#[derive(Debug)]
pub struct CapturedPass<S> {
    /// The kind of target.
    pub target_kind: CaptureTargetKind,
    /// Slot texture or filter layer, by `target_kind`; 0 for the root.
    pub target_index: u32,
    /// What happens to the target at the start of the pass.
    pub load_op: CaptureLoadOp,
    /// Opaque strips, front to back.
    pub opaque: Vec<S>,
    /// Alpha strips, front to back.
    pub alpha: Vec<S>,
    /// Runs within `alpha` that share one external texture.
    pub external_runs: Vec<ExternalTextureRun>,
}

/// A recorded scheduler operation.
#[derive(Debug)]
pub enum CaptureOp<S> {
    /// Clear slots of a slot texture before they are reused.
    ClearSlots {
        /// The slot texture, 0 or 1.
        texture_index: u32,
        /// The slots to clear.
        slots: Vec<u32>,
    },
    /// Draw an opaque and an alpha batch.
    RenderStrips(CapturedPass<S>),
    /// Apply the filter of a layer whose content has been drawn.
    ApplyFilter {
        /// The layer.
        layer_id: u32,
    },
}

/// What a captured pass holds.
#[verifier::ext_equal]
pub struct PassView<S> {
    /// The kind of target.
    pub target_kind: CaptureTargetKind,
    /// The index of the target.
    pub target_index: u32,
    /// What happens to the target at the start of the pass.
    pub load_op: CaptureLoadOp,
    /// Opaque strips.
    pub opaque: Seq<S>,
    /// Alpha strips.
    pub alpha: Seq<S>,
    /// External texture runs.
    pub external_runs: Seq<ExternalTextureRun>,
}

/// What a recorded operation holds.
#[verifier::ext_equal]
pub enum OpView<S> {
    /// Clear slots.
    ClearSlots {
        /// The slot texture.
        texture_index: u32,
        /// The slots.
        slots: Seq<u32>,
    },
    /// Draw strips.
    RenderStrips(PassView<S>),
    /// Apply a filter.
    ApplyFilter {
        /// The layer.
        layer_id: u32,
    },
}

impl<S> View for CapturedPass<S> {
    type V = PassView<S>;

    open spec fn view(&self) -> PassView<S> {
        PassView {
            target_kind: self.target_kind,
            target_index: self.target_index,
            load_op: self.load_op,
            opaque: self.opaque@,
            alpha: self.alpha@,
            external_runs: self.external_runs@,
        }
    }
}

impl<S> View for CaptureOp<S> {
    type V = OpView<S>;

    open spec fn view(&self) -> OpView<S> {
        match self {
            CaptureOp::ClearSlots { texture_index, slots } => OpView::ClearSlots {
                texture_index: *texture_index,
                slots: slots@,
            },
            CaptureOp::RenderStrips(pass) => OpView::RenderStrips(pass@),
            CaptureOp::ApplyFilter { layer_id } => OpView::ApplyFilter { layer_id: *layer_id },
        }
    }
}

/// What a sequence of recorded operations holds.
pub open spec fn ops_view<S>(ops: Seq<CaptureOp<S>>) -> Seq<OpView<S>> {
    ops.map_values(|op: CaptureOp<S>| op@)
}

/// A call that the scheduler makes on its backend.
#[verifier::ext_equal]
pub enum BackendCall<S> {
    /// [`CaptureBackend::clear_slots`].
    ClearSlots {
        /// The slot texture.
        texture_index: usize,
        /// The slots.
        slots: Seq<u32>,
    },
    /// [`CaptureBackend::render_strips`].
    RenderStrips {
        /// Opaque strips.
        opaque_strips: Seq<S>,
        /// Alpha strips.
        alpha_strips: Seq<S>,
        /// External texture runs.
        external_texture_runs: Seq<ExternalTextureRun>,
        /// The target.
        target: StripPassRenderTarget,
        /// What happens to the target first.
        load_op: LoadOp,
    },
    /// [`CaptureBackend::apply_filter`].
    ApplyFilter {
        /// The layer.
        layer_id: LayerId,
    },
}

impl<S> BackendCall<S> {
    /// The operation that the call is recorded as.
    pub open spec fn recorded(self) -> OpView<S> {
        match self {
            BackendCall::ClearSlots { texture_index, slots } => OpView::ClearSlots {
                texture_index: texture_index as u32,
                slots,
            },
            BackendCall::RenderStrips {
                opaque_strips,
                alpha_strips,
                external_texture_runs,
                target,
                load_op,
            } => OpView::RenderStrips(
                PassView {
                    target_kind: target.flattened().0,
                    target_index: target.flattened().1,
                    load_op: load_op.captured(),
                    opaque: opaque_strips,
                    alpha: alpha_strips,
                    external_runs: external_texture_runs,
                },
            ),
            BackendCall::ApplyFilter { layer_id } => OpView::ApplyFilter { layer_id },
        }
    }

    /// Whether the slot texture of the call, if it names one, can be recorded in 32 bits.
    pub open spec fn in_range(self) -> bool {
        self matches BackendCall::ClearSlots { texture_index, .. } ==> texture_index <= u32::MAX
    }
}

/// The operations that a sequence of calls is recorded as.
pub open spec fn recording<S>(calls: Seq<BackendCall<S>>) -> Seq<OpView<S>> {
    calls.map_values(|call: BackendCall<S>| call.recorded())
}

/// Records scheduler output instead of drawing it.
#[derive(Debug)]
pub struct CaptureBackend<S> {
    /// The operations recorded so far, in execution order.
    pub ops: Vec<CaptureOp<S>>,
}

impl<S> View for CaptureBackend<S> {
    type V = Seq<OpView<S>>;

    open spec fn view(&self) -> Seq<OpView<S>> {
        ops_view(self.ops@)
    }
}

impl<S: Copy> CaptureBackend<S> {
    /// A backend that has recorded nothing.
    pub fn new() -> (backend: Self)
        ensures
            backend@ == Seq::<OpView<S>>::empty(),
            backend@ == recording(Seq::<BackendCall<S>>::empty()),
            backend.ops@.len() == 0,
    {
        let backend = CaptureBackend { ops: Vec::new() };
        assert(backend@ =~= recording(Seq::<BackendCall<S>>::empty()));
        backend
    }

    fn record(&mut self, op: CaptureOp<S>)
        ensures
            final(self)@ == old(self)@.push(op@),
            final(self).ops@ == old(self).ops@.push(op),
    {
        self.ops.push(op);
        assert(self@ =~= old(self)@.push(op@));
    }

    /// Records that slots of a slot texture are cleared.
    pub fn clear_slots(&mut self, texture_index: usize, slots: &[u32])
        ensures
            final(self)@ == old(self)@.push(
                BackendCall::ClearSlots { texture_index, slots: slots@ }.recorded(),
            ),
            final(self).ops@.len() == old(self).ops@.len() + 1,
            final(self).ops@.drop_last() == old(self).ops@,
            ({
                &&& final(self).ops@.last() matches CaptureOp::ClearSlots {
                    texture_index: index,
                    slots: cleared,
                }
                &&& index == texture_index as u64 % 0x1_0000_0000
                &&& cleared@ == slots@
            }),
    {
        assert(texture_index as u32 == texture_index as u64 % 0x1_0000_0000) by (bit_vector);
        self.record(
            CaptureOp::ClearSlots {
                texture_index: #[verifier::truncate]
                (texture_index as u32),
                slots: copied(slots),
            },
        );
    }

    /// Records one draw of an opaque and an alpha batch.
    pub fn render_strips(
        &mut self,
        opaque_strips: &[S],
        alpha_strips: &[S],
        external_texture_runs: &[ExternalTextureRun],
        target: StripPassRenderTarget,
        load_op: LoadOp,
    )
        ensures
            final(self)@ == old(self)@.push(
                BackendCall::RenderStrips {
                    opaque_strips: opaque_strips@,
                    alpha_strips: alpha_strips@,
                    external_texture_runs: external_texture_runs@,
                    target,
                    load_op,
                }.recorded(),
            ),
            final(self).ops@.len() == old(self).ops@.len() + 1,
            final(self).ops@.drop_last() == old(self).ops@,
            ({
                &&& final(self).ops@.last() matches CaptureOp::RenderStrips(pass)
                &&& pass.opaque@ == opaque_strips@
                &&& pass.alpha@ == alpha_strips@
                &&& pass.external_runs@ == external_texture_runs@
                &&& load_op is Load <==> pass.load_op is Load
                &&& load_op is Clear <==> pass.load_op is Clear
                &&& match target {
                    StripPassRenderTarget::Root => pass.target_kind is Root && pass.target_index
                        == 0,
                    StripPassRenderTarget::SlotTexture(i) => pass.target_kind is SlotTexture
                        && pass.target_index == i,
                    StripPassRenderTarget::FilterLayer(layer_id) => pass.target_kind is FilterLayer
                        && pass.target_index == layer_id,
                }
            }),
    {
        let (target_kind, target_index): (CaptureTargetKind, u32) = match target {
            StripPassRenderTarget::Root => (CaptureTargetKind::Root, 0),
            StripPassRenderTarget::SlotTexture(i) => (CaptureTargetKind::SlotTexture, i as u32),
            StripPassRenderTarget::FilterLayer(layer_id) => {
                (CaptureTargetKind::FilterLayer, layer_id)
            },
        };
        let load_op = match load_op {
            LoadOp::Load => CaptureLoadOp::Load,
            LoadOp::Clear => CaptureLoadOp::Clear,
        };
        self.record(
            CaptureOp::RenderStrips(
                CapturedPass {
                    target_kind,
                    target_index,
                    load_op,
                    opaque: copied(opaque_strips),
                    alpha: copied(alpha_strips),
                    external_runs: copied(external_texture_runs),
                },
            ),
        );
    }

    /// Records that the filter of a layer is applied.
    pub fn apply_filter(&mut self, layer_id: LayerId)
        ensures
            final(self)@ == old(self)@.push(BackendCall::<S>::ApplyFilter { layer_id }.recorded()),
            final(self).ops@.len() == old(self).ops@.len() + 1,
            final(self).ops@.drop_last() == old(self).ops@,
            ({
                &&& final(self).ops@.last() matches CaptureOp::ApplyFilter { layer_id: layer }
                &&& layer == layer_id
            }),
    {
        self.record(CaptureOp::ApplyFilter { layer_id });
    }
}

pub(crate) fn copied<T: Copy>(slice: &[T]) -> (copy: Vec<T>)
    ensures
        copy@ == slice@,
{
    let mut copy: Vec<T> = Vec::new();
    for i in 0..slice.len()
        invariant
            copy@ == slice@.take(i as int),
    {
        copy.push(slice[i]);
        assert(copy@ =~= slice@.take(i + 1));
    }
    assert(slice@.take(slice@.len() as int) == slice@);
    copy
}

/// The kind and the index of a pass tell which target the scheduler named.
pub proof fn target_reads_back(a: StripPassRenderTarget, b: StripPassRenderTarget)
    requires
        a.flattened() == b.flattened(),
    ensures
        a == b,
{
}

/// A further call is recorded behind all the earlier ones.
pub proof fn recording_appends<S>(calls: Seq<BackendCall<S>>, call: BackendCall<S>)
    ensures
        recording(calls.push(call)) == recording(calls).push(call.recorded()),
{
    assert(recording(calls.push(call)) =~= recording(calls).push(call.recorded()));
}

/// The recorded operations tell which calls were made, with which arguments and in which order:
/// different calls never leave the same recording.
pub proof fn recording_reads_back<S>(a: Seq<BackendCall<S>>, b: Seq<BackendCall<S>>)
    requires
        forall|i: int| 0 <= i < a.len() ==> (#[trigger] a[i]).in_range(),
        forall|i: int| 0 <= i < b.len() ==> (#[trigger] b[i]).in_range(),
        recording(a) == recording(b),
    ensures
        a == b,
{
    assert(a.len() == recording(a).len() == recording(b).len() == b.len());
    assert forall|i: int| 0 <= i < a.len() implies a[i] == b[i] by {
        assert(recording(a)[i] == a[i].recorded());
        assert(recording(b)[i] == b[i].recorded());
        assert(a[i].in_range() && b[i].in_range());
    }
    assert(a =~= b);
}

/// The root is recorded under index 0, a slot texture under its number and a filter layer under
/// its identifier, each with the kind that it is.
pub proof fn targets_keep_kind_and_index(target: StripPassRenderTarget)
    ensures
        target is Root ==> target.flattened().0 is Root && target.flattened().1 == 0,
        target matches StripPassRenderTarget::SlotTexture(i) ==> target.flattened().0 is SlotTexture
            && target.flattened().1 == i,
        target matches StripPassRenderTarget::FilterLayer(layer_id)
            ==> target.flattened().0 is FilterLayer && target.flattened().1 == layer_id,
{
}

/// A recorded draw holds the strips and runs that the scheduler handed over, each batch in its own
/// place, for every target and every load operation.
pub proof fn draws_are_recorded_as_given<S>(
    opaque_strips: Seq<S>,
    alpha_strips: Seq<S>,
    external_texture_runs: Seq<ExternalTextureRun>,
    target: StripPassRenderTarget,
    load_op: LoadOp,
)
    ensures
        ({
            let call = BackendCall::RenderStrips {
                opaque_strips,
                alpha_strips,
                external_texture_runs,
                target,
                load_op,
            };
            &&& call.recorded() matches OpView::RenderStrips(pass)
            &&& pass.opaque == opaque_strips
            &&& pass.alpha == alpha_strips
            &&& pass.external_runs == external_texture_runs
            &&& load_op is Load ==> pass.load_op is Load
            &&& load_op is Clear ==> pass.load_op is Clear
            &&& match target {
                StripPassRenderTarget::Root => pass.target_kind is Root && pass.target_index == 0,
                StripPassRenderTarget::SlotTexture(i) => pass.target_kind is SlotTexture
                    && pass.target_index == i,
                StripPassRenderTarget::FilterLayer(layer_id) => pass.target_kind is FilterLayer
                    && pass.target_index == layer_id,
            }
        }),
{
}

/// Swapping the two batches of a draw swaps them in the recording and changes nothing else there.
pub proof fn swapped_batches_are_recorded_swapped<S>(
    a: Seq<S>,
    b: Seq<S>,
    external_texture_runs: Seq<ExternalTextureRun>,
    target: StripPassRenderTarget,
    load_op: LoadOp,
)
    ensures
        ({
            let one = BackendCall::RenderStrips {
                opaque_strips: a,
                alpha_strips: b,
                external_texture_runs,
                target,
                load_op,
            };
            let other = BackendCall::RenderStrips {
                opaque_strips: b,
                alpha_strips: a,
                external_texture_runs,
                target,
                load_op,
            };
            &&& one.recorded() matches OpView::RenderStrips(pass)
            &&& other.recorded() matches OpView::RenderStrips(swapped)
            &&& pass.opaque == a && swapped.alpha == a
            &&& pass.alpha == b && swapped.opaque == b
            &&& pass.external_runs == swapped.external_runs
            &&& pass.target_kind == swapped.target_kind
            &&& pass.target_index == swapped.target_index
            &&& pass.load_op == swapped.load_op
        }),
{
}

/// Cleared slots are recorded as given, with the lower 32 bits of the number of their texture, and
/// an applied filter with its layer.
pub proof fn clears_and_filters_are_recorded_as_given<S>(
    texture_index: usize,
    slots: Seq<u32>,
    layer_id: LayerId,
)
    ensures
        ({
            let clear = BackendCall::<S>::ClearSlots { texture_index, slots };
            let apply = BackendCall::<S>::ApplyFilter { layer_id };
            &&& clear.recorded() matches OpView::ClearSlots {
                texture_index: index,
                slots: cleared,
            }
            &&& index == texture_index as u64 % 0x1_0000_0000
            &&& texture_index <= 0xffff_ffff ==> index == texture_index
            &&& cleared == slots
            &&& apply.recorded() matches OpView::ApplyFilter { layer_id: layer }
            &&& layer == layer_id
        }),
{
    assert(texture_index as u32 == texture_index as u64 % 0x1_0000_0000) by (bit_vector);
}

/// Every call leaves one operation, at the place that the call has in the order of calls.
pub proof fn calls_are_recorded_in_order<S>(calls: Seq<BackendCall<S>>, i: int)
    requires
        0 <= i < calls.len(),
    ensures
        recording(calls).len() == calls.len(),
        recording(calls)[i] == calls[i].recorded(),
{
}

/// The view of a recorded operation holds what the operation itself holds, and the view of a list
/// of operations holds their views in order.
pub proof fn views_hold_the_operations<S>(ops: Seq<CaptureOp<S>>, i: int)
    requires
        0 <= i < ops.len(),
    ensures
        ops_view(ops).len() == ops.len(),
        match (ops[i], ops_view(ops)[i]) {
            (
                CaptureOp::ClearSlots { texture_index, slots },
                OpView::ClearSlots { texture_index: viewed_index, slots: viewed_slots },
            ) => viewed_index == texture_index && viewed_slots == slots@,
            (
                CaptureOp::ApplyFilter { layer_id },
                OpView::ApplyFilter { layer_id: viewed_layer_id },
            ) => viewed_layer_id == layer_id,
            (CaptureOp::RenderStrips(pass), OpView::RenderStrips(view)) => {
                &&& view.target_kind == pass.target_kind
                &&& view.target_index == pass.target_index
                &&& view.load_op == pass.load_op
                &&& view.opaque == pass.opaque@
                &&& view.alpha == pass.alpha@
                &&& view.external_runs == pass.external_runs@
            },
            _ => false,
        },
{
}

} // verus!
