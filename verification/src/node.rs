//! The per-frame dispatch orchestrator.
//!
//! Once per frame a transform request advances through three states:
//! buffers are sized first, then the bind groups are built over them, and
//! only then are compute passes planned. A planned frame is a fixed
//! dependency chain of graph nodes — pattern generation, the forward
//! transform, the inverse transform — each of which contributes its passes
//! in order; a node whose pipelines are still compiling is skipped for the
//! frame and reported, never dispatched half-ready.
//!
//! Each transform node issues two sequential passes: the horizontal pass
//! walks every row with the starting stage index 0, and the vertical pass
//! continues the butterfly where the horizontal pass left off. Workgroup
//! counts divide the grid by the fixed workgroup size, rounding up.

use vstd::prelude::*;

verus! {

use crate::FftError;
use crate::div_ceil_u32;
use crate::settings::FftSettings;
use crate::spec_div_ceil;
use crate::pipeline::FftPipelines;
use crate::pipeline::PipelineCache;
use crate::resources::FftContext;
use crate::resources::alloc_possible;
use crate::resources::bind_group_seq;
use crate::resources::bindings_inputs_ready;
use crate::resources::ensure_kept;
use crate::resources::prepare_fft_bind_groups;
use crate::resources::prepare_fft_textures;

/// The render-graph node labels of this subsystem.
#[derive(Clone, Copy, Debug, PartialEq, Eq, Structural, Hash)]
pub enum FftNode {
    ComputeFFT,
    ComputeIFFT,
    GeneratePattern,
}

/// Threads per workgroup of the transform shaders, along the pass axis.
pub const WORKGROUP_SIZE: u32 = 256;

/// Threads per workgroup of the pattern-generation shader, per axis.
pub const PATTERN_WORKGROUP_SIZE: u32 = 16;

/// Butterfly stages the horizontal pass consumes; the vertical pass
/// continues from there.
pub const HORIZONTAL_STAGES: u32 = 8;

/// Which of the request's two I/O bind groups a pass attaches.
#[derive(Clone, Copy, Debug, PartialEq, Eq, Structural)]
pub enum IoBinding {
    HorizontalIo,
    VerticalIo,
}

/// One compute dispatch the host must encode, in its own pass scope so
/// that its writes are visible to the next pass.
#[derive(Clone, Copy, Debug, PartialEq, Eq)]
pub struct ComputePass {
    /// Cache identifier of the pipeline to set.
    pub pipeline: usize,
    /// Which bind group to attach.
    pub io: IoBinding,
    /// The starting stage index, pushed as a 4-byte constant; absent for
    /// the pattern generator, which takes none.
    pub push_constant: Option<u32>,
    pub workgroups_x: u32,
    pub workgroups_y: u32,
    pub workgroups_z: u32,
}

/// The starting stage index of the vertical pass: whatever the horizontal
/// pass left unconsumed.
pub open spec fn spec_vertical_start(orders: u32) -> u32 {
    if orders >= HORIZONTAL_STAGES {
        (orders - HORIZONTAL_STAGES) as u32
    } else {
        0u32
    }
}

/// The two passes of one transform node over the given pipelines: rows
/// first, then columns, same workgroup grid, the vertical pass continuing
/// the stage sequence.
pub open spec fn transform_passes(
    horizontal: usize,
    vertical: usize,
    s: FftSettings,
) -> Seq<ComputePass> {
    seq![
        ComputePass {
            pipeline: horizontal,
            io: IoBinding::HorizontalIo,
            push_constant: Some(0u32),
            workgroups_x: spec_div_ceil(s.size.x as int, WORKGROUP_SIZE as int) as u32,
            workgroups_y: s.size.y,
            workgroups_z: 1u32,
        },
        ComputePass {
            pipeline: vertical,
            io: IoBinding::VerticalIo,
            push_constant: Some(spec_vertical_start(s.orders)),
            workgroups_x: spec_div_ceil(s.size.x as int, WORKGROUP_SIZE as int) as u32,
            workgroups_y: s.size.y,
            workgroups_z: 1u32,
        },
    ]
}

/// The single pass of the pattern-generation node: a two-dimensional
/// workgroup grid covering the full extent, no push constant.
pub open spec fn pattern_passes(pipeline: usize, s: FftSettings) -> Seq<ComputePass> {
    seq![
        ComputePass {
            pipeline: pipeline,
            io: IoBinding::HorizontalIo,
            push_constant: None,
            workgroups_x: spec_div_ceil(s.size.x as int, PATTERN_WORKGROUP_SIZE as int) as u32,
            workgroups_y: spec_div_ceil(s.size.y as int, PATTERN_WORKGROUP_SIZE as int) as u32,
            workgroups_z: 1u32,
        },
    ]
}

/// The passes a node dispatches when its pipelines are ready.
pub open spec fn node_passes(node: FftNode, p: FftPipelines, s: FftSettings) -> Seq<ComputePass> {
    match node {
        FftNode::ComputeFFT => transform_passes(p.fft_horizontal, p.fft_vertical, s),
        FftNode::ComputeIFFT => transform_passes(p.ifft_horizontal, p.ifft_vertical, s),
        FftNode::GeneratePattern => pattern_passes(p.pattern_generation, s),
    }
}

/// Whether every pipeline a node needs has finished compiling.
pub open spec fn node_ready(node: FftNode, p: FftPipelines, c: PipelineCache) -> bool {
    match node {
        FftNode::ComputeFFT => c.is_ready(p.fft_horizontal as int) && c.is_ready(
            p.fft_vertical as int,
        ),
        FftNode::ComputeIFFT => c.is_ready(p.ifft_horizontal as int) && c.is_ready(
            p.ifft_vertical as int,
        ),
        FftNode::GeneratePattern => c.is_ready(p.pattern_generation as int),
    }
}

/// Plans the compute passes of one graph node for this frame: the node's
/// passes in order when every pipeline it needs is compiled, and
/// `PipelineNotReady` — skip, don't dispatch — while any is still in
/// flight.
pub fn plan_node_passes(
    node: FftNode,
    settings: &FftSettings,
    pipelines: &FftPipelines,
    cache: &PipelineCache,
) -> (r: Result<Vec<ComputePass>, FftError>)
    requires
        cache.wf(),
    ensures
        node_ready(node, *pipelines, *cache) ==> (r matches Ok(v) && v@ == node_passes(
            node,
            *pipelines,
            *settings,
        )),
        !node_ready(node, *pipelines, *cache) ==> r == Err::<Vec<ComputePass>, FftError>(
            FftError::PipelineNotReady,
        ),
{
    match node {
        FftNode::GeneratePattern => {
            if cache.get_compute_pipeline(pipelines.pattern_generation).is_none() {
                return Err(FftError::PipelineNotReady);
            }
            let wx: u32 = div_ceil_u32(settings.size.x, PATTERN_WORKGROUP_SIZE);
            let wy: u32 = div_ceil_u32(settings.size.y, PATTERN_WORKGROUP_SIZE);
            let mut passes: Vec<ComputePass> = Vec::new();
            passes.push(
                ComputePass {
                    pipeline: pipelines.pattern_generation,
                    io: IoBinding::HorizontalIo,
                    push_constant: None,
                    workgroups_x: wx,
                    workgroups_y: wy,
                    workgroups_z: 1,
                },
            );
            proof {
                assert(passes@ =~= pattern_passes(pipelines.pattern_generation, *settings));
            }
            Ok(passes)
        },
        _ => {
            let (horizontal, vertical): (usize, usize) = match node {
                FftNode::ComputeIFFT => (pipelines.ifft_horizontal, pipelines.ifft_vertical),
                _ => (pipelines.fft_horizontal, pipelines.fft_vertical),
            };
            if cache.get_compute_pipeline(horizontal).is_none() {
                return Err(FftError::PipelineNotReady);
            }
            if cache.get_compute_pipeline(vertical).is_none() {
                return Err(FftError::PipelineNotReady);
            }
            let wx: u32 = div_ceil_u32(settings.size.x, WORKGROUP_SIZE);
            let vertical_start: u32 = if settings.orders >= HORIZONTAL_STAGES {
                settings.orders - HORIZONTAL_STAGES
            } else {
                0
            };
            let mut passes: Vec<ComputePass> = Vec::new();
            passes.push(
                ComputePass {
                    pipeline: horizontal,
                    io: IoBinding::HorizontalIo,
                    push_constant: Some(0),
                    workgroups_x: wx,
                    workgroups_y: settings.size.y,
                    workgroups_z: 1,
                },
            );
            passes.push(
                ComputePass {
                    pipeline: vertical,
                    io: IoBinding::VerticalIo,
                    push_constant: Some(vertical_start),
                    workgroups_x: wx,
                    workgroups_y: settings.size.y,
                    workgroups_z: 1,
                },
            );
            proof {
                assert(passes@ =~= transform_passes(horizontal, vertical, *settings));
            }
            Ok(passes)
        },
    }
}

/// One node's contribution to a frame: its passes, to be encoded in order.
#[derive(Debug, PartialEq, Eq)]
pub struct NodeDispatch {
    pub node: FftNode,
    pub passes: Vec<ComputePass>,
}

/// A node that could not run this frame, with the recoverable condition
/// that kept it from running.
#[derive(Clone, Copy, Debug, PartialEq, Eq)]
pub struct SkippedNode {
    pub node: FftNode,
    pub reason: FftError,
}

/// Everything one frame dispatches: the ready nodes of the frame's
/// dependency chain in order, and the nodes skipped this frame.
#[derive(Debug, PartialEq, Eq)]
pub struct FramePlan {
    pub nodes: Vec<NodeDispatch>,
    pub skipped: Vec<SkippedNode>,
}

/// The dependency chain of one frame: pattern generation (when the source
/// is synthetic) feeds the forward transform, which feeds the inverse
/// transform (when one is requested). Without either extra, the chain
/// collapses to the forward transform alone.
pub open spec fn frame_node_order(pattern_enabled: bool, inverse_enabled: bool) -> Seq<FftNode> {
    (if pattern_enabled {
        seq![FftNode::GeneratePattern]
    } else {
        Seq::empty()
    }) + seq![FftNode::ComputeFFT] + (if inverse_enabled {
        seq![FftNode::ComputeIFFT]
    } else {
        Seq::empty()
    })
}

/// The sub-sequence of `order` whose nodes are ready, in order.
pub open spec fn picked_nodes(order: Seq<FftNode>, p: FftPipelines, c: PipelineCache) -> Seq<
    FftNode,
>
    decreases order.len(),
{
    if order.len() == 0 {
        Seq::empty()
    } else {
        let rest = picked_nodes(order.drop_last(), p, c);
        if node_ready(order.last(), p, c) {
            rest.push(order.last())
        } else {
            rest
        }
    }
}

/// The sub-sequence of `order` whose nodes are not ready, in order.
pub open spec fn skipped_nodes(order: Seq<FftNode>, p: FftPipelines, c: PipelineCache) -> Seq<
    FftNode,
>
    decreases order.len(),
{
    if order.len() == 0 {
        Seq::empty()
    } else {
        let rest = skipped_nodes(order.drop_last(), p, c);
        if node_ready(order.last(), p, c) {
            rest
        } else {
            rest.push(order.last())
        }
    }
}

/// What one frame did to a transform request.
#[derive(Debug, PartialEq, Eq)]
pub enum FrameAction {
    /// The buffer set was (re)allocated; bindings will be rebuilt next.
    AllocatedBuffers,
    /// The binding set was built; dispatch can start next frame.
    BuiltBindings,
    /// Compute passes were planned for this frame.
    Dispatched(FramePlan),
    /// A recoverable condition stopped this frame; retry next frame.
    Failed(FftError),
}

/// The three states a request advances through, once per frame.
#[derive(Clone, Copy, Debug, PartialEq, Eq, Structural)]
pub enum RequestState {
    /// The buffer set is missing or does not match the settings.
    AwaitBuffers,
    /// The binding set is stale or absent.
    AwaitBindings,
    /// Buffers and bindings are in place; passes can be dispatched.
    Ready,
}

/// The state a context is in.
pub open spec fn spec_request_state(ctx: FftContext) -> RequestState {
    if !ensure_kept(ctx) {
        RequestState::AwaitBuffers
    } else if ctx.bind_groups is None {
        RequestState::AwaitBindings
    } else {
        RequestState::Ready
    }
}

impl FftContext {
    pub fn request_state(&self) -> (r: RequestState)
        ensures
            r == spec_request_state(*self),
    {
        let kept: bool = match &self.textures {
            Some(t) => t.width == self.settings.size.x && t.height == self.settings.size.y
                && t.scheme == self.scheme,
            None => false,
        };
        if !kept {
            RequestState::AwaitBuffers
        } else if self.bind_groups.is_none() {
            RequestState::AwaitBindings
        } else {
            RequestState::Ready
        }
    }
}

/// Whether two context values agree on everything the host configured:
/// the settings, the scheme, the enabled nodes and the upload marks.
pub open spec fn same_request_config(a: FftContext, b: FftContext) -> bool {
    &&& b.settings == a.settings
    &&& b.scheme == a.scheme
    &&& b.pattern_enabled == a.pattern_enabled
    &&& b.inverse_enabled == a.inverse_enabled
    &&& b.settings_uploaded == a.settings_uploaded
    &&& b.roots_uploaded == a.roots_uploaded
}

/// Advances a transform request by one frame. In `AwaitBuffers` the buffer
/// set is sized (or `AllocationFailed` is reported and retried); in
/// `AwaitBindings` the bind groups are built (or `BindingMissing` is
/// reported and retried); in `Ready` the frame's dependency chain is
/// planned — every ready node contributes its passes in order, every
/// not-yet-ready node is skipped for the frame and reported. A failed or
/// skipped step changes nothing.
pub fn dispatch_frame(
    ctx: &mut FftContext,
    pipelines: &FftPipelines,
    cache: &PipelineCache,
) -> (r: FrameAction)
    requires
        old(ctx).wf(),
        cache.wf(),
    ensures
        final(ctx).wf(),
        spec_request_state(*old(ctx)) is AwaitBuffers && alloc_possible(*old(ctx)) ==> ({
            &&& r == FrameAction::AllocatedBuffers
            &&& ensure_kept(*final(ctx))
            &&& final(ctx).bind_groups is None
            &&& spec_request_state(*final(ctx)) is AwaitBindings
            &&& same_request_config(*old(ctx), *final(ctx))
        }),
        spec_request_state(*old(ctx)) is AwaitBuffers && !alloc_possible(*old(ctx)) ==> r
            == FrameAction::Failed(FftError::AllocationFailed) && *final(ctx) == *old(ctx),
        spec_request_state(*old(ctx)) is AwaitBindings && bindings_inputs_ready(*old(ctx)) ==> ({
            &&& r == FrameAction::BuiltBindings
            &&& old(ctx).textures matches Some(t) && final(ctx).bind_groups matches Some(g)
                && g.horizontal_io@ == bind_group_seq(t) && g.vertical_io@ == bind_group_seq(t)
            &&& final(ctx).textures == old(ctx).textures
            &&& spec_request_state(*final(ctx)) is Ready
            &&& same_request_config(*old(ctx), *final(ctx))
        }),
        spec_request_state(*old(ctx)) is AwaitBindings && !bindings_inputs_ready(*old(ctx)) ==> r
            == FrameAction::Failed(FftError::BindingMissing) && *final(ctx) == *old(ctx),
        spec_request_state(*old(ctx)) is Ready ==> ({
            &&& *final(ctx) == *old(ctx)
            &&& r matches FrameAction::Dispatched(plan) && ({
                let order = frame_node_order(old(ctx).pattern_enabled, old(ctx).inverse_enabled);
                &&& plan.nodes@.map_values(|nd: NodeDispatch| nd.node) == picked_nodes(
                    order,
                    *pipelines,
                    *cache,
                )
                &&& forall|j: int|
                    0 <= j < plan.nodes@.len() ==> (#[trigger] plan.nodes@[j]).passes@
                        == node_passes(plan.nodes@[j].node, *pipelines, old(ctx).settings)
                &&& plan.skipped@.map_values(|sk: SkippedNode| sk.node) == skipped_nodes(
                    order,
                    *pipelines,
                    *cache,
                )
                &&& forall|j: int|
                    0 <= j < plan.skipped@.len() ==> (#[trigger] plan.skipped@[j]).reason
                        == FftError::PipelineNotReady
            })
        }),
{
    let state: RequestState = ctx.request_state();
    match state {
        RequestState::AwaitBuffers => {
            match prepare_fft_textures(ctx) {
                Ok(_) => FrameAction::AllocatedBuffers,
                Err(e) => FrameAction::Failed(e),
            }
        },
        RequestState::AwaitBindings => {
            match prepare_fft_bind_groups(ctx) {
                Ok(_) => FrameAction::BuiltBindings,
                Err(e) => FrameAction::Failed(e),
            }
        },
        RequestState::Ready => {
            let mut order: Vec<FftNode> = Vec::new();
            if ctx.pattern_enabled {
                order.push(FftNode::GeneratePattern);
            }
            order.push(FftNode::ComputeFFT);
            if ctx.inverse_enabled {
                order.push(FftNode::ComputeIFFT);
            }
            proof {
                assert(order@ =~= frame_node_order(ctx.pattern_enabled, ctx.inverse_enabled));
            }
            let len: usize = order.len();
            let mut nodes: Vec<NodeDispatch> = Vec::new();
            let mut skipped: Vec<SkippedNode> = Vec::new();
            let mut i: usize = 0;
            while i < len
                invariant
                    i <= len,
                    *ctx == *old(ctx),
                    cache.wf(),
                    len == order@.len(),
                    nodes@.map_values(|nd: NodeDispatch| nd.node) == picked_nodes(
                        order@.take(i as int),
                        *pipelines,
                        *cache,
                    ),
                    forall|j: int|
                        0 <= j < nodes@.len() ==> (#[trigger] nodes@[j]).passes@ == node_passes(
                            nodes@[j].node,
                            *pipelines,
                            ctx.settings,
                        ),
                    skipped@.map_values(|sk: SkippedNode| sk.node) == skipped_nodes(
                        order@.take(i as int),
                        *pipelines,
                        *cache,
                    ),
                    forall|j: int|
                        0 <= j < skipped@.len() ==> (#[trigger] skipped@[j]).reason
                            == FftError::PipelineNotReady,
                decreases len - i,
            {
                let node: FftNode = order[i];
                let ghost prefix = order@.take(i as int);
                proof {
                    assert(order@.take(i + 1).drop_last() =~= prefix);
                    assert(order@.take(i + 1).last() == node);
                }
                match plan_node_passes(node, &ctx.settings, pipelines, cache) {
                    Ok(passes) => {
                        nodes.push(NodeDispatch { node, passes });
                        proof {
                            assert(nodes@.map_values(|nd: NodeDispatch| nd.node) =~= picked_nodes(
                                order@.take(i + 1),
                                *pipelines,
                                *cache,
                            ));
                        }
                    },
                    Err(reason) => {
                        skipped.push(SkippedNode { node, reason });
                        proof {
                            assert(skipped@.map_values(|sk: SkippedNode| sk.node) =~= skipped_nodes(
                                order@.take(i + 1),
                                *pipelines,
                                *cache,
                            ));
                        }
                    },
                }
                i = i + 1;
            }
            proof {
                assert(order@.take(len as int) =~= order@);
            }
            FrameAction::Dispatched(FramePlan { nodes, skipped })
        },
    }
}

} // verus!
