//! Binding layouts and compute pipelines.
//!
//! The bind-group layout declares which kind of resource each slot of the
//! common group carries; the pipeline cache hands out one stable identifier
//! per distinct pipeline and records which of them the host has finished
//! compiling. Compilation is requested once per pipeline and cached:
//! re-queueing an already-queued pipeline returns the existing identifier
//! and changes nothing.

use vstd::prelude::*;

verus! {

use crate::resources::BufferScheme;
use crate::resources::alloc_count;

/// Size in bytes of the twiddle-table storage buffer: `8192` complex
/// entries of two 32-bit floats each.
pub const ROOTS_BUFFER_BYTES: u64 = 65536;

/// Size in bytes of the push-constant range of every transform pipeline,
/// carrying the starting stage index of the pass.
pub const PUSH_CONSTANT_BYTES: u32 = 4;

/// The kind of resource a slot of the common bind-group layout carries.
#[derive(Clone, Copy, Debug, PartialEq, Eq, Structural)]
pub enum BindingKind {
    /// The settings uniform, read-only.
    SettingsUniform,
    /// The twiddle-table storage buffer, read-only, at least
    /// `ROOTS_BUFFER_BYTES` long.
    RootsStorage,
    /// A read-write storage texture of the ping-pong set.
    StorageTexture,
}

/// The slot assignment of the common layout for the given scheme: the
/// settings uniform at slot 0, the twiddle table at slot 1, then one
/// storage texture per texture of the buffer set.
pub open spec fn layout_seq(scheme: BufferScheme) -> Seq<BindingKind> {
    seq![BindingKind::SettingsUniform, BindingKind::RootsStorage] + Seq::new(
        alloc_count(scheme) as nat,
        |i: int| BindingKind::StorageTexture,
    )
}

/// The bind-group layouts shared by every transform pipeline.
pub struct FftBindGroupLayouts {
    /// The common layout (group 0), stable across passes.
    pub common: Vec<BindingKind>,
}

impl FftBindGroupLayouts {
    /// Declares the common layout for the given buffer scheme.
    pub fn new(scheme: BufferScheme) -> (r: FftBindGroupLayouts)
        ensures
            r.common@ == layout_seq(scheme),
    {
        let mut common: Vec<BindingKind> = Vec::new();
        common.push(BindingKind::SettingsUniform);
        common.push(BindingKind::RootsStorage);
        let count: u32 = 2 * scheme.pair_count();
        let mut n: u32 = 0;
        while n < count
            invariant
                n <= count,
                common@.len() == 2 + n,
                common@[0] == BindingKind::SettingsUniform,
                common@[1] == BindingKind::RootsStorage,
                forall|i: int| 2 <= i < common@.len() ==> common@[i] == BindingKind::StorageTexture,
            decreases count - n,
        {
            common.push(BindingKind::StorageTexture);
            n = n + 1;
        }
        proof {
            assert(common@ =~= layout_seq(scheme));
        }
        FftBindGroupLayouts { common }
    }
}

/// The distinct compute pipelines of this subsystem, keyed by transform
/// direction and pass axis, plus the stand-alone pattern generator.
#[derive(Clone, Copy, Debug, PartialEq, Eq, Structural)]
pub enum PipelineKind {
    FftHorizontal,
    FftVertical,
    IfftHorizontal,
    IfftVertical,
    PatternGeneration,
}

/// Size in bytes of the push-constant range a pipeline is compiled with:
/// the transform pipelines carry the starting stage index, the pattern
/// generator carries nothing.
pub open spec fn spec_push_constant_bytes(kind: PipelineKind) -> int {
    if kind is PatternGeneration {
        0
    } else {
        PUSH_CONSTANT_BYTES as int
    }
}

impl PipelineKind {
    pub fn push_constant_bytes(self) -> (r: u32)
        ensures
            r as int == spec_push_constant_bytes(self),
    {
        match self {
            PipelineKind::PatternGeneration => 0,
            _ => PUSH_CONSTANT_BYTES,
        }
    }
}

/// The pipeline cache: one stable identifier per queued pipeline, and a
/// readiness flag per identifier that the host raises once the GPU
/// compilation finishes.
pub struct PipelineCache {
    pub kinds: Vec<PipelineKind>,
    pub ready: Vec<bool>,
}

impl PipelineCache {
    pub open spec fn wf(self) -> bool {
        self.kinds@.len() == self.ready@.len()
    }

    /// Whether the pipeline behind `id` exists and has finished compiling.
    pub open spec fn is_ready(self, id: int) -> bool {
        0 <= id < self.ready@.len() && self.ready@[id]
    }

    pub fn new() -> (r: PipelineCache)
        ensures
            r.wf(),
            r.kinds@.len() == 0,
    {
        PipelineCache { kinds: Vec::new(), ready: Vec::new() }
    }

    /// Requests compilation of a pipeline. Queueing is idempotent: a kind
    /// already queued is not queued again — its existing identifier comes
    /// back and the cache is untouched; a new kind is appended, not yet
    /// ready.
    pub fn queue_compute_pipeline(&mut self, kind: PipelineKind) -> (id: usize)
        requires
            old(self).wf(),
        ensures
            final(self).wf(),
            (id as int) < final(self).kinds@.len(),
            final(self).kinds@[id as int] == kind,
            forall|j: int| 0 <= j < id ==> final(self).kinds@[j] != kind,
            old(self).kinds@.contains(kind) ==> *final(self) == *old(self),
            !old(self).kinds@.contains(kind) ==> ({
                &&& final(self).kinds@ == old(self).kinds@.push(kind)
                &&& final(self).ready@ == old(self).ready@.push(false)
                &&& id as int == old(self).kinds@.len()
            }),
    {
        let len: usize = self.kinds.len();
        let mut i: usize = 0;
        while i < len
            invariant
                i <= len,
                len == self.kinds@.len(),
                *self == *old(self),
                self.wf(),
                forall|j: int| 0 <= j < i ==> self.kinds@[j] != kind,
            decreases len - i,
        {
            if self.kinds[i] == kind {
                return i;
            }
            i = i + 1;
        }
        assert(!self.kinds@.contains(kind));
        self.kinds.push(kind);
        self.ready.push(false);
        len
    }

    /// Records that the GPU finished compiling the pipeline behind `id`.
    pub fn mark_ready(&mut self, id: usize)
        requires
            old(self).wf(),
            (id as int) < old(self).ready@.len(),
        ensures
            final(self).wf(),
            final(self).kinds@ == old(self).kinds@,
            final(self).ready@ == old(self).ready@.update(id as int, true),
    {
        self.ready[id] = true;
    }

    /// Looks a pipeline up: its kind when it exists and has finished
    /// compiling, nothing while compilation is still in flight.
    pub fn get_compute_pipeline(&self, id: usize) -> (r: Option<PipelineKind>)
        requires
            self.wf(),
        ensures
            r is Some <==> self.is_ready(id as int),
            r matches Some(k) ==> k == self.kinds@[id as int],
    {
        if id < self.ready.len() && self.ready[id] {
            Some(self.kinds[id])
        } else {
            None
        }
    }
}

/// The identifiers of the five pipelines of one transform configuration.
#[derive(Clone, Copy, Debug, PartialEq, Eq)]
pub struct FftPipelines {
    pub fft_horizontal: usize,
    pub fft_vertical: usize,
    pub ifft_horizontal: usize,
    pub ifft_vertical: usize,
    pub pattern_generation: usize,
}

/// Whether each identifier of `p` names its pipeline in the cache.
pub open spec fn pipelines_wf(p: FftPipelines, cache: PipelineCache) -> bool {
    &&& (p.fft_horizontal as int) < cache.kinds@.len()
    &&& cache.kinds@[p.fft_horizontal as int] == PipelineKind::FftHorizontal
    &&& (p.fft_vertical as int) < cache.kinds@.len()
    &&& cache.kinds@[p.fft_vertical as int] == PipelineKind::FftVertical
    &&& (p.ifft_horizontal as int) < cache.kinds@.len()
    &&& cache.kinds@[p.ifft_horizontal as int] == PipelineKind::IfftHorizontal
    &&& (p.ifft_vertical as int) < cache.kinds@.len()
    &&& cache.kinds@[p.ifft_vertical as int] == PipelineKind::IfftVertical
    &&& (p.pattern_generation as int) < cache.kinds@.len()
    &&& cache.kinds@[p.pattern_generation as int] == PipelineKind::PatternGeneration
}

impl FftPipelines {
    /// Queues the four transform pipelines (forward and inverse, one per
    /// pass axis) and the pattern generator, and hands back their
    /// identifiers. Pipelines already queued keep their identifiers.
    pub fn new(cache: &mut PipelineCache) -> (r: FftPipelines)
        requires
            old(cache).wf(),
        ensures
            final(cache).wf(),
            pipelines_wf(r, *final(cache)),
            old(cache).kinds@.is_prefix_of(final(cache).kinds@),
            old(cache).ready@.is_prefix_of(final(cache).ready@),
    {
        let fft_horizontal: usize = cache.queue_compute_pipeline(PipelineKind::FftHorizontal);
        let fft_vertical: usize = cache.queue_compute_pipeline(PipelineKind::FftVertical);
        let ifft_horizontal: usize = cache.queue_compute_pipeline(PipelineKind::IfftHorizontal);
        let ifft_vertical: usize = cache.queue_compute_pipeline(PipelineKind::IfftVertical);
        let pattern_generation: usize = cache.queue_compute_pipeline(
            PipelineKind::PatternGeneration,
        );
        FftPipelines {
            fft_horizontal,
            fft_vertical,
            ifft_horizontal,
            ifft_vertical,
            pattern_generation,
        }
    }
}

} // verus!
