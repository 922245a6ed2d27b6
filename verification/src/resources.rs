//! GPU-resident resources of one transform request: the ping-pong texture
//! set, the bind groups that attach it to the pipelines, and the uploaded
//! twiddle-table buffer.
//!
//! Textures and GPU buffers are identified by plain handles; the host maps
//! each handle to the engine object it allocates for it. All sizing,
//! freshness and slot-assignment decisions are made and verified here; the
//! host only carries them out.

use vstd::prelude::*;

verus! {

use crate::Extent2;
use crate::FftError;
use crate::settings::FftSettings;
use crate::twiddle::FftRoots;
use crate::twiddle::TABLE_LEN;
use crate::twiddle::TwiddleEntry;
use crate::twiddle::zero_table;

/// Usage bit: the texture can be the source of a copy.
pub const USAGE_COPY_SRC: u32 = 1;

/// Usage bit: the texture can be the destination of a copy.
pub const USAGE_COPY_DST: u32 = 2;

/// Usage bit: the texture can be sampled.
pub const USAGE_TEXTURE_BINDING: u32 = 4;

/// Usage bit: the texture can be read and written as storage by compute
/// shaders.
pub const USAGE_STORAGE_BINDING: u32 = 8;

/// Usage bit: the texture can be a render attachment.
pub const USAGE_RENDER_ATTACHMENT: u32 = 16;

/// The usage every transform texture is created with: storage read/write
/// for the butterfly passes, sampling and copies for the host-visible
/// endpoints.
pub const FFT_TEXTURE_USAGE: u32 = USAGE_COPY_SRC | USAGE_COPY_DST | USAGE_TEXTURE_BINDING
    | USAGE_STORAGE_BINDING | USAGE_RENDER_ATTACHMENT;

/// How many ping-pong pairs a buffer set holds.
#[derive(Clone, Copy, Debug, PartialEq, Eq, Structural)]
pub enum BufferScheme {
    /// Two real/imaginary pairs.
    Minimal,
    /// Four real/imaginary pairs, enough to keep the source and the output
    /// visible alongside the intermediates.
    Extended,
}

/// Number of real/imaginary pairs of a scheme.
pub open spec fn spec_pair_count(scheme: BufferScheme) -> int {
    match scheme {
        BufferScheme::Minimal => 2,
        BufferScheme::Extended => 4,
    }
}

impl BufferScheme {
    pub fn pair_count(self) -> (r: u32)
        ensures
            r as int == spec_pair_count(self),
    {
        match self {
            BufferScheme::Minimal => 2,
            BufferScheme::Extended => 4,
        }
    }
}

/// Which half of a complex pair a texture carries.
#[derive(Clone, Copy, Debug, PartialEq, Eq, Structural)]
pub enum BufferPart {
    Re,
    Im,
}

/// Number of textures a buffer set of the given scheme holds.
pub open spec fn alloc_count(scheme: BufferScheme) -> int {
    2 * spec_pair_count(scheme)
}

/// The ping-pong texture set of one transform request. All textures share
/// one size derived from the request's settings; they are allocated
/// together and replaced together. Newly allocated textures start
/// zero-filled.
pub struct FftTextures {
    pub width: u32,
    pub height: u32,
    /// Usage flags every texture of the set is created with.
    pub usage: u32,
    pub scheme: BufferScheme,
    /// One handle per texture: pair `p` holds its real part at slot `2p`
    /// and its imaginary part at slot `2p + 1`.
    pub handles: Vec<u64>,
}

impl FftTextures {
    /// A set holds exactly the textures of its scheme, all distinct.
    pub open spec fn wf(self) -> bool {
        &&& self.handles@.len() == alloc_count(self.scheme)
        &&& forall|i: int, j: int|
            0 <= i < j < self.handles@.len() ==> self.handles@[i] != self.handles@[j]
    }

    /// The handle serving the given role.
    pub open spec fn spec_handle(self, pair: int, part: BufferPart) -> u64 {
        self.handles@[2 * pair + (if part is Im {
            1int
        } else {
            0int
        })]
    }

    /// Stable role-based addressing: the host samples result textures by
    /// pair and part, independent of which pass last wrote them.
    pub fn texture_handle(&self, pair: u32, part: BufferPart) -> (r: u64)
        requires
            self.wf(),
            (pair as int) < spec_pair_count(self.scheme),
        ensures
            r == self.spec_handle(pair as int, part),
    {
        let offset: usize = match part {
            BufferPart::Re => 0,
            BufferPart::Im => 1,
        };
        let index: usize = 2 * (pair as usize) + offset;
        self.handles[index]
    }
}

/// One binding of an I/O bind group.
#[derive(Clone, Copy, Debug, PartialEq, Eq, Structural)]
pub enum BoundResource {
    /// The settings uniform.
    Settings,
    /// The twiddle-table storage buffer.
    Roots,
    /// A storage texture of the request's buffer set.
    Texture { handle: u64 },
}

/// The bindings every pass sees, in slot order: the settings uniform at
/// slot 0, the twiddle table at slot 1, then every texture of the buffer
/// set in handle order.
pub open spec fn bind_group_seq(t: FftTextures) -> Seq<BoundResource> {
    seq![BoundResource::Settings, BoundResource::Roots] + t.handles@.map_values(
        |h: u64| BoundResource::Texture { handle: h },
    )
}

/// The bind groups of one transform request, one per pass axis. Both
/// attach the same resources in the same slots; they differ only in which
/// pipeline consumes them.
pub struct FftBindGroups {
    pub horizontal_io: Vec<BoundResource>,
    pub vertical_io: Vec<BoundResource>,
}

/// The per-request render state the orchestrator advances every frame.
pub struct FftContext {
    pub settings: FftSettings,
    pub scheme: BufferScheme,
    /// Whether a synthetic pattern-generation pass runs before the forward
    /// transform.
    pub pattern_enabled: bool,
    /// Whether the inverse transform runs after the forward one.
    pub inverse_enabled: bool,
    /// Whether the host has uploaded the settings uniform.
    pub settings_uploaded: bool,
    /// Whether the host has uploaded the twiddle-table buffer.
    pub roots_uploaded: bool,
    pub textures: Option<FftTextures>,
    pub bind_groups: Option<FftBindGroups>,
    /// The next fresh texture handle.
    pub next_handle: u64,
}

impl FftContext {
    /// Any textures the context holds form a well-formed set of its scheme.
    pub open spec fn wf(self) -> bool {
        self.textures matches Some(t) ==> (t.wf() && t.scheme == self.scheme)
    }

    pub fn new(
        settings: FftSettings,
        scheme: BufferScheme,
        pattern_enabled: bool,
        inverse_enabled: bool,
    ) -> (r: FftContext)
        ensures
            r.wf(),
            r.settings == settings,
            r.scheme == scheme,
            r.pattern_enabled == pattern_enabled,
            r.inverse_enabled == inverse_enabled,
            !r.settings_uploaded,
            !r.roots_uploaded,
            r.textures is None,
            r.bind_groups is None,
            r.next_handle == 1u64,
    {
        FftContext {
            settings,
            scheme,
            pattern_enabled,
            inverse_enabled,
            settings_uploaded: false,
            roots_uploaded: false,
            textures: None,
            bind_groups: None,
            next_handle: 1,
        }
    }
}

/// Whether the context's buffer set already matches its settings, so that
/// the sizing step keeps it.
pub open spec fn ensure_kept(ctx: FftContext) -> bool {
    ctx.textures matches Some(t) && t.width == ctx.settings.size.x && t.height
        == ctx.settings.size.y && t.scheme == ctx.scheme
}

/// Whether a fresh buffer set can still be allocated.
pub open spec fn alloc_possible(ctx: FftContext) -> bool {
    ctx.next_handle + alloc_count(ctx.scheme) <= u64::MAX
}

/// The all-at-once replacement the sizing step performs when the buffer
/// set is missing or stale: a fresh set of consecutive handles sized to
/// the settings, the bind groups built over the replaced handles
/// invalidated, everything else untouched.
pub open spec fn sizing_realloc(pre: FftContext, post: FftContext) -> bool {
    &&& post.textures matches Some(t) && t.width == pre.settings.size.x && t.height
        == pre.settings.size.y && t.scheme == pre.scheme && t.usage == FFT_TEXTURE_USAGE
        && t.handles@ == Seq::new(alloc_count(pre.scheme) as nat, |i: int| (pre.next_handle + i) as u64)
    &&& post.bind_groups is None
    &&& post.next_handle == pre.next_handle + alloc_count(pre.scheme)
    &&& post.settings == pre.settings
    &&& post.scheme == pre.scheme
    &&& post.pattern_enabled == pre.pattern_enabled
    &&& post.inverse_enabled == pre.inverse_enabled
    &&& post.settings_uploaded == pre.settings_uploaded
    &&& post.roots_uploaded == pre.roots_uploaded
}

/// The state transition of the buffer-sizing step: a matching set is
/// kept untouched, a missing or stale one is replaced whole, and a failed
/// allocation changes nothing.
pub open spec fn sizing_step(pre: FftContext, post: FftContext) -> bool {
    if ensure_kept(pre) {
        post == pre
    } else if alloc_possible(pre) {
        sizing_realloc(pre, post)
    } else {
        post == pre
    }
}

/// Law: buffer sizing is idempotent. One sizing step leaves the context
/// either untouched or holding a set that matches its settings, and a
/// second step over such a context keeps it: nothing is reallocated.
pub proof fn lemma_sizing_idempotent(pre: FftContext, mid: FftContext, post: FftContext)
    requires
        sizing_step(pre, mid),
        sizing_step(mid, post),
    ensures
        post == mid,
{
    if !ensure_kept(pre) && alloc_possible(pre) {
        assert(ensure_kept(mid));
    }
}

/// The buffer-sizing step, run until the request's buffer set matches its
/// settings: an existing set of matching dimensions is kept untouched
/// (`Ok(false)`); otherwise a fresh set of distinct handles sized to the
/// settings replaces the old one all at once (`Ok(true)`), invalidating
/// any bind groups built over the replaced handles. When no handles are
/// left the step fails with `AllocationFailed` and changes nothing.
///
/// Sizing is idempotent: after any `Ok` outcome the buffer set matches the
/// settings, so the next call with unchanged settings keeps it.
pub fn prepare_fft_textures(ctx: &mut FftContext) -> (r: Result<bool, FftError>)
    requires
        old(ctx).wf(),
    ensures
        final(ctx).wf(),
        sizing_step(*old(ctx), *final(ctx)),
        r is Ok ==> ensure_kept(*final(ctx)),
        ensure_kept(*old(ctx)) ==> r == Ok::<bool, FftError>(false),
        !ensure_kept(*old(ctx)) && alloc_possible(*old(ctx)) ==> r == Ok::<bool, FftError>(true),
        !ensure_kept(*old(ctx)) && !alloc_possible(*old(ctx)) ==> r == Err::<bool, FftError>(
            FftError::AllocationFailed,
        ),
{
    let keep: bool = match &ctx.textures {
        Some(t) => t.width == ctx.settings.size.x && t.height == ctx.settings.size.y && t.scheme
            == ctx.scheme,
        None => false,
    };
    if keep {
        return Ok(false);
    }
    let count: u32 = 2 * ctx.scheme.pair_count();
    if ctx.next_handle > u64::MAX - count as u64 {
        return Err(FftError::AllocationFailed);
    }
    let first: u64 = ctx.next_handle;
    let mut handles: Vec<u64> = Vec::new();
    let mut n: u32 = 0;
    while n < count
        invariant
            n <= count,
            count <= 8,
            first + count <= u64::MAX,
            handles@.len() == n,
            forall|i: int| 0 <= i < n ==> handles@[i] == first + i,
        decreases count - n,
    {
        handles.push(first + n as u64);
        n = n + 1;
    }
    proof {
        assert(handles@ =~= Seq::new(alloc_count(ctx.scheme) as nat, |i: int| (first + i) as u64));
    }
    ctx.textures = Some(
        FftTextures {
            width: ctx.settings.size.x,
            height: ctx.settings.size.y,
            usage: FFT_TEXTURE_USAGE,
            scheme: ctx.scheme,
            handles,
        },
    );
    ctx.bind_groups = None;
    ctx.next_handle = first + count as u64;
    Ok(true)
}

/// Whether everything a bind group attaches has been produced.
pub open spec fn bindings_inputs_ready(ctx: FftContext) -> bool {
    ctx.settings_uploaded && ctx.roots_uploaded && ctx.textures is Some
}

/// The slot assignment of one I/O bind group over the given buffer set.
fn build_io_bindings(textures: &FftTextures) -> (r: Vec<BoundResource>)
    ensures
        r@ == bind_group_seq(*textures),
{
    let mut entries: Vec<BoundResource> = Vec::new();
    entries.push(BoundResource::Settings);
    entries.push(BoundResource::Roots);
    let len: usize = textures.handles.len();
    let mut i: usize = 0;
    while i < len
        invariant
            i <= len,
            len == textures.handles@.len(),
            entries@ == seq![BoundResource::Settings, BoundResource::Roots]
                + textures.handles@.take(i as int).map_values(
                |h: u64| BoundResource::Texture { handle: h },
            ),
        decreases len - i,
    {
        let handle: u64 = textures.handles[i];
        entries.push(BoundResource::Texture { handle });
        proof {
            assert(textures.handles@.take(i + 1).map_values(
                |h: u64| BoundResource::Texture { handle: h },
            ) =~= textures.handles@.take(i as int).map_values(
                |h: u64| BoundResource::Texture { handle: h },
            ).push(BoundResource::Texture { handle }));
        }
        i = i + 1;
    }
    proof {
        assert(textures.handles@.take(len as int) =~= textures.handles@);
    }
    entries
}

/// The binding-construction step: once the settings uniform, the
/// twiddle-table buffer and the buffer set all exist, both per-axis bind
/// groups are built over them with the mandated slot assignment
/// (`Ok(true)`). An already-built binding set is reused untouched
/// (`Ok(false)`) — at most one binding set per configuration epoch. While
/// any input is missing the step reports `BindingMissing` and changes
/// nothing.
pub fn prepare_fft_bind_groups(ctx: &mut FftContext) -> (r: Result<bool, FftError>)
    requires
        old(ctx).wf(),
    ensures
        final(ctx).wf(),
        old(ctx).bind_groups is Some ==> r == Ok::<bool, FftError>(false) && *final(ctx) == *old(
            ctx,
        ),
        old(ctx).bind_groups is None && !bindings_inputs_ready(*old(ctx)) ==> r == Err::<
            bool,
            FftError,
        >(FftError::BindingMissing) && *final(ctx) == *old(ctx),
        old(ctx).bind_groups is None && bindings_inputs_ready(*old(ctx)) ==> ({
            &&& r == Ok::<bool, FftError>(true)
            &&& old(ctx).textures matches Some(t) && final(ctx).bind_groups matches Some(g)
                && g.horizontal_io@ == bind_group_seq(t) && g.vertical_io@ == bind_group_seq(t)
            &&& final(ctx).settings == old(ctx).settings
            &&& final(ctx).scheme == old(ctx).scheme
            &&& final(ctx).pattern_enabled == old(ctx).pattern_enabled
            &&& final(ctx).inverse_enabled == old(ctx).inverse_enabled
            &&& final(ctx).settings_uploaded == old(ctx).settings_uploaded
            &&& final(ctx).roots_uploaded == old(ctx).roots_uploaded
            &&& final(ctx).textures == old(ctx).textures
            &&& final(ctx).next_handle == old(ctx).next_handle
        }),
{
    if ctx.bind_groups.is_some() {
        return Ok(false);
    }
    if !ctx.settings_uploaded || !ctx.roots_uploaded {
        return Err(FftError::BindingMissing);
    }
    let groups: FftBindGroups = match &ctx.textures {
        Some(t) => {
            let horizontal_io: Vec<BoundResource> = build_io_bindings(t);
            let vertical_io: Vec<BoundResource> = build_io_bindings(t);
            FftBindGroups { horizontal_io, vertical_io }
        },
        None => {
            return Err(FftError::BindingMissing);
        },
    };
    ctx.bind_groups = Some(groups);
    Ok(true)
}

/// The GPU-side copy of the twiddle table, rewritten whenever the
/// host-owned table changes.
pub struct FftRootsBuffer {
    pub data: FftRoots,
    /// Whether the buffer has been filled since creation.
    pub written: bool,
}

impl FftRootsBuffer {
    /// A fresh buffer holding an all-zero forward table, not yet written.
    pub fn new() -> (r: FftRootsBuffer)
        ensures
            r.data.wf(),
            !r.data.inverse,
            forall|i: int| 0 <= i < TABLE_LEN ==> r.data.roots@[i] == TwiddleEntry::Zero,
            !r.written,
    {
        FftRootsBuffer { data: zero_table(), written: false }
    }
}

/// The roots-upload step: replaces the buffer's contents with the
/// request's table and marks the buffer written, so that the host can
/// flush it to the GPU.
pub fn prepare_fft_roots_buffer(buffer: &mut FftRootsBuffer, roots: &FftRoots)
    ensures
        final(buffer).data.roots@ == roots.roots@,
        final(buffer).data.inverse == roots.inverse,
        final(buffer).written,
{
    buffer.data = roots.duplicate();
    buffer.written = true;
}

/// The host-supplied source textures of one request, one handle per
/// complex part.
#[derive(Clone, Copy, Debug, PartialEq, Eq, Structural)]
pub struct FftSourceImage {
    pub image: u64,
    pub image_im: u64,
}

/// One texture-to-texture copy the host must encode.
#[derive(Clone, Copy, Debug, PartialEq, Eq, Structural)]
pub struct CopyOp {
    pub src: u64,
    pub dst: u64,
    pub width: u32,
    pub height: u32,
}

/// The pair the source is copied into before the first transform pass.
pub const SOURCE_PAIR: u32 = 2;

/// The copies that load the host-supplied source into the transform's
/// input pair: the real part into the source pair's real texture, the
/// imaginary part into its imaginary texture, each over the full source
/// extent. The host encodes them only once both source textures and the
/// buffer set are GPU-resident.
pub fn copy_source_to_input(
    textures: &FftTextures,
    source: &FftSourceImage,
    source_size: Extent2,
) -> (r: Vec<CopyOp>)
    requires
        textures.wf(),
        spec_pair_count(textures.scheme) > SOURCE_PAIR,
    ensures
        r@ == seq![
            CopyOp {
                src: source.image,
                dst: textures.spec_handle(SOURCE_PAIR as int, BufferPart::Re),
                width: source_size.x,
                height: source_size.y,
            },
            CopyOp {
                src: source.image_im,
                dst: textures.spec_handle(SOURCE_PAIR as int, BufferPart::Im),
                width: source_size.x,
                height: source_size.y,
            },
        ],
{
    let dst_re: u64 = textures.texture_handle(SOURCE_PAIR, BufferPart::Re);
    let dst_im: u64 = textures.texture_handle(SOURCE_PAIR, BufferPart::Im);
    let mut ops: Vec<CopyOp> = Vec::new();
    ops.push(CopyOp { src: source.image, dst: dst_re, width: source_size.x, height: source_size.y });
    ops.push(
        CopyOp { src: source.image_im, dst: dst_im, width: source_size.x, height: source_size.y },
    );
    proof {
        assert(ops@ =~= seq![
            CopyOp {
                src: source.image,
                dst: textures.spec_handle(SOURCE_PAIR as int, BufferPart::Re),
                width: source_size.x,
                height: source_size.y,
            },
            CopyOp {
                src: source.image_im,
                dst: textures.spec_handle(SOURCE_PAIR as int, BufferPart::Im),
                width: source_size.x,
                height: source_size.y,
            },
        ]);
    }
    ops
}

} // verus!
