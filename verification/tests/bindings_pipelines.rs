use fft_core::pipeline::{
    BindingKind, FftBindGroupLayouts, FftPipelines, PipelineCache, PipelineKind,
    PUSH_CONSTANT_BYTES, ROOTS_BUFFER_BYTES,
};
use fft_core::resources::{
    prepare_fft_bind_groups, prepare_fft_roots_buffer, prepare_fft_textures, BoundResource,
    BufferScheme, FftContext, FftRootsBuffer,
};
use fft_core::settings::{FftSettings, FftSource};
use fft_core::twiddle::{FftRoots, TwiddleEntry, TABLE_LEN};
use fft_core::FftError;

fn ready_context() -> FftContext {
    let settings = FftSettings::extract_component(&FftSource::default()).unwrap();
    let mut ctx = FftContext::new(settings, BufferScheme::Extended, false, false);
    prepare_fft_textures(&mut ctx).unwrap();
    ctx.settings_uploaded = true;
    ctx.roots_uploaded = true;
    ctx
}

#[test]
fn common_layout_slots_in_order() {
    let layouts = FftBindGroupLayouts::new(BufferScheme::Extended);
    assert_eq!(layouts.common.len(), 10);
    assert_eq!(layouts.common[0], BindingKind::SettingsUniform);
    assert_eq!(layouts.common[1], BindingKind::RootsStorage);
    for slot in 2..10 {
        assert_eq!(layouts.common[slot], BindingKind::StorageTexture);
    }

    let minimal = FftBindGroupLayouts::new(BufferScheme::Minimal);
    assert_eq!(minimal.common.len(), 6);
}

#[test]
fn roots_buffer_byte_size_matches_the_table() {
    // 8192 complex entries, two 32-bit floats each.
    assert_eq!(ROOTS_BUFFER_BYTES, (TABLE_LEN as u64) * 8);
}

#[test]
fn bind_groups_attach_settings_roots_then_textures() {
    let mut ctx = ready_context();
    assert_eq!(prepare_fft_bind_groups(&mut ctx), Ok(true));
    let handles = ctx.textures.as_ref().unwrap().handles.clone();
    let groups = ctx.bind_groups.as_ref().unwrap();
    for io in [&groups.horizontal_io, &groups.vertical_io] {
        assert_eq!(io.len(), 2 + handles.len());
        assert_eq!(io[0], BoundResource::Settings);
        assert_eq!(io[1], BoundResource::Roots);
        for (i, h) in handles.iter().enumerate() {
            assert_eq!(io[2 + i], BoundResource::Texture { handle: *h });
        }
    }
}

#[test]
fn missing_uploads_block_bind_groups() {
    let mut ctx = ready_context();
    ctx.roots_uploaded = false;
    assert_eq!(prepare_fft_bind_groups(&mut ctx), Err(FftError::BindingMissing));
    assert!(ctx.bind_groups.is_none());

    ctx.roots_uploaded = true;
    ctx.settings_uploaded = false;
    assert_eq!(prepare_fft_bind_groups(&mut ctx), Err(FftError::BindingMissing));
    assert!(ctx.bind_groups.is_none());
}

#[test]
fn missing_textures_block_bind_groups() {
    let settings = FftSettings::extract_component(&FftSource::default()).unwrap();
    let mut ctx = FftContext::new(settings, BufferScheme::Extended, false, false);
    ctx.settings_uploaded = true;
    ctx.roots_uploaded = true;
    assert_eq!(prepare_fft_bind_groups(&mut ctx), Err(FftError::BindingMissing));
}

#[test]
fn built_bind_groups_are_reused() {
    let mut ctx = ready_context();
    assert_eq!(prepare_fft_bind_groups(&mut ctx), Ok(true));
    // A second call finds the binding set of this configuration epoch and
    // reuses it.
    assert_eq!(prepare_fft_bind_groups(&mut ctx), Ok(false));
    assert!(ctx.bind_groups.is_some());
}

#[test]
fn pipeline_queueing_is_idempotent() {
    let mut cache = PipelineCache::new();
    let a = cache.queue_compute_pipeline(PipelineKind::FftHorizontal);
    let b = cache.queue_compute_pipeline(PipelineKind::FftVertical);
    let a_again = cache.queue_compute_pipeline(PipelineKind::FftHorizontal);
    assert_eq!(a, a_again);
    assert_ne!(a, b);
    assert_eq!(cache.kinds.len(), 2);
}

#[test]
fn pipelines_are_unavailable_until_marked_ready() {
    let mut cache = PipelineCache::new();
    let id = cache.queue_compute_pipeline(PipelineKind::IfftVertical);
    assert_eq!(cache.get_compute_pipeline(id), None);
    cache.mark_ready(id);
    assert_eq!(cache.get_compute_pipeline(id), Some(PipelineKind::IfftVertical));
}

#[test]
fn out_of_range_pipeline_lookup_is_none() {
    let cache = PipelineCache::new();
    assert_eq!(cache.get_compute_pipeline(7), None);
}

#[test]
fn pipeline_set_queues_all_five_kinds() {
    let mut cache = PipelineCache::new();
    let pipelines = FftPipelines::new(&mut cache);
    assert_eq!(cache.kinds.len(), 5);
    assert_eq!(cache.kinds[pipelines.fft_horizontal], PipelineKind::FftHorizontal);
    assert_eq!(cache.kinds[pipelines.fft_vertical], PipelineKind::FftVertical);
    assert_eq!(cache.kinds[pipelines.ifft_horizontal], PipelineKind::IfftHorizontal);
    assert_eq!(cache.kinds[pipelines.ifft_vertical], PipelineKind::IfftVertical);
    assert_eq!(cache.kinds[pipelines.pattern_generation], PipelineKind::PatternGeneration);

    // Requesting the set again compiles nothing new and keeps every
    // identifier.
    let again = FftPipelines::new(&mut cache);
    assert_eq!(cache.kinds.len(), 5);
    assert_eq!(again, pipelines);
}

#[test]
fn push_constant_range_is_four_bytes_for_transforms() {
    assert_eq!(PUSH_CONSTANT_BYTES, 4);
    assert_eq!(PipelineKind::FftHorizontal.push_constant_bytes(), 4);
    assert_eq!(PipelineKind::IfftVertical.push_constant_bytes(), 4);
    assert_eq!(PipelineKind::PatternGeneration.push_constant_bytes(), 0);
}

#[test]
fn roots_buffer_starts_zeroed_and_takes_the_table() {
    let mut buffer = FftRootsBuffer::new();
    assert!(!buffer.written);
    for i in 0..TABLE_LEN {
        assert_eq!(buffer.data.roots[i], TwiddleEntry::Zero);
    }
    let table = FftRoots::build(13, true);
    prepare_fft_roots_buffer(&mut buffer, &table);
    assert!(buffer.written);
    assert!(buffer.data.inverse);
    assert_eq!(buffer.data.roots, table.roots);
}
