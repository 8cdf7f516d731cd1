//! What this crate takes on trust from the engine.
//!
//! Everything here is a declaration about `bevy`: types that verified code
//! carries around without looking inside, and calls whose contracts restate
//! the engine's source. Nothing in this module is proved.

use vstd::prelude::*;
use bevy::render::render_resource::{
    CachedComputePipelineId, CachedPipelineState, ComputePipelineDescriptor, PipelineCache,
    ShaderType,
};
use bevy::render::view::ViewUniform;
use std::borrow::Cow;
use crate::readiness::CompileStatus;

verus! {

/// The engine's cache of compiled pipelines.
#[verifier::external_type_specification]
#[verifier::external_body]
pub struct ExPipelineCache(bevy::render::render_resource::PipelineCache);

/// The token the cache hands out for a queued compute pipeline.
#[verifier::external_type_specification]
#[verifier::external_body]
pub struct ExCachedComputePipelineId(bevy::render::render_resource::CachedComputePipelineId);

/// What the cache is asked to compile: shader, layout, entry point.
#[verifier::external_type_specification]
#[verifier::external_body]
pub struct ExComputePipelineDescriptor(bevy::render::render_resource::ComputePipelineDescriptor);

/// The engine's identifier of an asset.
#[verifier::external_type_specification]
#[verifier::external_body]
pub struct ExHandleId(bevy::asset::HandleId);

/// The pipelines that a cache has taken in, each by its compile status, in
/// slot order. Pipelines that were queued but not yet taken in are not part
/// of it.
pub uninterp spec fn cached_statuses(cache: PipelineCache) -> Seq<CompileStatus>;

/// The slot of the cache that a pipeline token names.
pub uninterp spec fn pipeline_slot(id: CachedComputePipelineId) -> usize;

/// `CachedComputePipelineId::id` returns the slot index that the token wraps.
pub assume_specification[ CachedComputePipelineId::id ](id: &CachedComputePipelineId) -> (slot:
    usize)
    ensures
        slot == pipeline_slot(*id),
;

/// `PipelineCache::pipelines` walks the pipelines that the cache has taken
/// in; counting them gives the number of slots in use.
#[verifier::external_body]
pub(crate) fn cached_count(cache: &PipelineCache) -> (count: usize)
    ensures
        count == cached_statuses(*cache).len(),
{
    cache.pipelines().count()
}

/// `PipelineCache::get_compute_pipeline_state` reads the state stored in the
/// token's slot: `Queued`, `Ok` or `Err`, reported here as `Pending`, `Ready`
/// or `Failed`. It indexes the cache's list, so the slot has to be in use.
#[verifier::external_body]
pub(crate) fn cached_status(cache: &PipelineCache, id: CachedComputePipelineId) -> (status:
    CompileStatus)
    requires
        pipeline_slot(id) < cached_statuses(*cache).len(),
    ensures
        status == cached_statuses(*cache)[pipeline_slot(id) as int],
{
    match cache.get_compute_pipeline_state(id) {
        CachedPipelineState::Queued => CompileStatus::Pending,
        CachedPipelineState::Ok(_) => CompileStatus::Ready,
        CachedPipelineState::Err(_) => CompileStatus::Failed,
    }
}

/// `PipelineCache::queue_compute_pipeline` appends the request to the cache's
/// waiting list and returns at once. The token it returns names the first
/// slot behind those in use and those already waiting, so it never names a
/// slot that the cache has taken in. The request is `base` under the given
/// label and entry point.
#[verifier::external_body]
pub(crate) fn queue_compile(
    cache: &PipelineCache,
    base: ComputePipelineDescriptor,
    label: &'static str,
    entry_point: &'static str,
) -> (id: CachedComputePipelineId)
    ensures
        pipeline_slot(id) >= cached_statuses(*cache).len(),
{
    cache.queue_compute_pipeline(
        ComputePipelineDescriptor {
            label: Some(Cow::from(label)),
            entry_point: Cow::from(entry_point),
            ..base
        },
    )
}

/// `ViewUniform::min_size`, from the `ShaderType` trait: the least number of
/// bytes a binding of the engine's per-view uniform takes. Its type is
/// `NonZeroU64`, so it is never zero.
#[verifier::external_body]
pub(crate) fn view_uniform_min_size() -> (size: u64)
    ensures
        size > 0,
{
    ViewUniform::min_size().get()
}

} // verus!
