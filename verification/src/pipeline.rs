//! The pipeline registry: the layout and the two programs compiled against it.

use vstd::prelude::*;
use bevy::render::render_resource::{
    CachedComputePipelineId, ComputePipelineDescriptor, PipelineCache,
};
use crate::engine::{cached_count, cached_status, cached_statuses, pipeline_slot, queue_compile};
use crate::layout::{BindingLayout, SlotDescriptor};
use crate::readiness::{CompileStatus, Program};

verus! {

/// Asset path of the shader that holds both entry points.
pub const SHADER_PATH: &'static str = "shaders/my_compute_shader.wgsl";

/// What is asked of the pipeline cache for one program.
#[derive(Clone, Copy, Debug)]
pub struct CompileRequest {
    pub program: Program,
    pub label: &'static str,
    pub entry_point: &'static str,
}

impl CompileRequest {
    /// The request for a program: its entry point in the shader, and the
    /// label its pipeline goes by.
    pub fn for_program(program: Program) -> (request: CompileRequest)
        ensures
            request.program == program,
            program == Program::Init ==> request.entry_point@ == "init"@ && request.label@
                == "my_compute_pipeline_init"@,
            program == Program::Update ==> request.entry_point@ == "update"@ && request.label@
                == "my_compute_pipeline_update"@,
    {
        match program {
            Program::Init => CompileRequest {
                program,
                label: "my_compute_pipeline_init",
                entry_point: "init",
            },
            Program::Update => CompileRequest {
                program,
                label: "my_compute_pipeline_update",
                entry_point: "update",
            },
        }
    }
}

/// What a poll of `cache` reports for the pipeline `id`. A pipeline that the
/// cache has not taken in yet is still waiting to be compiled.
pub open spec fn status_in(cache: PipelineCache, id: CachedComputePipelineId) -> CompileStatus {
    if pipeline_slot(id) < cached_statuses(cache).len() {
        cached_statuses(cache)[pipeline_slot(id) as int]
    } else {
        CompileStatus::Pending
    }
}

/// Asks the cache for the compile status of one pipeline. Never blocks.
pub fn poll_status(cache: &PipelineCache, id: CachedComputePipelineId) -> (status: CompileStatus)
    ensures
        status == status_in(*cache, id),
{
    if id.id() < cached_count(cache) {
        cached_status(cache, id)
    } else {
        CompileStatus::Pending
    }
}

/// The registry as contracts see it: the slots of the layout and the tokens
/// of the two pipelines.
pub struct PipelineModel {
    pub layout: Seq<SlotDescriptor>,
    pub init_pipeline_id: CachedComputePipelineId,
    pub update_pipeline_id: CachedComputePipelineId,
}

impl PipelineModel {
    /// The token of a program's pipeline.
    pub open spec fn id(self, program: Program) -> CachedComputePipelineId {
        match program {
            Program::Init => self.init_pipeline_id,
            Program::Update => self.update_pipeline_id,
        }
    }

    /// What a poll of `cache` reports for a program.
    pub open spec fn status(self, cache: PipelineCache, program: Program) -> CompileStatus {
        status_in(cache, self.id(program))
    }
}

/// The binding layout together with the tokens of the two pipelines that
/// were queued against it.
pub struct MyComputeShaderPipeline {
    layout: BindingLayout,
    init_pipeline_id: CachedComputePipelineId,
    update_pipeline_id: CachedComputePipelineId,
}

impl View for MyComputeShaderPipeline {
    type V = PipelineModel;

    closed spec fn view(&self) -> PipelineModel {
        PipelineModel {
            layout: self.layout@,
            init_pipeline_id: self.init_pipeline_id,
            update_pipeline_id: self.update_pipeline_id,
        }
    }
}

impl MyComputeShaderPipeline {
    /// Keeps a layout together with the tokens that the cache handed out for
    /// the two programs queued against it.
    pub fn new(
        layout: BindingLayout,
        init_pipeline_id: CachedComputePipelineId,
        update_pipeline_id: CachedComputePipelineId,
    ) -> (pipeline: MyComputeShaderPipeline)
        ensures
            pipeline@ == (PipelineModel { layout: layout@, init_pipeline_id, update_pipeline_id }),
    {
        MyComputeShaderPipeline { layout, init_pipeline_id, update_pipeline_id }
    }

    /// Queues the init and the update program for compilation against
    /// `layout` and returns without waiting for either. The two descriptors
    /// name the shader and the device's form of the layout, the same in
    /// both; each becomes a request under its program's own label and entry
    /// point.
    ///
    /// Neither pipeline is in the cache yet when this returns, so a poll of
    /// the same cache reports both as pending.
    pub fn register(
        layout: BindingLayout,
        cache: &PipelineCache,
        init_base: ComputePipelineDescriptor,
        update_base: ComputePipelineDescriptor,
    ) -> (pipeline: MyComputeShaderPipeline)
        ensures
            pipeline@.layout == layout@,
            pipeline@.status(*cache, Program::Init) == CompileStatus::Pending,
            pipeline@.status(*cache, Program::Update) == CompileStatus::Pending,
    {
        let init = CompileRequest::for_program(Program::Init);
        let update = CompileRequest::for_program(Program::Update);
        let init_pipeline_id = queue_compile(cache, init_base, init.label, init.entry_point);
        let update_pipeline_id = queue_compile(
            cache,
            update_base,
            update.label,
            update.entry_point,
        );
        MyComputeShaderPipeline::new(layout, init_pipeline_id, update_pipeline_id)
    }

    /// The layout both pipelines were queued against.
    pub fn layout(&self) -> (layout: &BindingLayout)
        ensures
            layout@ == self@.layout,
    {
        &self.layout
    }

    /// The token of a program's pipeline.
    pub fn id(&self, program: Program) -> (id: CachedComputePipelineId)
        ensures
            id == self@.id(program),
    {
        match program {
            Program::Init => self.init_pipeline_id,
            Program::Update => self.update_pipeline_id,
        }
    }

    /// Asks the cache for the compile status of a program. Never blocks.
    pub fn poll(&self, cache: &PipelineCache, program: Program) -> (status: CompileStatus)
        ensures
            status == self@.status(*cache, program),
    {
        poll_status(cache, self.id(program))
    }
}

} // verus!
