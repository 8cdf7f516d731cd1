use bevy::app::App;
use bevy::asset::{AssetPlugin, Assets, Handle, HandleId};
use bevy::render::render_resource::{
    BindGroupLayoutDescriptor, BindGroupLayoutEntry, BindingType, BufferBindingType, BufferSize,
    ComputePipelineDescriptor, PipelineCache, Shader, ShaderStages, StorageTextureAccess,
    TextureFormat, TextureViewDimension,
};
use bevy::render::renderer::{RenderDevice, RenderInstance};
use bevy::render::settings::Backends;
use bevy::render::texture::ImagePlugin;
use bevy::render::{RenderApp, RenderPlugin};
use bevy::window::WindowPlugin;
use bevy::MinimalPlugins;
use compute_dispatch::bind_group::{assemble, BoundResourceSet, ConcreteResource, ResourceView};
use compute_dispatch::grid::DispatchGrid;
use compute_dispatch::layout::{BindingLayout, PixelFormat, SlotDescriptor};
use compute_dispatch::node::{DispatchCommand, MyComputeShaderNode};
use compute_dispatch::pipeline::{poll_status, MyComputeShaderPipeline};
use compute_dispatch::readiness::{CompileStatus, MyComputeShaderState, Program};
use std::borrow::Cow;

const SHADER: &str = "
@group(0) @binding(0)
var<uniform> time: f32;
@group(0) @binding(1)
var target_image: texture_storage_2d<r32float, read_write>;

@compute @workgroup_size(8, 8, 1)
fn init(@builtin(global_invocation_id) id: vec3<u32>) {
    textureStore(target_image, vec2<i32>(id.xy), vec4<f32>(0.0, 0.0, 0.0, 1.0));
}

@compute @workgroup_size(8, 8, 1)
fn update(@builtin(global_invocation_id) id: vec3<u32>) {
    textureStore(target_image, vec2<i32>(id.xy), vec4<f32>(time, 0.0, 0.0, 1.0));
}
";

/// A headless engine with a render device, or `None` on a machine that has
/// no graphics adapter to run one on.
fn headless_app() -> Option<App> {
    let adapters = {
        let probe = RenderInstance(Default::default());
        probe.0.enumerate_adapters(Backends::all()).count()
    };
    if adapters == 0 {
        println!("no graphics adapter on this machine");
        return None;
    }
    let mut app = App::new();
    app.add_plugins(MinimalPlugins)
        .add_plugin(AssetPlugin::default())
        .add_plugin(WindowPlugin { primary_window: None, ..Default::default() })
        .add_plugin(RenderPlugin::default())
        .add_plugin(ImagePlugin::default());
    Some(app)
}

fn demo_layout() -> BindingLayout {
    BindingLayout::new(vec![
        SlotDescriptor::uniform(0, 4),
        SlotDescriptor::storage_texture(1, PixelFormat::R32Float),
    ])
    .unwrap()
}

fn base_descriptor(app: &App, shader: Handle<Shader>) -> ComputePipelineDescriptor {
    base_descriptor_for(app, shader, TextureFormat::R32Float)
}

fn base_descriptor_for(
    app: &App,
    shader: Handle<Shader>,
    format: TextureFormat,
) -> ComputePipelineDescriptor {
    let device = app.sub_app(RenderApp).world.resource::<RenderDevice>();
    let gpu_layout = device.create_bind_group_layout(&BindGroupLayoutDescriptor {
        label: None,
        entries: &[
            BindGroupLayoutEntry {
                binding: 0,
                visibility: ShaderStages::COMPUTE,
                ty: BindingType::Buffer {
                    ty: BufferBindingType::Uniform,
                    has_dynamic_offset: false,
                    min_binding_size: BufferSize::new(4),
                },
                count: None,
            },
            BindGroupLayoutEntry {
                binding: 1,
                visibility: ShaderStages::COMPUTE,
                ty: BindingType::StorageTexture {
                    access: StorageTextureAccess::ReadWrite,
                    format,
                    view_dimension: TextureViewDimension::D2,
                },
                count: None,
            },
        ],
    });
    ComputePipelineDescriptor {
        label: None,
        layout: vec![gpu_layout],
        push_constant_ranges: Vec::new(),
        shader,
        shader_defs: vec![],
        entry_point: Cow::from(""),
    }
}

#[test]
fn registered_pipelines_are_pending_until_the_cache_takes_them_in() {
    let Some(mut app) = headless_app() else {
        return;
    };
    let shader: Handle<Shader> = Handle::weak(HandleId::random::<Shader>());
    let base = base_descriptor(&app, shader);
    let pipeline = {
        let cache = app.sub_app(RenderApp).world.resource::<PipelineCache>();
        let pipeline = MyComputeShaderPipeline::register(demo_layout(), cache, base.clone(), base.clone());
        assert_eq!(pipeline.poll(cache, Program::Init), CompileStatus::Pending);
        assert_eq!(pipeline.poll(cache, Program::Update), CompileStatus::Pending);
        assert_ne!(pipeline.id(Program::Init), pipeline.id(Program::Update));
        pipeline
    };
    app.sub_app_mut(RenderApp).world.resource_mut::<PipelineCache>().process_queue();
    let cache = app.sub_app(RenderApp).world.resource::<PipelineCache>();
    assert_eq!(cache.pipelines().count(), 2);
    // The shader behind the handle was never loaded, so the cache reports an error.
    assert_eq!(pipeline.poll(cache, Program::Init), CompileStatus::Failed);
    assert_eq!(pipeline.poll(cache, Program::Update), CompileStatus::Failed);
}

#[test]
fn compiled_pipelines_poll_ready() {
    let Some(mut app) = headless_app() else {
        return;
    };
    let shader = app.world.resource_mut::<Assets<Shader>>().add(Shader::from_wgsl(SHADER));
    let base = base_descriptor(&app, shader);
    let pipeline = {
        let cache = app.sub_app(RenderApp).world.resource::<PipelineCache>();
        MyComputeShaderPipeline::register(demo_layout(), cache, base.clone(), base.clone())
    };
    app.update();
    app.update();
    let cache = app.sub_app(RenderApp).world.resource::<PipelineCache>();
    let states: Vec<String> = cache.pipelines().map(|p| format!("{:?}", p.state)).collect();
    assert_eq!(pipeline.poll(cache, Program::Init), CompileStatus::Ready, "{:?}", states);
    assert_eq!(pipeline.poll(cache, Program::Update), CompileStatus::Ready);
}

fn bound_set() -> BoundResourceSet {
    let resources = vec![
        ConcreteResource { binding: 0, view: Some(ResourceView::Buffer { size: 4 }) },
        ConcreteResource {
            binding: 1,
            view: Some(ResourceView::Texture {
                format: PixelFormat::R32Float,
                width: 640,
                height: 480,
            }),
        },
    ];
    assemble(&demo_layout(), &resources).expect("bound set")
}

fn dispatch_of(program: Program) -> DispatchCommand {
    DispatchCommand {
        program,
        bind_group_index: 0,
        dynamic_offset: None,
        grid: DispatchGrid { x: 80, y: 60, z: 1 },
    }
}

#[test]
fn registration_keeps_the_layout() {
    let Some(app) = headless_app() else {
        return;
    };
    let shader: Handle<Shader> = Handle::weak(HandleId::random::<Shader>());
    let base = base_descriptor(&app, shader);
    let cache = app.sub_app(RenderApp).world.resource::<PipelineCache>();
    let pipeline = MyComputeShaderPipeline::register(demo_layout(), cache, base.clone(), base.clone());
    assert_eq!(pipeline.layout().slots(), demo_layout().slots());
    assert_eq!(poll_status(cache, pipeline.id(Program::Init)), CompileStatus::Pending);
}

#[test]
fn the_cache_is_asked_for_the_entry_points_init_and_update() {
    let Some(mut app) = headless_app() else {
        return;
    };
    let shader: Handle<Shader> = Handle::weak(HandleId::random::<Shader>());
    let base = base_descriptor(&app, shader.clone());
    let pipeline = {
        let cache = app.sub_app(RenderApp).world.resource::<PipelineCache>();
        MyComputeShaderPipeline::register(demo_layout(), cache, base.clone(), base.clone())
    };
    app.sub_app_mut(RenderApp).world.resource_mut::<PipelineCache>().process_queue();
    let cache = app.sub_app(RenderApp).world.resource::<PipelineCache>();
    let init = cache.get_compute_pipeline_descriptor(pipeline.id(Program::Init));
    assert_eq!(init.entry_point, "init");
    assert_eq!(init.label.as_deref(), Some("my_compute_pipeline_init"));
    assert_eq!(init.shader, shader);
    assert_eq!(init.layout, base.layout);
    let update = cache.get_compute_pipeline_descriptor(pipeline.id(Program::Update));
    assert_eq!(update.entry_point, "update");
    assert_eq!(update.label.as_deref(), Some("my_compute_pipeline_update"));
    assert_eq!(update.shader, shader);
    assert_eq!(update.layout, base.layout);
}

#[test]
fn the_node_follows_the_cache_from_loading_to_update() {
    let Some(mut app) = headless_app() else {
        return;
    };
    let shader = app.world.resource_mut::<Assets<Shader>>().add(Shader::from_wgsl(SHADER));
    let base = base_descriptor(&app, shader);
    let set = bound_set();
    let mut node = MyComputeShaderNode::new();
    let pipeline = {
        let cache = app.sub_app(RenderApp).world.resource::<PipelineCache>();
        let pipeline = MyComputeShaderPipeline::register(demo_layout(), cache, base.clone(), base.clone());
        for _ in 0..3 {
            node.update(&pipeline, cache);
            assert_eq!(node.state(), MyComputeShaderState::Loading);
            assert_eq!(node.run(&pipeline, cache, Some(&set), Some(0)), None);
        }
        pipeline
    };
    app.update();
    app.update();
    let cache = app.sub_app(RenderApp).world.resource::<PipelineCache>();

    node.update(&pipeline, cache);
    assert_eq!(node.state(), MyComputeShaderState::Init);
    assert_eq!(node.run(&pipeline, cache, Some(&set), Some(0)), Some(dispatch_of(Program::Init)));

    node.update(&pipeline, cache);
    assert_eq!(node.state(), MyComputeShaderState::Update);
    assert_eq!(node.run(&pipeline, cache, Some(&set), Some(0)), Some(dispatch_of(Program::Update)));
    assert_eq!(node.run(&pipeline, cache, None, Some(0)), None);
    assert_eq!(node.run(&pipeline, cache, Some(&set), None), Some(dispatch_of(Program::Update)));

    node.update(&pipeline, cache);
    assert_eq!(node.state(), MyComputeShaderState::Update);
    assert_eq!(node.run(&pipeline, cache, Some(&set), Some(0)), Some(dispatch_of(Program::Update)));
}

#[test]
fn the_node_stays_in_loading_while_the_shader_cannot_be_compiled() {
    let Some(mut app) = headless_app() else {
        return;
    };
    let shader: Handle<Shader> = Handle::weak(HandleId::random::<Shader>());
    let base = base_descriptor(&app, shader);
    let pipeline = {
        let cache = app.sub_app(RenderApp).world.resource::<PipelineCache>();
        MyComputeShaderPipeline::register(demo_layout(), cache, base.clone(), base.clone())
    };
    let mut node = MyComputeShaderNode::new();
    let set = bound_set();
    for _ in 0..3 {
        app.update();
        let cache = app.sub_app(RenderApp).world.resource::<PipelineCache>();
        assert_eq!(pipeline.poll(cache, Program::Init), CompileStatus::Failed);
        node.update(&pipeline, cache);
        assert_eq!(node.state(), MyComputeShaderState::Loading);
        assert_eq!(node.run(&pipeline, cache, Some(&set), Some(0)), None);
    }
}

#[test]
fn a_token_of_a_larger_cache_polls_pending_in_a_smaller_one() {
    let Some(mut app) = headless_app() else {
        return;
    };
    let shader: Handle<Shader> = Handle::weak(HandleId::random::<Shader>());
    let base = base_descriptor(&app, shader);
    let pipeline = {
        let cache = app.sub_app(RenderApp).world.resource::<PipelineCache>();
        MyComputeShaderPipeline::register(demo_layout(), cache, base.clone(), base.clone())
    };
    app.sub_app_mut(RenderApp).world.resource_mut::<PipelineCache>().process_queue();
    let cache = app.sub_app(RenderApp).world.resource::<PipelineCache>();
    assert_eq!(pipeline.poll(cache, Program::Init), CompileStatus::Failed);
    let device = app.sub_app(RenderApp).world.resource::<RenderDevice>().clone();
    let empty = PipelineCache::new(device);
    assert_eq!(empty.pipelines().count(), 0);
    assert_eq!(pipeline.poll(&empty, Program::Init), CompileStatus::Pending);
    assert_eq!(pipeline.poll(&empty, Program::Update), CompileStatus::Pending);
}

#[test]
fn a_pipeline_keeps_the_tokens_it_is_made_of() {
    let Some(mut app) = headless_app() else {
        return;
    };
    let shader: Handle<Shader> = Handle::weak(HandleId::random::<Shader>());
    let base = base_descriptor(&app, shader);
    let (first, second) = {
        let cache = app.sub_app(RenderApp).world.resource::<PipelineCache>();
        (cache.queue_compute_pipeline(base.clone()), cache.queue_compute_pipeline(base.clone()))
    };
    let pipeline = MyComputeShaderPipeline::new(demo_layout(), second, first);
    assert_eq!(pipeline.id(Program::Init), second);
    assert_eq!(pipeline.id(Program::Update), first);
    assert_eq!(pipeline.layout().slots(), demo_layout().slots());
    app.sub_app_mut(RenderApp).world.resource_mut::<PipelineCache>().process_queue();
    let cache = app.sub_app(RenderApp).world.resource::<PipelineCache>();
    assert_eq!(pipeline.poll(cache, Program::Init), CompileStatus::Failed);
}

#[test]
fn scenario_from_registration_on_the_device_to_the_first_update_dispatch() {
    let Some(mut app) = headless_app() else {
        return;
    };
    let shader: Handle<Shader> = Handle::weak(HandleId::random::<Shader>());
    let layout = BindingLayout::with_time_uniform();
    assert_eq!(
        layout.slots(),
        &vec![
            SlotDescriptor::uniform(0, 4),
            SlotDescriptor::storage_texture(1, PixelFormat::Rgba8Unorm),
        ]
    );
    let base = base_descriptor_for(&app, shader, TextureFormat::Rgba8Unorm);
    let resources = vec![
        ConcreteResource { binding: 0, view: Some(ResourceView::Buffer { size: 4 }) },
        ConcreteResource {
            binding: 1,
            view: Some(ResourceView::Texture {
                format: PixelFormat::Rgba8Unorm,
                width: 640,
                height: 480,
            }),
        },
    ];
    let set = assemble(&layout, &resources).expect("bound set");
    let mut node = MyComputeShaderNode::new();
    {
        let cache = app.sub_app(RenderApp).world.resource::<PipelineCache>();
        let pipeline = MyComputeShaderPipeline::register(layout, cache, base.clone(), base.clone());
        assert_eq!(pipeline.poll(cache, Program::Init), CompileStatus::Pending);
        assert_eq!(pipeline.poll(cache, Program::Update), CompileStatus::Pending);
        node.update(&pipeline, cache);
        assert_eq!(node.state(), MyComputeShaderState::Loading);
        assert_eq!(node.run(&pipeline, cache, Some(&set), None), None);
    }
    app.sub_app_mut(RenderApp).world.resource_mut::<PipelineCache>().process_queue();
    let cache = app.sub_app(RenderApp).world.resource::<PipelineCache>();
    assert_eq!(cache.pipelines().count(), 2);

    // From here on the compiles are played by hand.
    assert_eq!(node.frame(CompileStatus::Pending, CompileStatus::Pending, Some(&set), None), None);
    assert_eq!(node.state(), MyComputeShaderState::Loading);
    let _ = node.frame(CompileStatus::Ready, CompileStatus::Pending, Some(&set), None);
    assert_eq!(node.state(), MyComputeShaderState::Init);
    let command = node.frame(CompileStatus::Ready, CompileStatus::Ready, Some(&set), None);
    assert_eq!(node.state(), MyComputeShaderState::Update);
    assert_eq!(command, Some(dispatch_of(Program::Update)));
    assert_eq!(command.unwrap().grid, DispatchGrid { x: 80, y: 60, z: 1 });
}
