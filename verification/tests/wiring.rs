use bevy::asset::{Handle, HandleId};
use bevy::render::texture::Image;
use compute_dispatch::bind_group::ResourceView;
use compute_dispatch::layout::PixelFormat;
use compute_dispatch::node::SlotType;
use compute_dispatch::pipeline::{CompileRequest, SHADER_PATH};
use compute_dispatch::plugin::{
    Downstream, MyComputeShaderPlugin, GRAPH_VIEW_SLOT, MY_COMPUTE_NODE_NAME,
};
use compute_dispatch::readiness::Program;
use compute_dispatch::target::{MyComputeShaderRenderTarget, RenderTargetDescriptor, TextureUsage};
use compute_dispatch::uniform::{BufferUsage, UniformBufferDescriptor};

#[test]
fn the_node_is_wired_before_the_camera_driver_and_gets_the_view() {
    let wiring = MyComputeShaderPlugin.wiring();
    assert_eq!(wiring.node, "my_compute_node");
    assert_eq!(wiring.node, MY_COMPUTE_NODE_NAME);
    assert_eq!(wiring.runs_before, Downstream::CameraDriver);
    assert_eq!(wiring.graph_input.name, "view_entity");
    assert_eq!(wiring.graph_input.name, GRAPH_VIEW_SLOT);
    assert_eq!(wiring.graph_input.slot_type, SlotType::Entity);
    assert_eq!(wiring.node_input, "view");
}

#[test]
fn the_wiring_names_what_the_engine_names() {
    let wiring = MyComputeShaderPlugin.wiring();
    assert_eq!(wiring.graph_input.name, bevy::core_pipeline::core_3d::graph::input::VIEW_ENTITY);
    assert_eq!(bevy::render::main_graph::node::CAMERA_DRIVER, "camera_driver");
}

#[test]
fn each_program_is_requested_under_its_entry_point() {
    let init = CompileRequest::for_program(Program::Init);
    assert_eq!(init.program, Program::Init);
    assert_eq!(init.entry_point, "init");
    assert_eq!(init.label, "my_compute_pipeline_init");
    let update = CompileRequest::for_program(Program::Update);
    assert_eq!(update.program, Program::Update);
    assert_eq!(update.entry_point, "update");
    assert_eq!(update.label, "my_compute_pipeline_update");
    assert_eq!(SHADER_PATH, "shaders/my_compute_shader.wgsl");
}

#[test]
fn the_demo_target_is_writable_sampled_and_updatable() {
    let descriptor = RenderTargetDescriptor::demo();
    assert_eq!((descriptor.width, descriptor.height), (640, 480));
    assert_eq!(descriptor.format, PixelFormat::Rgba8Unorm);
    assert_eq!(
        descriptor.usage,
        TextureUsage { copy_dst: true, storage_binding: true, texture_binding: true }
    );
    assert_eq!(
        descriptor.view(),
        ResourceView::Texture { format: PixelFormat::Rgba8Unorm, width: 640, height: 480 }
    );
    assert_eq!(RenderTargetDescriptor::new(16, 9).view(), ResourceView::Texture {
        format: PixelFormat::Rgba8Unorm,
        width: 16,
        height: 9
    });
}

#[test]
fn extraction_copies_the_handle_and_leaves_the_source() {
    let handle: Handle<Image> = Handle::weak(HandleId::random::<Image>());
    let source = MyComputeShaderRenderTarget(handle.id());
    let extracted = MyComputeShaderRenderTarget::extract_resource(&source);
    assert_eq!(extracted.0, handle.id());
    assert_eq!(source.0, handle.id());
    let again = MyComputeShaderRenderTarget::extract_resource(&source);
    assert_eq!(again.0, extracted.0);
}

#[test]
fn the_time_uniform_buffer_holds_one_float_and_fits_its_slot() {
    let descriptor = UniformBufferDescriptor::time();
    assert_eq!(descriptor.label, "time uniform buffer");
    assert_eq!(descriptor.size, 4);
    assert_eq!(descriptor.size as usize, std::mem::size_of::<f32>());
    assert_eq!(descriptor.usage, BufferUsage { uniform: true, copy_dst: true });
    assert_eq!(descriptor.view(), ResourceView::Buffer { size: 4 });
    let layout = compute_dispatch::layout::BindingLayout::with_time_uniform();
    let slot = layout.get(0).unwrap();
    assert!(compute_dispatch::bind_group::resource_fits(&slot, &descriptor.view()));
}
