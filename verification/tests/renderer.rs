use dplife::d3dx12::transition_barrier;
use dplife::d3dx12::CpuPageProperty;
use dplife::d3dx12::Format;
use dplife::d3dx12::HeapProperties;
use dplife::d3dx12::HeapType;
use dplife::d3dx12::MemoryPool;
use dplife::d3dx12::ResourceDesc;
use dplife::d3dx12::ResourceDimension;
use dplife::d3dx12::ResourceState;
use dplife::d3dx12::TextureLayout;
use dplife::d3dx12::TransitionBarrier;
use dplife::imgui_manager::handle_event;
use dplife::imgui_manager::EventKind;
use dplife::particle_life::Buffer;
use dplife::particle_life::BufferDesc;
use dplife::renderer::make_swap_chain;
use dplife::renderer::points::DrawCommand;
use dplife::renderer::points::InputElement;
use dplife::renderer::points::PointsBuffers;
use dplife::renderer::points::PointsRenderer;
use dplife::renderer::points::PrimitiveTopologyType;
use dplife::renderer::points::Semantic;
use dplife::renderer::points::Topology;
use dplife::renderer::points::Vertex;
use dplife::renderer::points::INITIAL_VERTEX_COUNT;
use dplife::renderer::swap_chain::BufferUsage;
use dplife::renderer::swap_chain::SwapChainDesc;
use dplife::renderer::swap_chain::SwapEffect;
use dplife::renderer::CommandList;
use dplife::renderer::FrameStart;
use dplife::renderer::Present;
use dplife::renderer::Rect;
use dplife::renderer::Renderer;
use dplife::renderer::SwapChain;
use dplife::renderer::Viewport;
use dplife::renderer::FRAME_COUNT;

#[test]
fn swap_chain_covers_the_surface() {
    let swap_chain = SwapChain::new(1024, 768);
    let viewport = Viewport { top_left_x: 0, top_left_y: 0, width: 1024, height: 768 };
    let scissor = Rect { left: 0, top: 0, right: 1024, bottom: 768 };
    assert_eq!(*swap_chain.get_viewport(), viewport);
    assert_eq!(swap_chain.set_viewports_and_scissors(), (viewport, scissor));
}

#[test]
fn swap_chain_takes_the_largest_surface() {
    let swap_chain = SwapChain::new(i32::MAX as u32, 0);
    assert_eq!(
        swap_chain.set_viewports_and_scissors().1,
        Rect { left: 0, top: 0, right: i32::MAX, bottom: 0 }
    );
}

#[test]
fn render_target_follows_the_device_index() {
    let swap_chain = SwapChain::new(640, 480);
    assert_eq!(swap_chain.get_render_target(0), 0);
    assert_eq!(swap_chain.get_render_target(1), 1);
    assert_eq!(swap_chain.get_rtv_handle(0), 0);
    assert_eq!(swap_chain.get_rtv_handle(1), 1);
}

#[test]
fn presentation_is_locked_to_the_refresh() {
    assert_eq!(SwapChain::new(1, 1).present(), Present { sync_interval: 1, flags: 0 });
    assert_eq!(Renderer::new(1, 1).present(), Present { sync_interval: 1, flags: 0 });
}

#[test]
fn swap_chain_description_has_one_buffer_per_frame() {
    assert_eq!(FRAME_COUNT, 2);
    assert_eq!(
        make_swap_chain(1024, 768),
        SwapChainDesc {
            buffer_count: 2,
            width: 1024,
            height: 768,
            format: Format::R8G8B8A8Unorm,
            buffer_usage: BufferUsage::RenderTargetOutput,
            swap_effect: SwapEffect::FlipDiscard,
            sample_count: 1,
        }
    );
}

#[test]
fn renderer_runs_frames_until_shut_down() {
    let mut renderer = Renderer::new(1024, 768);
    assert!(renderer.is_running());
    assert!(!renderer.is_started());
    assert_eq!(renderer.next_fence_value(), Some(1));
    assert_eq!(*renderer.get_viewport(), Viewport { top_left_x: 0, top_left_y: 0, width: 1024, height: 768 });
    assert_eq!(renderer.get_render_target(1), 1);
    assert_eq!(renderer.get_rtv_handle(0), 0);

    assert_eq!(renderer.start_new_frame(0), FrameStart::Ready { slot: 0 });
    assert!(renderer.is_started());
    assert_eq!(renderer.new_command_list(), CommandList { frame: 0, index: 0, recycled: false });
    assert_eq!(renderer.new_command_list(), CommandList { frame: 0, index: 1, recycled: false });
    assert_eq!(renderer.end_frame(), 1);
    assert!(!renderer.is_started());

    assert_eq!(renderer.start_new_frame(0), FrameStart::Ready { slot: 1 });
    assert_eq!(renderer.end_frame(), 2);
    assert_eq!(renderer.start_new_frame(0), FrameStart::Blocked { fence_value: 1 });
    assert_eq!(renderer.start_new_frame(1), FrameStart::Ready { slot: 0 });
    assert_eq!(renderer.new_command_list(), CommandList { frame: 0, index: 1, recycled: true });
    assert_eq!(renderer.end_frame(), 3);

    assert_eq!(renderer.next_fence_value(), Some(4));
    assert_eq!(renderer.shutdown(1), vec![3, 2]);
    assert!(!renderer.is_running());
    assert_eq!(renderer.next_fence_value(), None);
    assert!(!renderer.is_started());
    assert_eq!(renderer.shutdown(0), Vec::<u64>::new());
    assert_eq!(
        renderer.set_viewports_and_scissors(),
        (
            Viewport { top_left_x: 0, top_left_y: 0, width: 1024, height: 768 },
            Rect { left: 0, top: 0, right: 1024, bottom: 768 }
        )
    );
}

#[test]
fn points_buffers_take_turns() {
    let mut buffers = PointsBuffers::new();
    assert_eq!(PointsBuffers::buffer_size(), 1_200_000);
    assert_eq!(INITIAL_VERTEX_COUNT, 100_000);
    assert_eq!(buffers.get_next_buffer(), 0);
    assert_eq!(buffers.get_next_buffer(), 1);
    assert_eq!(buffers.get_next_buffer(), 0);

    let vertices = vec![
        Vertex { position: [1.5f32.to_bits(), 2.5f32.to_bits()], color: 0xff00_00ff },
        Vertex { position: [0, 0], color: 0x0102_0304 },
    ];
    let (buffer, bytes) = buffers.populate_next_buffer(&vertices);
    assert_eq!(buffer, 1);
    let mut expected = Vec::new();
    expected.extend_from_slice(&1.5f32.to_le_bytes());
    expected.extend_from_slice(&2.5f32.to_le_bytes());
    expected.extend_from_slice(&[0xff, 0x00, 0x00, 0xff]);
    expected.extend_from_slice(&[0; 8]);
    expected.extend_from_slice(&[4, 3, 2, 1]);
    assert_eq!(bytes, expected);

    let (buffer, bytes) = buffers.populate_next_buffer(&Vec::new());
    assert_eq!(buffer, 0);
    assert!(bytes.is_empty());
    assert_eq!(buffers.get_next_buffer(), 1);
}

#[test]
fn points_are_drawn_from_the_vertex_buffer() {
    let mut matrix = [0u32; 16];
    for (i, value) in matrix.iter_mut().enumerate() {
        *value = (i as f32).to_bits();
    }
    let mut renderer = PointsRenderer::new(Format::R8G8B8A8Unorm);
    let commands = renderer.render(&matrix, 600_000, 50_000);
    assert_eq!(commands.len(), 6);
    assert!(matches!(commands[0], DrawCommand::SetGraphicsRootSignature));
    assert!(matches!(commands[1], DrawCommand::SetPipelineState));
    assert!(matches!(
        commands[2],
        DrawCommand::IASetVertexBuffers { start_slot: 0, size_in_bytes: 600_000, stride_in_bytes: 12 }
    ));
    assert!(matches!(commands[3], DrawCommand::IASetPrimitiveTopology { topology: Topology::PointList }));
    match commands[4] {
        DrawCommand::SetGraphicsRoot32BitConstants { root_parameter_index, values, dest_offset } => {
            assert_eq!(root_parameter_index, 0);
            assert_eq!(values, matrix);
            assert_eq!(dest_offset, 0);
        }
        _ => panic!("root constants expected"),
    }
    assert!(matches!(
        commands[5],
        DrawCommand::DrawInstanced {
            vertex_count_per_instance: 50_000,
            instance_count: 1,
            start_vertex_location: 0,
            start_instance_location: 0
        }
    ));

    let wide = renderer.render(&matrix, 0x1_0000_0010, 1);
    assert!(matches!(
        wide[2],
        DrawCommand::IASetVertexBuffers { start_slot: 0, size_in_bytes: 0x10, stride_in_bytes: 12 }
    ));
}

#[test]
fn vertex_layout_has_position_then_colour() {
    assert_eq!(
        PointsRenderer::input_layout(),
        [
            InputElement { semantic: Semantic::Position, format: Format::R32G32Float, aligned_byte_offset: 0 },
            InputElement { semantic: Semantic::Color, format: Format::R8G8B8A8Unorm, aligned_byte_offset: 8 },
        ]
    );
}

#[test]
fn points_pipeline_writes_one_target_of_the_given_format() {
    let renderer = PointsRenderer::new(Format::R8G8B8A8Unorm);
    let desc = renderer.create_pipeline_state();
    assert_eq!(desc.input_layout, PointsRenderer::input_layout());
    assert_eq!(desc.sample_mask, u32::MAX);
    assert_eq!(desc.primitive_topology_type, PrimitiveTopologyType::Point);
    assert_eq!(desc.num_render_targets, 1);
    assert_eq!(desc.rtv_format, Format::R8G8B8A8Unorm);
    assert_eq!(desc.sample_count, 1);
    assert_eq!(PointsRenderer::new(Format::Unknown).create_pipeline_state().rtv_format, Format::Unknown);
}

#[test]
fn resource_descriptions_start_from_the_default() {
    let default = ResourceDesc::default();
    assert_eq!(
        default,
        ResourceDesc {
            dimension: ResourceDimension::Unknown,
            alignment: 0,
            width: 1,
            height: 1,
            depth_or_array_size: 1,
            mip_levels: 1,
            format: Format::Unknown,
            sample_count: 1,
            sample_quality: 0,
            layout: TextureLayout::Unknown,
            flags: 0,
        }
    );
    assert_eq!(
        ResourceDesc::buffer(792),
        ResourceDesc { dimension: ResourceDimension::Buffer, width: 792, layout: TextureLayout::RowMajor, ..default }
    );
    assert_eq!(
        ResourceDesc::tex2d(Format::R8G8B8A8Unorm, 1024, 768),
        ResourceDesc {
            dimension: ResourceDimension::Texture2D,
            format: Format::R8G8B8A8Unorm,
            width: 1024,
            height: 768,
            ..default
        }
    );
}

#[test]
fn heap_properties_name_the_memory() {
    let default = HeapProperties::default();
    assert_eq!(
        default,
        HeapProperties {
            heap_type: HeapType::Default,
            cpu_page_property: CpuPageProperty::Unknown,
            memory_pool_preference: MemoryPool::Unknown,
            creation_node_mask: 1,
            visible_node_mask: 1,
        }
    );
    assert_eq!(HeapProperties::standard(HeapType::Default), default);
    assert_eq!(HeapProperties::standard(HeapType::Upload), HeapProperties { heap_type: HeapType::Upload, ..default });
}

#[test]
fn buffer_descriptions_give_resource_and_heap() {
    let staging = BufferDesc { buffer: Buffer::Staging(1), size: 1_000_792, heap: HeapType::Upload };
    assert_eq!(staging.resource_desc(), ResourceDesc::buffer(1_000_792));
    assert_eq!(staging.heap_properties(), HeapProperties::standard(HeapType::Upload));
}

#[test]
fn transition_barrier_covers_all_subresources() {
    assert_eq!(
        transition_barrier(1, ResourceState::Present, ResourceState::RenderTarget),
        TransitionBarrier {
            resource: 1,
            state_before: ResourceState::Present,
            state_after: ResourceState::RenderTarget,
            subresource: u32::MAX,
        }
    );
}

#[test]
fn overlay_keeps_the_events_it_captures() {
    let keyboard = [EventKind::KeyboardInput, EventKind::ModifiersChanged];
    let mouse = [
        EventKind::CursorMoved,
        EventKind::CursorEntered,
        EventKind::CursorLeft,
        EventKind::MouseWheel,
        EventKind::MouseInput,
        EventKind::TouchpadPressure,
    ];
    let other = [EventKind::OtherWindowEvent, EventKind::Other];
    for want_keyboard in [false, true] {
        for want_mouse in [false, true] {
            for event in keyboard {
                assert_eq!(handle_event(event, want_keyboard, want_mouse), !want_keyboard);
            }
            for event in mouse {
                assert_eq!(handle_event(event, want_keyboard, want_mouse), !want_mouse);
            }
            for event in other {
                assert!(handle_event(event, want_keyboard, want_mouse));
            }
        }
    }
}
