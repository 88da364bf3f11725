use ember::handles::{BufferHandle, PipelineHandle, RenderPassHandle};
use ember::geometry::{cube_index_data, cube_vertex_data, GeometryData};
use ember::input::{Key, KeyInputQueue, Modifiers};
use ember::pipeline::{
    toggle_topology, CullMode, FrontFace, PipelineDescription, PipelineEntry, PipelineError,
    PrimitiveTopology, RenderableDrawSystemPipeline, RequiresGraphicsPipeline, SceneState,
    ShaderPair, Subpass,
    TerrainAssemblyStateSystemPipeline, TerrainDrawSystemPipeline, VertexLayout,
};
use ember::recording::Command;
use ember::scene::{SceneEntity, TransformId};
use ember::swapchain::Viewport;
use ember::terrain::{
    TerrainAssemblyStateModifierSystem, TerrainComponent, TerrainDrawSystem, TerrainInitSystem,
    TerrainSettings, TerrainUiSystem,
};

fn viewport() -> Viewport {
    Viewport { x: 0, y: 0, width: 640, height: 480, min_depth: 0, max_depth: 1 }
}

fn state() -> SceneState {
    SceneState::new(vec![RenderPassHandle(5), RenderPassHandle(6)], viewport())
}

fn entry(pipeline: u64, topology: PrimitiveTopology) -> PipelineEntry {
    PipelineEntry {
        pipeline: PipelineHandle(pipeline),
        description: TerrainAssemblyStateSystemPipeline
            .create_pipeline(Subpass { render_pass: RenderPassHandle(5), index: 0 }, topology),
    }
}

fn keys(list: &[Key]) -> KeyInputQueue {
    let mut queue = KeyInputQueue::new();
    for key in list {
        queue.push(*key);
    }
    queue
}

const SHIFT_ALT: Modifiers = Modifiers { shift: true, ctrl: false, alt: true, logo: false };

#[test]
fn terrain_pipeline_description() {
    let description = TerrainDrawSystemPipeline::create_graphics_pipeline(RenderPassHandle(5));
    assert_eq!(
        description,
        PipelineDescription {
            subpass: Subpass { render_pass: RenderPassHandle(5), index: 0 },
            vertex_layout: VertexLayout::Position,
            shaders: ShaderPair::Triangle,
            topology: PrimitiveTopology::TriangleList,
            cull_mode: CullMode::Back,
            front_face: FrontFace::CounterClockwise,
            depth_test: true,
        }
    );
    assert_eq!(TerrainDrawSystemPipeline::system_id(), 1);
}

#[test]
fn renderable_pipeline_description() {
    assert_eq!(
        RenderableDrawSystemPipeline::create_graphics_pipeline(RenderPassHandle(6)),
        PipelineDescription {
            subpass: Subpass { render_pass: RenderPassHandle(6), index: 0 },
            vertex_layout: VertexLayout::Position,
            shaders: ShaderPair::Triangle,
            topology: PrimitiveTopology::TriangleList,
            cull_mode: CullMode::Neither,
            front_face: FrontFace::CounterClockwise,
            depth_test: false,
        }
    );
    assert_eq!(RenderableDrawSystemPipeline::system_id(), 0);
}

#[test]
fn create_pipeline_changes_the_topology_only() {
    let first = TerrainDrawSystemPipeline::create_graphics_pipeline(RenderPassHandle(5));
    let subpass = Subpass { render_pass: RenderPassHandle(5), index: 0 };
    let same = TerrainAssemblyStateSystemPipeline.create_pipeline(subpass, PrimitiveTopology::TriangleList);
    assert_eq!(same, first);
    let lines = TerrainAssemblyStateSystemPipeline.create_pipeline(subpass, PrimitiveTopology::LineStrip);
    assert_eq!(lines, PipelineDescription { topology: PrimitiveTopology::LineStrip, ..first });
    let elsewhere = TerrainAssemblyStateSystemPipeline
        .create_pipeline(Subpass { render_pass: RenderPassHandle(8), index: 3 }, PrimitiveTopology::LineStrip);
    assert_eq!(elsewhere.subpass, Subpass { render_pass: RenderPassHandle(8), index: 3 });
}

#[test]
fn get_before_set_is_not_found() {
    let state = state();
    assert_eq!(
        state.get_pipeline_for_system::<TerrainDrawSystemPipeline>(),
        Err(PipelineError::NotFound)
    );
}

#[test]
fn set_then_get_gives_what_was_set() {
    let mut state = state();
    let first = entry(1, PrimitiveTopology::TriangleList);
    state.set_pipeline_for_system::<TerrainDrawSystemPipeline>(first);
    assert_eq!(state.get_pipeline_for_system::<TerrainDrawSystemPipeline>(), Ok(first));
    let second = entry(2, PrimitiveTopology::LineStrip);
    state.set_pipeline_for_system::<TerrainDrawSystemPipeline>(second);
    assert_eq!(state.get_pipeline_for_system::<TerrainDrawSystemPipeline>(), Ok(second));
    assert_eq!(state.pipelines.len(), 1);
}

#[test]
fn systems_do_not_see_each_other() {
    let mut state = state();
    let terrain = entry(1, PrimitiveTopology::TriangleList);
    state.set_pipeline_for_system::<TerrainDrawSystemPipeline>(terrain);
    assert_eq!(state.get_pipeline_for_system::<RenderableDrawSystemPipeline>(), Err(PipelineError::NotFound));
    let other = PipelineEntry {
        pipeline: PipelineHandle(9),
        description: RenderableDrawSystemPipeline::create_graphics_pipeline(RenderPassHandle(6)),
    };
    state.set_pipeline_for_system::<RenderableDrawSystemPipeline>(other);
    assert_eq!(state.get_pipeline_for_system::<TerrainDrawSystemPipeline>(), Ok(terrain));
    assert_eq!(state.get_pipeline_for_system::<RenderableDrawSystemPipeline>(), Ok(other));
    assert_eq!(state.pipelines.len(), 2);
    assert_eq!(state.viewport(), viewport());
}

#[test]
fn toggle_goes_between_triangles_and_line_strips() {
    assert_eq!(toggle_topology(PrimitiveTopology::TriangleList), Ok(PrimitiveTopology::LineStrip));
    assert_eq!(toggle_topology(PrimitiveTopology::LineStrip), Ok(PrimitiveTopology::TriangleList));
}

#[test]
fn toggle_twice_is_back_where_it_was() {
    for topology in [PrimitiveTopology::TriangleList, PrimitiveTopology::LineStrip] {
        let once = toggle_topology(topology).unwrap();
        assert_ne!(once, topology);
        assert_eq!(toggle_topology(once), Ok(topology));
    }
}

#[test]
fn toggle_refuses_every_other_topology() {
    for topology in [
        PrimitiveTopology::PointList,
        PrimitiveTopology::LineList,
        PrimitiveTopology::TriangleStrip,
        PrimitiveTopology::TriangleFan,
        PrimitiveTopology::LineListWithAdjacency,
        PrimitiveTopology::LineStripWithAdjacency,
        PrimitiveTopology::TriangleListWithAdjacency,
        PrimitiveTopology::TriangleStripWithAdjacency,
        PrimitiveTopology::PatchList,
    ] {
        assert_eq!(toggle_topology(topology), Err(PipelineError::UndefinedTopology));
    }
}

#[test]
fn key_queue_contains() {
    let queue = keys(&[Key::W, Key::Other(35), Key::D]);
    assert!(queue.contains(Key::W));
    assert!(queue.contains(Key::D));
    assert!(queue.contains(Key::Other(35)));
    assert!(!queue.contains(Key::Z));
    assert!(!queue.contains(Key::Other(36)));
    assert!(!KeyInputQueue::new().contains(Key::Z));
    assert_eq!(queue.keys, vec![Key::W, Key::Other(35), Key::D]);
}

#[test]
fn wireframe_switch_needs_shift_alt_and_z() {
    let mut state = state();
    state.set_pipeline_for_system::<TerrainDrawSystemPipeline>(entry(1, PrimitiveTopology::TriangleList));
    let z = keys(&[Key::A, Key::Z]);
    let no_z = keys(&[Key::A, Key::S]);
    let shift = Modifiers { shift: true, ctrl: false, alt: false, logo: false };
    let alt = Modifiers { shift: false, ctrl: false, alt: true, logo: false };
    let all = Modifiers { shift: true, ctrl: true, alt: true, logo: true };
    assert_eq!(TerrainAssemblyStateModifierSystem(&state, &z, &shift), Ok(None));
    assert_eq!(TerrainAssemblyStateModifierSystem(&state, &z, &alt), Ok(None));
    assert_eq!(TerrainAssemblyStateModifierSystem(&state, &no_z, &SHIFT_ALT), Ok(None));
    let expected = entry(0, PrimitiveTopology::LineStrip).description;
    assert_eq!(TerrainAssemblyStateModifierSystem(&state, &z, &SHIFT_ALT), Ok(Some(expected)));
    assert_eq!(TerrainAssemblyStateModifierSystem(&state, &z, &all), Ok(Some(expected)));
}

#[test]
fn wireframe_switch_twice_is_back_at_triangles() {
    let mut state = state();
    let start = entry(1, PrimitiveTopology::TriangleList);
    state.set_pipeline_for_system::<TerrainDrawSystemPipeline>(start);
    let z = keys(&[Key::Z]);
    let once = TerrainAssemblyStateModifierSystem(&state, &z, &SHIFT_ALT).unwrap().unwrap();
    assert_eq!(once.topology, PrimitiveTopology::LineStrip);
    state.set_pipeline_for_system::<TerrainDrawSystemPipeline>(PipelineEntry {
        pipeline: PipelineHandle(2),
        description: once,
    });
    let twice = TerrainAssemblyStateModifierSystem(&state, &z, &SHIFT_ALT).unwrap().unwrap();
    assert_eq!(twice, start.description);
}

#[test]
fn wireframe_switch_errors() {
    let z = keys(&[Key::Z]);
    let mut state = state();
    assert_eq!(
        TerrainAssemblyStateModifierSystem(&state, &z, &SHIFT_ALT),
        Err(PipelineError::NotFound)
    );
    // no error is met while the switch is not asked for
    assert_eq!(TerrainAssemblyStateModifierSystem(&state, &keys(&[]), &SHIFT_ALT), Ok(None));
    state.set_pipeline_for_system::<TerrainDrawSystemPipeline>(entry(1, PrimitiveTopology::PointList));
    assert_eq!(
        TerrainAssemblyStateModifierSystem(&state, &z, &SHIFT_ALT),
        Err(PipelineError::UndefinedTopology)
    );
    let mut bare = SceneState::new(Vec::new(), viewport());
    bare.set_pipeline_for_system::<TerrainDrawSystemPipeline>(entry(1, PrimitiveTopology::LineStrip));
    assert_eq!(
        TerrainAssemblyStateModifierSystem(&bare, &z, &SHIFT_ALT),
        Err(PipelineError::NoRenderPass)
    );
}

fn terrain(uploaded: bool) -> TerrainComponent {
    let mut geometry = GeometryData::new(cube_vertex_data(), cube_index_data());
    if uploaded {
        geometry.initialize(BufferHandle(31), BufferHandle(32));
    }
    TerrainComponent { geometry, size: 10, amplitude: 0x3F80_0000 }
}

#[test]
fn terrain_size_is_at_least_one() {
    let mut t = terrain(false);
    TerrainUiSystem(&mut t, TerrainSettings { size: 0, amplitude: 0x4000_0000 });
    assert_eq!(t.get_size(), 1);
    assert_eq!(t.amplitude, 0x4000_0000);
    TerrainUiSystem(&mut t, TerrainSettings { size: 1, amplitude: 0x4000_0000 });
    assert_eq!(t.get_size(), 1);
    TerrainUiSystem(&mut t, TerrainSettings { size: 100, amplitude: 0x3DCC_CCCD });
    assert_eq!(t.get_size(), 100);
    assert_eq!(f32::from_bits(t.amplitude), 0.1);
    assert_eq!(t.geometry.indices.len(), 36);
    t.set_size(7);
    assert_eq!(t.size, 7);
}

#[test]
fn terrain_init_names_what_is_not_uploaded() {
    let mut terrains = vec![terrain(false), terrain(true), terrain(false)];
    assert_eq!(TerrainInitSystem(&terrains), vec![0, 2]);
    assert!(terrains[0].initialize(BufferHandle(1), BufferHandle(2)));
    assert!(!terrains[1].initialize(BufferHandle(3), BufferHandle(4)));
    assert_eq!(terrains[1].geometry.vertex_buffer, Some(BufferHandle(31)));
    assert_eq!(TerrainInitSystem(&terrains), vec![2]);
    assert!(TerrainInitSystem(&Vec::new()).is_empty());
}

#[test]
fn terrain_draw_needs_a_pipeline() {
    let t = terrain(true);
    let entities =
        vec![SceneEntity { geometry: Some(&t.geometry), transform: Some(TransformId(1)), camera: None }];
    assert_eq!(TerrainDrawSystem(&state(), &entities), Err(PipelineError::NotFound));
}

#[test]
fn terrain_draw_writes_one_buffer_per_terrain() {
    let mut state = state();
    state.set_pipeline_for_system::<TerrainDrawSystemPipeline>(entry(4, PrimitiveTopology::TriangleList));
    let a = terrain(true);
    let b = terrain(false);
    let c = terrain(true);
    let entities = vec![
        SceneEntity { geometry: Some(&a.geometry), transform: Some(TransformId(1)), camera: None },
        SceneEntity { geometry: Some(&b.geometry), transform: Some(TransformId(2)), camera: None },
        SceneEntity { geometry: Some(&c.geometry), transform: Some(TransformId(3)), camera: None },
    ];
    let buffers = TerrainDrawSystem(&state, &entities).unwrap();
    assert_eq!(buffers.len(), 2);
    assert_eq!(
        buffers[1],
        vec![
            Command::SetViewport(viewport()),
            Command::BindPipeline(PipelineHandle(4)),
            Command::BindUniform { slot: 1, transform: TransformId(3) },
            Command::BindVertexBuffer(BufferHandle(31)),
            Command::BindIndexBuffer(BufferHandle(32)),
            Command::DrawIndexed {
                index_count: 36,
                instance_count: 1,
                first_index: 0,
                vertex_offset: 0,
                first_instance: 0
            },
        ]
    );
    assert_eq!(buffers[0][2], Command::BindUniform { slot: 0, transform: TransformId(1) });
}
