//! Graphics pipelines: what a pipeline is built from, and the cache that
//! holds the one live pipeline of each draw system.

use std::collections::HashMap;
use vstd::prelude::*;
use crate::handles::{PipelineHandle, RenderPassHandle};
use crate::swapchain::Viewport;

verus! {

/// How the vertices of a draw are assembled into primitives.
#[derive(Clone, Copy, Debug, PartialEq, Eq, Hash, Structural)]
pub enum PrimitiveTopology {
    PointList,
    LineList,
    LineStrip,
    TriangleList,
    TriangleStrip,
    TriangleFan,
    LineListWithAdjacency,
    LineStripWithAdjacency,
    TriangleListWithAdjacency,
    TriangleStripWithAdjacency,
    PatchList,
}

/// Which faces are thrown away before rasterization.
#[derive(Clone, Copy, Debug, PartialEq, Eq, Hash, Structural)]
pub enum CullMode {
    Neither,
    Front,
    Back,
    FrontAndBack,
}

/// Which winding makes a face a front face.
#[derive(Clone, Copy, Debug, PartialEq, Eq, Hash, Structural)]
pub enum FrontFace {
    CounterClockwise,
    Clockwise,
}

/// A pair of compiled shaders, vertex and fragment.
#[derive(Clone, Copy, Debug, PartialEq, Eq, Hash, Structural)]
pub enum ShaderPair {
    /// Transforms each position by one matrix and shades it flat.
    Triangle,
}

/// What one vertex looks like in a vertex buffer.
#[derive(Clone, Copy, Debug, PartialEq, Eq, Hash, Structural)]
pub enum VertexLayout {
    /// A position of three single-precision numbers and nothing else.
    Position,
}

/// One subpass of a render pass.
#[derive(Clone, Copy, Debug, PartialEq, Eq, Hash, Structural)]
pub struct Subpass {
    pub render_pass: RenderPassHandle,
    pub index: u32,
}

/// Everything that a pipeline is compiled from. Two pipelines compiled from
/// equal descriptions on one device behave alike.
#[derive(Clone, Copy, Debug, PartialEq, Eq, Hash, Structural)]
pub struct PipelineDescription {
    pub subpass: Subpass,
    pub vertex_layout: VertexLayout,
    pub shaders: ShaderPair,
    pub topology: PrimitiveTopology,
    pub cull_mode: CullMode,
    pub front_face: FrontFace,
    pub depth_test: bool,
}

/// The live pipeline of a draw system: the compiled object, and what it was
/// compiled from.
#[derive(Clone, Copy, Debug, PartialEq, Eq, Hash, Structural)]
pub struct PipelineEntry {
    pub pipeline: PipelineHandle,
    pub description: PipelineDescription,
}

/// Why the cache cannot answer.
#[derive(Clone, Copy, Debug, PartialEq, Eq, Structural)]
pub enum PipelineError {
    /// The draw system has never published a pipeline.
    NotFound,
    /// The pipeline has a topology that the wireframe switch does not know.
    UndefinedTopology,
    /// The scene has no render pass to build a pipeline for.
    NoRenderPass,
}

/// The pipeline that draws terrain in a subpass with a topology: back faces
/// culled, counter-clockwise fronts, depth tested.
pub open spec fn terrain_pipeline(
    subpass: Subpass,
    topology: PrimitiveTopology,
) -> PipelineDescription {
    PipelineDescription {
        subpass,
        vertex_layout: VertexLayout::Position,
        shaders: ShaderPair::Triangle,
        topology,
        cull_mode: CullMode::Back,
        front_face: FrontFace::CounterClockwise,
        depth_test: true,
    }
}

/// The other of the two topologies that the wireframe switch goes between,
/// filled triangles and line strips. Any other topology has no other.
pub open spec fn toggled(topology: PrimitiveTopology) -> Result<PrimitiveTopology, PipelineError> {
    match topology {
        PrimitiveTopology::TriangleList => Ok(PrimitiveTopology::LineStrip),
        PrimitiveTopology::LineStrip => Ok(PrimitiveTopology::TriangleList),
        _ => Err(PipelineError::UndefinedTopology),
    }
}

/// Switches between filled triangles and line strips, and refuses any other
/// topology.
pub fn toggle_topology(
    topology: PrimitiveTopology,
) -> (result: Result<PrimitiveTopology, PipelineError>)
    ensures
        result == toggled(topology),
{
    match topology {
        PrimitiveTopology::TriangleList => Ok(PrimitiveTopology::LineStrip),
        PrimitiveTopology::LineStrip => Ok(PrimitiveTopology::TriangleList),
        _ => Err(PipelineError::UndefinedTopology),
    }
}

/// Switching twice gives the topology back, for the two topologies that can
/// be switched; every other topology is refused.
pub proof fn lemma_toggle_is_involution(topology: PrimitiveTopology)
    ensures
        toggled(topology) is Ok <==> (topology is TriangleList || topology is LineStrip),
        toggled(topology) matches Ok(other) ==> toggled(other) == Ok::<PrimitiveTopology, PipelineError>(
            topology,
        ) && other != topology,
        !(topology is TriangleList || topology is LineStrip) ==> toggled(topology) == Err::<
            PrimitiveTopology,
            PipelineError,
        >(PipelineError::UndefinedTopology),
{
}

/// A draw system that needs a pipeline of its own.
pub trait RequiresGraphicsPipeline {
    /// The key under which the cache holds the pipeline of this system. No
    /// two systems of a program may share one.
    spec fn system_key() -> u64;

    fn system_id() -> (id: u64)
        ensures
            id == Self::system_key(),
    ;

    /// What the first pipeline of the system is compiled from.
    fn create_graphics_pipeline(render_pass: RenderPassHandle) -> (description: PipelineDescription)
        ensures
            description.subpass == (Subpass { render_pass, index: 0 }),
    ;
}

/// The system that draws terrain.
#[derive(Clone, Copy, Debug, PartialEq, Eq)]
pub struct TerrainDrawSystemPipeline;

impl RequiresGraphicsPipeline for TerrainDrawSystemPipeline {
    open spec fn system_key() -> u64 {
        1
    }

    fn system_id() -> (id: u64) {
        1
    }

    fn create_graphics_pipeline(render_pass: RenderPassHandle) -> (description: PipelineDescription)
        ensures
            description == terrain_pipeline(
                Subpass { render_pass, index: 0 },
                PrimitiveTopology::TriangleList,
            ),
    {
        PipelineDescription {
            subpass: Subpass { render_pass, index: 0 },
            vertex_layout: VertexLayout::Position,
            shaders: ShaderPair::Triangle,
            topology: PrimitiveTopology::TriangleList,
            cull_mode: CullMode::Back,
            front_face: FrontFace::CounterClockwise,
            depth_test: true,
        }
    }
}

/// The pipeline that draws plain renderables in a subpass: filled
/// triangles, nothing culled, no depth test.
pub open spec fn renderable_pipeline(subpass: Subpass) -> PipelineDescription {
    PipelineDescription {
        subpass,
        vertex_layout: VertexLayout::Position,
        shaders: ShaderPair::Triangle,
        topology: PrimitiveTopology::TriangleList,
        cull_mode: CullMode::Neither,
        front_face: FrontFace::CounterClockwise,
        depth_test: false,
    }
}

/// The system that draws plain renderables, with the pipeline that the
/// renderer is started with.
#[derive(Clone, Copy, Debug, PartialEq, Eq)]
pub struct RenderableDrawSystemPipeline;

impl RequiresGraphicsPipeline for RenderableDrawSystemPipeline {
    open spec fn system_key() -> u64 {
        0
    }

    fn system_id() -> (id: u64) {
        0
    }

    fn create_graphics_pipeline(render_pass: RenderPassHandle) -> (description: PipelineDescription)
        ensures
            description == renderable_pipeline(Subpass { render_pass, index: 0 }),
    {
        PipelineDescription {
            subpass: Subpass { render_pass, index: 0 },
            vertex_layout: VertexLayout::Position,
            shaders: ShaderPair::Triangle,
            topology: PrimitiveTopology::TriangleList,
            cull_mode: CullMode::Neither,
            front_face: FrontFace::CounterClockwise,
            depth_test: false,
        }
    }
}

/// Builds the terrain pipeline anew when its input assembly changes.
#[derive(Clone, Copy, Debug, PartialEq, Eq)]
pub struct TerrainAssemblyStateSystemPipeline;

impl TerrainAssemblyStateSystemPipeline {
    /// What the terrain pipeline is compiled from for a subpass and a
    /// topology. Nothing but the topology differs from the first pipeline
    /// of the terrain system.
    pub fn create_pipeline(
        &self,
        subpass: Subpass,
        topology: PrimitiveTopology,
    ) -> (description: PipelineDescription)
        ensures
            description == terrain_pipeline(subpass, topology),
    {
        PipelineDescription {
            subpass,
            vertex_layout: VertexLayout::Position,
            shaders: ShaderPair::Triangle,
            topology,
            cull_mode: CullMode::Back,
            front_face: FrontFace::CounterClockwise,
            depth_test: true,
        }
    }
}

/// What the shared scene state holds, as mathematical values.
pub struct SceneStateView {
    pub pipelines: Map<u64, PipelineEntry>,
    pub render_passes: Seq<RenderPassHandle>,
    pub viewport: Viewport,
}

/// What the draw systems share: the pipeline of each, the render passes,
/// and the viewport.
#[derive(Debug)]
pub struct SceneState {
    pub pipelines: HashMap<u64, PipelineEntry>,
    pub render_passes: Vec<RenderPassHandle>,
    pub viewport: Viewport,
}

impl View for SceneState {
    type V = SceneStateView;

    open spec fn view(&self) -> SceneStateView {
        SceneStateView {
            pipelines: self.pipelines@,
            render_passes: self.render_passes@,
            viewport: self.viewport,
        }
    }
}

impl SceneStateView {
    /// The pipeline of a system, or that there is none.
    pub open spec fn pipeline_of(self, key: u64) -> Result<PipelineEntry, PipelineError> {
        if self.pipelines.dom().contains(key) {
            Ok(self.pipelines[key])
        } else {
            Err(PipelineError::NotFound)
        }
    }

    /// The state after a system has published a pipeline: that system has
    /// the new one, every other system keeps its own.
    pub open spec fn with_pipeline(self, key: u64, entry: PipelineEntry) -> SceneStateView {
        SceneStateView { pipelines: self.pipelines.insert(key, entry), ..self }
    }
}

impl SceneState {
    /// A scene state without pipelines.
    pub fn new(render_passes: Vec<RenderPassHandle>, viewport: Viewport) -> (state: Self)
        ensures
            state@ == (SceneStateView { pipelines: Map::empty(), render_passes: render_passes@, viewport }),
    {
        SceneState { pipelines: HashMap::new(), render_passes, viewport }
    }

    /// The pipeline that the system published last; `NotFound` if it never
    /// published one.
    pub fn get_pipeline_for_system<S: RequiresGraphicsPipeline>(
        &self,
    ) -> (result: Result<PipelineEntry, PipelineError>)
        ensures
            result == self@.pipeline_of(S::system_key()),
    {
        let key = S::system_id();
        match self.pipelines.get(&key) {
            Some(entry) => Ok(*entry),
            None => Err(PipelineError::NotFound),
        }
    }

    /// Publishes the pipeline of a system in place of the one it had. Who
    /// holds the old handle can go on using it; whoever asks from now on
    /// gets the new one.
    pub fn set_pipeline_for_system<S: RequiresGraphicsPipeline>(&mut self, entry: PipelineEntry)
        ensures
            final(self)@ == old(self)@.with_pipeline(S::system_key(), entry),
    {
        let key = S::system_id();
        self.pipelines.insert(key, entry);
    }

    pub fn viewport(&self) -> (viewport: Viewport)
        ensures
            viewport == self@.viewport,
    {
        self.viewport
    }
}

/// What a system has published is what the cache answers for that system,
/// until the system publishes again; what one system publishes changes the
/// answer for no other system. Each system has one pipeline at a time.
pub proof fn lemma_pipeline_round_trip(state: SceneStateView, key: u64, entry: PipelineEntry, other: u64)
    ensures
        state.with_pipeline(key, entry).pipeline_of(key) == Ok::<PipelineEntry, PipelineError>(entry),
        other != key ==> state.with_pipeline(key, entry).pipeline_of(other) == state.pipeline_of(other),
        state.with_pipeline(key, entry).with_pipeline(key, entry) == state.with_pipeline(key, entry),
{
    assert(state.pipelines.insert(key, entry).insert(key, entry) =~= state.pipelines.insert(key, entry));
}

} // verus!
