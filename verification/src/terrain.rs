//! The terrain: its settings, its draw system, and the switch between
//! filled and wireframe drawing.

use vstd::prelude::*;
use crate::geometry::GeometryData;
use crate::handles::{BufferHandle, PipelineHandle};
use crate::input::{Key, KeyInputQueue, Modifiers};
use crate::pipeline::{
    terrain_pipeline, toggle_topology, toggled, PipelineDescription, PipelineEntry, PipelineError,
    PrimitiveTopology, RequiresGraphicsPipeline, SceneState, SceneStateView, Subpass,
    TerrainAssemblyStateSystemPipeline, TerrainDrawSystemPipeline,
};
use crate::recording::{draw_calls, plan_draws, Command, DrawCall};
use crate::scene::SceneEntity;
use crate::swapchain::Viewport;

verus! {

/// The smallest size that a terrain can have.
pub const MIN_TERRAIN_SIZE: usize = 1;

/// A terrain: its mesh, the number of cells along each side, and the height
/// of its relief, held as the 32-bit word of a single-precision number.
#[derive(Debug, PartialEq, Eq)]
pub struct TerrainComponent {
    pub geometry: GeometryData,
    pub size: usize,
    pub amplitude: u32,
}

impl TerrainComponent {
    pub fn get_size(&self) -> (size: usize)
        ensures
            size == self.size,
    {
        self.size
    }

    /// Records the buffers of an upload of the mesh; a no-op once the mesh
    /// is initialized.
    pub fn initialize(
        &mut self,
        vertex_buffer: BufferHandle,
        index_buffer: BufferHandle,
    ) -> (recorded: bool)
        ensures
            final(self).geometry@ == old(self).geometry@.initialized_with(vertex_buffer, index_buffer),
            final(self).size == old(self).size,
            final(self).amplitude == old(self).amplitude,
            recorded == !old(self).geometry@.initialized,
    {
        self.geometry.initialize(vertex_buffer, index_buffer)
    }

    pub fn set_size(&mut self, size: usize)
        ensures
            final(self).size == size,
            final(self).amplitude == old(self).amplitude,
            final(self).geometry == old(self).geometry,
    {
        self.size = size;
    }
}

/// The places, in rising order, of the terrains among the first `n` whose
/// mesh has not been uploaded.
pub open spec fn pending_terrains(terrains: Seq<TerrainComponent>, n: int) -> Seq<usize>
    decreases n,
{
    if n <= 0 {
        Seq::empty()
    } else if terrains[n - 1].geometry@.initialized {
        pending_terrains(terrains, n - 1)
    } else {
        pending_terrains(terrains, n - 1).push((n - 1) as usize)
    }
}

/// Finds the terrains whose mesh has not been uploaded. The caller
/// generates the relief of each, uploads it and records the buffers with
/// `initialize`.
#[allow(non_snake_case)]
pub fn TerrainInitSystem(terrains: &Vec<TerrainComponent>) -> (pending: Vec<usize>)
    ensures
        pending@ == pending_terrains(terrains@, terrains@.len() as int),
{
    let mut pending: Vec<usize> = Vec::new();
    let mut i: usize = 0;
    while i < terrains.len()
        invariant
            i <= terrains@.len(),
            pending@ == pending_terrains(terrains@, i as int),
        decreases terrains@.len() - i,
    {
        if !terrains[i].geometry.initialized {
            pending.push(i);
        }
        i += 1;
    }
    pending
}

/// What the settings window proposes for a terrain.
#[derive(Clone, Copy, Debug, PartialEq, Eq, Structural)]
pub struct TerrainSettings {
    pub size: usize,
    pub amplitude: u32,
}

/// The size that a terrain gets when `proposed` is asked for: never less
/// than the smallest size.
pub open spec fn accepted_size(proposed: usize) -> usize {
    if proposed < MIN_TERRAIN_SIZE {
        MIN_TERRAIN_SIZE
    } else {
        proposed
    }
}

/// Applies what the settings window proposes: the size, raised to the
/// smallest size if need be, and the amplitude as it is. The mesh is not
/// touched.
#[allow(non_snake_case)]
pub fn TerrainUiSystem(terrain: &mut TerrainComponent, proposed: TerrainSettings)
    ensures
        final(terrain).size == accepted_size(proposed.size),
        final(terrain).size >= MIN_TERRAIN_SIZE,
        final(terrain).amplitude == proposed.amplitude,
        final(terrain).geometry == old(terrain).geometry,
{
    let mut size: usize = proposed.size;
    if size < MIN_TERRAIN_SIZE {
        size = MIN_TERRAIN_SIZE;
    }
    terrain.set_size(size);
    terrain.amplitude = proposed.amplitude;
}

/// The commands of the secondary command buffer that draws one terrain.
pub open spec fn secondary_commands(
    viewport: Viewport,
    pipeline: PipelineHandle,
    call: DrawCall,
) -> Seq<Command> {
    seq![
        Command::SetViewport(viewport),
        Command::BindPipeline(pipeline),
        Command::BindUniform { slot: call.uniform_slot, transform: call.transform },
        Command::BindVertexBuffer(call.vertex_buffer),
        Command::BindIndexBuffer(call.index_buffer),
        Command::DrawIndexed {
            index_count: call.index_count,
            instance_count: 1,
            first_index: 0,
            vertex_offset: 0,
            first_instance: 0,
        },
    ]
}

/// Writes one secondary command buffer for each drawable terrain, in the
/// order of the entities, with the viewport of the scene and the pipeline
/// that the terrain system published last. Fails if it never published one.
#[allow(non_snake_case)]
pub fn TerrainDrawSystem(
    scene_state: &SceneState,
    terrains: &Vec<SceneEntity>,
) -> (result: Result<Vec<Vec<Command>>, PipelineError>)
    ensures
        match scene_state@.pipeline_of(TerrainDrawSystemPipeline::system_key()) {
            Ok(entry) => {
                let calls = draw_calls(terrains@, terrains@.len() as int);
                &&& result matches Ok(buffers)
                &&& buffers@.len() == calls.len()
                &&& forall|k: int|
                    0 <= k < calls.len() ==> (#[trigger] buffers@[k])@ == secondary_commands(
                        scene_state@.viewport,
                        entry.pipeline,
                        calls[k],
                    )
            },
            Err(error) => result == Err::<Vec<Vec<Command>>, PipelineError>(error),
        },
{
    let entry = match scene_state.get_pipeline_for_system::<TerrainDrawSystemPipeline>() {
        Ok(entry) => entry,
        Err(error) => {
            return Err(error);
        },
    };
    let viewport = scene_state.viewport();
    let calls = plan_draws(terrains);
    let mut buffers: Vec<Vec<Command>> = Vec::new();
    let mut k: usize = 0;
    while k < calls.len()
        invariant
            k <= calls@.len(),
            buffers@.len() == k,
            forall|j: int|
                0 <= j < k ==> (#[trigger] buffers@[j])@ == secondary_commands(
                    viewport,
                    entry.pipeline,
                    calls@[j],
                ),
        decreases calls@.len() - k,
    {
        let call = calls[k];
        let mut commands: Vec<Command> = Vec::new();
        commands.push(Command::SetViewport(viewport));
        commands.push(Command::BindPipeline(entry.pipeline));
        commands.push(Command::BindUniform { slot: call.uniform_slot, transform: call.transform });
        commands.push(Command::BindVertexBuffer(call.vertex_buffer));
        commands.push(Command::BindIndexBuffer(call.index_buffer));
        commands.push(
            Command::DrawIndexed {
                index_count: call.index_count,
                instance_count: 1,
                first_index: 0,
                vertex_offset: 0,
                first_instance: 0,
            },
        );
        assert(commands@ =~= secondary_commands(viewport, entry.pipeline, call));
        buffers.push(commands);
        k += 1;
    }
    Ok(buffers)
}

/// Whether the keys of the frame ask for the wireframe switch: Shift and
/// Alt held, and Z pressed.
pub open spec fn wireframe_requested(input: Seq<Key>, modifiers: Modifiers) -> bool {
    modifiers.shift && modifiers.alt && input.contains(Key::Z)
}

/// What the terrain pipeline is to be built from next. Nothing, unless the
/// switch is asked for. Otherwise the pipeline that the terrain system has
/// now, with the other topology, for the first subpass of the first render
/// pass. An error if the terrain system has no pipeline, if its pipeline
/// has a topology outside the two, or if there is no render pass.
pub open spec fn wireframe_switch(
    state: SceneStateView,
    input: Seq<Key>,
    modifiers: Modifiers,
) -> Result<
    Option<PipelineDescription>,
    PipelineError,
> {
    if !wireframe_requested(input, modifiers) {
        Ok(None)
    } else {
        match state.pipeline_of(TerrainDrawSystemPipeline::system_key()) {
            Err(error) => Err(error),
            Ok(entry) => match toggled(entry.description.topology) {
                Err(error) => Err(error),
                Ok(topology) => {
                    if state.render_passes.len() == 0 {
                        Err(PipelineError::NoRenderPass)
                    } else {
                        Ok(
                            Some(
                                terrain_pipeline(
                                    Subpass { render_pass: state.render_passes[0], index: 0 },
                                    topology,
                                ),
                            ),
                        )
                    }
                },
            },
        }
    }
}

/// Decides whether the terrain pipeline is built anew, and from what. The
/// caller compiles the description it gets and publishes the pipeline with
/// `set_pipeline_for_system`.
#[allow(non_snake_case)]
pub fn TerrainAssemblyStateModifierSystem(
    scene_state: &SceneState,
    read_input: &KeyInputQueue,
    read_modifiers: &Modifiers,
) -> (result: Result<Option<PipelineDescription>, PipelineError>)
    ensures
        result == wireframe_switch(scene_state@, read_input@, *read_modifiers),
{
    if read_modifiers.shift && read_modifiers.alt && read_input.contains(Key::Z) {
        let entry = match scene_state.get_pipeline_for_system::<TerrainDrawSystemPipeline>() {
            Ok(entry) => entry,
            Err(error) => {
                return Err(error);
            },
        };
        let topology = match toggle_topology(entry.description.topology) {
            Ok(topology) => topology,
            Err(error) => {
                return Err(error);
            },
        };
        if scene_state.render_passes.len() == 0 {
            return Err(PipelineError::NoRenderPass);
        }
        let subpass = Subpass { render_pass: scene_state.render_passes[0], index: 0 };
        let description = TerrainAssemblyStateSystemPipeline.create_pipeline(subpass, topology);
        Ok(Some(description))
    } else {
        Ok(None)
    }
}

/// Asking for the switch twice, and publishing what was built each time,
/// brings the terrain pipeline back to the description it started from.
pub proof fn lemma_wireframe_switch_twice(
    state: SceneStateView,
    input: Seq<Key>,
    modifiers: Modifiers,
    first: PipelineHandle,
    second: PipelineHandle,
)
    requires
        wireframe_requested(input, modifiers),
        state.render_passes.len() > 0,
        state.pipeline_of(TerrainDrawSystemPipeline::system_key()) matches Ok(entry) && (
        entry.description == terrain_pipeline(
            Subpass { render_pass: state.render_passes[0], index: 0 },
            PrimitiveTopology::TriangleList,
        ) || entry.description == terrain_pipeline(
            Subpass { render_pass: state.render_passes[0], index: 0 },
            PrimitiveTopology::LineStrip,
        )),
    ensures
        ({
            let key = TerrainDrawSystemPipeline::system_key();
            let start = state.pipeline_of(key)->Ok_0.description;
            let once = wireframe_switch(state, input, modifiers);
            let between = state.with_pipeline(
                key,
                PipelineEntry { pipeline: first, description: once->Ok_0->Some_0 },
            );
            let twice = wireframe_switch(between, input, modifiers);
            &&& once matches Ok(Some(description))
            &&& description != start
            &&& twice == Ok::<Option<PipelineDescription>, PipelineError>(Some(start))
        }),
{
}

} // verus!
