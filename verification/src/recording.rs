//! What goes into the command buffer of a frame: the draw calls of a scene,
//! and the commands that carry them out.

use vstd::prelude::*;
use crate::frame::RecordTarget;
use crate::handles::{BufferHandle, PipelineHandle};
use crate::scene::{active_camera, camera_of, CameraId, SceneEntity, SceneError, TransformId};
use crate::swapchain::{Framebuffer, Viewport};

verus! {

/// A colour, each channel held as the 32-bit word that the device reads as
/// a single-precision number.
#[derive(Clone, Copy, Debug, PartialEq, Eq, Structural)]
pub struct ClearColor {
    pub red: u32,
    pub green: u32,
    pub blue: u32,
    pub alpha: u32,
}

/// The single-precision encoding of `0.2`.
pub const ONE_FIFTH: u32 = 0x3E4C_CCCD;

/// The single-precision encoding of `1.0`.
pub const ONE: u32 = 0x3F80_0000;

/// The colour that every frame is cleared to: an opaque dark grey.
pub open spec fn clear_color() -> ClearColor {
    ClearColor { red: ONE_FIFTH, green: ONE_FIFTH, blue: ONE_FIFTH, alpha: ONE }
}

/// One indexed draw of one entity.
#[derive(Clone, Copy, Debug, PartialEq, Eq, Structural)]
pub struct DrawCall {
    /// The place of the entity in the scene.
    pub entity: usize,
    /// The transform that the uniform data is computed from.
    pub transform: TransformId,
    pub vertex_buffer: BufferHandle,
    pub index_buffer: BufferHandle,
    /// The number of indices drawn: all that the mesh has.
    pub index_count: usize,
    /// The slot of the uniform pool that this draw fills and binds. No two
    /// draws of a frame share one.
    pub uniform_slot: usize,
}

/// One command of a command buffer.
#[derive(Clone, Copy, Debug, PartialEq, Eq, Structural)]
pub enum Command {
    BeginRenderPass { framebuffer: Framebuffer, clear_color: ClearColor },
    SetViewport(Viewport),
    BindPipeline(PipelineHandle),
    /// Take the given slot of the uniform pool, fill it with the matrix that
    /// combines the transform with the camera of the frame, and bind it.
    BindUniform { slot: usize, transform: TransformId },
    BindVertexBuffer(BufferHandle),
    BindIndexBuffer(BufferHandle),
    DrawIndexed {
        index_count: usize,
        instance_count: u32,
        first_index: u32,
        vertex_offset: i32,
        first_instance: u32,
    },
    EndRenderPass,
}

/// How often a command buffer may be submitted.
#[derive(Clone, Copy, Debug, PartialEq, Eq, Structural)]
pub enum CommandBufferUsage {
    OneTimeSubmit,
    MultipleSubmit,
    SimultaneousUse,
}

/// What a frame records into its primary command buffer: the camera that
/// the frame is seen through, if the scene has one, how often the buffer is
/// submitted, and the commands in order.
#[derive(Debug, PartialEq, Eq)]
pub struct FramePlan {
    pub camera: Option<CameraId>,
    pub usage: CommandBufferUsage,
    pub commands: Vec<Command>,
}

/// The draw call of a drawable entity at place `entity` that takes uniform
/// slot `slot`.
pub open spec fn draw_call(e: SceneEntity, entity: int, slot: int) -> DrawCall {
    DrawCall {
        entity: entity as usize,
        transform: e.transform.unwrap(),
        vertex_buffer: e.geometry.unwrap()@.vertex_buffer.unwrap(),
        index_buffer: e.geometry.unwrap()@.index_buffer.unwrap(),
        index_count: e.geometry.unwrap()@.indices.len() as usize,
        uniform_slot: slot as usize,
    }
}

/// The draw calls of the first `n` entities of a scene: one for each
/// drawable entity, in the order of the entities, each with the next free
/// uniform slot.
pub open spec fn draw_calls(entities: Seq<SceneEntity>, n: int) -> Seq<DrawCall>
    decreases n,
{
    if n <= 0 {
        Seq::empty()
    } else {
        let before = draw_calls(entities, n - 1);
        if entities[n - 1].drawable() {
            before.push(draw_call(entities[n - 1], n - 1, before.len() as int))
        } else {
            before
        }
    }
}

/// The `part`-th of the four commands of a draw call.
pub open spec fn draw_command(call: DrawCall, part: int) -> Command {
    if part == 0 {
        Command::BindUniform { slot: call.uniform_slot, transform: call.transform }
    } else if part == 1 {
        Command::BindVertexBuffer(call.vertex_buffer)
    } else if part == 2 {
        Command::BindIndexBuffer(call.index_buffer)
    } else {
        Command::DrawIndexed {
            index_count: call.index_count,
            instance_count: 1,
            first_index: 0,
            vertex_offset: 0,
            first_instance: 0,
        }
    }
}

/// The commands of a frame: the render pass is opened on the framebuffer of
/// the target with the clear colour, viewport and pipeline are set, every
/// draw call follows with its four commands, and the render pass is closed.
pub open spec fn frame_commands(target: RecordTarget, calls: Seq<DrawCall>) -> Seq<Command> {
    Seq::new(
        4 * calls.len() + 4,
        |i: int|
            if i == 0 {
                Command::BeginRenderPass { framebuffer: target.framebuffer, clear_color: clear_color() }
            } else if i == 1 {
                Command::SetViewport(target.viewport)
            } else if i == 2 {
                Command::BindPipeline(target.pipeline)
            } else if i < 4 * calls.len() + 3 {
                draw_command(calls[(i - 3) / 4], (i - 3) % 4)
            } else {
                Command::EndRenderPass
            },
    )
}

/// Collects the draw calls of a scene.
pub fn plan_draws(entities: &Vec<SceneEntity>) -> (calls: Vec<DrawCall>)
    ensures
        calls@ == draw_calls(entities@, entities@.len() as int),
{
    let mut calls: Vec<DrawCall> = Vec::new();
    let mut i: usize = 0;
    while i < entities.len()
        invariant
            i <= entities@.len(),
            calls@ == draw_calls(entities@, i as int),
            calls@.len() <= i,
        decreases entities@.len() - i,
    {
        let e = entities[i];
        if e.is_drawable() {
            let geometry = e.geometry.unwrap();
            let slot: usize = calls.len();
            calls.push(
                DrawCall {
                    entity: i,
                    transform: e.transform.unwrap(),
                    vertex_buffer: geometry.vertex_buffer.unwrap(),
                    index_buffer: geometry.index_buffer.unwrap(),
                    index_count: geometry.indices.len(),
                    uniform_slot: slot,
                },
            );
        }
        i += 1;
    }
    calls
}

/// Writes out the commands of a frame.
pub fn record_commands(target: &RecordTarget, calls: &Vec<DrawCall>) -> (commands: Vec<Command>)
    ensures
        commands@ == frame_commands(*target, calls@),
{
    let ghost expected = frame_commands(*target, calls@);
    let mut commands: Vec<Command> = Vec::new();
    commands.push(
        Command::BeginRenderPass {
            framebuffer: target.framebuffer,
            clear_color: ClearColor { red: ONE_FIFTH, green: ONE_FIFTH, blue: ONE_FIFTH, alpha: ONE },
        },
    );
    commands.push(Command::SetViewport(target.viewport));
    commands.push(Command::BindPipeline(target.pipeline));
    let mut i: usize = 0;
    while i < calls.len()
        invariant
            i <= calls@.len(),
            expected == frame_commands(*target, calls@),
            commands@.len() == 4 * i + 3,
            forall|j: int| 0 <= j < commands@.len() ==> commands@[j] == expected[j],
        decreases calls@.len() - i,
    {
        let call = calls[i];
        commands.push(Command::BindUniform { slot: call.uniform_slot, transform: call.transform });
        commands.push(Command::BindVertexBuffer(call.vertex_buffer));
        commands.push(Command::BindIndexBuffer(call.index_buffer));
        commands.push(
            Command::DrawIndexed {
                index_count: call.index_count,
                instance_count: 1,
                first_index: 0,
                vertex_offset: 0,
                first_instance: 0,
            },
        );
        i += 1;
    }
    commands.push(Command::EndRenderPass);
    assert(commands@ =~= expected);
    commands
}

/// Records a frame of a scene for a target, into a command buffer that is
/// submitted once. Refuses a scene with more than one camera; records any
/// other scene.
pub fn record_frame(
    target: &RecordTarget,
    entities: &Vec<SceneEntity>,
) -> (result: Result<FramePlan, SceneError>)
    ensures
        match camera_of(entities@) {
            Ok(camera) => {
                &&& result matches Ok(plan)
                &&& plan.camera == camera
                &&& plan.usage is OneTimeSubmit
                &&& plan.commands@ == frame_commands(
                    *target,
                    draw_calls(entities@, entities@.len() as int),
                )
            },
            Err(error) => result == Err::<FramePlan, SceneError>(error),
        },
{
    match active_camera(entities) {
        Ok(camera) => {
            let calls = plan_draws(entities);
            let commands = record_commands(target, &calls);
            Ok(FramePlan { camera, usage: CommandBufferUsage::OneTimeSubmit, commands })
        },
        Err(error) => Err(error),
    }
}

/// What the draw calls of a scene are. There are no more calls than
/// entities. Each call belongs to a drawable entity and carries that
/// entity's transform, buffers and full index count; the calls come in the
/// order of the entities; the call at place `k` has uniform slot `k`.
pub proof fn lemma_draw_calls_are_sound(entities: Seq<SceneEntity>, n: int)
    requires
        0 <= n <= entities.len(),
        n <= usize::MAX,
    ensures
        draw_calls(entities, n).len() <= n,
        forall|k: int|
            0 <= k < draw_calls(entities, n).len() ==> {
                let call = #[trigger] draw_calls(entities, n)[k];
                &&& call.entity < n
                &&& entities[call.entity as int].drawable()
                &&& call == draw_call(entities[call.entity as int], call.entity as int, k)
            },
        forall|k: int, l: int|
            0 <= k < l < draw_calls(entities, n).len() ==> (#[trigger] draw_calls(entities, n)[k]).entity
                < (#[trigger] draw_calls(entities, n)[l]).entity,
    decreases n,
{
    if n > 0 {
        lemma_draw_calls_are_sound(entities, n - 1);
    }
}

/// Every drawable entity of a scene has its draw call.
pub proof fn lemma_draw_calls_are_complete(entities: Seq<SceneEntity>, n: int, entity: int)
    requires
        0 <= entity < n <= entities.len(),
        n <= usize::MAX,
        entities[entity].drawable(),
    ensures
        exists|k: int|
            0 <= k < draw_calls(entities, n).len() && (#[trigger] draw_calls(entities, n)[k]).entity
                == entity,
    decreases n,
{
    if entity == n - 1 {
        let k = draw_calls(entities, n - 1).len() as int;
        assert(draw_calls(entities, n)[k].entity == entity);
    } else {
        lemma_draw_calls_are_complete(entities, n - 1, entity);
        let k = choose|k: int|
            0 <= k < draw_calls(entities, n - 1).len() && (#[trigger] draw_calls(entities, n - 1)[k]).entity
                == entity;
        assert(draw_calls(entities, n)[k].entity == entity);
    }
}

/// A frame holds one indexed draw for each draw call, over all the indices
/// of the mesh, and it is the last of the four commands of that call.
pub proof fn lemma_one_draw_per_call(target: RecordTarget, calls: Seq<DrawCall>, k: int)
    requires
        0 <= k < calls.len(),
    ensures
        frame_commands(target, calls).len() == 4 * calls.len() + 4,
        frame_commands(target, calls)[4 * k + 6] == (Command::DrawIndexed {
            index_count: calls[k].index_count,
            instance_count: 1,
            first_index: 0,
            vertex_offset: 0,
            first_instance: 0,
        }),
        forall|i: int|
            0 <= i < frame_commands(target, calls).len() && (#[trigger] frame_commands(target, calls)[i])
                is DrawIndexed ==> i >= 6 && (i - 6) % 4 == 0,
{
}

} // verus!
