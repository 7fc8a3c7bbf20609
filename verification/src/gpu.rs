//! The shared GPU context, as a queue of recorded commands.
//!
//! Everything that reaches the GPU is first recorded here, in call order.
//! The hosting program takes the queue and replays it on its backend; since
//! a handle can only be written through a `&mut`, one writer records at a
//! time. A handle that has been torn down records nothing more.

use vstd::prelude::*;

use crate::batch::{RenderState, TextureId, Vertex};
use crate::camera::Camera;
use crate::error::Error;
use crate::math::Rect;

verus! {

/// One operation of the backend.
#[derive(Debug)]
pub enum GpuCommand {
    /// Create a texture of the given extent. `pixels` holds its content,
    /// or is empty for a texture that is filled later.
    CreateTexture { texture: TextureId, width: u32, height: u32, pixels: Vec<u8> },
    /// Give a texture a larger extent. What it held stays where it was.
    ResizeTexture { texture: TextureId, width: u32, height: u32 },
    /// Write `pixels` into a region of a texture.
    UpdateTexture { texture: TextureId, region: Rect, pixels: Vec<u8> },
    /// Free a texture.
    DeleteTexture { texture: TextureId },
    /// Bind the texture and blend mode for the draws that follow.
    BindState { state: RenderState },
    /// Load the vertex and index buffers for the next draw.
    UpdateBuffers { vertices: Vec<Vertex>, indices: Vec<u32> },
    /// Draw the first `index_count` indices of the loaded buffers.
    SubmitDraw { index_count: usize },
    /// Draw the meshes of a model through a camera.
    DrawModel { model: u64, camera: Camera },
}

/// A command, with its buffers as sequences.
pub enum CommandView {
    CreateTexture { texture: TextureId, width: u32, height: u32, pixels: Seq<u8> },
    ResizeTexture { texture: TextureId, width: u32, height: u32 },
    UpdateTexture { texture: TextureId, region: Rect, pixels: Seq<u8> },
    DeleteTexture { texture: TextureId },
    BindState { state: RenderState },
    UpdateBuffers { vertices: Seq<Vertex>, indices: Seq<u32> },
    SubmitDraw { index_count: usize },
    DrawModel { model: u64, camera: Camera },
}

impl View for GpuCommand {
    type V = CommandView;

    open spec fn view(&self) -> CommandView {
        match *self {
            GpuCommand::CreateTexture { texture, width, height, pixels } => CommandView::CreateTexture {
                texture,
                width,
                height,
                pixels: pixels@,
            },
            GpuCommand::ResizeTexture { texture, width, height } => CommandView::ResizeTexture {
                texture,
                width,
                height,
            },
            GpuCommand::UpdateTexture { texture, region, pixels } => CommandView::UpdateTexture {
                texture,
                region,
                pixels: pixels@,
            },
            GpuCommand::DeleteTexture { texture } => CommandView::DeleteTexture { texture },
            GpuCommand::BindState { state } => CommandView::BindState { state },
            GpuCommand::UpdateBuffers { vertices, indices } => CommandView::UpdateBuffers {
                vertices: vertices@,
                indices: indices@,
            },
            GpuCommand::SubmitDraw { index_count } => CommandView::SubmitDraw { index_count },
            GpuCommand::DrawModel { model, camera } => CommandView::DrawModel { model, camera },
        }
    }
}

/// The views of a run of commands.
pub open spec fn command_views(commands: Seq<GpuCommand>) -> Seq<CommandView> {
    Seq::new(commands.len(), |i: int| commands[i]@)
}

/// The handle through which every canvas, scene and resource store of one
/// session reaches the GPU.
pub struct GpuContextHandle {
    commands: Vec<GpuCommand>,
    available: bool,
}

impl GpuContextHandle {
    /// The commands recorded and not yet taken, oldest first.
    pub closed spec fn queue(&self) -> Seq<CommandView> {
        command_views(self.commands@)
    }

    /// The context has not been torn down.
    pub closed spec fn available(&self) -> bool {
        self.available
    }

    /// A live context with nothing recorded.
    pub fn new() -> (gpu: GpuContextHandle)
        ensures
            gpu.available(),
            gpu.queue() == Seq::<CommandView>::empty(),
    {
        let gpu = GpuContextHandle { commands: Vec::new(), available: true };
        assert(gpu.queue() =~= Seq::<CommandView>::empty());
        gpu
    }

    pub fn is_available(&self) -> (b: bool)
        ensures
            b == self.available(),
    {
        self.available
    }

    /// The number of commands recorded and not yet taken.
    pub fn pending(&self) -> (n: usize)
        ensures
            n == self.queue().len(),
    {
        self.commands.len()
    }

    /// Marks the context as gone. What was recorded stays in the queue;
    /// nothing more is recorded.
    pub fn tear_down(&mut self)
        ensures
            !final(self).available(),
            final(self).queue() == old(self).queue(),
    {
        self.available = false;
    }

    /// Records one command, unless the context is gone.
    pub fn submit(&mut self, command: GpuCommand) -> (r: Result<(), Error>)
        ensures
            final(self).available() == old(self).available(),
            old(self).available() ==> r is Ok && final(self).queue() == old(self).queue().push(
                command@,
            ),
            !old(self).available() ==> r == Err::<(), Error>(Error::GpuContextUnavailable)
                && final(self).queue() == old(self).queue(),
    {
        if !self.available {
            return Err(Error::GpuContextUnavailable);
        }
        self.commands.push(command);
        assert(self.queue() =~= old(self).queue().push(command@));
        Ok(())
    }

    /// Hands the recorded commands over for replay, oldest first, and
    /// leaves the queue empty.
    pub fn take_commands(&mut self) -> (taken: Vec<GpuCommand>)
        ensures
            command_views(taken@) == old(self).queue(),
            final(self).queue() == Seq::<CommandView>::empty(),
            final(self).available() == old(self).available(),
    {
        let mut taken: Vec<GpuCommand> = Vec::new();
        core::mem::swap(&mut self.commands, &mut taken);
        assert(self.queue() =~= Seq::<CommandView>::empty());
        taken
    }
}

} // verus!
