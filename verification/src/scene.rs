//! The scene: the 3D counterpart of the canvas.
//!
//! A scene keeps the models registered with it and records their draw
//! calls, in registration order, when it is drawn through a camera.

use vstd::prelude::*;

use crate::camera::Camera;
use crate::error::Error;
use crate::gpu::{CommandView, GpuCommand, GpuContextHandle};
use crate::models::Model;

verus! {

/// A model of a scene, by its place in the scene. The reference owns
/// nothing.
#[derive(Clone, Copy, Debug, PartialEq, Eq)]
pub struct ModelRef {
    pub index: usize,
}

/// The command that draws one model through a camera.
pub open spec fn model_command(model: Model, camera: Camera) -> CommandView {
    CommandView::DrawModel { model: model.id, camera }
}

/// The commands that draw the models of a scene, first registered first.
pub open spec fn scene_plan(models: Seq<Model>, camera: Camera) -> Seq<CommandView> {
    Seq::new(models.len(), |i: int| model_command(models[i], camera))
}

/// A collection of models that are drawn together.
pub struct Scene {
    models: Vec<Model>,
}

impl View for Scene {
    type V = Seq<Model>;

    closed spec fn view(&self) -> Seq<Model> {
        self.models@
    }
}

impl Scene {
    /// A scene without models.
    pub fn new() -> (scene: Scene)
        ensures
            scene@ == Seq::<Model>::empty(),
    {
        Scene { models: Vec::new() }
    }

    /// The number of models.
    pub fn len(&self) -> (n: usize)
        ensures
            n == self@.len(),
    {
        self.models.len()
    }

    /// Registers a model behind those already registered, and returns the
    /// reference by which the scene knows it.
    pub fn add_model(&mut self, model: &Model) -> (r: ModelRef)
        ensures
            final(self)@ == old(self)@.push(*model),
            r.index == old(self)@.len(),
    {
        let index = self.models.len();
        self.models.push(*model);
        ModelRef { index }
    }

    /// The model behind a reference, if the scene has one there.
    pub fn model(&self, r: ModelRef) -> (m: Option<Model>)
        ensures
            m == (if r.index < self@.len() {
                Some(self@[r.index as int])
            } else {
                None
            }),
    {
        if r.index < self.models.len() {
            Some(self.models[r.index])
        } else {
            None
        }
    }

    /// Records the draw call of every model, in registration order, with
    /// the given camera. The scene is not changed. On a context that has
    /// been torn down the call fails with `GpuContextUnavailable` and
    /// records nothing.
    pub fn draw(&self, gpu: &mut GpuContextHandle, camera: &Camera) -> (r: Result<(), Error>)
        ensures
            final(gpu).available() == old(gpu).available(),
            old(gpu).available() ==> r is Ok && final(gpu).queue() == old(gpu).queue() + scene_plan(
                self@,
                *camera,
            ),
            !old(gpu).available() ==> r == Err::<(), Error>(Error::GpuContextUnavailable)
                && final(gpu).queue() == old(gpu).queue(),
    {
        if !gpu.is_available() {
            return Err(Error::GpuContextUnavailable);
        }
        let count = self.models.len();
        let mut i: usize = 0;
        while i < count
            invariant
                i <= count,
                count == self@.len(),
                gpu.available(),
                gpu.queue() == old(gpu).queue() + scene_plan(self@, *camera).take(i as int),
            decreases count - i,
        {
            let _ = gpu.submit(GpuCommand::DrawModel { model: self.models[i].id, camera: *camera });
            assert(scene_plan(self@, *camera).take(i + 1) =~= scene_plan(self@, *camera).take(
                i as int,
            ).push(model_command(self@[i as int], *camera)));
            i = i + 1;
        }
        assert(scene_plan(self@, *camera).take(count as int) =~= scene_plan(self@, *camera));
        Ok(())
    }
}

} // verus!
