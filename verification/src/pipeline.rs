//! The plain pipeline: a queue of draws without instance records or a
//! choice of shader. Every draw is one indexed draw of a single instance.

use crate::camera::{CameraBundle, CameraUniform};
use crate::canvas::{
    first_unready, frame_outcome, lemma_stops_at_unique, ready_before, DrawCall3d, Queued,
    RenderError,
};
use crate::descriptor::{
    BufferInit, BufferUsage, DepthFormat, RenderPipelineDescriptor, ShaderModuleId,
};
use crate::mesh::Mesh3d;
use crate::scalar::{is_memory_image, Color, Mat4, Scalar, Vector3};
use vstd::prelude::*;

verus! {

/// What is in force for one draw.
#[derive(Clone, Copy, Debug, PartialEq, Eq)]
pub struct DrawState3d {
    pub position: Vector3,
}

/// One queued draw.
#[derive(Clone, Debug, PartialEq, Eq)]
pub struct DrawCommand3d {
    pub mesh: Mesh3d,
    pub state: DrawState3d,
}

/// The plain pipeline.
#[derive(Debug, PartialEq, Eq)]
pub struct Pipeline3d {
    /// The commands queued for the frame, oldest first.
    pub draws: Vec<DrawCommand3d>,
    pub camera_bundle: CameraBundle,
    pub camera_uniform: CameraUniform,
}

/// What is to be created before the first frame: the pipeline, the camera's
/// uniform buffer, and a depth target of the pipeline's depth format and the
/// size of the screen.
#[derive(Debug, PartialEq, Eq)]
pub struct PipelineSetup {
    pub pipeline: RenderPipelineDescriptor,
    pub camera_buffer: BufferInit,
}

/// One frame: one render pass that clears the colour target to
/// `clear_color` and the depth target to `DEPTH_CLEAR` and records `calls`
/// in their order; the frame ends with `outcome`.
#[derive(Debug, PartialEq, Eq)]
pub struct Pass3d {
    pub clear_color: Color,
    pub calls: Vec<DrawCall3d>,
    pub outcome: Result<(), RenderError>,
}

impl Queued for DrawCommand3d {
    open spec fn missing(&self) -> Option<RenderError> {
        self.mesh.missing()
    }
}

impl DrawCommand3d {
    /// The indexed draw of the command: its mesh's resources, all of the
    /// mesh's indices, and instance 0.
    pub open spec fn call(self) -> DrawCall3d
        recommends
            self.missing() is None,
    {
        self.mesh.call(0)
    }
}

/// The indexed draws that a frame records for `draws`: one for each command
/// before the first that lacks a resource, in the order of the queue, each
/// of the one instance 0.
pub open spec fn recorded_calls(draws: Seq<DrawCommand3d>) -> Seq<DrawCall3d> {
    Seq::new(first_unready(draws) as nat, |i: int| draws[i].call())
}

/// The number of indices of every queued mesh fits the 32 bits of an
/// indexed draw.
pub open spec fn indices_fit(draws: Seq<DrawCommand3d>) -> bool {
    forall|i: int| 0 <= i < draws.len() ==> (#[trigger] draws[i]).mesh.indices@.len() <= u32::MAX
}

impl Pipeline3d {
    /// The pipeline before its first frame, and what is to be created for
    /// it. Both stages come from `shader`; the pipeline reads the position
    /// and the texture coordinate of each vertex and no instance record, and
    /// its depth target is of 32-bit scalars. The camera stands at the
    /// origin, with the standard projection at aspect ratio `aspect`, and
    /// the camera uniform is what `view_proj` gives for the two.
    pub fn new<V: FnOnce(&CameraBundle) -> Mat4>(
        shader: ShaderModuleId,
        aspect: Scalar,
        view_proj: V,
    ) -> (made: (Pipeline3d, PipelineSetup))
        requires
            view_proj.requires((&CameraBundle::standard().with_aspect(aspect),)),
        ensures
            made.0.draws@.len() == 0,
            made.0.camera_bundle == CameraBundle::standard().with_aspect(aspect),
            view_proj.ensures((&made.0.camera_bundle,), made.0.camera_uniform.view_proj),
            made.1.pipeline == (RenderPipelineDescriptor {
                vertex_module: shader,
                fragment_module: shader,
                vertex_color: false,
                instanced: false,
                depth_format: DepthFormat::Depth32Float,
            }),
            made.1.camera_buffer.holds(made.0.camera_uniform.words(), BufferUsage::Uniform, true),
    {
        let mut camera_bundle = CameraBundle::default();
        camera_bundle.projection.aspect = aspect;
        let mut camera_uniform = CameraUniform::new();
        camera_uniform.update_view_proj(&camera_bundle, view_proj);
        let setup = PipelineSetup {
            pipeline: RenderPipelineDescriptor {
                vertex_module: shader,
                fragment_module: shader,
                vertex_color: false,
                instanced: false,
                depth_format: DepthFormat::Depth32Float,
            },
            camera_buffer: BufferInit {
                contents: camera_uniform.to_bytes(),
                usage: BufferUsage::Uniform,
                copy_dst: true,
            },
        };
        (Pipeline3d { draws: Vec::new(), camera_bundle, camera_uniform }, setup)
    }

    /// Records the queued commands in the order in which they were queued,
    /// each as one indexed draw of instance 0, up to the first whose mesh
    /// lacks a GPU resource: the frame fails with that resource. Whether it
    /// fails or not, the queue is empty afterwards.
    pub fn finish(&mut self, clear_color: Color) -> (pass: Pass3d)
        requires
            indices_fit(old(self).draws@),
        ensures
            final(self).draws@.len() == 0,
            final(self).camera_bundle == old(self).camera_bundle,
            final(self).camera_uniform == old(self).camera_uniform,
            pass.clear_color == clear_color,
            pass.calls@ == recorded_calls(old(self).draws@),
            pass.outcome == frame_outcome(old(self).draws@),
    {
        let mut calls: Vec<DrawCall3d> = Vec::new();
        let mut outcome: Result<(), RenderError> = Ok(());
        let mut i: usize = 0;
        while i < self.draws.len() && outcome.is_ok()
            invariant
                i <= self.draws@.len(),
                indices_fit(self.draws@),
                calls@.len() == i,
                ready_before(self.draws@, i as int),
                forall|k: int| 0 <= k < i ==> #[trigger] calls@[k] == self.draws@[k].call(),
                outcome == Ok::<(), RenderError>(()) || ({
                    &&& i < self.draws@.len()
                    &&& self.draws@[i as int].missing() is Some
                    &&& outcome == Err::<(), RenderError>(self.draws@[i as int].missing()->Some_0)
                }),
            decreases self.draws@.len() - i + (if outcome is Ok { 1int } else { 0int }),
        {
            let mesh = &self.draws[i].mesh;
            match (mesh.bind_group, mesh.vert_buffer, mesh.ind_buffer) {
                (None, _, _) => {
                    outcome = Err(RenderError::BindGroupMissing);
                },
                (Some(_), None, _) => {
                    outcome = Err(RenderError::VertexBufferMissing);
                },
                (Some(_), Some(_), None) => {
                    outcome = Err(RenderError::IndexBufferMissing);
                },
                (Some(bind_group), Some(vert_buffer), Some(ind_buffer)) => {
                    calls.push(
                        DrawCall3d {
                            bind_group,
                            vert_buffer,
                            ind_buffer,
                            index_count: mesh.indices.len() as u32,
                            instance: 0,
                        },
                    );
                    i = i + 1;
                },
            }
        }
        proof {
            lemma_stops_at_unique(self.draws@, i as int);
            assert(calls@ =~= recorded_calls(self.draws@));
            assert(outcome == frame_outcome(self.draws@));
        }
        self.draws.clear();
        Pass3d { clear_color, calls, outcome }
    }

    /// Queues a draw of `mesh`, behind all that is queued.
    pub fn draw(&mut self, mesh: Mesh3d, draw_state: DrawState3d)
        ensures
            final(self).draws@ == old(self).draws@.push(DrawCommand3d { mesh, state: draw_state }),
            final(self).camera_bundle == old(self).camera_bundle,
            final(self).camera_uniform == old(self).camera_uniform,
    {
        self.draws.push(DrawCommand3d { mesh, state: draw_state });
    }

    /// Fits the projection to a surface `width` wide and `height` high, both
    /// taken as they are given, and brings the camera uniform up to date
    /// with it, in one step. Returns
    /// the new contents of the camera's uniform buffer, to be written from
    /// offset 0.
    pub fn resize<R: FnOnce(Scalar, Scalar) -> Scalar, V: FnOnce(&CameraBundle) -> Mat4>(
        &mut self,
        width: Scalar,
        height: Scalar,
        ratio: R,
        view_proj: V,
    ) -> (camera_data: Vec<u8>)
        requires
            ratio.requires((width, height)),
            forall|aspect: Scalar|
                #[trigger] view_proj.requires((&old(self).camera_bundle.with_aspect(aspect),)),
        ensures
            ratio.ensures((width, height), final(self).camera_bundle.projection.aspect),
            final(self).camera_bundle == old(self).camera_bundle.with_aspect(
                final(self).camera_bundle.projection.aspect,
            ),
            view_proj.ensures((&final(self).camera_bundle,), final(self).camera_uniform.view_proj),
            final(self).draws == old(self).draws,
            is_memory_image(camera_data@, final(self).camera_uniform.words()),
    {
        self.camera_bundle.projection.resize(width, height, ratio);
        proof {
            let fitted = old(self).camera_bundle.with_aspect(self.camera_bundle.projection.aspect);
            assert(view_proj.requires((&fitted,)));
            assert(self.camera_bundle == fitted);
        }
        self.update_camera(view_proj)
    }

    /// Brings the camera uniform up to date with the camera and its
    /// projection: it becomes what `view_proj` gives for them. Returns the
    /// new contents of the camera's uniform buffer, to be written from
    /// offset 0.
    pub fn update_camera<V: FnOnce(&CameraBundle) -> Mat4>(
        &mut self,
        view_proj: V,
    ) -> (camera_data: Vec<u8>)
        requires
            view_proj.requires((&old(self).camera_bundle,)),
        ensures
            view_proj.ensures((&old(self).camera_bundle,), final(self).camera_uniform.view_proj),
            final(self).camera_bundle == old(self).camera_bundle,
            final(self).draws == old(self).draws,
            is_memory_image(camera_data@, final(self).camera_uniform.words()),
    {
        self.camera_uniform.update_view_proj(&self.camera_bundle, view_proj);
        self.camera_uniform.to_bytes()
    }
}

/// A queue of commands whose meshes all have their resources is drawn whole
/// and in order: the frame records one indexed draw for each command, the
/// draw at place `i` is that of the command at place `i` of the queue, for
/// the one instance 0, and the frame ends well.
pub proof fn lemma_ready_queue_is_drawn_in_order(draws: Seq<DrawCommand3d>)
    requires
        indices_fit(draws),
        ready_before(draws, draws.len() as int),
    ensures
        recorded_calls(draws).len() == draws.len(),
        forall|i: int|
            0 <= i < draws.len() ==> {
                let call = #[trigger] recorded_calls(draws)[i];
                let mesh = draws[i].mesh;
                &&& call.instance == 0
                &&& call.index_count == mesh.indices@.len()
                &&& mesh.bind_group == Some(call.bind_group)
                &&& mesh.vert_buffer == Some(call.vert_buffer)
                &&& mesh.ind_buffer == Some(call.ind_buffer)
            },
        frame_outcome(draws) == Ok::<(), RenderError>(()),
{
    lemma_stops_at_unique(draws, draws.len() as int);
    assert forall|i: int| 0 <= i < draws.len() implies {
        let call = #[trigger] recorded_calls(draws)[i];
        let mesh = draws[i].mesh;
        &&& call.instance == 0
        &&& call.index_count == mesh.indices@.len()
        &&& mesh.bind_group == Some(call.bind_group)
        &&& mesh.vert_buffer == Some(call.vert_buffer)
        &&& mesh.ind_buffer == Some(call.ind_buffer)
    } by {
        assert(draws[i].missing() is None);
        assert(draws[i].mesh.indices@.len() <= u32::MAX);
    }
}

} // verus!
