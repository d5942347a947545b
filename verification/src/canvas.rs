//! The canvas: the queue of draw commands of a frame, and what one frame
//! records from it.
//!
//! A frame goes through three steps. While the canvas is idle or queuing,
//! `draw` appends commands and the shader may be changed. `finish` then
//! decides the whole frame at once (whether the pipeline is rebuilt, what the
//! instance buffer holds, which indexed draws are recorded and whether the
//! frame failed) and leaves the queue empty.

use crate::camera::{CameraBundle, CameraUniform};
use crate::descriptor::{
    BufferInit, BufferUsage, DepthFormat, RenderPipelineDescriptor, Shader,
};
use crate::mesh::{
    instance_data, instance_words, Aabb, BindGroupId, BufferId, Instance3d, Mesh3d, Transform3d,
    Vertex,
};
use crate::scalar::{is_memory_image, Color, Mat4, Quaternion, Scalar, Vector3, ONE, ZERO};
use vstd::prelude::*;

verus! {

/// The number of records that the instance buffer holds at first.
pub const INITIAL_INSTANCES: usize = 2;

/// The depth that the depth target is cleared to: `1.0`.
pub const DEPTH_CLEAR: Scalar = ONE;

/// How one draw places and tints its mesh. The alpha of `color` is the
/// strength with which the colour is blended in, not an opacity.
#[derive(Clone, Copy, Debug, PartialEq, Eq)]
pub struct DrawParam3d {
    pub transform: Transform3d,
    pub color: Color,
}

/// What is in force while a command is queued: the active shader.
#[derive(Clone, Copy, Debug, PartialEq, Eq)]
pub struct DrawState3d {
    pub shader: Shader,
}

/// One queued draw.
#[derive(Clone, Debug, PartialEq, Eq)]
pub struct DrawCommand3d {
    pub mesh: Mesh3d,
    pub state: DrawState3d,
    pub param: DrawParam3d,
}

/// The resource that a mesh lacked when it was to be drawn.
#[derive(Clone, Copy, Debug, PartialEq, Eq)]
pub enum RenderError {
    BindGroupMissing,
    VertexBufferMissing,
    IndexBufferMissing,
}

/// One indexed draw of a render pass. Before it, `bind_group` is bound at
/// `TEXTURE_GROUP` and the camera's bind group at `CAMERA_GROUP`,
/// `vert_buffer` is set at `VERTEX_SLOT` and the instance buffer at
/// `INSTANCE_SLOT`, and `ind_buffer` is set as the index buffer of 32-bit
/// indices. The draw then takes the indices from 0 up to `index_count`, at
/// base vertex 0, for the one instance `instance`.
#[derive(Clone, Copy, Debug, PartialEq, Eq)]
pub struct DrawCall3d {
    pub bind_group: BindGroupId,
    pub vert_buffer: BufferId,
    pub ind_buffer: BufferId,
    pub index_count: u32,
    pub instance: u32,
}

/// What the instance buffer is to hold for a frame: the memory image of
/// `instances`. Where `grow` holds, the buffer that is there is too small
/// for it and is replaced by `buffer`; else the contents of `buffer` are
/// written into it from offset 0.
#[derive(Debug, PartialEq, Eq)]
pub struct InstanceUpload {
    pub instances: Vec<Instance3d>,
    pub buffer: BufferInit,
    pub grow: bool,
}

/// One frame, in the order in which it is carried out: the pipeline is
/// rebuilt from `rebuild` if there is one; the instance buffer is written;
/// one render pass is begun that clears the colour target to `clear_color`
/// and the depth target to `DEPTH_CLEAR`; `calls` are recorded in their
/// order; and the frame ends with `outcome`.
#[derive(Debug, PartialEq, Eq)]
pub struct Frame3d {
    pub rebuild: Option<RenderPipelineDescriptor>,
    pub upload: InstanceUpload,
    pub clear_color: Color,
    pub calls: Vec<DrawCall3d>,
    pub outcome: Result<(), RenderError>,
}

/// What is to be created before the first frame: the pipeline, the camera's
/// uniform buffer, the instance buffer, and a depth target of the pipeline's
/// depth format and the size of the screen.
#[derive(Debug, PartialEq, Eq)]
pub struct CanvasSetup {
    pub pipeline: RenderPipelineDescriptor,
    pub camera_buffer: BufferInit,
    pub instance_buffer: BufferInit,
}

/// The canvas.
#[derive(Debug, PartialEq, Eq)]
pub struct Canvas3d {
    /// The commands queued for the frame, oldest first.
    pub draws: Vec<DrawCommand3d>,
    /// Whether the shader was changed since the pipeline was last built.
    pub dirty_pipeline: bool,
    /// The active shader.
    pub state: DrawState3d,
    /// The shader that the canvas was made with. It provides both stages.
    pub original_state: DrawState3d,
    pub camera_bundle: CameraBundle,
    pub camera_uniform: CameraUniform,
    /// The number of records that the instance buffer has room for.
    pub instance_capacity: usize,
}

/// A canvas as a mathematical value.
pub struct CanvasView {
    pub draws: Seq<DrawCommand3d>,
    pub dirty_pipeline: bool,
    pub state: DrawState3d,
    pub original_state: DrawState3d,
    pub camera_bundle: CameraBundle,
    pub camera_uniform: CameraUniform,
    pub instance_capacity: nat,
}

impl DrawParam3d {
    /// Nothing moved, turned or scaled, and no colour blended in.
    pub open spec fn untouched() -> DrawParam3d {
        DrawParam3d { transform: Transform3d::identity(), color: Color::unset() }
    }

    /// The same parameters at scale `scale_`.
    pub fn scale(self, scale_: Vector3) -> (param: DrawParam3d)
        ensures
            param == (DrawParam3d {
                transform: Transform3d { scale: scale_, ..self.transform },
                ..self
            }),
    {
        let mut param = self;
        param.transform.scale = scale_;
        param
    }

    /// The same parameters at position `position_`.
    pub fn position(self, position_: Vector3) -> (param: DrawParam3d)
        ensures
            param == (DrawParam3d {
                transform: Transform3d { position: position_, ..self.transform },
                ..self
            }),
    {
        let mut param = self;
        param.transform.position = position_;
        param
    }

    /// The same parameters with rotation `rotation_`.
    pub fn rotation(self, rotation_: Quaternion) -> (param: DrawParam3d)
        ensures
            param == (DrawParam3d {
                transform: Transform3d { rotation: rotation_, ..self.transform },
                ..self
            }),
    {
        let mut param = self;
        param.transform.rotation = rotation_;
        param
    }

    /// The same parameters with colour `color`.
    pub fn color(self, color: Color) -> (param: DrawParam3d)
        ensures
            param == (DrawParam3d { color, ..self }),
    {
        let mut param = self;
        param.color = color;
        param
    }

    /// The same parameters with transform `transform`.
    pub fn transform(self, transform: Transform3d) -> (param: DrawParam3d)
        ensures
            param == (DrawParam3d { transform, ..self }),
    {
        let mut param = self;
        param.transform = transform;
        param
    }
}

impl Default for DrawParam3d {
    fn default() -> (param: DrawParam3d)
        ensures
            param == DrawParam3d::untouched(),
    {
        DrawParam3d {
            transform: Transform3d::default(),
            color: Color { r: ONE, g: ONE, b: ONE, a: ZERO },
        }
    }
}

impl RenderError {
    /// The error in words.
    pub open spec fn text(self) -> Seq<char> {
        match self {
            RenderError::BindGroupMissing => "Bind Group not generated for mesh"@,
            RenderError::VertexBufferMissing => "Vert Buffer not generated for mesh"@,
            RenderError::IndexBufferMissing => "Ind Buffer not generated for mesh"@,
        }
    }

    /// The error in words.
    pub fn message(&self) -> (s: String)
        ensures
            s@ == self.text(),
    {
        match self {
            RenderError::BindGroupMissing => "Bind Group not generated for mesh".to_owned(),
            RenderError::VertexBufferMissing => "Vert Buffer not generated for mesh".to_owned(),
            RenderError::IndexBufferMissing => "Ind Buffer not generated for mesh".to_owned(),
        }
    }
}

/// A command of a queue: it draws one mesh.
pub trait Queued {
    /// The first resource that the command's mesh lacks, if it lacks any.
    spec fn missing(&self) -> Option<RenderError>;
}

impl Queued for DrawCommand3d {
    open spec fn missing(&self) -> Option<RenderError> {
        self.mesh.missing()
    }
}

impl DrawCommand3d {
    /// The indexed draw of the command when it stands at place `instance` of
    /// the queue: its mesh's resources, all of the mesh's indices, and the
    /// instance record at that place.
    pub open spec fn call(self, instance: int) -> DrawCall3d
        recommends
            self.missing() is None,
    {
        self.mesh.call(instance)
    }
}

/// The point about which a mesh with bounding box `aabb` is turned and
/// scaled: the centre of the box, or the origin for a mesh that has none.
pub open spec fn pivot(aabb: Option<Aabb>) -> Vector3 {
    match aabb {
        Some(b) => b.center,
        None => Aabb::origin().center,
    }
}

/// `instance` is a record of `command` when `bound` computes bounding boxes
/// and `model` model matrices: its colour is the command's, and its matrix is
/// one that `model` gives for the command's transform and the pivot of its
/// mesh.
pub open spec fn is_instance_of<
    B: FnOnce(&Vec<Vertex>) -> Aabb,
    M: FnOnce(&Transform3d, Vector3) -> Mat4,
>(
    bound: B,
    model: M,
    command: DrawCommand3d,
    instance: Instance3d,
) -> bool {
    &&& instance.color == command.param.color.components()
    &&& exists|aabb: Option<Aabb>|
        #![trigger command.mesh.is_aabb(bound, aabb)]
        command.mesh.is_aabb(bound, aabb) && model.ensures(
            (&command.param.transform, pivot(aabb)),
            instance.transform,
        )
}

impl InstanceUpload {
    /// The upload is that of a frame on `draws` when the instance buffer has
    /// room for `capacity` records: it holds one record for each command, in
    /// the order of the queue, its buffer holds their memory image, is bound
    /// as a vertex buffer and can be written to, and it asks for a larger
    /// buffer exactly when there are more commands than the buffer has room
    /// for.
    pub open spec fn is_for<
        B: FnOnce(&Vec<Vertex>) -> Aabb,
        M: FnOnce(&Transform3d, Vector3) -> Mat4,
    >(
        self,
        bound: B,
        model: M,
        draws: Seq<DrawCommand3d>,
        capacity: nat,
    ) -> bool {
        &&& self.instances@.len() == draws.len()
        &&& forall|i: int|
            0 <= i < draws.len() ==> is_instance_of(
                bound,
                model,
                draws[i],
                #[trigger] self.instances@[i],
            )
        &&& self.buffer.holds(instance_words(self.instances@), BufferUsage::Vertex, true)
        &&& self.grow == (draws.len() > capacity)
    }
}

/// `bound` and `model` can be called on all that `draws` will hand them.
pub open spec fn kernels_accept<
    B: FnOnce(&Vec<Vertex>) -> Aabb,
    M: FnOnce(&Transform3d, Vector3) -> Mat4,
>(
    bound: B,
    model: M,
    draws: Seq<DrawCommand3d>,
) -> bool {
    &&& forall|i: int|
        0 <= i < draws.len() && (#[trigger] draws[i]).mesh.vertices@.len() > 0 ==> bound.requires(
            (&draws[i].mesh.vertices,),
        )
    &&& forall|i: int, center: Vector3|
        0 <= i < draws.len() ==> #[trigger] model.requires((&draws[i].param.transform, center))
}

/// The first `n` commands of `draws` have all their resources.
pub open spec fn ready_before<C: Queued>(draws: Seq<C>, n: int) -> bool {
    forall|i: int| 0 <= i < n ==> (#[trigger] draws[i]).missing() is None
}

/// Recording `draws` in their order stops at place `n`: the commands before
/// it have all their resources, and `n` is the end of the queue or the place
/// of a command that lacks one.
pub open spec fn stops_at<C: Queued>(draws: Seq<C>, n: int) -> bool {
    &&& 0 <= n <= draws.len()
    &&& ready_before(draws, n)
    &&& n < draws.len() ==> draws[n].missing() is Some
}

/// The place at which recording `draws` stops: that of the first command
/// that lacks a resource, or the length of the queue if there is none.
pub open spec fn first_unready<C: Queued>(draws: Seq<C>) -> int {
    choose|n: int| stops_at(draws, n)
}

/// The indexed draws that a frame records for `draws`: one for each command
/// before the first that lacks a resource, in the order of the queue, each
/// with the place of its command as its instance.
pub open spec fn recorded_calls(draws: Seq<DrawCommand3d>) -> Seq<DrawCall3d> {
    Seq::new(first_unready(draws) as nat, |i: int| draws[i].call(i))
}

/// How a frame on `draws` ends: well if every command has its resources,
/// else with what the first one that lacks any lacks first.
pub open spec fn frame_outcome<C: Queued>(draws: Seq<C>) -> Result<(), RenderError> {
    let n = first_unready(draws);
    if n == draws.len() {
        Ok(())
    } else {
        Err(draws[n].missing()->Some_0)
    }
}

/// Recording stops at one place only.
pub proof fn lemma_stops_at_unique<C: Queued>(draws: Seq<C>, n: int)
    requires
        stops_at(draws, n),
    ensures
        first_unready(draws) == n,
{
    let m = first_unready(draws);
    assert(stops_at(draws, m));
    if m < n {
        assert(draws[m].missing() is None);
    } else if n < m {
        assert(draws[n].missing() is None);
    }
}

impl CanvasView {
    /// The canvas can finish a frame: the shader it was made with provides
    /// both stages, every queued mesh can be drawn, and the places of the
    /// queue fit the 32 bits of an instance index.
    pub open spec fn wf(self) -> bool {
        &&& self.original_state.shader.is_complete()
        &&& self.draws.len() <= u32::MAX
        &&& forall|i: int| 0 <= i < self.draws.len() ==> (#[trigger] self.draws[i]).mesh.wf()
    }

    /// No command is queued.
    pub open spec fn is_idle(self) -> bool {
        self.draws.len() == 0
    }

    /// The canvas after `draw`: the command stands at the end of the queue,
    /// under the shader that is active now.
    pub open spec fn draw(self, mesh: Mesh3d, param: DrawParam3d) -> CanvasView {
        CanvasView {
            draws: self.draws.push(DrawCommand3d { mesh, state: self.state, param }),
            ..self
        }
    }

    /// The canvas after `set_shader`: `shader` is active and the pipeline is
    /// out of date.
    pub open spec fn set_shader(self, shader: Shader) -> CanvasView {
        CanvasView { state: DrawState3d { shader }, dirty_pipeline: true, ..self }
    }

    /// The canvas after `set_default_shader`.
    pub open spec fn set_default_shader(self) -> CanvasView {
        self.set_shader(self.original_state.shader)
    }

    /// The pipeline for the active shader: instanced, reading the colour of
    /// each vertex, with a depth target of 32-bit scalars. A stage that the
    /// active shader lacks is taken from the shader that the canvas was made
    /// with.
    pub open spec fn pipeline(self) -> RenderPipelineDescriptor {
        RenderPipelineDescriptor {
            vertex_module: self.state.shader.vertex_stage(self.original_state.shader),
            fragment_module: self.state.shader.fragment_stage(self.original_state.shader),
            vertex_color: true,
            instanced: true,
            depth_format: DepthFormat::Depth32Float,
        }
    }

    /// The pipeline that the next frame builds, if it builds one.
    pub open spec fn rebuild(self) -> Option<RenderPipelineDescriptor> {
        if self.dirty_pipeline {
            Some(self.pipeline())
        } else {
            None
        }
    }

    /// The room of the instance buffer once it holds a record for each
    /// queued command.
    pub open spec fn capacity_for_queue(self) -> nat {
        if self.draws.len() > self.instance_capacity {
            self.draws.len()
        } else {
            self.instance_capacity
        }
    }

    /// The canvas after `finish`: idle, its pipeline up to date, its
    /// instance buffer as large as the frame needed.
    pub open spec fn finish(self) -> CanvasView {
        CanvasView {
            draws: Seq::empty(),
            dirty_pipeline: false,
            instance_capacity: self.capacity_for_queue(),
            ..self
        }
    }
}

impl View for Canvas3d {
    type V = CanvasView;

    open spec fn view(&self) -> CanvasView {
        CanvasView {
            draws: self.draws@,
            dirty_pipeline: self.dirty_pipeline,
            state: self.state,
            original_state: self.original_state,
            camera_bundle: self.camera_bundle,
            camera_uniform: self.camera_uniform,
            instance_capacity: self.instance_capacity as nat,
        }
    }
}

impl Canvas3d {
    /// Makes `shader` the active shader. The pipeline is rebuilt by the next
    /// `finish`, not now.
    pub fn set_shader(&mut self, shader: Shader)
        ensures
            final(self)@ == old(self)@.set_shader(shader),
    {
        self.state.shader = shader;
        self.dirty_pipeline = true;
    }

    /// Makes the shader that the canvas was made with the active one again.
    /// The pipeline is rebuilt by the next `finish`, not now.
    pub fn set_default_shader(&mut self)
        ensures
            final(self)@ == old(self)@.set_default_shader(),
    {
        self.state.shader = self.original_state.shader;
        self.dirty_pipeline = true;
    }

    /// The pipeline for the active shader.
    pub fn update_pipeline(&self) -> (pipeline: RenderPipelineDescriptor)
        requires
            self@.original_state.shader.is_complete(),
        ensures
            pipeline == self@.pipeline(),
    {
        let vertex_module = match self.state.shader.vs_module {
            Some(module) => module,
            None => self.original_state.shader.vs_module.unwrap(),
        };
        let fragment_module = match self.state.shader.fs_module {
            Some(module) => module,
            None => self.original_state.shader.fs_module.unwrap(),
        };
        RenderPipelineDescriptor {
            vertex_module,
            fragment_module,
            vertex_color: true,
            instanced: true,
            depth_format: DepthFormat::Depth32Float,
        }
    }

    /// Queues a draw of `mesh` with `param`, behind all that is queued.
    pub fn draw(&mut self, mesh: Mesh3d, param: DrawParam3d)
        requires
            old(self)@.wf(),
            mesh.wf(),
            old(self)@.draws.len() < u32::MAX,
        ensures
            final(self)@ == old(self)@.draw(mesh, param),
            final(self)@.wf(),
    {
        let state = self.state;
        self.draws.push(DrawCommand3d { mesh, state, param });
    }

    /// The camera of a new canvas: at the origin, with the standard
    /// projection at aspect ratio `aspect`.
    pub open spec fn first_camera(aspect: Scalar) -> CameraBundle {
        CameraBundle::standard().with_aspect(aspect)
    }

    /// The records that the instance buffer of a new canvas holds:
    /// `INITIAL_INSTANCES` records of a mesh that is left where it is and is
    /// not tinted.
    pub open spec fn first_instances() -> Seq<Instance3d> {
        Seq::new(INITIAL_INSTANCES as nat, |i: int| Instance3d::untouched())
    }

    /// The canvas before its first frame, and what is to be created for it.
    /// `shader` is the shader that the pipeline is first built with; it has
    /// to provide both stages. The camera stands at the origin, with the
    /// standard projection at aspect ratio `aspect`, and the camera uniform
    /// is what `view_proj` gives for the two.
    pub fn new<V: FnOnce(&CameraBundle) -> Mat4>(
        shader: Shader,
        aspect: Scalar,
        view_proj: V,
    ) -> (made: (Canvas3d, CanvasSetup))
        requires
            shader.is_complete(),
            view_proj.requires((&Canvas3d::first_camera(aspect),)),
        ensures
            made.0@.wf(),
            made.0@.is_idle(),
            !made.0@.dirty_pipeline,
            made.0@.state == (DrawState3d { shader }),
            made.0@.original_state == (DrawState3d { shader }),
            made.0@.camera_bundle == Canvas3d::first_camera(aspect),
            view_proj.ensures((&made.0@.camera_bundle,), made.0@.camera_uniform.view_proj),
            made.0@.instance_capacity == INITIAL_INSTANCES,
            made.1.pipeline == made.0@.pipeline(),
            made.1.camera_buffer.holds(made.0@.camera_uniform.words(), BufferUsage::Uniform, true),
            made.1.instance_buffer.holds(
                instance_words(Canvas3d::first_instances()),
                BufferUsage::Vertex,
                true,
            ),
    {
        let mut camera_bundle = CameraBundle::default();
        camera_bundle.projection.aspect = aspect;
        let mut camera_uniform = CameraUniform::new();
        camera_uniform.update_view_proj(&camera_bundle, view_proj);
        let camera_data = camera_uniform.to_bytes();
        let mut instances: Vec<Instance3d> = Vec::new();
        instances.push(Instance3d::default());
        instances.push(Instance3d::default());
        assert(instances@ =~= Canvas3d::first_instances());
        let setup = CanvasSetup {
            pipeline: RenderPipelineDescriptor {
                vertex_module: shader.vs_module.unwrap(),
                fragment_module: shader.fs_module.unwrap(),
                vertex_color: true,
                instanced: true,
                depth_format: DepthFormat::Depth32Float,
            },
            camera_buffer: BufferInit {
                contents: camera_data,
                usage: BufferUsage::Uniform,
                copy_dst: true,
            },
            instance_buffer: BufferInit {
                contents: instance_data(&instances),
                usage: BufferUsage::Vertex,
                copy_dst: true,
            },
        };
        let canvas = Canvas3d {
            draws: Vec::new(),
            dirty_pipeline: false,
            state: DrawState3d { shader },
            original_state: DrawState3d { shader },
            camera_bundle,
            camera_uniform,
            instance_capacity: INITIAL_INSTANCES,
        };
        (canvas, setup)
    }

    /// The instance records of the queued commands, one for each, in the
    /// order of the queue, and their memory image for the instance buffer.
    /// The instance buffer is taken to have room for them afterwards.
    pub fn update_instance_data<
        B: Fn(&Vec<Vertex>) -> Aabb,
        M: Fn(&Transform3d, Vector3) -> Mat4,
    >(
        &mut self,
        bound: B,
        model: M,
    ) -> (upload: InstanceUpload)
        requires
            kernels_accept(bound, model, old(self)@.draws),
        ensures
            final(self)@ == (CanvasView {
                instance_capacity: old(self)@.capacity_for_queue(),
                ..old(self)@
            }),
            upload.is_for(bound, model, old(self)@.draws, old(self)@.instance_capacity),
    {
        let mut instances: Vec<Instance3d> = Vec::new();
        let mut i: usize = 0;
        while i < self.draws.len()
            invariant
                i <= self.draws@.len(),
                instances@.len() == i,
                kernels_accept(bound, model, self.draws@),
                forall|k: int|
                    0 <= k < i ==> is_instance_of(
                        bound,
                        model,
                        self.draws@[k],
                        #[trigger] instances@[k],
                    ),
            decreases self.draws@.len() - i,
        {
            let command = &self.draws[i];
            let aabb = command.mesh.to_aabb(&bound);
            let center = match aabb {
                Some(b) => b.center,
                None => Aabb::default().center,
            };
            assert(center == pivot(aabb));
            assert(model.requires((&self.draws@[i as int].param.transform, center)));
            let instance = Instance3d::from_param(&command.param, center, &model);
            assert(command.mesh.is_aabb(bound, aabb));
            assert(is_instance_of(bound, model, self.draws@[i as int], instance));
            instances.push(instance);
            i = i + 1;
        }
        let grow = self.draws.len() > self.instance_capacity;
        if grow {
            self.instance_capacity = self.draws.len();
        }
        let buffer = BufferInit {
            contents: instance_data(&instances),
            usage: BufferUsage::Vertex,
            copy_dst: true,
        };
        InstanceUpload { instances, buffer, grow }
    }

    /// Decides the frame and empties the queue.
    ///
    /// The pipeline is rebuilt if the shader was changed since it was built,
    /// however often. Every queued command gets its instance record. The
    /// commands are then recorded in the order in which they were queued,
    /// each as one indexed draw with its place in the queue as its instance,
    /// up to the first whose mesh lacks a GPU resource: the frame fails with
    /// that resource. Whether it fails or not, the queue is empty afterwards.
    pub fn finish<B: Fn(&Vec<Vertex>) -> Aabb, M: Fn(&Transform3d, Vector3) -> Mat4>(
        &mut self,
        bound: B,
        model: M,
        clear_color: Color,
    ) -> (frame: Frame3d)
        requires
            old(self)@.wf(),
            kernels_accept(bound, model, old(self)@.draws),
        ensures
            final(self)@ == old(self)@.finish(),
            final(self)@.wf(),
            final(self)@.is_idle(),
            frame.rebuild == old(self)@.rebuild(),
            frame.upload.is_for(bound, model, old(self)@.draws, old(self)@.instance_capacity),
            frame.clear_color == clear_color,
            frame.calls@ == recorded_calls(old(self)@.draws),
            frame.outcome == frame_outcome(old(self)@.draws),
    {
        let rebuild = if self.dirty_pipeline {
            Some(self.update_pipeline())
        } else {
            None
        };
        self.dirty_pipeline = false;
        let upload = self.update_instance_data(bound, model);
        let mut calls: Vec<DrawCall3d> = Vec::new();
        let mut outcome: Result<(), RenderError> = Ok(());
        let mut i: usize = 0;
        while i < self.draws.len() && outcome.is_ok()
            invariant
                i <= self.draws@.len(),
                self@.wf(),
                calls@.len() == i,
                ready_before(self.draws@, i as int),
                forall|k: int| 0 <= k < i ==> #[trigger] calls@[k] == self.draws@[k].call(k),
                outcome == Ok::<(), RenderError>(()) || ({
                    &&& i < self.draws@.len()
                    &&& self.draws@[i as int].missing() is Some
                    &&& outcome == Err::<(), RenderError>(self.draws@[i as int].missing()->Some_0)
                }),
            decreases self.draws@.len() - i + (if outcome is Ok { 1int } else { 0int }),
        {
            let mesh = &self.draws[i].mesh;
            match (mesh.bind_group, mesh.vert_buffer, mesh.ind_buffer) {
                (None, _, _) => {
                    outcome = Err(RenderError::BindGroupMissing);
                },
                (Some(_), None, _) => {
                    outcome = Err(RenderError::VertexBufferMissing);
                },
                (Some(_), Some(_), None) => {
                    outcome = Err(RenderError::IndexBufferMissing);
                },
                (Some(bind_group), Some(vert_buffer), Some(ind_buffer)) => {
                    calls.push(
                        DrawCall3d {
                            bind_group,
                            vert_buffer,
                            ind_buffer,
                            index_count: mesh.indices.len() as u32,
                            instance: i as u32,
                        },
                    );
                    i = i + 1;
                },
            }
        }
        proof {
            lemma_stops_at_unique(self.draws@, i as int);
            assert(calls@ =~= recorded_calls(self.draws@));
            assert(outcome == frame_outcome(self.draws@));
        }
        self.draws.clear();
        Frame3d { rebuild, upload, clear_color, calls, outcome }
    }

    /// Fits the projection to a surface `width` wide and `height` high, both
    /// taken as they are given, and brings the camera uniform up to date
    /// with it, in one step. Returns
    /// the new contents of the camera's uniform buffer, to be written from
    /// offset 0.
    pub fn resize<R: FnOnce(Scalar, Scalar) -> Scalar, V: FnOnce(&CameraBundle) -> Mat4>(
        &mut self,
        width: Scalar,
        height: Scalar,
        ratio: R,
        view_proj: V,
    ) -> (camera_data: Vec<u8>)
        requires
            ratio.requires((width, height)),
            forall|aspect: Scalar|
                #[trigger] view_proj.requires((&old(self)@.camera_bundle.with_aspect(aspect),)),
        ensures
            ratio.ensures((width, height), final(self)@.camera_bundle.projection.aspect),
            final(self)@.camera_bundle == old(self)@.camera_bundle.with_aspect(
                final(self)@.camera_bundle.projection.aspect,
            ),
            view_proj.ensures(
                (&final(self)@.camera_bundle,),
                final(self)@.camera_uniform.view_proj,
            ),
            final(self)@ == (CanvasView {
                camera_bundle: final(self)@.camera_bundle,
                camera_uniform: final(self)@.camera_uniform,
                ..old(self)@
            }),
            is_memory_image(camera_data@, final(self)@.camera_uniform.words()),
    {
        self.camera_bundle.projection.resize(width, height, ratio);
        proof {
            let fitted = old(self)@.camera_bundle.with_aspect(self.camera_bundle.projection.aspect);
            assert(view_proj.requires((&fitted,)));
            assert(self.camera_bundle == fitted);
        }
        self.update_camera(view_proj)
    }

    /// Brings the camera uniform up to date with the camera and its
    /// projection: it becomes what `view_proj` gives for them. Returns the
    /// new contents of the camera's uniform buffer, to be written from
    /// offset 0.
    pub fn update_camera<V: FnOnce(&CameraBundle) -> Mat4>(
        &mut self,
        view_proj: V,
    ) -> (camera_data: Vec<u8>)
        requires
            view_proj.requires((&old(self)@.camera_bundle,)),
        ensures
            view_proj.ensures((&old(self)@.camera_bundle,), final(self)@.camera_uniform.view_proj),
            final(self)@ == (CanvasView {
                camera_uniform: final(self)@.camera_uniform,
                ..old(self)@
            }),
            is_memory_image(camera_data@, final(self)@.camera_uniform.words()),
    {
        self.camera_uniform.update_view_proj(&self.camera_bundle, view_proj);
        self.camera_uniform.to_bytes()
    }
}

/// A queued command keeps its place: `draw` puts the new command behind all
/// that is queued and changes nothing else of the canvas.
pub proof fn lemma_draw_appends(canvas: CanvasView, mesh: Mesh3d, param: DrawParam3d)
    ensures
        canvas.draw(mesh, param).draws.len() == canvas.draws.len() + 1,
        canvas.draw(mesh, param).draws.last() == (DrawCommand3d {
            mesh,
            state: canvas.state,
            param,
        }),
        canvas.draw(mesh, param).draws.drop_last() == canvas.draws,
        canvas.draw(mesh, param) == (CanvasView {
            draws: canvas.draw(mesh, param).draws,
            ..canvas
        }),
{
    assert(canvas.draw(mesh, param).draws.drop_last() =~= canvas.draws);
}

/// A queue of commands whose meshes all have their resources is drawn whole
/// and in order: the frame records one indexed draw for each command, the
/// draw at place `i` is that of the command at place `i` of the queue and
/// has `i` as its instance, no two draws have the same instance, and the
/// frame ends well.
pub proof fn lemma_ready_queue_is_drawn_in_order(canvas: CanvasView)
    requires
        canvas.wf(),
        ready_before(canvas.draws, canvas.draws.len() as int),
    ensures
        recorded_calls(canvas.draws).len() == canvas.draws.len(),
        forall|i: int|
            0 <= i < canvas.draws.len() ==> {
                let call = #[trigger] recorded_calls(canvas.draws)[i];
                let mesh = canvas.draws[i].mesh;
                &&& call.instance == i
                &&& call.index_count == mesh.indices@.len()
                &&& mesh.bind_group == Some(call.bind_group)
                &&& mesh.vert_buffer == Some(call.vert_buffer)
                &&& mesh.ind_buffer == Some(call.ind_buffer)
            },
        forall|i: int, j: int|
            0 <= i < j < canvas.draws.len() ==> (#[trigger] recorded_calls(
                canvas.draws,
            )[i]).instance != (#[trigger] recorded_calls(canvas.draws)[j]).instance,
        frame_outcome(canvas.draws) == Ok::<(), RenderError>(()),
        canvas.finish().is_idle(),
{
    lemma_stops_at_unique(canvas.draws, canvas.draws.len() as int);
    assert forall|i: int| 0 <= i < canvas.draws.len() implies {
        let call = #[trigger] recorded_calls(canvas.draws)[i];
        let mesh = canvas.draws[i].mesh;
        &&& call.instance == i
        &&& call.index_count == mesh.indices@.len()
        &&& mesh.bind_group == Some(call.bind_group)
        &&& mesh.vert_buffer == Some(call.vert_buffer)
        &&& mesh.ind_buffer == Some(call.ind_buffer)
    } by {
        assert(canvas.draws[i].missing() is None);
        assert(canvas.draws[i].mesh.wf());
    }
}

/// A queue that holds a command whose mesh lacks a resource fails its frame:
/// the frame records the draws of the commands before the first such
/// command and no other, it ends with the resource that this command lacks
/// first, and the canvas is idle afterwards all the same.
pub proof fn lemma_unready_queue_fails(canvas: CanvasView, place: int)
    requires
        0 <= place < canvas.draws.len(),
        canvas.draws[place].missing() is Some,
    ensures
        0 <= first_unready(canvas.draws) <= place,
        ready_before(canvas.draws, first_unready(canvas.draws)),
        canvas.draws[first_unready(canvas.draws)].missing() is Some,
        recorded_calls(canvas.draws).len() == first_unready(canvas.draws),
        frame_outcome(canvas.draws) == Err::<(), RenderError>(
            canvas.draws[first_unready(canvas.draws)].missing()->Some_0,
        ),
        canvas.finish().is_idle(),
{
    lemma_stops_before(canvas.draws, place);
}

/// Recording stops at or before every command that lacks a resource: at the
/// first of them, and the frame ends with what that command lacks first.
pub proof fn lemma_stops_before<C: Queued>(draws: Seq<C>, place: int)
    requires
        0 <= place < draws.len(),
        draws[place].missing() is Some,
    ensures
        0 <= first_unready(draws) <= place,
        stops_at(draws, first_unready(draws)),
        draws[first_unready(draws)].missing() is Some,
        frame_outcome(draws) == Err::<(), RenderError>(
            draws[first_unready(draws)].missing()->Some_0,
        ),
{
    lemma_stops_somewhere(draws, place);
    let n = first_unready(draws);
    assert(stops_at(draws, n));
    if place < n {
        assert(draws[place].missing() is None);
    }
}

/// Recording stops somewhere at or before a command that lacks a resource.
proof fn lemma_stops_somewhere<C: Queued>(draws: Seq<C>, place: int)
    requires
        0 <= place < draws.len(),
        draws[place].missing() is Some,
    ensures
        exists|n: int| 0 <= n <= place && stops_at(draws, n),
    decreases place,
{
    if ready_before(draws, place) {
        assert(stops_at(draws, place));
    } else {
        let earlier = choose|i: int| 0 <= i < place && (#[trigger] draws[i]).missing() !is None;
        lemma_stops_somewhere(draws, earlier);
    }
}

/// Changes of the shader within a frame coalesce: after two of them the
/// canvas is as if only the second had been made, the frame builds one
/// pipeline, that of the second shader, and the frame after it builds none.
pub proof fn lemma_shader_changes_coalesce(canvas: CanvasView, first: Shader, second: Shader)
    ensures
        canvas.set_shader(first).set_shader(second) == canvas.set_shader(second),
        canvas.set_shader(first).set_shader(second).rebuild() == Some(
            canvas.set_shader(second).pipeline(),
        ),
        canvas.set_shader(first).set_shader(second).finish().rebuild() is None,
{
}

/// The pipeline falls back stage by stage: it takes from the active shader
/// each stage that the shader provides, and the other from the shader that
/// the canvas was made with.
pub proof fn lemma_pipeline_stages(canvas: CanvasView)
    requires
        canvas.wf(),
    ensures
        canvas.state.shader.vs_module is Some ==> canvas.state.shader.vs_module == Some(
            canvas.pipeline().vertex_module,
        ),
        canvas.state.shader.vs_module is None ==> canvas.original_state.shader.vs_module == Some(
            canvas.pipeline().vertex_module,
        ),
        canvas.state.shader.fs_module is Some ==> canvas.state.shader.fs_module == Some(
            canvas.pipeline().fragment_module,
        ),
        canvas.state.shader.fs_module is None ==> canvas.original_state.shader.fs_module == Some(
            canvas.pipeline().fragment_module,
        ),
{
}

} // verus!
