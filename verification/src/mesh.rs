//! Vertices, meshes, instance records, and what of them the GPU is given.

use crate::canvas::{DrawCall3d, DrawParam3d, RenderError};
use crate::descriptor::{BufferInit, BufferUsage};
use crate::layout::{
    LayoutView, VertexAttribute, VertexBufferLayout, VertexFormat, VertexStepMode,
};
use crate::scalar::{
    append_words, identity_matrix, is_memory_image, lemma_memory_image_range,
    lemma_record_appended, lemma_record_part, mat4_identity, matrix_words, memory_image,
    record_words, words_to_bytes, Color, Mat4, Quaternion, Scalar, Vector2, Vector3, ONE, ZERO,
};
use vstd::prelude::*;

verus! {

/// The bytes of one vertex in a vertex buffer.
pub const VERTEX_SIZE: u64 = 36;

/// The bytes of one instance record in the instance buffer.
pub const INSTANCE_SIZE: u64 = 80;

/// The shader location of the first instance attribute.
pub const INSTANCE_LOCATION: u32 = 5;

/// The handle of a GPU buffer.
#[derive(Clone, Copy, Debug, PartialEq, Eq)]
pub struct BufferId(pub u64);

/// The handle of a bind group.
#[derive(Clone, Copy, Debug, PartialEq, Eq)]
pub struct BindGroupId(pub u64);

/// The handle of a texture image.
#[derive(Clone, Copy, Debug, PartialEq, Eq)]
pub struct TextureId(pub u64);

/// An axis-aligned box by its centre and half its extent along each axis.
#[derive(Clone, Copy, Debug, PartialEq, Eq)]
pub struct Aabb {
    pub center: Vector3,
    pub half_extents: Vector3,
}

/// Where a mesh stands: position, rotation and scale.
#[derive(Clone, Copy, Debug, PartialEq, Eq)]
pub struct Transform3d {
    pub position: Vector3,
    pub rotation: Quaternion,
    pub scale: Vector3,
}

/// What the GPU reads for one instance: the columns of its model matrix and
/// its colour.
#[derive(Clone, Copy, Debug, PartialEq, Eq)]
pub struct Instance3d {
    pub transform: Mat4,
    pub color: [Scalar; 4],
}

/// One vertex: position, texture coordinate and colour.
#[derive(Clone, Copy, Debug, PartialEq, Eq)]
pub struct Vertex {
    pub pos: [Scalar; 3],
    pub tex_coord: [Scalar; 2],
    pub color: [Scalar; 4],
}

/// A mesh: its vertices, the indices of its triangles, the texture it is
/// drawn with, and the handles of its GPU resources once it was uploaded.
#[derive(Clone, Debug, PartialEq, Eq)]
pub struct Mesh3d {
    pub vertices: Vec<Vertex>,
    pub indices: Vec<u32>,
    pub vert_buffer: Option<BufferId>,
    pub ind_buffer: Option<BufferId>,
    pub bind_group: Option<BindGroupId>,
    pub texture: Option<TextureId>,
}

/// The texture that a mesh's bind group binds.
#[derive(Clone, Copy, Debug, PartialEq, Eq)]
pub enum TextureSource {
    /// The mesh's own image.
    Image(TextureId),
    /// An opaque white image of one pixel, for a mesh without a texture.
    White,
}

/// What is to be created on the GPU for a mesh: its vertex buffer, its index
/// buffer, and a bind group on the pipeline's texture layout that binds the
/// view of `texture` and a default sampler.
#[derive(Clone, Debug, PartialEq, Eq)]
pub struct MeshUpload {
    pub vertex_buffer: BufferInit,
    pub index_buffer: BufferInit,
    pub texture: TextureSource,
}

/// The handles of the three resources that were created for a mesh.
#[derive(Clone, Copy, Debug, PartialEq, Eq)]
pub struct MeshBuffers {
    pub vert_buffer: BufferId,
    pub ind_buffer: BufferId,
    pub bind_group: BindGroupId,
}

/// The handles that a mesh held before an upload replaced them. The mesh no
/// longer refers to them: they are the caller's to release.
#[derive(Clone, Copy, Debug, PartialEq, Eq)]
pub struct ReplacedBuffers {
    pub vert_buffer: Option<BufferId>,
    pub ind_buffer: Option<BufferId>,
    pub bind_group: Option<BindGroupId>,
}

/// The number of scalars of one vertex.
pub const VERTEX_WORDS: usize = 9;

/// The number of scalars of one instance record.
pub const INSTANCE_WORDS: usize = 20;

/// The scalars of each vertex of a run, by its place.
pub open spec fn vertex_record(vertices: Seq<Vertex>) -> spec_fn(int) -> Seq<u32> {
    |i: int| vertices[i].words()
}

/// The scalars of each record of a run, by its place.
pub open spec fn instance_record(instances: Seq<Instance3d>) -> spec_fn(int) -> Seq<u32> {
    |i: int| instances[i].words()
}

/// The scalars of a run of vertices, `VERTEX_WORDS` for each, in the order
/// of the vertices.
pub open spec fn vertex_words(vertices: Seq<Vertex>) -> Seq<u32> {
    record_words(vertices.len(), VERTEX_WORDS as nat, vertex_record(vertices))
}

/// The scalars of a run of instance records, `INSTANCE_WORDS` for each, in
/// the order of the records.
pub open spec fn instance_words(instances: Seq<Instance3d>) -> Seq<u32> {
    record_words(instances.len(), INSTANCE_WORDS as nat, instance_record(instances))
}

/// The memory image of a run of instance records, `INSTANCE_SIZE` bytes for
/// each.
pub fn instance_data(instances: &Vec<Instance3d>) -> (bytes: Vec<u8>)
    ensures
        is_memory_image(bytes@, instance_words(instances@)),
{
    let mut words: Vec<u32> = Vec::new();
    let mut i: usize = 0;
    while i < instances.len()
        invariant
            i <= instances@.len(),
            words@ == record_words(i as nat, INSTANCE_WORDS as nat, instance_record(instances@)),
        decreases instances@.len() - i,
    {
        instances[i].write_words(&mut words);
        proof {
            lemma_record_appended(i as nat, INSTANCE_WORDS as nat, instance_record(instances@));
        }
        i = i + 1;
    }
    words_to_bytes(&words)
}

impl Aabb {
    /// The box of no extent at the origin.
    pub open spec fn origin() -> Aabb {
        Aabb { center: Vector3::zero(), half_extents: Vector3::zero() }
    }
}

impl Default for Aabb {
    fn default() -> (b: Aabb)
        ensures
            b == Aabb::origin(),
    {
        Aabb {
            center: Vector3 { x: ZERO, y: ZERO, z: ZERO },
            half_extents: Vector3 { x: ZERO, y: ZERO, z: ZERO },
        }
    }
}

impl Transform3d {
    /// At the origin, not rotated, at scale one.
    pub open spec fn identity() -> Transform3d {
        Transform3d {
            position: Vector3::zero(),
            rotation: Quaternion::identity(),
            scale: Vector3::one(),
        }
    }
}

impl Default for Transform3d {
    fn default() -> (t: Transform3d)
        ensures
            t == Transform3d::identity(),
    {
        Transform3d {
            position: Vector3 { x: ZERO, y: ZERO, z: ZERO },
            rotation: Quaternion { v: Vector3 { x: ZERO, y: ZERO, z: ZERO }, s: ONE },
            scale: Vector3 { x: ONE, y: ONE, z: ONE },
        }
    }
}

impl Instance3d {
    /// The record of a mesh that is left where it is and is not tinted.
    pub open spec fn untouched() -> Instance3d {
        Instance3d { transform: identity_matrix(), color: Color::unset().components() }
    }

    /// The twenty scalars of the record: the matrix, column after column,
    /// then the colour.
    pub open spec fn words(self) -> Seq<u32> {
        matrix_words(self.transform) + self.color@
    }

    /// The scalars that attribute `attribute` of the layout reads from the
    /// record: a column of the matrix for each of the first four, the colour
    /// for the fifth.
    pub open spec fn attribute_words(self, attribute: int) -> Seq<u32> {
        if 0 <= attribute < 4 {
            self.transform[attribute]@
        } else {
            self.color@
        }
    }

    /// The layout of the instance buffer: one record of `INSTANCE_SIZE` bytes
    /// for each instance, read as five attributes of four scalars at the
    /// shader locations from `INSTANCE_LOCATION` on. The first four are the
    /// columns of the model matrix, the fifth is the colour.
    pub open spec fn layout() -> LayoutView {
        LayoutView {
            array_stride: INSTANCE_SIZE as nat,
            step_mode: VertexStepMode::Instance,
            attributes: Seq::new(
                5,
                |i: int|
                    VertexAttribute {
                        format: VertexFormat::Float32x4,
                        offset: (16 * i) as u64,
                        shader_location: (INSTANCE_LOCATION + i) as u32,
                    },
            ),
        }
    }

    /// The layout of the instance buffer.
    pub fn desc() -> (d: VertexBufferLayout)
        ensures
            d@ == Instance3d::layout(),
            d@.wf(),
    {
        let mut attributes: Vec<VertexAttribute> = Vec::new();
        let mut i: u32 = 0;
        while i < 5
            invariant
                i <= 5,
                attributes@ == Instance3d::layout().attributes.take(i as int),
            decreases 5 - i,
        {
            attributes.push(
                VertexAttribute {
                    format: VertexFormat::Float32x4,
                    offset: 16 * (i as u64),
                    shader_location: INSTANCE_LOCATION + i,
                },
            );
            i = i + 1;
        }
        assert(attributes@ =~= Instance3d::layout().attributes);
        VertexBufferLayout {
            array_stride: INSTANCE_SIZE,
            step_mode: VertexStepMode::Instance,
            attributes,
        }
    }

    /// The record of a draw with `param` of a mesh that pivots about
    /// `center`: the model matrix that `model` gives for the transform and
    /// the pivot, and the colour of the draw.
    pub fn from_param<M: FnOnce(&Transform3d, Vector3) -> Mat4>(
        param: &DrawParam3d,
        center: Vector3,
        model: M,
    ) -> (instance: Instance3d)
        requires
            model.requires((&param.transform, center)),
        ensures
            model.ensures((&param.transform, center), instance.transform),
            instance.color == param.color.components(),
    {
        Instance3d { transform: model(&param.transform, center), color: param.color.to_array() }
    }

    /// Appends the record's scalars to `dst`.
    pub fn write_words(&self, dst: &mut Vec<u32>)
        ensures
            final(dst)@ == old(dst)@ + self.words(),
    {
        append_words(dst, self.transform[0].as_slice());
        append_words(dst, self.transform[1].as_slice());
        append_words(dst, self.transform[2].as_slice());
        append_words(dst, self.transform[3].as_slice());
        append_words(dst, self.color.as_slice());
    }
}

impl Default for Instance3d {
    fn default() -> (i: Instance3d)
        ensures
            i == Instance3d::untouched(),
    {
        Instance3d { transform: mat4_identity(), color: [ONE, ONE, ONE, ZERO] }
    }
}

impl Vertex {
    /// A vertex at `position` with texture coordinate `uv`. Without a colour
    /// it gets white with alpha `0.0`.
    pub fn new(position: Vector3, uv: Vector2, color: Option<Color>) -> (v: Vertex)
        ensures
            v.pos == [position.x, position.y, position.z],
            v.tex_coord == [uv.x, uv.y],
            v.color == match color {
                Some(c) => c.components(),
                None => Color::unset().components(),
            },
    {
        let color = match color {
            Some(c) => c.to_array(),
            None => [ONE, ONE, ONE, ZERO],
        };
        Vertex { pos: [position.x, position.y, position.z], tex_coord: [uv.x, uv.y], color }
    }

    /// The nine scalars of the vertex: position, texture coordinate, colour.
    pub open spec fn words(self) -> Seq<u32> {
        self.pos@ + self.tex_coord@ + self.color@
    }

    /// The scalars that attribute `attribute` of the layout reads from the
    /// vertex: the position, the texture coordinate, the colour.
    pub open spec fn attribute_words(self, attribute: int) -> Seq<u32> {
        if attribute == 0 {
            self.pos@
        } else if attribute == 1 {
            self.tex_coord@
        } else {
            self.color@
        }
    }

    /// The attributes of a vertex: the position at offset 0 and location 0,
    /// the texture coordinate behind it at location 1, the colour behind that
    /// at location 2.
    pub open spec fn attributes() -> Seq<VertexAttribute> {
        seq![
            VertexAttribute { format: VertexFormat::Float32x3, offset: 0, shader_location: 0 },
            VertexAttribute { format: VertexFormat::Float32x2, offset: 12, shader_location: 1 },
            VertexAttribute { format: VertexFormat::Float32x4, offset: 20, shader_location: 2 },
        ]
    }

    /// The layout of a vertex buffer: one vertex of `VERTEX_SIZE` bytes for
    /// each step, read as position and texture coordinate and, where `color`
    /// holds, as colour too.
    pub open spec fn layout(color: bool) -> LayoutView {
        LayoutView {
            array_stride: VERTEX_SIZE as nat,
            step_mode: VertexStepMode::Vertex,
            attributes: if color {
                Vertex::attributes()
            } else {
                Vertex::attributes().take(2)
            },
        }
    }

    /// The layout of a vertex buffer.
    pub fn desc() -> (d: VertexBufferLayout)
        ensures
            d@ == Vertex::layout(true),
            d@.wf(),
    {
        let mut attributes: Vec<VertexAttribute> = Vec::new();
        attributes.push(
            VertexAttribute { format: VertexFormat::Float32x3, offset: 0, shader_location: 0 },
        );
        attributes.push(
            VertexAttribute { format: VertexFormat::Float32x2, offset: 12, shader_location: 1 },
        );
        attributes.push(
            VertexAttribute { format: VertexFormat::Float32x4, offset: 20, shader_location: 2 },
        );
        assert(attributes@ =~= Vertex::layout(true).attributes);
        VertexBufferLayout {
            array_stride: VERTEX_SIZE,
            step_mode: VertexStepMode::Vertex,
            attributes,
        }
    }

    /// The layout of a vertex buffer for a pipeline that reads no vertex
    /// colour: the same stride, the position and the texture coordinate only.
    pub fn desc_without_color() -> (d: VertexBufferLayout)
        ensures
            d@ == Vertex::layout(false),
            d@.wf(),
    {
        let mut attributes: Vec<VertexAttribute> = Vec::new();
        attributes.push(
            VertexAttribute { format: VertexFormat::Float32x3, offset: 0, shader_location: 0 },
        );
        attributes.push(
            VertexAttribute { format: VertexFormat::Float32x2, offset: 12, shader_location: 1 },
        );
        assert(attributes@ =~= Vertex::layout(false).attributes);
        VertexBufferLayout {
            array_stride: VERTEX_SIZE,
            step_mode: VertexStepMode::Vertex,
            attributes,
        }
    }

    /// Appends the vertex's scalars to `dst`.
    pub fn write_words(&self, dst: &mut Vec<u32>)
        ensures
            final(dst)@ == old(dst)@ + self.words(),
    {
        append_words(dst, self.pos.as_slice());
        append_words(dst, self.tex_coord.as_slice());
        append_words(dst, self.color.as_slice());
    }
}

impl Mesh3d {
    /// Every index names a vertex of the mesh.
    pub open spec fn indices_in_range(self) -> bool {
        forall|i: int|
            0 <= i < self.indices@.len() ==> (#[trigger] self.indices@[i]) < self.vertices@.len()
    }

    /// The mesh can be drawn: every index names one of its vertices, and the
    /// number of indices fits the 32 bits of an indexed draw.
    pub open spec fn wf(self) -> bool {
        &&& self.indices_in_range()
        &&& self.indices@.len() <= u32::MAX
    }

    /// The mesh has all three of its GPU resources.
    pub open spec fn is_uploaded(self) -> bool {
        self.bind_group is Some && self.vert_buffer is Some && self.ind_buffer is Some
    }

    /// The first resource that the mesh lacks, in the order in which a draw
    /// binds them: bind group, vertex buffer, index buffer.
    pub open spec fn missing(self) -> Option<RenderError> {
        if self.bind_group is None {
            Some(RenderError::BindGroupMissing)
        } else if self.vert_buffer is None {
            Some(RenderError::VertexBufferMissing)
        } else if self.ind_buffer is None {
            Some(RenderError::IndexBufferMissing)
        } else {
            None
        }
    }

    /// The indexed draw of the mesh for the instance `instance`: its
    /// resources and all of its indices.
    pub open spec fn call(self, instance: int) -> DrawCall3d
        recommends
            self.missing() is None,
    {
        DrawCall3d {
            bind_group: self.bind_group->Some_0,
            vert_buffer: self.vert_buffer->Some_0,
            ind_buffer: self.ind_buffer->Some_0,
            index_count: self.indices@.len() as u32,
            instance: instance as u32,
        }
    }

    /// The texture that the mesh's bind group is to bind.
    pub open spec fn texture_source(self) -> TextureSource {
        match self.texture {
            Some(image) => TextureSource::Image(image),
            None => TextureSource::White,
        }
    }

    /// Whether the mesh can be drawn.
    pub fn is_well_formed(&self) -> (ok: bool)
        ensures
            ok == self.wf(),
    {
        if self.indices.len() > u32::MAX as usize {
            return false;
        }
        let mut i: usize = 0;
        while i < self.indices.len()
            invariant
                i <= self.indices@.len(),
                forall|k: int| 0 <= k < i ==> (#[trigger] self.indices@[k]) < self.vertices@.len(),
            decreases self.indices@.len() - i,
        {
            if self.indices[i] as usize >= self.vertices.len() {
                return false;
            }
            i = i + 1;
        }
        true
    }

    /// The contents of the mesh's vertex buffer: the memory image of its
    /// vertices, `VERTEX_SIZE` bytes for each.
    pub fn vertex_data(&self) -> (bytes: Vec<u8>)
        ensures
            is_memory_image(bytes@, vertex_words(self.vertices@)),
    {
        let mut words: Vec<u32> = Vec::new();
        let mut i: usize = 0;
        while i < self.vertices.len()
            invariant
                i <= self.vertices@.len(),
                words@ == record_words(
                    i as nat,
                    VERTEX_WORDS as nat,
                    vertex_record(self.vertices@),
                ),
            decreases self.vertices@.len() - i,
        {
            self.vertices[i].write_words(&mut words);
            proof {
                lemma_record_appended(i as nat, VERTEX_WORDS as nat, vertex_record(self.vertices@));
            }
            i = i + 1;
        }
        words_to_bytes(&words)
    }

    /// The contents of the mesh's index buffer: the memory image of its
    /// indices, four bytes for each.
    pub fn index_data(&self) -> (bytes: Vec<u8>)
        ensures
            is_memory_image(bytes@, self.indices@),
    {
        words_to_bytes(&self.indices)
    }

    /// What is to be created on the GPU for the mesh: a vertex buffer and an
    /// index buffer that hold its vertices and indices and are not written
    /// to again, and a bind group of its own image, or of a white one if it
    /// has none.
    pub fn upload_request(&self) -> (upload: MeshUpload)
        ensures
            upload.vertex_buffer.holds(vertex_words(self.vertices@), BufferUsage::Vertex, false),
            upload.index_buffer.holds(self.indices@, BufferUsage::Index, false),
            upload.texture == self.texture_source(),
    {
        let texture = match self.texture {
            Some(image) => TextureSource::Image(image),
            None => TextureSource::White,
        };
        MeshUpload {
            vertex_buffer: BufferInit {
                contents: self.vertex_data(),
                usage: BufferUsage::Vertex,
                copy_dst: false,
            },
            index_buffer: BufferInit {
                contents: self.index_data(),
                usage: BufferUsage::Index,
                copy_dst: false,
            },
            texture,
        }
    }

    /// Records the resources that were created for the mesh. The mesh refers
    /// to them from now on; the handles it held before are returned, so that
    /// an upload after the first leaks nothing.
    pub fn gen_wgpu_buffer(&mut self, created: MeshBuffers) -> (replaced: ReplacedBuffers)
        ensures
            final(self).vert_buffer == Some(created.vert_buffer),
            final(self).ind_buffer == Some(created.ind_buffer),
            final(self).bind_group == Some(created.bind_group),
            final(self).is_uploaded(),
            final(self).vertices == old(self).vertices,
            final(self).indices == old(self).indices,
            final(self).texture == old(self).texture,
            replaced.vert_buffer == old(self).vert_buffer,
            replaced.ind_buffer == old(self).ind_buffer,
            replaced.bind_group == old(self).bind_group,
    {
        let replaced = ReplacedBuffers {
            vert_buffer: self.vert_buffer,
            ind_buffer: self.ind_buffer,
            bind_group: self.bind_group,
        };
        self.vert_buffer = Some(created.vert_buffer);
        self.ind_buffer = Some(created.ind_buffer);
        self.bind_group = Some(created.bind_group);
        replaced
    }

    /// `aabb` is what `to_aabb` may return for the mesh when `bound` computes
    /// the boxes: nothing for a mesh without vertices, else a box that
    /// `bound` gives for its vertices.
    pub open spec fn is_aabb<F: FnOnce(&Vec<Vertex>) -> Aabb>(
        self,
        bound: F,
        aabb: Option<Aabb>,
    ) -> bool {
        if self.vertices@.len() == 0 {
            aabb is None
        } else {
            aabb is Some && bound.ensures((&self.vertices,), aabb->Some_0)
        }
    }

    /// The bounding box of the mesh, or nothing if it has no vertex. The box
    /// of a run of at least one vertex is computed by `bound`.
    pub fn to_aabb<F: FnOnce(&Vec<Vertex>) -> Aabb>(&self, bound: F) -> (aabb: Option<Aabb>)
        requires
            self.vertices@.len() > 0 ==> bound.requires((&self.vertices,)),
        ensures
            self.is_aabb(bound, aabb),
            aabb is None <==> self.vertices@.len() == 0,
    {
        if self.vertices.len() == 0 {
            None
        } else {
            Some(bound(&self.vertices))
        }
    }
}

/// A vertex buffer is read as it was written: at the stride of the layout
/// times `vertex`, plus the offset of an attribute, lie the bytes of that
/// attribute of that vertex, in the length of its format.
pub proof fn lemma_vertex_data_follows_layout(
    vertices: Seq<Vertex>,
    big_endian: bool,
    vertex: int,
    attribute: int,
)
    requires
        0 <= vertex < vertices.len(),
        0 <= attribute < 3,
    ensures
        memory_image(vertex_words(vertices), big_endian).len() == VERTEX_SIZE * vertices.len(),
        ({
            let layout = Vertex::layout(true);
            let a = layout.attributes[attribute];
            let start = layout.array_stride * vertex + a.offset;
            memory_image(vertex_words(vertices), big_endian).subrange(
                start,
                start + a.format.size(),
            ) == memory_image(vertices[vertex].attribute_words(attribute), big_endian)
        }),
{
    let a = Vertex::layout(true).attributes[attribute];
    let from = a.first_word();
    let to = from + a.format.components();
    let size = VERTEX_WORDS as nat;
    lemma_record_part(vertices.len(), size, vertex_record(vertices), vertex, from, to);
    lemma_memory_image_range(
        vertex_words(vertices),
        big_endian,
        vertex * size + from,
        vertex * size + to,
    );
    assert(vertices[vertex].words().subrange(from, to) =~= vertices[vertex].attribute_words(
        attribute,
    ));
}

/// The instance buffer is read as it was written: at the stride of the
/// layout times `instance`, plus the offset of an attribute, lie the bytes
/// of that attribute of that record, in the length of its format.
pub proof fn lemma_instance_data_follows_layout(
    instances: Seq<Instance3d>,
    big_endian: bool,
    instance: int,
    attribute: int,
)
    requires
        0 <= instance < instances.len(),
        0 <= attribute < 5,
    ensures
        memory_image(instance_words(instances), big_endian).len() == INSTANCE_SIZE
            * instances.len(),
        ({
            let layout = Instance3d::layout();
            let a = layout.attributes[attribute];
            let start = layout.array_stride * instance + a.offset;
            memory_image(instance_words(instances), big_endian).subrange(
                start,
                start + a.format.size(),
            ) == memory_image(instances[instance].attribute_words(attribute), big_endian)
        }),
{
    let a = Instance3d::layout().attributes[attribute];
    let from = a.first_word();
    let to = from + a.format.components();
    let size = INSTANCE_WORDS as nat;
    lemma_record_part(instances.len(), size, instance_record(instances), instance, from, to);
    lemma_memory_image_range(
        instance_words(instances),
        big_endian,
        instance * size + from,
        instance * size + to,
    );
    assert(instances[instance].words().subrange(from, to) =~= instances[instance].attribute_words(
        attribute,
    ));
}

} // verus!
