//! What the render pipeline is made of: its shader stages, the buffers and
//! bind groups it reads, and its fixed state.

use crate::layout::{LayoutView, VertexBufferLayout};
use crate::mesh::{Instance3d, Vertex};
use crate::scalar::is_memory_image;
use vstd::prelude::*;

verus! {

/// The bind group index of a mesh's texture and sampler.
pub const TEXTURE_GROUP: u32 = 0;

/// The bind group index of the camera uniform.
pub const CAMERA_GROUP: u32 = 1;

/// The binding of a mesh's texture in its bind group.
pub const TEXTURE_BINDING: u32 = 0;

/// The binding of a mesh's sampler in its bind group.
pub const SAMPLER_BINDING: u32 = 1;

/// The binding of the uniform buffer in the camera's bind group.
pub const CAMERA_BINDING: u32 = 0;

/// The vertex buffer slot of a mesh's vertices.
pub const VERTEX_SLOT: u32 = 0;

/// The vertex buffer slot of the instance records.
pub const INSTANCE_SLOT: u32 = 1;

/// The number of samples of each pixel.
pub const SAMPLE_COUNT: u32 = 1;

/// The handle of a compiled shader module.
#[derive(Clone, Copy, Debug, PartialEq, Eq)]
pub struct ShaderModuleId(pub u64);

/// A shader: the module of each stage that it provides.
#[derive(Clone, Copy, Debug, PartialEq, Eq)]
pub struct Shader {
    pub vs_module: Option<ShaderModuleId>,
    pub fs_module: Option<ShaderModuleId>,
}

/// What a buffer is bound as.
#[derive(Clone, Copy, Debug, PartialEq, Eq)]
pub enum BufferUsage {
    Vertex,
    Index,
    Uniform,
}

/// A buffer to be created: what it holds at first, what it is bound as, and
/// whether it is written to once it exists.
#[derive(Clone, Debug, PartialEq, Eq)]
pub struct BufferInit {
    pub contents: Vec<u8>,
    pub usage: BufferUsage,
    pub copy_dst: bool,
}

/// The shader stage that sees a binding.
#[derive(Clone, Copy, Debug, PartialEq, Eq)]
pub enum ShaderStage {
    Vertex,
    Fragment,
}

/// What a binding holds.
#[derive(Clone, Copy, Debug, PartialEq, Eq)]
pub enum BindingType {
    /// A uniform buffer, bound whole, without a dynamic offset.
    UniformBuffer,
    /// A two-dimensional texture of filterable numbers, one sample a pixel.
    Texture,
    /// A sampler that filters.
    Sampler,
}

/// One entry of a bind group layout.
#[derive(Clone, Copy, Debug, PartialEq, Eq)]
pub struct BindGroupLayoutEntry {
    pub binding: u32,
    pub visibility: ShaderStage,
    pub ty: BindingType,
}

/// How vertices are assembled into primitives.
#[derive(Clone, Copy, Debug, PartialEq, Eq)]
pub enum PrimitiveTopology {
    PointList,
    LineList,
    LineStrip,
    TriangleList,
    TriangleStrip,
}

/// The winding of a triangle that faces the viewer.
#[derive(Clone, Copy, Debug, PartialEq, Eq)]
pub enum FrontFace {
    Ccw,
    Cw,
}

/// A side of a triangle.
#[derive(Clone, Copy, Debug, PartialEq, Eq)]
pub enum Face {
    Front,
    Back,
}

/// How a triangle is rasterised.
#[derive(Clone, Copy, Debug, PartialEq, Eq)]
pub enum PolygonMode {
    Fill,
    Line,
    Point,
}

/// The test that a new depth must pass against the stored one.
#[derive(Clone, Copy, Debug, PartialEq, Eq)]
pub enum CompareFunction {
    Never,
    Less,
    Equal,
    LessEqual,
    Greater,
    NotEqual,
    GreaterEqual,
    Always,
}

/// The format of the depth target.
#[derive(Clone, Copy, Debug, PartialEq, Eq)]
pub enum DepthFormat {
    Depth32Float,
    Depth24Plus,
}

/// How a fragment is combined with the pixel that is there.
#[derive(Clone, Copy, Debug, PartialEq, Eq)]
pub enum BlendState {
    Replace,
    AlphaBlending,
    PremultipliedAlphaBlending,
}

/// The assembly and rasterisation of primitives.
#[derive(Clone, Copy, Debug, PartialEq, Eq)]
pub struct PrimitiveState {
    pub topology: PrimitiveTopology,
    pub front_face: FrontFace,
    pub cull_mode: Option<Face>,
    pub polygon_mode: PolygonMode,
}

/// The depth test.
#[derive(Clone, Copy, Debug, PartialEq, Eq)]
pub struct DepthStencilState {
    pub format: DepthFormat,
    pub depth_write_enabled: bool,
    pub depth_compare: CompareFunction,
}

/// What decides a render pipeline. All else about it is fixed: see the
/// functions of this type.
#[derive(Clone, Copy, Debug, PartialEq, Eq)]
pub struct RenderPipelineDescriptor {
    /// The module of the vertex stage.
    pub vertex_module: ShaderModuleId,
    /// The module of the fragment stage.
    pub fragment_module: ShaderModuleId,
    /// Whether the vertex stage reads the colour of a vertex.
    pub vertex_color: bool,
    /// Whether the vertex stage reads instance records.
    pub instanced: bool,
    /// The format of the depth target and of the depth test.
    pub depth_format: DepthFormat,
}

impl BufferInit {
    /// The buffer is bound as `usage`, is written to later if `copy_dst`
    /// holds, and holds at first the memory image of `words`.
    pub open spec fn holds(self, words: Seq<u32>, usage: BufferUsage, copy_dst: bool) -> bool {
        &&& is_memory_image(self.contents@, words)
        &&& self.usage == usage
        &&& self.copy_dst == copy_dst
    }
}

impl Shader {
    /// The shader provides both stages.
    pub open spec fn is_complete(self) -> bool {
        self.vs_module is Some && self.fs_module is Some
    }

    /// Whether the shader provides both stages.
    pub fn has_both_stages(&self) -> (b: bool)
        ensures
            b == self.is_complete(),
    {
        self.vs_module.is_some() && self.fs_module.is_some()
    }

    /// The vertex module of the shader or, where it has none, that of
    /// `fallback`.
    pub open spec fn vertex_stage(self, fallback: Shader) -> ShaderModuleId
        recommends
            fallback.is_complete(),
    {
        match self.vs_module {
            Some(module) => module,
            None => fallback.vs_module->Some_0,
        }
    }

    /// The fragment module of the shader or, where it has none, that of
    /// `fallback`.
    pub open spec fn fragment_stage(self, fallback: Shader) -> ShaderModuleId
        recommends
            fallback.is_complete(),
    {
        match self.fs_module {
            Some(module) => module,
            None => fallback.fs_module->Some_0,
        }
    }
}

/// The layout of the bind group of a mesh: its texture at
/// `TEXTURE_BINDING` and its sampler at `SAMPLER_BINDING`, both seen by the
/// fragment stage.
pub open spec fn texture_layout() -> Seq<BindGroupLayoutEntry> {
    seq![
        BindGroupLayoutEntry {
            binding: TEXTURE_BINDING,
            visibility: ShaderStage::Fragment,
            ty: BindingType::Texture,
        },
        BindGroupLayoutEntry {
            binding: SAMPLER_BINDING,
            visibility: ShaderStage::Fragment,
            ty: BindingType::Sampler,
        },
    ]
}

/// The layout of the camera's bind group: the uniform buffer at
/// `CAMERA_BINDING`, seen by the vertex stage.
pub open spec fn camera_layout() -> Seq<BindGroupLayoutEntry> {
    seq![
        BindGroupLayoutEntry {
            binding: CAMERA_BINDING,
            visibility: ShaderStage::Vertex,
            ty: BindingType::UniformBuffer,
        },
    ]
}

/// The layout of the bind group of a mesh.
pub fn texture_bind_group_layout() -> (entries: Vec<BindGroupLayoutEntry>)
    ensures
        entries@ == texture_layout(),
{
    let mut entries: Vec<BindGroupLayoutEntry> = Vec::new();
    entries.push(
        BindGroupLayoutEntry {
            binding: TEXTURE_BINDING,
            visibility: ShaderStage::Fragment,
            ty: BindingType::Texture,
        },
    );
    entries.push(
        BindGroupLayoutEntry {
            binding: SAMPLER_BINDING,
            visibility: ShaderStage::Fragment,
            ty: BindingType::Sampler,
        },
    );
    assert(entries@ =~= texture_layout());
    entries
}

/// The layout of the camera's bind group.
pub fn camera_bind_group_layout() -> (entries: Vec<BindGroupLayoutEntry>)
    ensures
        entries@ == camera_layout(),
{
    let mut entries: Vec<BindGroupLayoutEntry> = Vec::new();
    entries.push(
        BindGroupLayoutEntry {
            binding: CAMERA_BINDING,
            visibility: ShaderStage::Vertex,
            ty: BindingType::UniformBuffer,
        },
    );
    assert(entries@ =~= camera_layout());
    entries
}

/// The name of the function at which the vertex stage starts.
pub fn vertex_entry_point() -> (name: &'static str)
    ensures
        name@ == "vs_main"@,
{
    "vs_main"
}

/// The name of the function at which the fragment stage starts.
pub fn fragment_entry_point() -> (name: &'static str)
    ensures
        name@ == "fs_main"@,
{
    "fs_main"
}

impl RenderPipelineDescriptor {
    /// The layouts of the vertex buffers, by slot: the vertices at
    /// `VERTEX_SLOT` and, for an instanced pipeline, the instance records at
    /// `INSTANCE_SLOT`.
    pub open spec fn buffer_layouts(self) -> Seq<LayoutView> {
        if self.instanced {
            seq![Vertex::layout(self.vertex_color), Instance3d::layout()]
        } else {
            seq![Vertex::layout(self.vertex_color)]
        }
    }

    /// The layouts of the vertex buffers, by slot. Each can be read, and no
    /// shader location is fed from two places.
    pub fn vertex_buffers(&self) -> (buffers: Vec<VertexBufferLayout>)
        ensures
            buffers@.len() == self.buffer_layouts().len(),
            forall|slot: int|
                0 <= slot < buffers@.len() ==> (#[trigger] buffers@[slot])@
                    == self.buffer_layouts()[slot],
            forall|slot: int| 0 <= slot < buffers@.len() ==> (#[trigger] buffers@[slot])@.wf(),
            forall|s: int, t: int, i: int, j: int|
                {
                    &&& 0 <= s < t < buffers@.len()
                    &&& 0 <= i < buffers@[s]@.attributes.len()
                    &&& 0 <= j < buffers@[t]@.attributes.len()
                } ==> (#[trigger] buffers@[s]@.attributes[i]).shader_location != (
                #[trigger] buffers@[t]@.attributes[j]).shader_location,
    {
        let mut buffers: Vec<VertexBufferLayout> = Vec::new();
        if self.vertex_color {
            buffers.push(Vertex::desc());
        } else {
            buffers.push(Vertex::desc_without_color());
        }
        if self.instanced {
            buffers.push(Instance3d::desc());
        }
        buffers
    }

    /// The layouts of the bind groups, by index: a mesh's texture and sampler
    /// at `TEXTURE_GROUP`, the camera uniform at `CAMERA_GROUP`.
    pub fn bind_group_layouts(&self) -> (groups: Vec<Vec<BindGroupLayoutEntry>>)
        ensures
            groups@.len() == 2,
            groups@[TEXTURE_GROUP as int]@ == texture_layout(),
            groups@[CAMERA_GROUP as int]@ == camera_layout(),
    {
        let mut groups: Vec<Vec<BindGroupLayoutEntry>> = Vec::new();
        groups.push(texture_bind_group_layout());
        groups.push(camera_bind_group_layout());
        groups
    }

    /// Triangle lists, filled, front faces wound counter-clockwise, back
    /// faces culled.
    pub fn primitive(&self) -> (state: PrimitiveState)
        ensures
            state == (PrimitiveState {
                topology: PrimitiveTopology::TriangleList,
                front_face: FrontFace::Ccw,
                cull_mode: Some(Face::Back),
                polygon_mode: PolygonMode::Fill,
            }),
    {
        PrimitiveState {
            topology: PrimitiveTopology::TriangleList,
            front_face: FrontFace::Ccw,
            cull_mode: Some(Face::Back),
            polygon_mode: PolygonMode::Fill,
        }
    }

    /// A fragment is kept where its depth is less than the stored one, and
    /// its depth is then stored.
    pub fn depth_stencil(&self) -> (state: DepthStencilState)
        ensures
            state == (DepthStencilState {
                format: self.depth_format,
                depth_write_enabled: true,
                depth_compare: CompareFunction::Less,
            }),
    {
        DepthStencilState {
            format: self.depth_format,
            depth_write_enabled: true,
            depth_compare: CompareFunction::Less,
        }
    }

    /// A fragment that is kept replaces the pixel, in all its channels.
    pub fn blend(&self) -> (state: BlendState)
        ensures
            state == BlendState::Replace,
    {
        BlendState::Replace
    }
}

} // verus!
