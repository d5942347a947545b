use ggez_3d::descriptor::{BufferInit, BufferUsage};
use ggez_3d::layout::{VertexAttribute, VertexFormat, VertexStepMode};
use ggez_3d::mesh::{
    instance_data, Aabb, BindGroupId, BufferId, Instance3d, Mesh3d, MeshBuffers, ReplacedBuffers,
    TextureId, TextureSource, Transform3d, Vertex, INSTANCE_SIZE, VERTEX_SIZE,
};
use ggez_3d::scalar::{Color, Quaternion, Vector2, Vector3};

fn v3(x: f32, y: f32, z: f32) -> Vector3 {
    Vector3::new(x.to_bits(), y.to_bits(), z.to_bits())
}

fn v2(x: f32, y: f32) -> Vector2 {
    Vector2 {
        x: x.to_bits(),
        y: y.to_bits(),
    }
}

fn rgba(r: f32, g: f32, b: f32, a: f32) -> Color {
    Color::new(r.to_bits(), g.to_bits(), b.to_bits(), a.to_bits())
}

fn quad() -> Mesh3d {
    Mesh3d {
        vertices: vec![
            Vertex::new(
                v3(-1.0, -1.0, 1.0),
                v2(0.0, 0.0),
                Some(rgba(0.0, 1.0, 0.0, 1.0)),
            ),
            Vertex::new(v3(1.0, -1.0, 1.0), v2(1.0, 0.0), None),
            Vertex::new(v3(1.0, 1.0, 1.0), v2(1.0, 1.0), None),
            Vertex::new(
                v3(-1.0, 1.0, 1.0),
                v2(0.0, 1.0),
                Some(rgba(0.0, 0.1, 0.0, 1.0)),
            ),
        ],
        indices: vec![0, 1, 2, 2, 3, 0],
        vert_buffer: None,
        ind_buffer: None,
        bind_group: None,
        texture: None,
    }
}

fn floats_of(v: &Vertex) -> Vec<f32> {
    let mut out = Vec::new();
    for w in v.pos.iter().chain(v.tex_coord.iter()).chain(v.color.iter()) {
        out.push(f32::from_bits(*w));
    }
    out
}

#[test]
fn vertex_without_color_is_white_with_alpha_zero() {
    let v = Vertex::new(v3(1.0, 2.0, 3.0), v2(0.25, 0.75), None);
    assert_eq!(
        floats_of(&v),
        vec![1.0, 2.0, 3.0, 0.25, 0.75, 1.0, 1.0, 1.0, 0.0]
    );
}

#[test]
fn vertex_keeps_the_color_it_was_given() {
    let v = Vertex::new(
        v3(-1.0, 1.0, 1.0),
        v2(0.0, 1.0),
        Some(rgba(0.0, 0.1, 0.0, 1.0)),
    );
    assert_eq!(
        floats_of(&v),
        vec![-1.0, 1.0, 1.0, 0.0, 1.0, 0.0, 0.1, 0.0, 1.0]
    );
}

#[test]
fn vertex_layout_has_three_packed_attributes() {
    let d = Vertex::desc();
    assert_eq!(d.array_stride, 36);
    assert_eq!(d.array_stride, VERTEX_SIZE);
    assert_eq!(d.step_mode, VertexStepMode::Vertex);
    assert_eq!(
        d.attributes,
        vec![
            VertexAttribute {
                format: VertexFormat::Float32x3,
                offset: 0,
                shader_location: 0
            },
            VertexAttribute {
                format: VertexFormat::Float32x2,
                offset: 12,
                shader_location: 1
            },
            VertexAttribute {
                format: VertexFormat::Float32x4,
                offset: 20,
                shader_location: 2
            },
        ]
    );
}

#[test]
fn vertex_layout_without_color_keeps_the_stride() {
    let d = Vertex::desc_without_color();
    assert_eq!(d.array_stride, 36);
    assert_eq!(d.step_mode, VertexStepMode::Vertex);
    assert_eq!(
        d.attributes,
        vec![
            VertexAttribute {
                format: VertexFormat::Float32x3,
                offset: 0,
                shader_location: 0
            },
            VertexAttribute {
                format: VertexFormat::Float32x2,
                offset: 12,
                shader_location: 1
            },
        ]
    );
}

#[test]
fn instance_layout_has_five_columns_from_location_five() {
    let d = Instance3d::desc();
    assert_eq!(d.array_stride, 80);
    assert_eq!(d.array_stride, INSTANCE_SIZE);
    assert_eq!(d.step_mode, VertexStepMode::Instance);
    assert_eq!(d.attributes.len(), 5);
    for (i, a) in d.attributes.iter().enumerate() {
        assert_eq!(a.format, VertexFormat::Float32x4);
        assert_eq!(a.offset, 16 * i as u64);
        assert_eq!(a.shader_location, 5 + i as u32);
    }
}

#[test]
fn format_sizes() {
    assert_eq!(VertexFormat::Float32x2.byte_size(), 8);
    assert_eq!(VertexFormat::Float32x3.byte_size(), 12);
    assert_eq!(VertexFormat::Float32x4.byte_size(), 16);
}

#[test]
fn attributes_of_every_layout_stay_within_the_stride() {
    for d in [
        Vertex::desc(),
        Vertex::desc_without_color(),
        Instance3d::desc(),
    ] {
        for a in d.attributes.iter() {
            assert!(a.offset + a.format.byte_size() <= d.array_stride);
        }
    }
}

#[test]
fn vertex_data_is_the_memory_of_the_vertices() {
    let mesh = quad();
    let bytes = mesh.vertex_data();
    assert_eq!(bytes.len(), 4 * 36);
    let mut expected: Vec<u8> = Vec::new();
    for v in mesh.vertices.iter() {
        for x in floats_of(v) {
            expected.extend_from_slice(&x.to_ne_bytes());
        }
    }
    assert_eq!(bytes, expected);
    // the colour of the last vertex starts 20 bytes into its 36
    assert_eq!(&bytes[3 * 36 + 24..3 * 36 + 28], &0.1f32.to_ne_bytes());
}

#[test]
fn vertex_data_agrees_with_a_cast_of_the_floats() {
    let mesh = quad();
    let mut floats: Vec<f32> = Vec::new();
    for v in mesh.vertices.iter() {
        floats.extend(floats_of(v));
    }
    let cast: &[u8] = bytemuck::cast_slice(floats.as_slice());
    assert_eq!(mesh.vertex_data().as_slice(), cast);
}

#[test]
fn vertex_data_of_no_vertices_is_empty() {
    let mut mesh = quad();
    mesh.vertices.clear();
    mesh.indices.clear();
    assert_eq!(mesh.vertex_data(), Vec::<u8>::new());
    assert_eq!(mesh.index_data(), Vec::<u8>::new());
}

#[test]
fn index_data_is_the_memory_of_the_indices() {
    let mesh = quad();
    let bytes = mesh.index_data();
    let mut expected: Vec<u8> = Vec::new();
    for i in [0u32, 1, 2, 2, 3, 0] {
        expected.extend_from_slice(&i.to_ne_bytes());
    }
    assert_eq!(bytes, expected);
    assert_eq!(bytes.len(), 24);
}

#[test]
fn upload_of_a_mesh_without_texture_binds_white() {
    let mesh = quad();
    let upload = mesh.upload_request();
    assert_eq!(upload.texture, TextureSource::White);
    assert_eq!(
        upload.vertex_buffer,
        BufferInit {
            contents: mesh.vertex_data(),
            usage: BufferUsage::Vertex,
            copy_dst: false
        }
    );
    assert_eq!(
        upload.index_buffer,
        BufferInit {
            contents: mesh.index_data(),
            usage: BufferUsage::Index,
            copy_dst: false
        }
    );
}

#[test]
fn upload_of_a_textured_mesh_binds_its_image() {
    let mut mesh = quad();
    mesh.texture = Some(TextureId(42));
    assert_eq!(
        mesh.upload_request().texture,
        TextureSource::Image(TextureId(42))
    );
}

#[test]
fn first_upload_replaces_nothing() {
    let mut mesh = quad();
    let created = MeshBuffers {
        vert_buffer: BufferId(1),
        ind_buffer: BufferId(2),
        bind_group: BindGroupId(3),
    };
    let replaced = mesh.gen_wgpu_buffer(created);
    assert_eq!(
        replaced,
        ReplacedBuffers {
            vert_buffer: None,
            ind_buffer: None,
            bind_group: None
        }
    );
    assert_eq!(mesh.vert_buffer, Some(BufferId(1)));
    assert_eq!(mesh.ind_buffer, Some(BufferId(2)));
    assert_eq!(mesh.bind_group, Some(BindGroupId(3)));
    assert_eq!(mesh.vertices, quad().vertices);
    assert_eq!(mesh.indices, quad().indices);
}

#[test]
fn second_upload_hands_back_the_first_handles() {
    let mut mesh = quad();
    mesh.gen_wgpu_buffer(MeshBuffers {
        vert_buffer: BufferId(1),
        ind_buffer: BufferId(2),
        bind_group: BindGroupId(3),
    });
    let replaced = mesh.gen_wgpu_buffer(MeshBuffers {
        vert_buffer: BufferId(11),
        ind_buffer: BufferId(12),
        bind_group: BindGroupId(13),
    });
    assert_eq!(
        replaced,
        ReplacedBuffers {
            vert_buffer: Some(BufferId(1)),
            ind_buffer: Some(BufferId(2)),
            bind_group: Some(BindGroupId(3)),
        }
    );
    assert_eq!(mesh.vert_buffer, Some(BufferId(11)));
    assert_eq!(mesh.ind_buffer, Some(BufferId(12)));
    assert_eq!(mesh.bind_group, Some(BindGroupId(13)));
}

#[test]
fn mesh_without_vertices_has_no_bounding_box() {
    let mut mesh = quad();
    mesh.vertices.clear();
    let aabb =
        mesh.to_aabb(|_: &Vec<Vertex>| -> Aabb { panic!("no box is computed for no vertices") });
    assert_eq!(aabb, None);
}

#[test]
fn mesh_with_vertices_has_the_box_that_was_computed() {
    let mesh = quad();
    let aabb = mesh.to_aabb(|vs: &Vec<Vertex>| {
        // componentwise minimum and maximum, then centre and half extent
        let mut lo = [f32::MAX; 3];
        let mut hi = [f32::MIN; 3];
        for v in vs.iter() {
            for k in 0..3 {
                lo[k] = lo[k].min(f32::from_bits(v.pos[k]));
                hi[k] = hi[k].max(f32::from_bits(v.pos[k]));
            }
        }
        Aabb {
            center: v3(
                0.5 * (hi[0] + lo[0]),
                0.5 * (hi[1] + lo[1]),
                0.5 * (hi[2] + lo[2]),
            ),
            half_extents: v3(
                0.5 * (hi[0] - lo[0]),
                0.5 * (hi[1] - lo[1]),
                0.5 * (hi[2] - lo[2]),
            ),
        }
    });
    assert_eq!(
        aabb,
        Some(Aabb {
            center: v3(0.0, 0.0, 1.0),
            half_extents: v3(1.0, 1.0, 0.0)
        })
    );
}

#[test]
fn default_box_is_at_the_origin() {
    assert_eq!(
        Aabb::default(),
        Aabb {
            center: v3(0.0, 0.0, 0.0),
            half_extents: v3(0.0, 0.0, 0.0)
        }
    );
}

#[test]
fn well_formed_mesh_is_accepted() {
    assert!(quad().is_well_formed());
}

#[test]
fn index_beyond_the_vertices_is_refused() {
    let mut mesh = quad();
    mesh.indices.push(4);
    assert!(!mesh.is_well_formed());
    mesh.indices.pop();
    mesh.indices.push(3);
    assert!(mesh.is_well_formed());
}

#[test]
fn mesh_without_vertices_accepts_no_index() {
    let mut mesh = quad();
    mesh.vertices.clear();
    assert!(!mesh.is_well_formed());
    mesh.indices.clear();
    assert!(mesh.is_well_formed());
}

#[test]
fn default_transform_is_the_identity() {
    let t = Transform3d::default();
    assert_eq!(t.position, v3(0.0, 0.0, 0.0));
    assert_eq!(t.scale, v3(1.0, 1.0, 1.0));
    assert_eq!(
        t.rotation,
        Quaternion {
            v: v3(0.0, 0.0, 0.0),
            s: 1.0f32.to_bits()
        }
    );
    let q = glam::Quat::IDENTITY;
    assert_eq!(t.rotation.v, v3(q.x, q.y, q.z));
    assert_eq!(t.rotation.s, q.w.to_bits());
}

#[test]
fn default_instance_is_the_identity_matrix_and_no_tint() {
    let i = Instance3d::default();
    let m = glam::Mat4::IDENTITY.to_cols_array_2d();
    for c in 0..4 {
        for r in 0..4 {
            assert_eq!(i.transform[c][r], m[c][r].to_bits());
        }
    }
    assert_eq!(
        i.color,
        [
            1.0f32.to_bits(),
            1.0f32.to_bits(),
            1.0f32.to_bits(),
            0.0f32.to_bits()
        ]
    );
}

#[test]
fn default_instance_is_what_the_model_formula_gives_for_default_parameters() {
    // translate(p + c) * scale * rotate * translate(-(p + c)) at p = c = 0
    let p = glam::Vec3::ZERO;
    let c = glam::Vec3::ZERO;
    let m = glam::Mat4::from_translation(p + c)
        * glam::Mat4::from_scale(glam::Vec3::ONE)
        * glam::Mat4::from_quat(glam::Quat::IDENTITY)
        * glam::Mat4::from_translation((p + c) * -1.0);
    let cols = m.to_cols_array_2d();
    let i = Instance3d::default();
    for col in 0..4 {
        for row in 0..4 {
            assert_eq!(f32::from_bits(i.transform[col][row]), cols[col][row]);
        }
    }
}

#[test]
fn instance_data_is_eighty_bytes_a_record() {
    let mut second = Instance3d::default();
    second.transform[3] = [
        2.0f32.to_bits(),
        3.0f32.to_bits(),
        4.0f32.to_bits(),
        1.0f32.to_bits(),
    ];
    second.color = [
        0.5f32.to_bits(),
        0.0f32.to_bits(),
        0.0f32.to_bits(),
        0.5f32.to_bits(),
    ];
    let records = vec![Instance3d::default(), second];
    let bytes = instance_data(&records);
    assert_eq!(bytes.len(), 160);
    let mut expected: Vec<u8> = Vec::new();
    for r in records.iter() {
        for col in r.transform.iter() {
            for w in col.iter() {
                expected.extend_from_slice(&w.to_ne_bytes());
            }
        }
        for w in r.color.iter() {
            expected.extend_from_slice(&w.to_ne_bytes());
        }
    }
    assert_eq!(bytes, expected);
    // the translation column of the second record: 80 + 48
    assert_eq!(&bytes[128..132], &2.0f32.to_ne_bytes());
    // its colour: 80 + 64
    assert_eq!(&bytes[144..148], &0.5f32.to_ne_bytes());
}
