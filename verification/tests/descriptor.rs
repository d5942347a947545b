use ggez_3d::descriptor::{
    camera_bind_group_layout, fragment_entry_point, texture_bind_group_layout, vertex_entry_point,
    BindGroupLayoutEntry, BindingType, BlendState, CompareFunction, DepthFormat, DepthStencilState,
    Face, FrontFace, PolygonMode, PrimitiveState, PrimitiveTopology, RenderPipelineDescriptor,
    Shader, ShaderModuleId, ShaderStage, CAMERA_BINDING, CAMERA_GROUP, INSTANCE_SLOT,
    SAMPLER_BINDING, SAMPLE_COUNT, TEXTURE_BINDING, TEXTURE_GROUP, VERTEX_SLOT,
};
use ggez_3d::mesh::{Instance3d, Vertex};

fn descriptor(vertex_color: bool, instanced: bool) -> RenderPipelineDescriptor {
    RenderPipelineDescriptor {
        vertex_module: ShaderModuleId(1),
        fragment_module: ShaderModuleId(2),
        vertex_color,
        instanced,
        depth_format: DepthFormat::Depth32Float,
    }
}

#[test]
fn texture_group_is_texture_and_sampler_for_fragments() {
    assert_eq!(
        texture_bind_group_layout(),
        vec![
            BindGroupLayoutEntry {
                binding: 0,
                visibility: ShaderStage::Fragment,
                ty: BindingType::Texture
            },
            BindGroupLayoutEntry {
                binding: 1,
                visibility: ShaderStage::Fragment,
                ty: BindingType::Sampler
            },
        ]
    );
}

#[test]
fn bindings_are_named() {
    assert_eq!(TEXTURE_BINDING, 0);
    assert_eq!(SAMPLER_BINDING, 1);
    assert_eq!(CAMERA_BINDING, 0);
}

#[test]
fn camera_group_is_one_uniform_for_vertices() {
    assert_eq!(
        camera_bind_group_layout(),
        vec![BindGroupLayoutEntry {
            binding: 0,
            visibility: ShaderStage::Vertex,
            ty: BindingType::UniformBuffer
        }]
    );
}

#[test]
fn bind_groups_are_texture_then_camera() {
    let groups = descriptor(true, true).bind_group_layouts();
    assert_eq!(groups.len(), 2);
    assert_eq!(TEXTURE_GROUP, 0);
    assert_eq!(CAMERA_GROUP, 1);
    assert_eq!(groups[TEXTURE_GROUP as usize], texture_bind_group_layout());
    assert_eq!(groups[CAMERA_GROUP as usize], camera_bind_group_layout());
}

#[test]
fn entry_points_are_vs_main_and_fs_main() {
    assert_eq!(vertex_entry_point(), "vs_main");
    assert_eq!(fragment_entry_point(), "fs_main");
}

#[test]
fn instanced_pipeline_reads_vertices_and_instances() {
    let buffers = descriptor(true, true).vertex_buffers();
    assert_eq!(VERTEX_SLOT, 0);
    assert_eq!(INSTANCE_SLOT, 1);
    assert_eq!(buffers.len(), 2);
    assert_eq!(buffers[VERTEX_SLOT as usize], Vertex::desc());
    assert_eq!(buffers[INSTANCE_SLOT as usize], Instance3d::desc());
}

#[test]
fn pipeline_without_vertex_color_reads_two_vertex_attributes() {
    let buffers = descriptor(false, true).vertex_buffers();
    assert_eq!(buffers.len(), 2);
    assert_eq!(buffers[0], Vertex::desc_without_color());
    assert_eq!(buffers[0].attributes.len(), 2);
    assert_eq!(buffers[0].array_stride, 36);
    assert_eq!(buffers[1], Instance3d::desc());
}

#[test]
fn plain_pipeline_reads_vertices_only() {
    let buffers = descriptor(false, false).vertex_buffers();
    assert_eq!(buffers, vec![Vertex::desc_without_color()]);
}

#[test]
fn no_shader_location_is_fed_twice() {
    let buffers = descriptor(true, true).vertex_buffers();
    let mut seen: Vec<u32> = Vec::new();
    for b in buffers.iter() {
        for a in b.attributes.iter() {
            assert!(!seen.contains(&a.shader_location));
            seen.push(a.shader_location);
        }
    }
    assert_eq!(seen, vec![0, 1, 2, 5, 6, 7, 8, 9]);
}

#[test]
fn primitives_are_filled_triangles_with_back_faces_culled() {
    assert_eq!(
        descriptor(true, true).primitive(),
        PrimitiveState {
            topology: PrimitiveTopology::TriangleList,
            front_face: FrontFace::Ccw,
            cull_mode: Some(Face::Back),
            polygon_mode: PolygonMode::Fill,
        }
    );
}

#[test]
fn depth_is_tested_with_less_and_written() {
    assert_eq!(
        descriptor(true, true).depth_stencil(),
        DepthStencilState {
            format: DepthFormat::Depth32Float,
            depth_write_enabled: true,
            depth_compare: CompareFunction::Less,
        }
    );
    let mut plain = descriptor(false, false);
    plain.depth_format = DepthFormat::Depth32Float;
    assert_eq!(plain.depth_stencil().format, DepthFormat::Depth32Float);
    assert!(plain.depth_stencil().depth_write_enabled);
    assert_eq!(plain.depth_stencil().depth_compare, CompareFunction::Less);
}

#[test]
fn fragments_replace_the_pixel() {
    assert_eq!(descriptor(true, true).blend(), BlendState::Replace);
    assert_eq!(SAMPLE_COUNT, 1);
}

#[test]
fn shader_with_both_modules_is_complete() {
    let both = Shader {
        vs_module: Some(ShaderModuleId(1)),
        fs_module: Some(ShaderModuleId(2)),
    };
    let fragment_only = Shader {
        vs_module: None,
        fs_module: Some(ShaderModuleId(2)),
    };
    let vertex_only = Shader {
        vs_module: Some(ShaderModuleId(1)),
        fs_module: None,
    };
    assert!(both.has_both_stages());
    assert!(!fragment_only.has_both_stages());
    assert!(!vertex_only.has_both_stages());
}
