use villkiss::descriptorpool::{DescriptorPool, DescriptorRangeDesc, DescriptorSetWrite};
use villkiss::mesh::{Draw, Mesh};
use villkiss::shader::{
    AttributeDesc, DescriptorSetLayoutBinding, DescriptorType, PushConstantLayout, Shader,
    ShaderSet, UniformInfoData, VertexBufferDesc,
};

fn uniforms() -> [UniformInfoData; 2] {
    [
        UniformInfoData {
            stage: 0x1,
            uniform_type: DescriptorType::UniformBuffer,
            count: 1,
            mutable: false,
        },
        UniformInfoData {
            stage: 0x10,
            uniform_type: DescriptorType::CombinedImageSampler,
            count: 4,
            mutable: true,
        },
    ]
}

#[test]
fn shader_set_defaults_to_no_stage() {
    let set: ShaderSet<u32> = ShaderSet::default();
    assert!(set.vertex.is_none());
    assert!(set.hull.is_none());
    assert!(set.domain.is_none());
    assert!(set.geometry.is_none());
    assert!(set.fragment.is_none());
}

#[test]
fn attributes_are_packed_in_order() {
    let attributes = Shader::attribute_descs(&[96, 64, 32, 8]);
    assert_eq!(
        attributes,
        vec![
            AttributeDesc { location: 0, binding: 0, offset: 0 },
            AttributeDesc { location: 1, binding: 0, offset: 12 },
            AttributeDesc { location: 2, binding: 0, offset: 20 },
            AttributeDesc { location: 3, binding: 0, offset: 24 },
        ]
    );
}

#[test]
fn attribute_bits_are_cut_to_whole_bytes() {
    let attributes = Shader::attribute_descs(&[12, 7, 16]);
    assert_eq!(attributes[1].offset, 1);
    assert_eq!(attributes[2].offset, 1);
}

#[test]
fn layout_bindings_are_numbered_by_position() {
    let bindings = Shader::layout_bindings(&uniforms());
    assert_eq!(
        bindings,
        vec![
            DescriptorSetLayoutBinding {
                binding: 0,
                ty: DescriptorType::UniformBuffer,
                count: 1,
                stage_flags: 0x1,
                immutable_samplers: false,
            },
            DescriptorSetLayoutBinding {
                binding: 1,
                ty: DescriptorType::CombinedImageSampler,
                count: 4,
                stage_flags: 0x10,
                immutable_samplers: true,
            },
        ]
    );
}

#[test]
fn shader_with_push_constants() {
    let shader = Shader::create(&[96, 64], 20, &uniforms(), &[0x1, 0x10], 16);
    assert_eq!(shader.vertex_desc, VertexBufferDesc { binding: 0, stride: 20, rate: 0 });
    assert_eq!(shader.attribute_descs.len(), 2);
    assert_eq!(shader.attribute_descs[1], AttributeDesc { location: 1, binding: 0, offset: 12 });
    assert_eq!(shader.layout_bindings.len(), 2);
    assert_eq!(shader.push_constant_stages, 0x11);
    assert_eq!(
        shader.push_constants,
        Some(PushConstantLayout { stages: 0x11, start: 0, end: 16 })
    );
}

#[test]
fn shader_without_push_constants() {
    let shader = Shader::create(&[], 0, &[], &[], 0);
    assert!(shader.attribute_descs.is_empty());
    assert!(shader.layout_bindings.is_empty());
    assert_eq!(shader.push_constant_stages, 0);
    assert_eq!(shader.push_constants, None);
    let staged = Shader::create(&[], 0, &[], &[0x1], 0);
    assert_eq!(staged.push_constant_stages, 0x1);
    assert_eq!(staged.push_constants, None);
}

#[test]
fn describe_vertices_adds_buffer_and_replaces_attributes() {
    let shader = Shader::create(&[96, 64], 20, &[], &[], 0);
    let mut verts = vec![VertexBufferDesc { binding: 9, stride: 1, rate: 1 }];
    let mut attrs = vec![AttributeDesc { location: 9, binding: 9, offset: 9 }];
    shader.describe_vertices(&mut verts, &mut attrs);
    assert_eq!(
        verts,
        vec![
            VertexBufferDesc { binding: 9, stride: 1, rate: 1 },
            VertexBufferDesc { binding: 0, stride: 20, rate: 0 },
        ]
    );
    assert_eq!(attrs, shader.attribute_descs);
}

#[test]
fn push_constant_words_are_a_quarter_of_the_bytes() {
    assert_eq!(Shader::push_constant_words(0), 0);
    assert_eq!(Shader::push_constant_words(64), 16);
}

#[test]
fn descriptor_pool_has_room_for_each_binding_in_each_set() {
    let bindings = Shader::layout_bindings(&uniforms());
    let pool = DescriptorPool::create(&bindings, 3);
    assert_eq!(pool.set_count, 3);
    assert_eq!(
        pool.ranges,
        vec![
            DescriptorRangeDesc { ty: DescriptorType::UniformBuffer, count: 3 },
            DescriptorRangeDesc { ty: DescriptorType::CombinedImageSampler, count: 3 },
        ]
    );
}

#[test]
fn descriptor_writes_go_to_the_binding_of_their_position() {
    let pool = DescriptorPool::create(&[], 3);
    assert_eq!(
        pool.write(2, 2),
        vec![
            DescriptorSetWrite { set: 2, binding: 0, array_offset: 0, descriptor: 0 },
            DescriptorSetWrite { set: 2, binding: 1, array_offset: 0, descriptor: 1 },
        ]
    );
    assert!(pool.write(0, 0).is_empty());
}

#[test]
fn mesh_puts_indices_behind_vertices() {
    let mesh = Mesh::create(12, 4, 2, 2, 6).unwrap();
    assert_eq!(mesh, Mesh { vert_offset: 0, index_offset: 48, size: 60, index_count: 6 });
}

#[test]
fn mesh_moves_indices_by_the_remainder() {
    let mesh = Mesh::create(5, 3, 4, 4, 2).unwrap();
    assert_eq!(mesh, Mesh { vert_offset: 0, index_offset: 18, size: 26, index_count: 2 });
}

#[test]
fn mesh_beyond_the_address_space_is_not_laid_out() {
    assert!(Mesh::create(usize::MAX, 2, 2, 2, 1).is_none());
    assert!(Mesh::create(1, 1, usize::MAX, 2, 2).is_none());
    assert!(Mesh::create(usize::MAX, 1, 2, 2, 0).is_none());
}

#[test]
fn mesh_is_drawn_whole_and_once() {
    let mesh = Mesh::create(12, 4, 2, 2, 6).unwrap();
    assert_eq!(
        mesh.draw(0),
        Draw { vert_offset: 0, index_offset: 48, index_end: 6, instance_end: 1, push_constants: false }
    );
    assert!(mesh.draw(16).push_constants);
}
