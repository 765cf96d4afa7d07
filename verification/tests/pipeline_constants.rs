use villkiss::pipeline::{
    BlendState, Comparison, CullFace, DepthTest, FrontFace, PipeToHal, Pipeline, PipelineState,
    PolygonMode, Primitive, Rasterizer, Specialization, SpecializationConstant,
    SpecializationValue,
};
use villkiss::renderpass::RenderPass;
use villkiss::shader::{AttributeDesc, Shader, ShaderSet, VertexBufferDesc};

fn spec(value: SpecializationValue, constant_idx: u32) -> Specialization {
    Specialization { value, constant_idx }
}

fn constant(id: u32, start: u16, end: u16) -> SpecializationConstant {
    SpecializationConstant { id, start, end }
}

#[test]
fn write_data_appends_native_words() {
    let mut data = vec![0xaa, 0xbb];
    assert_eq!(SpecializationValue::Uint(0x0102_0304).write_data(&mut data), 4);
    assert_eq!(data.len(), 6);
    assert_eq!(&data[..2], &[0xaa, 0xbb]);
    assert_eq!(&data[2..], &0x0102_0304u32.to_ne_bytes());
}

#[test]
fn write_data_of_bool_is_a_word() {
    let mut data = Vec::new();
    assert_eq!(SpecializationValue::Bool(true).write_data(&mut data), 4);
    assert_eq!(SpecializationValue::Bool(false).write_data(&mut data), 4);
    assert_eq!(&data[..4], &1u32.to_ne_bytes());
    assert_eq!(&data[4..], &0u32.to_ne_bytes());
}

#[test]
fn write_data_of_int_is_twos_complement() {
    let mut data = Vec::new();
    assert_eq!(SpecializationValue::Int(-2).write_data(&mut data), 4);
    assert_eq!(data, (-2i32).to_ne_bytes());
    assert_eq!(data, 0xffff_fffeu32.to_ne_bytes());
}

#[test]
fn write_data_of_floats_is_their_bits() {
    let mut data = Vec::new();
    assert_eq!(SpecializationValue::Float(1.5f32.to_bits()).write_data(&mut data), 4);
    assert_eq!(data, 1.5f32.to_ne_bytes());
    let mut data = Vec::new();
    assert_eq!(SpecializationValue::Double((-0.25f64).to_bits()).write_data(&mut data), 8);
    assert_eq!(data, (-0.25f64).to_ne_bytes());
}

#[test]
fn create_without_specializations_is_empty() {
    let pipe = PipeToHal::create(ShaderSet::default());
    assert!(pipe.data.is_empty());
    assert!(pipe.vert_constants.is_empty());
    assert!(pipe.hull_constants.is_empty());
    assert!(pipe.geom_constants.is_empty());
    assert!(pipe.doma_constants.is_empty());
    assert!(pipe.frag_constants.is_empty());
    let set = pipe.make_hal();
    assert!(set.vertex.is_none());
    assert!(set.hull.is_none());
    assert!(set.domain.is_none());
    assert!(set.geometry.is_none());
    assert!(set.fragment.is_none());
}

#[test]
fn create_packs_stages_in_order() {
    let vertex = [spec(SpecializationValue::Uint(7), 3), spec(SpecializationValue::Double(9), 1)];
    let hull = [spec(SpecializationValue::Bool(true), 10)];
    let geometry = [spec(SpecializationValue::Int(-1), 20)];
    let domain = [spec(SpecializationValue::Float(0x3f80_0000), 30)];
    let fragment = [spec(SpecializationValue::Double(1), 0), spec(SpecializationValue::Uint(2), 2)];
    let specs = ShaderSet {
        vertex: Some(&vertex[..]),
        hull: Some(&hull[..]),
        domain: Some(&domain[..]),
        geometry: Some(&geometry[..]),
        fragment: Some(&fragment[..]),
    };
    assert!(PipeToHal::fits(&specs));
    let pipe = PipeToHal::create(specs);
    assert_eq!(pipe.vert_constants, vec![constant(3, 0, 4), constant(1, 4, 12)]);
    assert_eq!(pipe.hull_constants, vec![constant(10, 12, 16)]);
    assert_eq!(pipe.geom_constants, vec![constant(20, 16, 20)]);
    assert_eq!(pipe.doma_constants, vec![constant(30, 20, 24)]);
    assert_eq!(pipe.frag_constants, vec![constant(0, 24, 32), constant(2, 32, 36)]);
    let mut expected = Vec::new();
    expected.extend_from_slice(&7u32.to_ne_bytes());
    expected.extend_from_slice(&9u64.to_ne_bytes());
    expected.extend_from_slice(&1u32.to_ne_bytes());
    expected.extend_from_slice(&(-1i32).to_ne_bytes());
    expected.extend_from_slice(&1.0f32.to_ne_bytes());
    expected.extend_from_slice(&1u64.to_ne_bytes());
    expected.extend_from_slice(&2u32.to_ne_bytes());
    assert_eq!(pipe.data, expected);
}

#[test]
fn create_skips_stages_without_specializations() {
    let fragment = [spec(SpecializationValue::Uint(2), 5)];
    let empty: [Specialization; 0] = [];
    let specs = ShaderSet {
        vertex: None,
        hull: Some(&empty[..]),
        domain: None,
        geometry: None,
        fragment: Some(&fragment[..]),
    };
    let pipe = PipeToHal::create(specs);
    assert_eq!(pipe.frag_constants, vec![constant(5, 0, 4)]);
    assert_eq!(pipe.data, 2u32.to_ne_bytes());
    let set = pipe.make_hal();
    assert!(set.vertex.is_none());
    assert!(set.hull.is_none());
    assert_eq!(set.fragment, Some(&vec![constant(5, 0, 4)]));
}

#[test]
fn fits_up_to_sixteen_bit_offsets() {
    let full = vec![spec(SpecializationValue::Uint(0), 0); 16383];
    let one = [spec(SpecializationValue::Uint(0), 0)];
    let double = [spec(SpecializationValue::Double(0), 0)];
    let fitting = ShaderSet {
        vertex: Some(&full[..]),
        hull: None,
        domain: None,
        geometry: None,
        fragment: None,
    };
    assert!(PipeToHal::fits(&fitting));
    let pipe = PipeToHal::create(fitting);
    assert_eq!(pipe.data.len(), 65532);
    assert_eq!(pipe.vert_constants[16382], constant(0, 65528, 65532));
    let over = ShaderSet {
        vertex: Some(&full[..]),
        hull: None,
        domain: None,
        geometry: None,
        fragment: Some(&one[..]),
    };
    assert!(!PipeToHal::fits(&over));
    let over_by_double = ShaderSet {
        vertex: Some(&full[..]),
        hull: None,
        domain: Some(&double[..]),
        geometry: None,
        fragment: None,
    };
    assert!(!PipeToHal::fits(&over_by_double));
}

#[test]
fn pipeline_has_the_fixed_state_and_the_shader_input() {
    let pass = RenderPass::create(None).unwrap();
    let shader = Shader::create(&[96, 32], 16, &[], &[], 0);
    let fragment = [spec(SpecializationValue::Bool(true), 4)];
    let specs = ShaderSet {
        vertex: None,
        hull: None,
        domain: None,
        geometry: None,
        fragment: Some(&fragment[..]),
    };
    let pipeline = Pipeline::create(&pass, &shader, specs);
    assert_eq!(
        pipeline.state,
        PipelineState {
            primitive: Primitive::TriangleList,
            rasterizer: Rasterizer {
                polygon_mode: PolygonMode::Fill,
                cull_face: CullFace::Back,
                front_face: FrontFace::CounterClockwise,
                depth_clamping: false,
                depth_bias: false,
                conservative: false,
            },
            depth: DepthTest { fun: Comparison::Less, write: true },
            depth_bounds: false,
            stencil: false,
            color_mask: 0xF,
            blend: BlendState::Alpha,
        }
    );
    assert_eq!(pipeline.subpass, 0);
    assert_eq!(pipeline.vertex_buffers, vec![VertexBufferDesc { binding: 0, stride: 16, rate: 0 }]);
    assert_eq!(
        pipeline.attributes,
        vec![
            AttributeDesc { location: 0, binding: 0, offset: 0 },
            AttributeDesc { location: 1, binding: 0, offset: 12 },
        ]
    );
    assert_eq!(pipeline.specialization.frag_constants, vec![constant(4, 0, 4)]);
    assert_eq!(pipeline.specialization.data, 1u32.to_ne_bytes());
}
