//! Shader stage sets and the descriptions derived from a shader's interface.

use crate::flags::union_all;
use crate::flags::union_of;
use vstd::prelude::*;

verus! {

/// One optional value for each programmable stage of a graphics pipeline.
#[derive(Default)]
pub struct ShaderSet<T> {
    pub vertex: Option<T>,
    pub hull: Option<T>,
    pub domain: Option<T>,
    pub geometry: Option<T>,
    pub fragment: Option<T>,
}

/// The code of each stage of a shader.
pub type ShaderModData<'a> = ShaderSet<&'a [u8]>;

impl<T> ShaderSet<T> {
    /// Whether the set has a vertex stage, which every shader must have.
    pub fn has_vertex(&self) -> (r: bool)
        ensures
            r == self.vertex.is_some(),
    {
        self.vertex.is_some()
    }
}

/// The kind of resource bound at a descriptor binding.
#[derive(Clone, Copy, Debug, PartialEq, Eq, Structural)]
pub enum DescriptorType {
    Sampler,
    CombinedImageSampler,
    SampledImage,
    StorageImage,
    UniformTexelBuffer,
    StorageTexelBuffer,
    UniformBuffer,
    StorageBuffer,
    UniformBufferDynamic,
    StorageBufferDynamic,
    InputAttachment,
}

/// One uniform of a shader, as its author declares it.
#[derive(Clone, Copy, Debug, PartialEq, Eq, Structural)]
pub struct UniformInfoData {
    /// The stages that read the uniform.
    pub stage: u32,
    pub uniform_type: DescriptorType,
    /// The number of array elements.
    pub count: usize,
    pub mutable: bool,
}

/// One binding of a descriptor set layout.
#[derive(Clone, Copy, Debug, PartialEq, Eq, Structural)]
pub struct DescriptorSetLayoutBinding {
    pub binding: u32,
    pub ty: DescriptorType,
    pub count: usize,
    pub stage_flags: u32,
    pub immutable_samplers: bool,
}

/// The vertex buffer a shader reads from.
#[derive(Clone, Copy, Debug, PartialEq, Eq, Structural)]
pub struct VertexBufferDesc {
    pub binding: u32,
    /// The distance in bytes from one vertex to the next.
    pub stride: u32,
    pub rate: u8,
}

/// Where one vertex attribute lies within a vertex.
#[derive(Clone, Copy, Debug, PartialEq, Eq, Structural)]
pub struct AttributeDesc {
    pub location: u32,
    pub binding: u32,
    /// The distance in bytes from the start of the vertex.
    pub offset: u32,
}

/// The stages and byte range of a shader's push constants.
#[derive(Clone, Copy, Debug, PartialEq, Eq, Structural)]
pub struct PushConstantLayout {
    pub stages: u32,
    pub start: u32,
    pub end: u32,
}

/// What is derived from a shader's interface before its modules and layouts
/// are created.
pub struct Shader {
    pub vertex_desc: VertexBufferDesc,
    pub attribute_descs: Vec<AttributeDesc>,
    pub layout_bindings: Vec<DescriptorSetLayoutBinding>,
    pub push_constant_stages: u32,
    pub push_constants: Option<PushConstantLayout>,
}

/// The bytes taken by the first `n` attributes, whose formats have the bit
/// counts `bits`: each takes its whole bytes.
pub open spec fn attribute_bytes(bits: Seq<u16>, n: int) -> int
    decreases n,
{
    if n <= 0 {
        0
    } else {
        attribute_bytes(bits, n - 1) + bits[n - 1] / 8
    }
}

/// The attribute at `location`: attributes are packed in order.
pub open spec fn attribute_at(bits: Seq<u16>, location: int) -> AttributeDesc {
    AttributeDesc {
        location: location as u32,
        binding: 0,
        offset: attribute_bytes(bits, location) as u32,
    }
}

/// The layout binding of the uniform at position `binding`.
pub open spec fn binding_at(uniforms: Seq<UniformInfoData>, binding: int) -> DescriptorSetLayoutBinding {
    DescriptorSetLayoutBinding {
        binding: binding as u32,
        ty: uniforms[binding].uniform_type,
        count: uniforms[binding].count,
        stage_flags: uniforms[binding].stage,
        immutable_samplers: uniforms[binding].mutable,
    }
}

/// The push constant range of a shader: none where it has no constants.
pub open spec fn push_constant_layout(stages: u32, size: u32) -> Option<PushConstantLayout> {
    if size == 0 {
        None
    } else {
        Some(PushConstantLayout { stages, start: 0, end: size })
    }
}

/// The bytes of a whole attribute list grow with each attribute.
pub proof fn lemma_attribute_bytes_monotonic(bits: Seq<u16>, i: int, j: int)
    requires
        0 <= i <= j,
    ensures
        0 <= attribute_bytes(bits, i) <= attribute_bytes(bits, j),
    decreases j,
{
    if j > 0 {
        if i < j {
            lemma_attribute_bytes_monotonic(bits, i, j - 1);
        } else {
            lemma_attribute_bytes_monotonic(bits, i - 1, j - 1);
        }
    }
}

impl Shader {
    /// Derives the vertex input, descriptor bindings and push constant range
    /// of a shader.
    ///
    /// `attribute_bits` holds the bit count of each vertex attribute's format,
    /// `stride` the size of a vertex, `uniforms` the declared uniforms,
    /// `stages` the stage flags that read the push constants and
    /// `constants_size` their size in bytes, which must be a whole number of
    /// 32-bit words.
    pub fn create(
        attribute_bits: &[u16],
        stride: u32,
        uniforms: &[UniformInfoData],
        stages: &[u32],
        constants_size: u32,
    ) -> (shader: Shader)
        requires
            constants_size % 4 == 0,
            uniforms@.len() <= u32::MAX,
            attribute_bits@.len() <= u32::MAX,
            attribute_bytes(attribute_bits@, attribute_bits@.len() as int) <= u32::MAX,
        ensures
            shader.vertex_desc == (VertexBufferDesc { binding: 0, stride, rate: 0 }),
            shader.attribute_descs@ == Seq::new(
                attribute_bits@.len(),
                |location: int| attribute_at(attribute_bits@, location),
            ),
            shader.layout_bindings@ == Seq::new(
                uniforms@.len(),
                |binding: int| binding_at(uniforms@, binding),
            ),
            shader.push_constant_stages == union_of(0, stages@, stages@.len() as int),
            shader.push_constants == push_constant_layout(
                shader.push_constant_stages,
                constants_size,
            ),
    {
        let push_constant_stages = union_all(0, stages);
        let layout_bindings = Shader::layout_bindings(uniforms);
        let push_constants = if constants_size == 0 {
            None
        } else {
            Some(PushConstantLayout { stages: push_constant_stages, start: 0, end: constants_size })
        };
        let vertex_desc = VertexBufferDesc { binding: 0, stride, rate: 0 };
        let attribute_descs = Shader::attribute_descs(attribute_bits);
        Shader { vertex_desc, attribute_descs, layout_bindings, push_constant_stages, push_constants }
    }

    /// One layout binding for each uniform, numbered by position.
    pub fn layout_bindings(uniforms: &[UniformInfoData]) -> (bindings: Vec<DescriptorSetLayoutBinding>)
        requires
            uniforms@.len() <= u32::MAX,
        ensures
            bindings@ == Seq::new(uniforms@.len(), |binding: int| binding_at(uniforms@, binding)),
    {
        let mut bindings: Vec<DescriptorSetLayoutBinding> = Vec::new();
        let mut i: usize = 0;
        while i < uniforms.len()
            invariant
                i <= uniforms@.len() <= u32::MAX,
                bindings@.len() == i,
                forall|k: int| 0 <= k < i ==> bindings@[k] == binding_at(uniforms@, k),
            decreases uniforms@.len() - i,
        {
            let info = uniforms[i];
            bindings.push(
                DescriptorSetLayoutBinding {
                    binding: i as u32,
                    ty: info.uniform_type,
                    count: info.count,
                    stage_flags: info.stage,
                    immutable_samplers: info.mutable,
                },
            );
            i += 1;
        }
        assert(bindings@ =~= Seq::new(uniforms@.len(), |binding: int| binding_at(uniforms@, binding)));
        bindings
    }

    /// One attribute for each format, numbered by position and packed in
    /// order from the start of the vertex.
    pub fn attribute_descs(attribute_bits: &[u16]) -> (attributes: Vec<AttributeDesc>)
        requires
            attribute_bits@.len() <= u32::MAX,
            attribute_bytes(attribute_bits@, attribute_bits@.len() as int) <= u32::MAX,
        ensures
            attributes@ == Seq::new(
                attribute_bits@.len(),
                |location: int| attribute_at(attribute_bits@, location),
            ),
    {
        let mut attributes: Vec<AttributeDesc> = Vec::new();
        let mut offset: u32 = 0;
        let mut i: usize = 0;
        while i < attribute_bits.len()
            invariant
                i <= attribute_bits@.len() <= u32::MAX,
                attribute_bytes(attribute_bits@, attribute_bits@.len() as int) <= u32::MAX,
                offset == attribute_bytes(attribute_bits@, i as int),
                attributes@.len() == i,
                forall|k: int| 0 <= k < i ==> attributes@[k] == attribute_at(attribute_bits@, k),
            decreases attribute_bits@.len() - i,
        {
            let location: u32 = i as u32;
            attributes.push(AttributeDesc { location, binding: 0, offset });
            proof {
                lemma_attribute_bytes_monotonic(
                    attribute_bits@,
                    i + 1,
                    attribute_bits@.len() as int,
                );
            }
            offset += (attribute_bits[i] / 8) as u32;
            i += 1;
        }
        assert(attributes@ =~= Seq::new(
            attribute_bits@.len(),
            |location: int| attribute_at(attribute_bits@, location),
        ));
        attributes
    }

    /// Hands the vertex input of the shader to a pipeline description: the
    /// vertex buffer is added to `verts`, and `attrs` becomes the shader's
    /// attributes.
    pub fn describe_vertices(&self, verts: &mut Vec<VertexBufferDesc>, attrs: &mut Vec<AttributeDesc>)
        ensures
            final(verts)@ == old(verts)@.push(self.vertex_desc),
            final(attrs)@ == self.attribute_descs@,
    {
        verts.push(self.vertex_desc);
        attrs.clear();
        let mut i: usize = 0;
        while i < self.attribute_descs.len()
            invariant
                i <= self.attribute_descs@.len(),
                attrs@ == self.attribute_descs@.take(i as int),
            decreases self.attribute_descs@.len() - i,
        {
            attrs.push(self.attribute_descs[i]);
            assert(attrs@ =~= self.attribute_descs@.take(i + 1));
            i += 1;
        }
        assert(attrs@ =~= self.attribute_descs@);
    }

    /// The number of 32-bit words in push constants of `size` bytes.
    pub fn push_constant_words(size: usize) -> (words: usize)
        requires
            size % 4 == 0,
        ensures
            words * 4 == size,
    {
        size / 4
    }
}

} // verus!
