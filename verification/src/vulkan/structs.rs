use vstd::prelude::*;

verus! {

/// Descriptor type code: a uniform buffer.
pub const DESCRIPTOR_TYPE_UNIFORM_BUFFER: u32 = 6;

/// Descriptor type code: a combined image sampler.
pub const DESCRIPTOR_TYPE_COMBINED_IMAGE_SAMPLER: u32 = 1;

/// Shader stage flag: the vertex stage.
pub const SHADER_STAGE_VERTEX: u32 = 0x1;

/// Shader stage flag: the fragment stage.
pub const SHADER_STAGE_FRAGMENT: u32 = 0x10;

/// The byte size of the per-frame push-constant payload: one 4 by 4 matrix
/// of 32-bit scalars.
pub const PUSH_CONSTANTS_SIZE: u32 = 64;

/// One binding of the descriptor set layout.
#[derive(Debug, Clone, Copy, PartialEq, Eq, Structural)]
pub struct DescriptorSetLayoutBinding {
    pub binding: u32,
    pub descriptor_type: u32,
    pub descriptor_count: u32,
    pub stage_flags: u32,
}

/// The range of per-draw constants a pipeline layout declares.
#[derive(Debug, Clone, Copy, PartialEq, Eq, Structural)]
pub struct PushConstantRange {
    pub stage_flags: u32,
    pub offset: u32,
    pub size: u32,
}

/// The uniform buffer's binding in the descriptor set layout: one uniform
/// buffer at binding 0, read by the vertex stage.
pub fn get_descriptor_set_layout_binding() -> (r: DescriptorSetLayoutBinding)
    ensures
        r == (DescriptorSetLayoutBinding {
            binding: 0u32,
            descriptor_type: DESCRIPTOR_TYPE_UNIFORM_BUFFER,
            descriptor_count: 1u32,
            stage_flags: SHADER_STAGE_VERTEX,
        }),
{
    DescriptorSetLayoutBinding {
        binding: 0,
        descriptor_type: DESCRIPTOR_TYPE_UNIFORM_BUFFER,
        descriptor_count: 1,
        stage_flags: SHADER_STAGE_VERTEX,
    }
}

/// The texture sampler's binding in the descriptor set layout: one combined
/// image sampler at binding 1, read by the fragment stage.
pub fn get_sampler_set_layout_binding() -> (r: DescriptorSetLayoutBinding)
    ensures
        r == (DescriptorSetLayoutBinding {
            binding: 1u32,
            descriptor_type: DESCRIPTOR_TYPE_COMBINED_IMAGE_SAMPLER,
            descriptor_count: 1u32,
            stage_flags: SHADER_STAGE_FRAGMENT,
        }),
{
    DescriptorSetLayoutBinding {
        binding: 1,
        descriptor_type: DESCRIPTOR_TYPE_COMBINED_IMAGE_SAMPLER,
        descriptor_count: 1,
        stage_flags: SHADER_STAGE_FRAGMENT,
    }
}

/// The push-constant range of every pipeline layout: the model matrix,
/// pushed to the vertex stage at offset 0.
pub fn get_push_constant_range() -> (r: PushConstantRange)
    ensures
        r == (PushConstantRange {
            stage_flags: SHADER_STAGE_VERTEX,
            offset: 0u32,
            size: PUSH_CONSTANTS_SIZE,
        }),
{
    PushConstantRange { stage_flags: SHADER_STAGE_VERTEX, offset: 0, size: PUSH_CONSTANTS_SIZE }
}

} // verus!
