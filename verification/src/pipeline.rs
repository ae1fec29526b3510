//! Graphics pipeline description: shader stages, blending, fixed-function
//! settings, and the checks made before a pipeline is created.

use std::collections::HashMap;
use std::path::PathBuf;
use vstd::prelude::*;
use vulkanalia::bytecode::{Bytecode, BytecodeError};
use vulkanalia::vk;

use crate::codes::{
    stage_fragment, stage_fragment_bits, stage_geometry, stage_geometry_bits, stage_tessellation_control,
    stage_tessellation_control_bits, stage_tessellation_evaluation, stage_tessellation_evaluation_bits,
    stage_vertex, stage_vertex_bits,
};

verus! {

broadcast use vstd::std_specs::hash::group_hash_axioms;

/// A programmable stage of the graphics pipeline.
#[derive(Debug, Hash, PartialEq, Eq, Copy, Clone, Structural)]
pub enum GraphicsShaderStage {
    Vertex,
    Fragment,
    Geometry,
    TesselationControl,
    TesselationEvaluation,
}

/// The raw `vk::ShaderStageFlags` bits of a stage.
pub open spec fn spec_stage_flags(stage: GraphicsShaderStage) -> u32 {
    match stage {
        GraphicsShaderStage::Vertex => stage_vertex_bits(),
        GraphicsShaderStage::Fragment => stage_fragment_bits(),
        GraphicsShaderStage::Geometry => stage_geometry_bits(),
        GraphicsShaderStage::TesselationControl => stage_tessellation_control_bits(),
        GraphicsShaderStage::TesselationEvaluation => stage_tessellation_evaluation_bits(),
    }
}

impl GraphicsShaderStage {
    /// The raw `vk::ShaderStageFlags` bits of this stage.
    pub fn stage_flags(&self) -> (bits: u32)
        ensures
            bits == spec_stage_flags(*self),
    {
        match self {
            GraphicsShaderStage::Vertex => stage_vertex(),
            GraphicsShaderStage::Fragment => stage_fragment(),
            GraphicsShaderStage::Geometry => stage_geometry(),
            GraphicsShaderStage::TesselationControl => stage_tessellation_control(),
            GraphicsShaderStage::TesselationEvaluation => stage_tessellation_evaluation(),
        }
    }
}

/// Distinct stages have distinct flag bits, so flags can key the stages.
pub proof fn lemma_stage_flags_distinct(a: GraphicsShaderStage, b: GraphicsShaderStage)
    ensures
        spec_stage_flags(a) == spec_stage_flags(b) <==> a == b,
{
}

/// How a pipeline blends its output with the color already in the target.
#[derive(Debug, PartialEq, Eq, Copy, Clone, Structural)]
pub enum BlendMode {
    Opaque,
    /// Alpha blending.
    Transparent,
    Additive,
    Premultiplied,
}

/// Blend settings of one color attachment, by raw codes.
#[derive(Debug, PartialEq, Eq, Copy, Clone, Structural)]
pub struct ColorBlendAttachment {
    pub blend_enable: bool,
    pub src_color_blend_factor: i32,
    pub dst_color_blend_factor: i32,
    pub color_blend_op: i32,
    pub src_alpha_blend_factor: i32,
    pub dst_alpha_blend_factor: i32,
    pub alpha_blend_op: i32,
    pub color_write_mask: u32,
}

/// Raw code of `vk::BlendFactor::ZERO`, also the default factor (vulkanalia: `Self(0)`).
pub open spec fn blend_factor_zero_code() -> i32 {
    0
}

/// Raw code of `vk::BlendFactor::ONE` (vulkanalia: `Self(1)`).
pub open spec fn blend_factor_one_code() -> i32 {
    1
}

/// Raw code of `vk::BlendFactor::SRC_ALPHA` (vulkanalia: `Self(6)`).
pub open spec fn blend_factor_src_alpha_code() -> i32 {
    6
}

/// Raw code of `vk::BlendFactor::ONE_MINUS_SRC_ALPHA` (vulkanalia: `Self(7)`).
pub open spec fn blend_factor_one_minus_src_alpha_code() -> i32 {
    7
}

/// Raw code of `vk::BlendOp::ADD`, also the default operation (vulkanalia: `Self(0)`).
pub open spec fn blend_op_add_code() -> i32 {
    0
}

/// Raw bits of `vk::ColorComponentFlags::all()`: red, green, blue and alpha.
pub open spec fn color_components_all_bits() -> u32 {
    15
}

/// Reads `vk::BlendFactor::ZERO.as_raw()`; vulkanalia defines it as `Self(0)`.
#[verifier::external_body]
fn blend_factor_zero() -> (code: i32)
    ensures
        code == blend_factor_zero_code(),
{
    vk::BlendFactor::ZERO.as_raw()
}

/// Reads `vk::BlendFactor::ONE.as_raw()`; vulkanalia defines it as `Self(1)`.
#[verifier::external_body]
fn blend_factor_one() -> (code: i32)
    ensures
        code == blend_factor_one_code(),
{
    vk::BlendFactor::ONE.as_raw()
}

/// Reads `vk::BlendFactor::SRC_ALPHA.as_raw()`; vulkanalia defines it as `Self(6)`.
#[verifier::external_body]
fn blend_factor_src_alpha() -> (code: i32)
    ensures
        code == blend_factor_src_alpha_code(),
{
    vk::BlendFactor::SRC_ALPHA.as_raw()
}

/// Reads `vk::BlendFactor::ONE_MINUS_SRC_ALPHA.as_raw()`; vulkanalia defines it
/// as `Self(7)`.
#[verifier::external_body]
fn blend_factor_one_minus_src_alpha() -> (code: i32)
    ensures
        code == blend_factor_one_minus_src_alpha_code(),
{
    vk::BlendFactor::ONE_MINUS_SRC_ALPHA.as_raw()
}

/// Reads `vk::BlendOp::ADD.as_raw()`; vulkanalia defines it as `Self(0)`.
#[verifier::external_body]
fn blend_op_add() -> (code: i32)
    ensures
        code == blend_op_add_code(),
{
    vk::BlendOp::ADD.as_raw()
}

/// Reads `vk::ColorComponentFlags::all().bits()`; vulkanalia defines the four
/// flags R, G, B and A as the bits `1`, `1 << 1`, `1 << 2` and `1 << 3`.
#[verifier::external_body]
fn color_components_all() -> (bits: u32)
    ensures
        bits == color_components_all_bits(),
{
    vk::ColorComponentFlags::all().bits()
}

/// The blend settings of a mode. Fields a mode leaves unset keep the defaults
/// of `vk::PipelineColorBlendAttachmentState`: factor ZERO, operation ADD.
pub open spec fn spec_attachment_state(mode: BlendMode) -> ColorBlendAttachment {
    match mode {
        BlendMode::Opaque => ColorBlendAttachment {
            blend_enable: false,
            src_color_blend_factor: blend_factor_zero_code(),
            dst_color_blend_factor: blend_factor_zero_code(),
            color_blend_op: blend_op_add_code(),
            src_alpha_blend_factor: blend_factor_zero_code(),
            dst_alpha_blend_factor: blend_factor_zero_code(),
            alpha_blend_op: blend_op_add_code(),
            color_write_mask: color_components_all_bits(),
        },
        BlendMode::Transparent => ColorBlendAttachment {
            blend_enable: true,
            src_color_blend_factor: blend_factor_src_alpha_code(),
            dst_color_blend_factor: blend_factor_one_minus_src_alpha_code(),
            color_blend_op: blend_op_add_code(),
            src_alpha_blend_factor: blend_factor_one_code(),
            dst_alpha_blend_factor: blend_factor_zero_code(),
            alpha_blend_op: blend_op_add_code(),
            color_write_mask: color_components_all_bits(),
        },
        BlendMode::Additive => ColorBlendAttachment {
            blend_enable: true,
            src_color_blend_factor: blend_factor_one_code(),
            dst_color_blend_factor: blend_factor_one_code(),
            color_blend_op: blend_op_add_code(),
            src_alpha_blend_factor: blend_factor_zero_code(),
            dst_alpha_blend_factor: blend_factor_zero_code(),
            alpha_blend_op: blend_op_add_code(),
            color_write_mask: color_components_all_bits(),
        },
        BlendMode::Premultiplied => ColorBlendAttachment {
            blend_enable: true,
            src_color_blend_factor: blend_factor_one_code(),
            dst_color_blend_factor: blend_factor_one_minus_src_alpha_code(),
            color_blend_op: blend_op_add_code(),
            src_alpha_blend_factor: blend_factor_zero_code(),
            dst_alpha_blend_factor: blend_factor_zero_code(),
            alpha_blend_op: blend_op_add_code(),
            color_write_mask: color_components_all_bits(),
        },
    }
}

/// Blending is on for every mode but `Opaque`; every mode adds and writes all
/// four components. Transparent blends the source over the target by its
/// alpha; additive adds source and target; premultiplied adds the source to
/// the target scaled by one minus the source alpha. No two modes blend alike.
pub proof fn lemma_blend_modes(mode: BlendMode, other: BlendMode)
    ensures
        spec_attachment_state(mode).blend_enable <==> mode != BlendMode::Opaque,
        spec_attachment_state(mode).color_blend_op == blend_op_add_code(),
        spec_attachment_state(mode).alpha_blend_op == blend_op_add_code(),
        spec_attachment_state(mode).color_write_mask == color_components_all_bits(),
        mode == BlendMode::Transparent ==> {
            &&& spec_attachment_state(mode).src_color_blend_factor == blend_factor_src_alpha_code()
            &&& spec_attachment_state(mode).dst_color_blend_factor == blend_factor_one_minus_src_alpha_code()
            &&& spec_attachment_state(mode).src_alpha_blend_factor == blend_factor_one_code()
            &&& spec_attachment_state(mode).dst_alpha_blend_factor == blend_factor_zero_code()
        },
        mode == BlendMode::Additive ==> {
            &&& spec_attachment_state(mode).src_color_blend_factor == blend_factor_one_code()
            &&& spec_attachment_state(mode).dst_color_blend_factor == blend_factor_one_code()
        },
        mode == BlendMode::Premultiplied ==> {
            &&& spec_attachment_state(mode).src_color_blend_factor == blend_factor_one_code()
            &&& spec_attachment_state(mode).dst_color_blend_factor == blend_factor_one_minus_src_alpha_code()
        },
        mode != BlendMode::Transparent ==> {
            &&& spec_attachment_state(mode).src_alpha_blend_factor == blend_factor_zero_code()
            &&& spec_attachment_state(mode).dst_alpha_blend_factor == blend_factor_zero_code()
        },
        spec_attachment_state(mode) == spec_attachment_state(other) ==> mode == other,
{
}

impl BlendMode {
    /// The blend settings of the color attachment for this mode.
    pub fn to_vulkan_attachment_state(&self) -> (state: ColorBlendAttachment)
        ensures
            state == spec_attachment_state(*self),
    {
        let zero = blend_factor_zero();
        let add = blend_op_add();
        let all = color_components_all();
        match self {
            BlendMode::Opaque => ColorBlendAttachment {
                blend_enable: false,
                src_color_blend_factor: zero,
                dst_color_blend_factor: zero,
                color_blend_op: add,
                src_alpha_blend_factor: zero,
                dst_alpha_blend_factor: zero,
                alpha_blend_op: add,
                color_write_mask: all,
            },
            BlendMode::Transparent => ColorBlendAttachment {
                blend_enable: true,
                src_color_blend_factor: blend_factor_src_alpha(),
                dst_color_blend_factor: blend_factor_one_minus_src_alpha(),
                color_blend_op: add,
                src_alpha_blend_factor: blend_factor_one(),
                dst_alpha_blend_factor: zero,
                alpha_blend_op: add,
                color_write_mask: all,
            },
            BlendMode::Additive => ColorBlendAttachment {
                blend_enable: true,
                src_color_blend_factor: blend_factor_one(),
                dst_color_blend_factor: blend_factor_one(),
                color_blend_op: add,
                src_alpha_blend_factor: zero,
                dst_alpha_blend_factor: zero,
                alpha_blend_op: add,
                color_write_mask: all,
            },
            BlendMode::Premultiplied => ColorBlendAttachment {
                blend_enable: true,
                src_color_blend_factor: blend_factor_one(),
                dst_color_blend_factor: blend_factor_one_minus_src_alpha(),
                color_blend_op: add,
                src_alpha_blend_factor: zero,
                dst_alpha_blend_factor: zero,
                alpha_blend_op: add,
                color_write_mask: all,
            },
        }
    }
}

/// Rasterization, depth and multisampling settings of a pipeline, by raw codes.
#[derive(Debug, PartialEq, Eq, Copy, Clone, Structural)]
pub struct FixedFunctionState {
    pub cull_mode: u32,
    pub front_face: i32,
    pub polygon_mode: i32,
    pub depth_test: bool,
    pub depth_write: bool,
    pub depth_compare: i32,
    pub blend_mode: BlendMode,
    pub sample_count: u32,
}

/// Raw bits of `vk::CullModeFlags::BACK` (vulkanalia: `1 << 1`).
pub open spec fn cull_mode_back_bits() -> u32 {
    2
}

/// Raw code of `vk::FrontFace::COUNTER_CLOCKWISE` (vulkanalia: `Self(0)`).
pub open spec fn front_face_counter_clockwise_code() -> i32 {
    0
}

/// Raw code of `vk::PolygonMode::FILL` (vulkanalia: `Self(0)`).
pub open spec fn polygon_mode_fill_code() -> i32 {
    0
}

/// Raw code of `vk::CompareOp::LESS_OR_EQUAL` (vulkanalia: `Self(3)`).
pub open spec fn compare_op_less_or_equal_code() -> i32 {
    3
}

/// Raw bits of `vk::SampleCountFlags::_1` (vulkanalia: `1`).
pub open spec fn sample_count_1_bits() -> u32 {
    1
}

/// Reads `vk::CullModeFlags::BACK.bits()`; vulkanalia defines it as `1 << 1`.
#[verifier::external_body]
fn cull_mode_back() -> (bits: u32)
    ensures
        bits == cull_mode_back_bits(),
{
    vk::CullModeFlags::BACK.bits()
}

/// Reads `vk::FrontFace::COUNTER_CLOCKWISE.as_raw()`; vulkanalia defines it as
/// `Self(0)`.
#[verifier::external_body]
fn front_face_counter_clockwise() -> (code: i32)
    ensures
        code == front_face_counter_clockwise_code(),
{
    vk::FrontFace::COUNTER_CLOCKWISE.as_raw()
}

/// Reads `vk::PolygonMode::FILL.as_raw()`; vulkanalia defines it as `Self(0)`.
#[verifier::external_body]
fn polygon_mode_fill() -> (code: i32)
    ensures
        code == polygon_mode_fill_code(),
{
    vk::PolygonMode::FILL.as_raw()
}

/// Reads `vk::CompareOp::LESS_OR_EQUAL.as_raw()`; vulkanalia defines it as
/// `Self(3)`.
#[verifier::external_body]
fn compare_op_less_or_equal() -> (code: i32)
    ensures
        code == compare_op_less_or_equal_code(),
{
    vk::CompareOp::LESS_OR_EQUAL.as_raw()
}

/// Reads `vk::SampleCountFlags::_1.bits()`; vulkanalia defines it as `1`.
#[verifier::external_body]
pub(crate) fn sample_count_1() -> (bits: u32)
    ensures
        bits == sample_count_1_bits(),
{
    vk::SampleCountFlags::_1.bits()
}

/// The settings of a new pipeline description: back faces culled,
/// counter-clockwise front faces, filled polygons, depth test and depth writes
/// on with less-or-equal comparison, opaque blending, one sample per pixel.
pub open spec fn default_fixed_function_state() -> FixedFunctionState {
    FixedFunctionState {
        cull_mode: cull_mode_back_bits(),
        front_face: front_face_counter_clockwise_code(),
        polygon_mode: polygon_mode_fill_code(),
        depth_test: true,
        depth_write: true,
        depth_compare: compare_op_less_or_equal_code(),
        blend_mode: BlendMode::Opaque,
        sample_count: sample_count_1_bits(),
    }
}

/// What a pipeline description holds: shader paths keyed by their stage's
/// flag bits, the vertex input, the layouts and push constants, and the
/// fixed-function settings.
pub struct PipelineDescription {
    pub shaders: Map<u32, PathBuf>,
    pub vertex_bindings: Seq<vk::VertexInputBindingDescription>,
    pub vertex_attributes: Seq<vk::VertexInputAttributeDescription>,
    pub descriptor_set_layouts: Seq<vk::DescriptorSetLayout>,
    pub push_constant_ranges: Seq<vk::PushConstantRange>,
    pub state: FixedFunctionState,
}

/// Describes a graphics pipeline setting by setting.
pub struct VulkanGraphicsPipelineBuilder {
    shaders: HashMap<u32, PathBuf>,
    vertex_bindings: Vec<vk::VertexInputBindingDescription>,
    vertex_attributes: Vec<vk::VertexInputAttributeDescription>,
    descriptor_set_layouts: Vec<vk::DescriptorSetLayout>,
    push_constant_ranges: Vec<vk::PushConstantRange>,
    state: FixedFunctionState,
}

/// Why a pipeline cannot be created from its description.
#[derive(Debug, PartialEq, Eq, Clone, Copy, Structural)]
pub enum PipelineError {
    /// The description has no vertex shader.
    MissingVertexShader,
    /// A shader's code is empty or not a whole number of 32-bit words.
    InvalidShaderLength(usize),
    /// No aligned buffer could be allocated for a shader's code.
    ShaderAllocationFailed,
}

impl View for VulkanGraphicsPipelineBuilder {
    type V = PipelineDescription;

    closed spec fn view(&self) -> PipelineDescription {
        PipelineDescription {
            shaders: self.shaders@,
            vertex_bindings: self.vertex_bindings@,
            vertex_attributes: self.vertex_attributes@,
            descriptor_set_layouts: self.descriptor_set_layouts@,
            push_constant_ranges: self.push_constant_ranges@,
            state: self.state,
        }
    }
}

impl VulkanGraphicsPipelineBuilder {
    /// A description with no shaders, no vertex input, no layouts or push
    /// constants, and the default fixed-function settings.
    pub fn new() -> (builder: Self)
        ensures
            builder@.shaders == Map::<u32, PathBuf>::empty(),
            builder@.vertex_bindings == Seq::<vk::VertexInputBindingDescription>::empty(),
            builder@.vertex_attributes == Seq::<vk::VertexInputAttributeDescription>::empty(),
            builder@.descriptor_set_layouts == Seq::<vk::DescriptorSetLayout>::empty(),
            builder@.push_constant_ranges == Seq::<vk::PushConstantRange>::empty(),
            builder@.state == default_fixed_function_state(),
    {
        VulkanGraphicsPipelineBuilder {
            shaders: HashMap::new(),
            vertex_bindings: Vec::new(),
            vertex_attributes: Vec::new(),
            descriptor_set_layouts: Vec::new(),
            push_constant_ranges: Vec::new(),
            state: FixedFunctionState {
                cull_mode: cull_mode_back(),
                front_face: front_face_counter_clockwise(),
                polygon_mode: polygon_mode_fill(),
                depth_test: true,
                depth_write: true,
                depth_compare: compare_op_less_or_equal(),
                blend_mode: BlendMode::Opaque,
                sample_count: sample_count_1(),
            },
        }
    }

    /// Uses the shader at `shader_path` for `stage`, in place of any shader set
    /// for that stage before.
    pub fn shader(self, stage: GraphicsShaderStage, shader_path: PathBuf) -> (builder: Self)
        ensures
            builder@ == (PipelineDescription {
                shaders: self@.shaders.insert(spec_stage_flags(stage), shader_path),
                ..self@
            }),
    {
        let mut builder = self;
        let key = stage.stage_flags();
        builder.shaders.insert(key, shader_path);
        builder
    }

    /// Sets the vertex input bindings.
    pub fn vertex_bindings(self, bindings: Vec<vk::VertexInputBindingDescription>) -> (builder: Self)
        ensures
            builder@ == (PipelineDescription { vertex_bindings: bindings@, ..self@ }),
    {
        let mut builder = self;
        builder.vertex_bindings = bindings;
        builder
    }

    /// Sets the vertex attributes.
    pub fn vertex_attributes(self, attributes: Vec<vk::VertexInputAttributeDescription>) -> (builder: Self)
        ensures
            builder@ == (PipelineDescription { vertex_attributes: attributes@, ..self@ }),
    {
        let mut builder = self;
        builder.vertex_attributes = attributes;
        builder
    }

    /// Sets the descriptor set layouts of the pipeline layout.
    pub fn descriptor_set_layouts(self, layouts: Vec<vk::DescriptorSetLayout>) -> (builder: Self)
        ensures
            builder@ == (PipelineDescription { descriptor_set_layouts: layouts@, ..self@ }),
    {
        let mut builder = self;
        builder.descriptor_set_layouts = layouts;
        builder
    }

    /// Sets the push constant ranges of the pipeline layout.
    pub fn push_constant_ranges(self, ranges: Vec<vk::PushConstantRange>) -> (builder: Self)
        ensures
            builder@ == (PipelineDescription { push_constant_ranges: ranges@, ..self@ }),
    {
        let mut builder = self;
        builder.push_constant_ranges = ranges;
        builder
    }

    /// Sets which faces are culled, by raw `vk::CullModeFlags` bits.
    pub fn cull_mode(self, cull_mode: u32) -> (builder: Self)
        ensures
            builder@ == (PipelineDescription { state: FixedFunctionState { cull_mode, ..self@.state }, ..self@ }),
    {
        let mut builder = self;
        builder.state.cull_mode = cull_mode;
        builder
    }

    /// Sets which winding is the front face, by raw `vk::FrontFace` code.
    pub fn front_face(self, front_face: i32) -> (builder: Self)
        ensures
            builder@ == (PipelineDescription { state: FixedFunctionState { front_face, ..self@.state }, ..self@ }),
    {
        let mut builder = self;
        builder.state.front_face = front_face;
        builder
    }

    /// Sets how polygons are rasterized, by raw `vk::PolygonMode` code.
    pub fn polygon_mode(self, polygon_mode: i32) -> (builder: Self)
        ensures
            builder@ == (PipelineDescription { state: FixedFunctionState { polygon_mode, ..self@.state }, ..self@ }),
    {
        let mut builder = self;
        builder.state.polygon_mode = polygon_mode;
        builder
    }

    /// Turns the depth test on or off.
    pub fn depth_test(self, depth_test: bool) -> (builder: Self)
        ensures
            builder@ == (PipelineDescription { state: FixedFunctionState { depth_test, ..self@.state }, ..self@ }),
    {
        let mut builder = self;
        builder.state.depth_test = depth_test;
        builder
    }

    /// Turns depth writes on or off.
    pub fn depth_write(self, depth_write: bool) -> (builder: Self)
        ensures
            builder@ == (PipelineDescription { state: FixedFunctionState { depth_write, ..self@.state }, ..self@ }),
    {
        let mut builder = self;
        builder.state.depth_write = depth_write;
        builder
    }

    /// Sets the depth comparison, by raw `vk::CompareOp` code.
    pub fn depth_compare(self, depth_compare: i32) -> (builder: Self)
        ensures
            builder@ == (PipelineDescription { state: FixedFunctionState { depth_compare, ..self@.state }, ..self@ }),
    {
        let mut builder = self;
        builder.state.depth_compare = depth_compare;
        builder
    }

    /// Sets the blend mode.
    pub fn blend_mode(self, blend_mode: BlendMode) -> (builder: Self)
        ensures
            builder@ == (PipelineDescription { state: FixedFunctionState { blend_mode, ..self@.state }, ..self@ }),
    {
        let mut builder = self;
        builder.state.blend_mode = blend_mode;
        builder
    }

    /// Sets the samples per pixel, by raw `vk::SampleCountFlags` bits.
    pub fn sample_count(self, sample_count: u32) -> (builder: Self)
        ensures
            builder@ == (PipelineDescription { state: FixedFunctionState { sample_count, ..self@.state }, ..self@ }),
    {
        let mut builder = self;
        builder.state.sample_count = sample_count;
        builder
    }

    /// Checks that the description can become a pipeline: it needs a vertex
    /// shader.
    pub fn check(&self) -> (result: Result<(), PipelineError>)
        ensures
            result is Ok <==> self@.shaders.contains_key(spec_stage_flags(GraphicsShaderStage::Vertex)),
            result is Err ==> result == Err::<(), PipelineError>(PipelineError::MissingVertexShader),
    {
        let vertex = stage_vertex();
        if !self.shaders.contains_key(&vertex) {
            return Err(PipelineError::MissingVertexShader);
        }
        Ok(())
    }

    /// The shader paths, keyed by the raw flag bits of their stages.
    pub fn shaders(&self) -> (shaders: &HashMap<u32, PathBuf>)
        ensures
            shaders@ == self@.shaders,
    {
        &self.shaders
    }

    /// The vertex input bindings.
    pub fn vertex_binding_descriptions(&self) -> (bindings: &[vk::VertexInputBindingDescription])
        ensures
            bindings@ == self@.vertex_bindings,
    {
        self.vertex_bindings.as_slice()
    }

    /// The vertex attributes.
    pub fn vertex_attribute_descriptions(&self) -> (attributes: &[vk::VertexInputAttributeDescription])
        ensures
            attributes@ == self@.vertex_attributes,
    {
        self.vertex_attributes.as_slice()
    }

    /// The descriptor set layouts.
    pub fn set_layouts(&self) -> (layouts: &[vk::DescriptorSetLayout])
        ensures
            layouts@ == self@.descriptor_set_layouts,
    {
        self.descriptor_set_layouts.as_slice()
    }

    /// The push constant ranges.
    pub fn push_constants(&self) -> (ranges: &[vk::PushConstantRange])
        ensures
            ranges@ == self@.push_constant_ranges,
    {
        self.push_constant_ranges.as_slice()
    }

    /// The fixed-function settings.
    pub fn fixed_function_state(&self) -> (state: FixedFunctionState)
        ensures
            state == self@.state,
    {
        self.state
    }
}

/// Raw code of `vk::PrimitiveTopology::TRIANGLE_LIST` (vulkanalia: `Self(3)`).
pub open spec fn topology_triangle_list_code() -> i32 {
    3
}

/// Reads `vk::PrimitiveTopology::TRIANGLE_LIST.as_raw()`; vulkanalia defines it
/// as `Self(3)`.
#[verifier::external_body]
fn topology_triangle_list() -> (code: i32)
    ensures
        code == topology_triangle_list_code(),
{
    vk::PrimitiveTopology::TRIANGLE_LIST.as_raw()
}

/// Raw code of `vk::DynamicState::VIEWPORT` (vulkanalia: `Self(0)`).
pub open spec fn dynamic_state_viewport_code() -> i32 {
    0
}

/// Reads `vk::DynamicState::VIEWPORT.as_raw()`; vulkanalia defines it as
/// `Self(0)`.
#[verifier::external_body]
fn dynamic_state_viewport() -> (code: i32)
    ensures
        code == dynamic_state_viewport_code(),
{
    vk::DynamicState::VIEWPORT.as_raw()
}

/// Raw code of `vk::DynamicState::SCISSOR` (vulkanalia: `Self(1)`).
pub open spec fn dynamic_state_scissor_code() -> i32 {
    1
}

/// Reads `vk::DynamicState::SCISSOR.as_raw()`; vulkanalia defines it as
/// `Self(1)`.
#[verifier::external_body]
fn dynamic_state_scissor() -> (code: i32)
    ensures
        code == dynamic_state_scissor_code(),
{
    vk::DynamicState::SCISSOR.as_raw()
}

/// The pipeline settings that every pipeline made from a description shares,
/// whatever the description says. The line width, a float, is not held here:
/// it is always one.
#[derive(Debug, Clone)]
pub struct PipelineSettings {
    /// Raw `vk::PrimitiveTopology` code of the input assembly.
    pub topology: i32,
    pub primitive_restart: bool,
    /// Raw `vk::DynamicState` codes, in order.
    pub dynamic_states: Vec<i32>,
    pub viewport_count: u32,
    pub scissor_count: u32,
    pub depth_clamp: bool,
    pub rasterizer_discard: bool,
    pub depth_bias: bool,
    pub sample_shading: bool,
    pub depth_bounds_test: bool,
    pub stencil_test: bool,
    pub logic_op: bool,
    /// The subpass of the render pass the pipeline is used in.
    pub subpass: u32,
}

/// The shared settings: triangle lists without primitive restart; viewport
/// and scissor set while drawing, one of each; no depth clamp, rasterizer
/// discard, depth bias, sample shading, depth bounds test, stencil test or
/// logic op; subpass 0.
pub open spec fn spec_pipeline_settings(settings: PipelineSettings) -> bool {
    &&& settings.topology == topology_triangle_list_code()
    &&& !settings.primitive_restart
    &&& settings.dynamic_states@ == seq![dynamic_state_viewport_code(), dynamic_state_scissor_code()]
    &&& settings.viewport_count == 1
    &&& settings.scissor_count == 1
    &&& !settings.depth_clamp
    &&& !settings.rasterizer_discard
    &&& !settings.depth_bias
    &&& !settings.sample_shading
    &&& !settings.depth_bounds_test
    &&& !settings.stencil_test
    &&& !settings.logic_op
    &&& settings.subpass == 0
}

/// The settings shared by every pipeline made from a description.
pub fn pipeline_settings() -> (settings: PipelineSettings)
    ensures
        spec_pipeline_settings(settings),
{
    let mut dynamic_states: Vec<i32> = Vec::new();
    dynamic_states.push(dynamic_state_viewport());
    dynamic_states.push(dynamic_state_scissor());
    assert(dynamic_states@ =~= seq![dynamic_state_viewport_code(), dynamic_state_scissor_code()]);
    PipelineSettings {
        topology: topology_triangle_list(),
        primitive_restart: false,
        dynamic_states,
        viewport_count: 1,
        scissor_count: 1,
        depth_clamp: false,
        rasterizer_discard: false,
        depth_bias: false,
        sample_shading: false,
        depth_bounds_test: false,
        stencil_test: false,
        logic_op: false,
        subpass: 0,
    }
}

/// Raw bits of `vk::CullModeFlags::NONE` (vulkanalia: `0`).
pub open spec fn cull_mode_none_bits() -> u32 {
    0
}

/// Reads `vk::CullModeFlags::NONE.bits()`; vulkanalia defines it as `0`.
#[verifier::external_body]
fn cull_mode_none() -> (bits: u32)
    ensures
        bits == cull_mode_none_bits(),
{
    vk::CullModeFlags::NONE.bits()
}

/// Raw code of `vk::CompareOp::LESS` (vulkanalia: `Self(1)`).
pub open spec fn compare_op_less_code() -> i32 {
    1
}

/// Reads `vk::CompareOp::LESS.as_raw()`; vulkanalia defines it as `Self(1)`.
#[verifier::external_body]
fn compare_op_less() -> (code: i32)
    ensures
        code == compare_op_less_code(),
{
    vk::CompareOp::LESS.as_raw()
}

/// The fixed-function settings the renderer draws with: no culling,
/// counter-clockwise front faces, filled polygons, depth test and writes on
/// with less-than comparison, transparent blending, one sample per pixel.
pub open spec fn renderer_fixed_function_state() -> FixedFunctionState {
    FixedFunctionState {
        cull_mode: cull_mode_none_bits(),
        front_face: front_face_counter_clockwise_code(),
        polygon_mode: polygon_mode_fill_code(),
        depth_test: true,
        depth_write: true,
        depth_compare: compare_op_less_code(),
        blend_mode: BlendMode::Transparent,
        sample_count: sample_count_1_bits(),
    }
}

/// The description of the pipeline the renderer draws with: the given vertex
/// and fragment shaders, vertex input, layouts and push constants, and the
/// renderer's fixed-function settings.
pub fn renderer_pipeline(
    vertex_shader: PathBuf,
    fragment_shader: PathBuf,
    bindings: Vec<vk::VertexInputBindingDescription>,
    attributes: Vec<vk::VertexInputAttributeDescription>,
    layouts: Vec<vk::DescriptorSetLayout>,
    push_constants: Vec<vk::PushConstantRange>,
) -> (builder: VulkanGraphicsPipelineBuilder)
    ensures
        builder@.shaders == Map::<u32, PathBuf>::empty().insert(stage_vertex_bits(), vertex_shader).insert(
            stage_fragment_bits(),
            fragment_shader,
        ),
        builder@.vertex_bindings == bindings@,
        builder@.vertex_attributes == attributes@,
        builder@.descriptor_set_layouts == layouts@,
        builder@.push_constant_ranges == push_constants@,
        builder@.state == renderer_fixed_function_state(),
{
    VulkanGraphicsPipelineBuilder::new()
        .shader(GraphicsShaderStage::Vertex, vertex_shader)
        .shader(GraphicsShaderStage::Fragment, fragment_shader)
        .vertex_bindings(bindings)
        .vertex_attributes(attributes)
        .descriptor_set_layouts(layouts)
        .push_constant_ranges(push_constants)
        .blend_mode(BlendMode::Transparent)
        .front_face(front_face_counter_clockwise())
        .polygon_mode(polygon_mode_fill())
        .cull_mode(cull_mode_none())
        .depth_test(true)
        .depth_write(true)
        .depth_compare(compare_op_less())
        .sample_count(sample_count_1())
}

/// Why vulkanalia's `Bytecode::new` refused a buffer.
pub enum BytecodeFailure {
    /// The buffer's length, which is zero or not a multiple of four.
    Length(usize),
    /// The aligned copy could not be allocated.
    Alloc,
}

/// The bytes held by a SPIR-V buffer that vulkanalia's `Bytecode::new` made.
pub uninterp spec fn bytecode_bytes(code: Bytecode) -> Seq<u8>;

/// Calls `vulkanalia::bytecode::Bytecode::new`, which copies SPIR-V bytes into
/// a 4-byte aligned buffer. Its source refuses an empty buffer or one whose
/// length is not a multiple of four with `BytecodeError::Length(len)`; on
/// success the new buffer holds a copy of the given bytes
/// (`copy_from_slice`). Otherwise it fails only when the allocation fails
/// (`BytecodeError::Alloc`), which depends on the machine and is not stated.
#[verifier::external_body]
fn bytecode_new(bytes: &[u8]) -> (result: Result<Bytecode, BytecodeFailure>)
    ensures
        (bytes@.len() == 0 || bytes@.len() % 4 != 0) <==> (result matches Err(BytecodeFailure::Length(_))),
        result matches Err(BytecodeFailure::Length(n)) ==> n == bytes@.len(),
        result matches Ok(code) ==> bytecode_bytes(code) == bytes@,
{
    match Bytecode::new(bytes) {
        Ok(code) => Ok(code),
        Err(BytecodeError::Length(n)) => Err(BytecodeFailure::Length(n)),
        Err(BytecodeError::Alloc) => Err(BytecodeFailure::Alloc),
    }
}

/// Turns the bytes of a shader file into SPIR-V code that a shader module can
/// be created from: an aligned copy of those same bytes. Empty code or code
/// that is not a whole number of 32-bit words is refused with its length.
pub fn shader_bytecode(bytes: &[u8]) -> (result: Result<Bytecode, PipelineError>)
    ensures
        result matches Ok(code) ==> bytecode_bytes(code) == bytes@,
        (bytes@.len() == 0 || bytes@.len() % 4 != 0) <==> result == Err::<Bytecode, PipelineError>(
            PipelineError::InvalidShaderLength(bytes@.len() as usize),
        ),
        result matches Err(e) ==> (e == PipelineError::InvalidShaderLength(bytes@.len() as usize)
            || e == PipelineError::ShaderAllocationFailed),
{
    match bytecode_new(bytes) {
        Ok(code) => Ok(code),
        Err(BytecodeFailure::Length(n)) => Err(PipelineError::InvalidShaderLength(n)),
        Err(BytecodeFailure::Alloc) => Err(PipelineError::ShaderAllocationFailed),
    }
}

} // verus!
