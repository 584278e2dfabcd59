//! Plain-value descriptions of the GPU objects the demo sets up.
//!
//! The unverified shell creates the real instance, adapter, device and
//! pipeline. Every number and name it passes to those calls comes from here:
//! the device limits the demo requests, the surface configuration, and the
//! render-pipeline layout for the one triangle.

use vstd::prelude::*;

verus! {

/// The device limits the demo requests, trimmed for small screens and with
/// every storage limit switched off.
#[derive(Clone, Copy, Debug, PartialEq, Eq, Structural)]
pub struct RequestedLimits {
    /// Largest one-dimensional texture.
    pub max_texture_dimension_1d: u32,
    /// Largest two-dimensional texture.
    pub max_texture_dimension_2d: u32,
    /// Largest three-dimensional texture.
    pub max_texture_dimension_3d: u32,
    /// Largest texture array.
    pub max_texture_array_layers: u32,
    /// Most bind groups per pipeline.
    pub max_bind_groups: u32,
    /// Most dynamic uniform buffers per pipeline layout.
    pub max_dynamic_uniform_buffers_per_pipeline_layout: u32,
    /// Most sampled textures per shader stage.
    pub max_sampled_textures_per_shader_stage: u32,
    /// Most samplers per shader stage.
    pub max_samplers_per_shader_stage: u32,
    /// Most uniform buffers per shader stage.
    pub max_uniform_buffers_per_shader_stage: u32,
    /// Largest uniform-buffer binding.
    pub max_uniform_buffer_binding_size: u32,
    /// Most vertex buffers per pipeline.
    pub max_vertex_buffers: u32,
    /// Most vertex attributes per pipeline.
    pub max_vertex_attributes: u32,
    /// Largest push-constant range: none.
    pub max_push_constant_size: u32,
    /// Alignment of dynamic uniform-buffer offsets.
    pub min_uniform_buffer_offset_alignment: u32,
    /// Alignment of dynamic storage-buffer offsets.
    pub min_storage_buffer_offset_alignment: u32,
    /// Most storage buffers per shader stage: none.
    pub max_storage_buffers_per_shader_stage: u32,
    /// Most storage textures per shader stage: none.
    pub max_storage_textures_per_shader_stage: u32,
    /// Most dynamic storage buffers per pipeline layout: none.
    pub max_dynamic_storage_buffers_per_pipeline_layout: u32,
    /// Largest storage-buffer binding: none.
    pub max_storage_buffer_binding_size: u32,
    /// Largest stride between vertex-buffer elements.
    pub max_vertex_buffer_array_stride: u32,
}

/// The limits the demo asks of the device.
pub fn requested_limits() -> (l: RequestedLimits)
    ensures
        l == (RequestedLimits {
            max_texture_dimension_1d: 2048u32,
            max_texture_dimension_2d: 2048u32,
            max_texture_dimension_3d: 256u32,
            max_texture_array_layers: 256u32,
            max_bind_groups: 4u32,
            max_dynamic_uniform_buffers_per_pipeline_layout: 8u32,
            max_sampled_textures_per_shader_stage: 16u32,
            max_samplers_per_shader_stage: 16u32,
            max_uniform_buffers_per_shader_stage: 12u32,
            max_uniform_buffer_binding_size: 16384u32,
            max_vertex_buffers: 8u32,
            max_vertex_attributes: 16u32,
            max_push_constant_size: 0u32,
            min_uniform_buffer_offset_alignment: 256u32,
            min_storage_buffer_offset_alignment: 256u32,
            max_storage_buffers_per_shader_stage: 0u32,
            max_storage_textures_per_shader_stage: 0u32,
            max_dynamic_storage_buffers_per_pipeline_layout: 0u32,
            max_storage_buffer_binding_size: 0u32,
            max_vertex_buffer_array_stride: 255u32,
        }),
{
    RequestedLimits {
        max_texture_dimension_1d: 2048,
        max_texture_dimension_2d: 2048,
        max_texture_dimension_3d: 256,
        max_texture_array_layers: 256,
        max_bind_groups: 4,
        max_dynamic_uniform_buffers_per_pipeline_layout: 8,
        max_sampled_textures_per_shader_stage: 16,
        max_samplers_per_shader_stage: 16,
        max_uniform_buffers_per_shader_stage: 12,
        max_uniform_buffer_binding_size: 16384,
        max_vertex_buffers: 8,
        max_vertex_attributes: 16,
        max_push_constant_size: 0,
        min_uniform_buffer_offset_alignment: 256,
        min_storage_buffer_offset_alignment: 256,
        max_storage_buffers_per_shader_stage: 0,
        max_storage_textures_per_shader_stage: 0,
        max_dynamic_storage_buffers_per_pipeline_layout: 0,
        max_storage_buffer_binding_size: 0,
        max_vertex_buffer_array_stride: 255,
    }
}

/// What a texture may be used for.
#[derive(Clone, Copy, Debug, PartialEq, Eq, Structural)]
pub struct TextureUsage {
    /// May be the target of a render pass.
    pub render_attachment: bool,
    /// May be sampled from a shader.
    pub sampled: bool,
    /// May be the destination of a copy.
    pub copy_dst: bool,
}

/// How finished frames wait for the screen.
#[derive(Clone, Copy, Debug, PartialEq, Eq, Structural)]
pub enum PresentMode {
    /// New frames replace the queued one; presentation never blocks rendering.
    Mailbox,
}

/// How the window's surface is configured. The pixel format is whatever the
/// adapter prefers for the surface; the shell names it with a code of its
/// choosing, and this module carries the code through unchanged.
#[derive(Clone, Copy, Debug, PartialEq, Eq, Structural)]
pub struct SurfaceConfig {
    /// What the surface's textures may be used for.
    pub usage: TextureUsage,
    /// The shell's code for the surface's pixel format.
    pub format: u32,
    /// Width of the surface in pixels.
    pub width: u32,
    /// Height of the surface in pixels.
    pub height: u32,
    /// How finished frames wait for the screen.
    pub present_mode: PresentMode,
}

/// The configuration the surface first gets: render target only, the
/// preferred format, the window's size, mailbox presentation.
pub fn initial_surface_config(format: u32, width: u32, height: u32) -> (c: SurfaceConfig)
    ensures
        c == (SurfaceConfig {
            usage: TextureUsage { render_attachment: true, sampled: false, copy_dst: false },
            format,
            width,
            height,
            present_mode: PresentMode::Mailbox,
        }),
{
    SurfaceConfig {
        usage: TextureUsage { render_attachment: true, sampled: false, copy_dst: false },
        format,
        width,
        height,
        present_mode: PresentMode::Mailbox,
    }
}

/// Fits the configuration to a resized window: only the size changes.
pub fn apply_resize(config: &mut SurfaceConfig, width: u32, height: u32)
    ensures
        *final(config) == (SurfaceConfig { width, height, ..*old(config) }),
{
    config.width = width;
    config.height = height;
}

/// The render pipeline for the one triangle: no bind groups, no vertex
/// buffers, no push constants; the two shader entry points by name; one
/// color target in the surface's format.
pub struct PipelineModel {
    /// Entry point of the vertex stage.
    pub vertex_entry: String,
    /// Entry point of the fragment stage.
    pub fragment_entry: String,
    /// How many vertex buffers the vertex stage reads: none.
    pub vertex_buffer_count: usize,
    /// How many bind group layouts the pipeline has: none.
    pub bind_group_layout_count: usize,
    /// How many push-constant ranges the pipeline has: none.
    pub push_constant_range_count: usize,
    /// The shell's code for the color target's pixel format.
    pub target_format: u32,
}

/// Lays out the triangle pipeline for a surface of the given format.
pub fn triangle_pipeline(format: u32) -> (p: PipelineModel)
    ensures
        p.vertex_entry@ == "vs_main"@,
        p.fragment_entry@ == "fs_main"@,
        p.vertex_buffer_count == 0,
        p.bind_group_layout_count == 0,
        p.push_constant_range_count == 0,
        p.target_format == format,
{
    PipelineModel {
        vertex_entry: "vs_main".to_owned(),
        fragment_entry: "fs_main".to_owned(),
        vertex_buffer_count: 0,
        bind_group_layout_count: 0,
        push_constant_range_count: 0,
        target_format: format,
    }
}

} // verus!
