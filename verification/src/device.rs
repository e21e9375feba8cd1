//! The trusted surface over the `wgpu` compute API.
//!
//! Everything the crate asks of the device goes through the declarations and
//! wrappers in this module. The device types are opaque to verification;
//! each wrapper's documentation names the `wgpu` calls it relies on. What a
//! kernel writes into a buffer depends on the device and the kernel program,
//! so no wrapper claims anything about buffer contents; the verified callers
//! check what comes back.

use vstd::prelude::*;
use wgpu::util::DeviceExt;
use crate::utility::GPUHandles;
use crate::utility::UniformElements;

verus! {

#[verifier::external_type_specification]
#[verifier::external_body]
pub struct ExDevice(wgpu::Device);

#[verifier::external_type_specification]
#[verifier::external_body]
pub struct ExQueue(wgpu::Queue);

#[verifier::external_type_specification]
#[verifier::external_body]
pub struct ExAdapter(wgpu::Adapter);

#[verifier::external_type_specification]
#[verifier::external_body]
pub struct ExAdapterInfo(wgpu::AdapterInfo);

#[verifier::external_type_specification]
#[verifier::external_body]
pub struct ExBuffer(wgpu::Buffer);

#[verifier::external_type_specification]
#[verifier::external_body]
pub struct ExShaderModule(wgpu::ShaderModule);

#[verifier::external_type_specification]
#[verifier::external_body]
pub struct ExComputePipeline(wgpu::ComputePipeline);

#[verifier::external_type_specification]
#[verifier::external_body]
pub struct ExBindGroupLayout(wgpu::BindGroupLayout);

#[verifier::external_type_specification]
#[verifier::external_body]
pub struct ExBindGroup(wgpu::BindGroup);

#[verifier::external_type_specification]
#[verifier::external_body]
pub struct ExCommandEncoder(wgpu::CommandEncoder);

#[verifier::external_type_specification]
#[verifier::external_body]
pub struct ExCommandBuffer(wgpu::CommandBuffer);

/// Relies on `DeviceExt::create_buffer_init`: allocates a storage buffer
/// tagged `label` and uploads the words of `contents` into it verbatim, as
/// little-endian bytes (`bytemuck::cast_slice`).
#[verifier::external_body]
pub(crate) fn create_storage_buffer(handles: &GPUHandles, contents: &Vec<u32>, label: &str) -> (
    buffer: wgpu::Buffer)
{
    handles.device.create_buffer_init(&wgpu::util::BufferInitDescriptor {
        label: Some(label),
        contents: bytemuck::cast_slice(contents.as_slice()),
        usage: wgpu::BufferUsages::STORAGE | wgpu::BufferUsages::COPY_DST
            | wgpu::BufferUsages::COPY_SRC,
    })
}

/// Relies on `Device::create_buffer`: allocates an unmapped buffer of
/// `size_bytes` bytes that a device-side copy can fill and the host can map
/// for reading.
#[verifier::external_body]
pub(crate) fn create_staging_buffer(handles: &GPUHandles, size_bytes: u64) -> (buffer:
    wgpu::Buffer)
{
    handles.device.create_buffer(&wgpu::BufferDescriptor {
        label: None,
        size: size_bytes,
        usage: wgpu::BufferUsages::MAP_READ | wgpu::BufferUsages::COPY_DST,
        mapped_at_creation: false,
    })
}

/// Relies on `DeviceExt::create_buffer_init`: allocates a uniform-class
/// buffer and uploads the four 32-bit parameters verbatim.
#[verifier::external_body]
pub(crate) fn create_uniform_buffer(handles: &GPUHandles, elements: &UniformElements) -> (buffer:
    wgpu::Buffer)
{
    handles.device.create_buffer_init(&wgpu::util::BufferInitDescriptor {
        label: Some("Uniform"),
        contents: bytemuck::cast_slice(&elements.data),
        usage: wgpu::BufferUsages::UNIFORM | wgpu::BufferUsages::COPY_DST
            | wgpu::BufferUsages::COPY_SRC,
    })
}

/// Relies on `Device::create_command_encoder`: opens a fresh command
/// recording scope.
#[verifier::external_body]
pub(crate) fn create_command_encoder(handles: &GPUHandles) -> (encoder: wgpu::CommandEncoder) {
    handles.device.create_command_encoder(&wgpu::CommandEncoderDescriptor { label: None })
}

/// Relies on `ComputePipeline::get_bind_group_layout`: returns the pipeline's
/// resource layout at the given group index; panics (fatal) if the compiled
/// program declares no such group.
#[verifier::external_body]
pub(crate) fn pipeline_bind_group_layout(pipeline: &wgpu::ComputePipeline, index: u32) -> (layout:
    wgpu::BindGroupLayout)
{
    pipeline.get_bind_group_layout(index)
}

/// Relies on `CommandEncoder::begin_compute_pass`, `ComputePass::set_pipeline`,
/// `ComputePass::set_bind_group` and `ComputePass::dispatch_workgroups`:
/// records one compute pass that binds the pipeline with the bind group at
/// group 0 and dispatches a `blocks_x` by `blocks_y` by 1 grid of workgroups.
/// The pass closes when it drops at the end of the body.
#[verifier::external_body]
pub(crate) fn record_compute_pass(
    encoder: &mut wgpu::CommandEncoder,
    pipeline: &wgpu::ComputePipeline,
    bind_group: &wgpu::BindGroup,
    blocks_x: u32,
    blocks_y: u32,
) {
    let mut pass = encoder.begin_compute_pass(&wgpu::ComputePassDescriptor { label: None });
    pass.set_pipeline(pipeline);
    pass.set_bind_group(0, bind_group, &[]);
    pass.dispatch_workgroups(blocks_x, blocks_y, 1);
}

/// Relies on `CommandEncoder::copy_buffer_to_buffer`: appends to the encoder
/// a device-side copy of `size_bytes` bytes from the start of `source` to the
/// start of `destination`.
#[verifier::external_body]
pub(crate) fn copy_buffer_contents(
    encoder: &mut wgpu::CommandEncoder,
    source: &wgpu::Buffer,
    destination: &wgpu::Buffer,
    size_bytes: u64,
) {
    encoder.copy_buffer_to_buffer(source, 0, destination, 0, size_bytes);
}

/// Relies on `CommandEncoder::finish`: closes the recording scope into a
/// submittable command buffer.
#[verifier::external_body]
pub(crate) fn finish_encoder(encoder: wgpu::CommandEncoder) -> (commands: wgpu::CommandBuffer) {
    encoder.finish()
}

/// Relies on `Queue::submit`: hands the recorded commands to the device
/// queue for execution.
#[verifier::external_body]
pub(crate) fn submit_commands(handles: &GPUHandles, commands: wgpu::CommandBuffer) {
    handles.queue.submit(Some(commands));
}

/// Relies on `Buffer::slice`, `BufferSlice::map_async`,
/// `Device::poll(Maintain::Wait)`, `BufferSlice::get_mapped_range` and
/// `Buffer::unmap`. `poll(Maintain::Wait)` on a native device blocks until
/// all submitted work has drained and mapping callbacks have run, so the
/// mapped range is read only after the device-side writes and the copy into
/// the staging buffer are complete. The mapped bytes are returned as 32-bit
/// words (`bytemuck::cast_slice`). Panics (fatal) if the device cannot grant
/// the mapping; what the words hold depends on the kernel the device ran, so
/// nothing is claimed of them.
#[verifier::external_body]
pub(crate) fn read_staging_buffer(handles: &GPUHandles, staging: &wgpu::Buffer) -> (words: Vec<
    u32,
>)
{
    let slice = staging.slice(..);
    slice.map_async(wgpu::MapMode::Read, |_| {});
    handles.device.poll(wgpu::Maintain::Wait);
    let view = slice.get_mapped_range();
    let words: Vec<u32> = bytemuck::cast_slice(&view).to_vec();
    drop(view);
    staging.unmap();
    words
}

} // verus!
