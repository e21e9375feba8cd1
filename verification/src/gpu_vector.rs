//! A host-data-backed device buffer: a vector of 32-bit words paired with the
//! device-resident storage buffer holding the same bytes, and — for output
//! vectors only — a staging buffer that receives a copy for host readback.

use vstd::prelude::*;
use crate::utility::GPUHandles;

verus! {

/// A device-resident vector of 32-bit words (single-precision bit patterns).
///
/// The storage buffer is created from `cpu_data`, so its byte length is four
/// times the host word count. The staging buffer exists exactly when the
/// vector was constructed as an output; only the dispatcher overwrites
/// `cpu_data`, after a completed device round trip.
pub struct GPUVector {
    /// The host-side words: the uploaded input, or, for an output vector
    /// after a dispatch, the words read back from the device.
    pub cpu_data: Vec<u32>,
    /// Present exactly on output vectors: the host-mappable buffer a
    /// device-side copy fills during readback.
    pub staging_buffer: Option<wgpu::Buffer>,
    /// The shader-visible buffer holding the vector's bytes on the device.
    pub storage_buffer: wgpu::Buffer,
}

impl GPUVector {
    /// Uploads `cpu_data` verbatim into a newly allocated storage buffer
    /// tagged `label`; when `output_buffer` is set, additionally allocates a
    /// staging buffer of identical byte size for host readback.
    pub fn new(handles: &GPUHandles, cpu_data: Vec<u32>, label: &str, output_buffer: bool) -> (
        vector: Self)
        requires
            cpu_data@.len() * 4 <= u64::MAX,
        ensures
            vector.cpu_data@ == cpu_data@,
            vector.staging_buffer.is_some() <==> output_buffer,
    {
        let size_bytes: u64 = (cpu_data.len() as u64) * 4;
        let staging_buffer: Option<wgpu::Buffer> = if !output_buffer {
            None
        } else {
            Some(crate::device::create_staging_buffer(handles, size_bytes))
        };
        let storage_buffer = crate::device::create_storage_buffer(handles, &cpu_data, label);
        GPUVector { cpu_data, staging_buffer, storage_buffer }
    }

    /// If this vector has a staging buffer, appends to the encoder a copy of
    /// the storage buffer's full byte range into it; a no-op otherwise. Must
    /// run before the encoder is submitted for the readback to see the
    /// dispatch's writes.
    pub fn transfer_from_gpu_to_cpu_mut(&mut self, encoder: &mut wgpu::CommandEncoder)
        requires
            old(self).cpu_data@.len() * 4 <= u64::MAX,
        ensures
            *final(self) == *old(self),
    {
        match &self.staging_buffer {
            Some(staging) => {
                let size_bytes: u64 = (self.cpu_data.len() as u64) * 4;
                crate::device::copy_buffer_contents(
                    encoder,
                    &self.storage_buffer,
                    staging,
                    size_bytes,
                );
            },
            None => {},
        }
    }
}

} // verus!
