//! The kernel dispatcher and its companions: the device capability handles,
//! the four-slot parameter block, the execution-grid arithmetic, and the
//! synchronous dispatch-and-readback protocol itself.

use vstd::prelude::*;
use crate::gpu_vector::GPUVector;

verus! {

/// Capability handles granting access to compute submission and buffer
/// allocation: created once by the surrounding program, shared by reference
/// across all dispatches, and valid for the lifetime of every device vector
/// and parameter block created from them.
pub struct GPUHandles {
    pub queue: wgpu::Queue,
    pub device: wgpu::Device,
    pub adapter: wgpu::Adapter,
    pub adapter_info: wgpu::AdapterInfo,
}

/// The fixed layout of a parameter block: four unsigned 32-bit scalars
/// (element counts, matrix dimensions, filter length), visible to every
/// kernel as a 4-tuple. Call sites pass 0 for unused slots.
#[derive(Copy, Clone, Debug)]
pub struct UniformElements {
    pub data: [u32; 4],
}

/// A parameter block: four size-valued scalars packed into a small
/// uniform-class device buffer, bound at slot 0 of every dispatch. Immutable
/// after construction; a new block is built per distinct parameter set.
pub struct Uniform {
    /// The four parameters as uploaded.
    pub elements: UniformElements,
    /// The device buffer holding them.
    pub storage_buffer: wgpu::Buffer,
}

impl Uniform {
    /// Packs the four scalars into device memory.
    pub fn new(
        handles: &GPUHandles,
        argument_0: usize,
        argument_1: usize,
        argument_2: usize,
        argument_3: usize,
    ) -> (uniform: Self)
        requires
            argument_0 <= u32::MAX,
            argument_1 <= u32::MAX,
            argument_2 <= u32::MAX,
            argument_3 <= u32::MAX,
        ensures
            uniform.elements.data@ == seq![
                argument_0 as u32,
                argument_1 as u32,
                argument_2 as u32,
                argument_3 as u32,
            ],
    {
        let elements = UniformElements {
            data: [argument_0 as u32, argument_1 as u32, argument_2 as u32, argument_3 as u32],
        };
        let storage_buffer = crate::device::create_uniform_buffer(handles, &elements);
        proof {
            assert(elements.data@ =~= seq![
                argument_0 as u32,
                argument_1 as u32,
                argument_2 as u32,
                argument_3 as u32,
            ]);
        }
        Uniform { elements, storage_buffer }
    }
}

/// Relies on `Device::create_shader_module`: compiles kernel source text into
/// a device-executable program. A malformed program is fatal (panics); by the
/// time source text reaches a dispatch it is assumed well formed.
#[verifier::external_body]
pub fn create_shader_module(handles: &GPUHandles, shader: &str) -> (module: wgpu::ShaderModule) {
    handles.device.create_shader_module(wgpu::ShaderModuleDescriptor {
        label: None,
        source: wgpu::ShaderSource::Wgsl(std::borrow::Cow::Borrowed(shader)),
    })
}

/// Relies on `Device::create_compute_pipeline`: binds a compiled kernel
/// program at the named entry symbol, with the resource layout the program
/// declares. An entry symbol the program does not expose is fatal (panics).
#[verifier::external_body]
pub fn create_compute_pipeline(
    handles: &GPUHandles,
    module: &wgpu::ShaderModule,
    entry_point: &str,
) -> (pipeline: wgpu::ComputePipeline) {
    handles.device.create_compute_pipeline(&wgpu::ComputePipelineDescriptor {
        label: None,
        layout: None,
        module,
        entry_point,
    })
}

/// Relies on `Buffer::as_entire_binding` and `Device::create_bind_group`:
/// binds the four buffers of the fixed positional contract — slot 0 the
/// parameter block, slots 1 and 2 the input vectors, slot 3 the output — to
/// the given layout. A layout that does not match this four-slot shape is a
/// fatal contract violation (panics).
#[verifier::external_body]
pub fn create_bind_group(
    handles: &GPUHandles,
    bind_group_layout: &wgpu::BindGroupLayout,
    parameters: &wgpu::Buffer,
    input_a: &wgpu::Buffer,
    input_b: &wgpu::Buffer,
    output: &wgpu::Buffer,
) -> (bind_group: wgpu::BindGroup) {
    let entries = [
        wgpu::BindGroupEntry { binding: 0, resource: parameters.as_entire_binding() },
        wgpu::BindGroupEntry { binding: 1, resource: input_a.as_entire_binding() },
        wgpu::BindGroupEntry { binding: 2, resource: input_b.as_entire_binding() },
        wgpu::BindGroupEntry { binding: 3, resource: output.as_entire_binding() },
    ];
    handles.device.create_bind_group(&wgpu::BindGroupDescriptor {
        label: None,
        layout: bind_group_layout,
        entries: &entries,
    })
}

/// Compiles and dispatches one kernel program over a `launch_blocks_x` by
/// `launch_blocks_y` grid of workgroups, then blocks until the device has
/// drained and the output's staging buffer has been read back into
/// `output.cpu_data`.
///
/// The caller computes the grid so that `launch_blocks_x * block_size_x` by
/// `launch_blocks_y * block_size_y` threads cover the problem; the kernel
/// bounds-checks against the true problem size carried in the parameter
/// block. The words read back are whatever the kernel wrote — the round trip
/// preserves the output's length, and touches none of its buffers' identities.
#[allow(unused_variables)]
pub fn run_compute_shader(
    handles: &GPUHandles,
    block_size_x: usize,
    launch_blocks_x: u32,
    block_size_y: usize,
    launch_blocks_y: u32,
    shader_source: &str,
    shader_function: &str,
    uniform: &Uniform,
    input_a: &GPUVector,
    input_b: &GPUVector,
    output: &mut GPUVector,
)
    requires
        old(output).staging_buffer.is_some(),
        old(output).cpu_data@.len() * 4 <= u64::MAX,
    ensures
        final(output).cpu_data@.len() == old(output).cpu_data@.len(),
        final(output).staging_buffer == old(output).staging_buffer,
        final(output).storage_buffer == old(output).storage_buffer,
{
    let cs_module = create_shader_module(handles, shader_source);
    let compute_pipeline = create_compute_pipeline(handles, &cs_module, shader_function);
    let bind_group_layout = crate::device::pipeline_bind_group_layout(&compute_pipeline, 0);
    let bind_group = create_bind_group(
        handles,
        &bind_group_layout,
        &uniform.storage_buffer,
        &input_a.storage_buffer,
        &input_b.storage_buffer,
        &output.storage_buffer,
    );
    let mut encoder = crate::device::create_command_encoder(handles);
    crate::device::record_compute_pass(
        &mut encoder,
        &compute_pipeline,
        &bind_group,
        launch_blocks_x,
        launch_blocks_y,
    );
    output.transfer_from_gpu_to_cpu_mut(&mut encoder);
    let commands = crate::device::finish_encoder(encoder);
    crate::device::submit_commands(handles, commands);
    let words = match &output.staging_buffer {
        Some(staging) => crate::device::read_staging_buffer(handles, staging),
        None => Vec::new(),
    };
    if words.len() == output.cpu_data.len() {
        output.cpu_data = words;
    }
}

/// Ceiling division: the least count of blocks of size `block_size` that
/// covers `problem_size` elements.
pub open spec fn div_ceil(problem_size: nat, block_size: nat) -> nat
    recommends
        block_size > 0,
{
    ((problem_size + block_size - 1) / (block_size as int)) as nat
}

/// How many workgroups of `block_size` elements must be launched along one
/// grid axis so that every one of `problem_size` elements is covered by at
/// least one thread.
pub fn launch_blocks(problem_size: usize, block_size: usize) -> (blocks: usize)
    requires
        block_size > 0,
    ensures
        blocks == div_ceil(problem_size as nat, block_size as nat),
        blocks * block_size >= problem_size,
        problem_size > 0 ==> (blocks - 1) * block_size < problem_size,
        blocks <= problem_size,
{
    if problem_size == 0 {
        proof {
            lemma_launch_blocks_cover(problem_size as nat, block_size as nat);
        }
        0
    } else {
        let blocks = (problem_size - 1) / block_size + 1;
        proof {
            lemma_launch_blocks_cover(problem_size as nat, block_size as nat);
        }
        blocks
    }
}

/// The computed grid count equals `ceil(problem_size / block_size)`, and that
/// many blocks cover the whole problem: `count * block_size >= problem_size`,
/// while one block fewer would leave elements uncovered.
pub proof fn lemma_launch_blocks_cover(problem_size: nat, block_size: nat)
    requires
        block_size > 0,
    ensures
        problem_size > 0 ==> div_ceil(problem_size, block_size)
            == (problem_size - 1) / (block_size as int) + 1,
        div_ceil(problem_size, block_size) * block_size >= problem_size,
        problem_size > 0 ==> (div_ceil(problem_size, block_size) - 1) * block_size
            < problem_size,
        div_ceil(problem_size, block_size) <= problem_size,
{
    let b = block_size as int;
    let n = problem_size as int;
    if problem_size > 0 {
        let q = (n - 1) / b;
        let r = (n - 1) % b;
        vstd::arithmetic::div_mod::lemma_fundamental_div_mod(n - 1, b);
        vstd::arithmetic::div_mod::lemma_mod_bound(n - 1, b);
        assert(n - 1 == q * b + r);
        vstd::arithmetic::div_mod::lemma_div_is_ordered(0, n - 1, b);
        vstd::arithmetic::div_mod::lemma_div_basics(b);
        assert(q >= 0);
        assert(b * (q + 1) + r == q * b + r + b) by (nonlinear_arith);
        assert(n + b - 1 == b * (q + 1) + r);
        vstd::arithmetic::div_mod::lemma_div_multiples_vanish_fancy(q + 1, r, b);
        assert((n + b - 1) / b == q + 1);
        assert((q + 1) * b == q * b + b) by (nonlinear_arith);
        assert(q * b <= n - 1) by (nonlinear_arith)
            requires
                n - 1 == q * b + r,
                r >= 0,
        ;
        assert(q <= n - 1) by (nonlinear_arith)
            requires
                q * b <= n - 1,
                b >= 1,
                q >= 0,
        ;
        assert(div_ceil(problem_size, block_size) == q + 1);
    } else {
        vstd::arithmetic::div_mod::lemma_basic_div(b - 1, b);
        assert(div_ceil(problem_size, block_size) == 0);
    }
}

/// A vector of `len` all-zero words: the initial host contents of every
/// output vector, and the fill of every padded cell.
pub fn zero_words(len: usize) -> (words: Vec<u32>)
    ensures
        words@ == Seq::new(len as nat, |i: int| 0u32),
        words@.len() == len,
{
    let mut words: Vec<u32> = Vec::new();
    let mut i: usize = 0;
    while i < len
        invariant
            i <= len,
            words@.len() == i,
            forall|j: int| 0 <= j < i ==> words@[j] == 0u32,
        decreases len - i,
    {
        words.push(0u32);
        i = i + 1;
    }
    proof {
        assert(words@ =~= Seq::new(len as nat, |i: int| 0u32));
    }
    words
}

/// Whether two word vectors agree element for element.
pub fn words_equal(a: &Vec<u32>, b: &Vec<u32>) -> (eq: bool)
    ensures
        eq <==> a@ == b@,
{
    if a.len() != b.len() {
        return false;
    }
    let mut i: usize = 0;
    while i < a.len()
        invariant
            i <= a@.len(),
            a@.len() == b@.len(),
            forall|j: int| 0 <= j < i ==> a@[j] == b@[j],
        decreases a@.len() - i,
    {
        if a[i] != b[i] {
            return false;
        }
        i = i + 1;
    }
    proof {
        assert(a@ =~= b@);
    }
    true
}

} // verus!
