//! Vector addition: the device-side invocation of the element-wise addition
//! kernel over two equal-length vectors.

use vstd::prelude::*;
use crate::gpu_vector::GPUVector;
use crate::utility::GPUHandles;
use crate::utility::Uniform;

verus! {

/// Threads per workgroup along the x axis for the vector-addition kernel.
pub const VECTOR_ADD_BLOCK_SIZE: usize = 32;

/// Dispatches the vector-addition kernel over two equal-length word vectors
/// and returns the words read back from the output buffer, one per input
/// element. The parameter block carries the element count; the grid is the
/// least number of 32-thread workgroups covering it.
pub fn vector_add(
    handles: &GPUHandles,
    shader_source: &str,
    input_a: Vec<u32>,
    input_b: Vec<u32>,
) -> (output: Vec<u32>)
    requires
        input_a@.len() == input_b@.len(),
        input_a@.len() <= u32::MAX,
    ensures
        output@.len() == input_a@.len(),
{
    let element_count = input_a.len();
    let uniform = Uniform::new(handles, element_count, 0, 0, 0);
    let input_a = GPUVector::new(handles, input_a, "input_a", false);
    let input_b = GPUVector::new(handles, input_b, "input_b", false);
    let zeros = crate::utility::zero_words(element_count);
    let mut output = GPUVector::new(handles, zeros, "output", true);
    let blocks_x = crate::utility::launch_blocks(element_count, VECTOR_ADD_BLOCK_SIZE);
    proof {
        // Every element is covered by at least one thread.
        assert(blocks_x * VECTOR_ADD_BLOCK_SIZE >= element_count);
    }
    crate::utility::run_compute_shader(
        handles,
        VECTOR_ADD_BLOCK_SIZE,
        blocks_x as u32,
        1,
        1,
        shader_source,
        "vector_add",
        &uniform,
        &input_a,
        &input_b,
        &mut output,
    );
    output.cpu_data
}

} // verus!
