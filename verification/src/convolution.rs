//! 1-D "same"-length convolution support: the boundary arithmetic that keeps
//! every signal access in range, the zero-padding of the signal for the
//! bounds-check-free kernel variant, and the hand-verified self-check
//! decision.
//!
//! Output index `i` of the convolution accumulates
//! `signal[i - offset + k] * filter[k]` for `k` in `[0, filter_len)`, with
//! `offset = filter_len / 2`; shifted indices outside `[0, signal_len)`
//! contribute zero. The functions here pin down exactly which filter indices
//! those are.

use vstd::prelude::*;
use crate::gpu_vector::GPUVector;
use crate::utility::GPUHandles;
use crate::utility::Uniform;

verus! {

/// Threads per workgroup along the x axis for the convolution kernels.
pub const CONVOLUTION_BLOCK_SIZE: usize = 32;

/// The alignment shift of a "same"-length convolution: half the (odd) filter
/// length, rounded down.
pub open spec fn filter_offset(filter_len: nat) -> nat {
    filter_len / 2
}

/// The signal position that filter index `k` reads when the output element at
/// `signal_index` is accumulated.
pub open spec fn shifted_index(signal_index: nat, filter_len: nat, k: int) -> int {
    signal_index - filter_offset(filter_len) + k
}

/// The half-open range of filter indices whose shifted signal index
/// `signal_index - offset + k` falls inside `[0, signal_len)`. Every filter
/// index outside the returned range would read before the start or past the
/// end of the signal, so its contribution to the output element is zero.
pub fn filter_support(signal_len: usize, filter_len: usize, signal_index: usize) -> (bounds: (
    usize,
    usize,
))
    requires
        signal_index < signal_len,
        filter_len % 2 == 1,
        signal_len + filter_len <= usize::MAX,
    ensures
        bounds.0 <= bounds.1 <= filter_len,
        forall|k: int|
            bounds.0 <= k < bounds.1 ==> 0 <= #[trigger] shifted_index(
                signal_index as nat,
                filter_len as nat,
                k,
            ) < signal_len,
        forall|k: int|
            0 <= k < filter_len && !(bounds.0 <= k < bounds.1) ==> (#[trigger] shifted_index(
                signal_index as nat,
                filter_len as nat,
                k,
            ) < 0 || shifted_index(signal_index as nat, filter_len as nat, k) >= signal_len),
{
    let offset = filter_len / 2;
    let lo = if offset > signal_index {
        offset - signal_index
    } else {
        0
    };
    let cap = signal_len - signal_index + offset;
    let hi = if cap < filter_len {
        cap
    } else {
        filter_len
    };
    (lo, hi)
}

/// The signal with `padding` zero words prepended and appended.
pub open spec fn pad_signal_spec(signal: Seq<u32>, padding: nat) -> Seq<u32> {
    Seq::new(
        signal.len() + 2 * padding,
        |i: int|
            if padding <= i < padding + signal.len() {
                signal[i - padding]
            } else {
                0u32
            },
    )
}

/// Zero-extends a signal by `padding` words on each side, so that a kernel
/// shifted by up to `padding` elements never reads out of range.
pub fn pad_signal(signal: &Vec<u32>, padding: usize) -> (padded: Vec<u32>)
    requires
        signal@.len() + 2 * padding <= usize::MAX,
    ensures
        padded@ == pad_signal_spec(signal@, padding as nat),
        padded@.len() == signal@.len() + 2 * padding,
{
    let ghost target = pad_signal_spec(signal@, padding as nat);
    let n = signal.len();
    let mut padded: Vec<u32> = Vec::new();
    let mut i: usize = 0;
    while i < padding
        invariant
            i <= padding,
            n == signal@.len(),
            padded@.len() == i,
            target == pad_signal_spec(signal@, padding as nat),
            forall|j: int| 0 <= j < padded@.len() ==> padded@[j] == target[j],
        decreases padding - i,
    {
        padded.push(0u32);
        i = i + 1;
    }
    let mut s: usize = 0;
    while s < n
        invariant
            s <= n,
            n == signal@.len(),
            n + 2 * padding <= usize::MAX,
            padded@.len() == padding + s,
            target == pad_signal_spec(signal@, padding as nat),
            forall|j: int| 0 <= j < padded@.len() ==> padded@[j] == target[j],
        decreases n - s,
    {
        padded.push(signal[s]);
        s = s + 1;
    }
    let mut t: usize = 0;
    while t < padding
        invariant
            t <= padding,
            n == signal@.len(),
            n + 2 * padding <= usize::MAX,
            padded@.len() == padding + n + t,
            target == pad_signal_spec(signal@, padding as nat),
            forall|j: int| 0 <= j < padded@.len() ==> padded@[j] == target[j],
        decreases padding - t,
    {
        padded.push(0u32);
        t = t + 1;
    }
    proof {
        assert(padded@ =~= target);
    }
    padded
}

/// Reading the zero-padded signal without bounds checks sees exactly the
/// boundary semantics of the bounds-checked reference: at output index `i`,
/// filter tap `k` reads the padded signal at `i + k`, which holds the
/// original word when the shifted index `i - offset + k` is in range and the
/// all-zero word otherwise. Zero-padding therefore changes no contribution —
/// out-of-range taps still contribute zero, and nothing is read out of range.
pub proof fn lemma_padded_read_matches_boundary(signal: Seq<u32>, filter_len: nat, i: nat, k: int)
    requires
        filter_len % 2 == 1,
        i < signal.len(),
        0 <= k < filter_len,
    ensures
        ({
            let padded = pad_signal_spec(signal, filter_offset(filter_len));
            let shifted = shifted_index(i, filter_len, k);
            padded[i + k] == if 0 <= shifted < signal.len() {
                signal[shifted]
            } else {
                0u32
            }
        }),
{
    let p = filter_offset(filter_len) as int;
    assert(i + k < signal.len() + 2 * p);
}

/// Bit patterns of the hand-verified self-check: the all-ones signal of five
/// elements convolved with the filter `[0.25, 0.5, -0.25]` gives
/// `[0.25, 0.5, 0.5, 0.5, 0.75]`. Every value is a dyadic rational, so a
/// correct single-precision evaluation reproduces these words exactly.
pub open spec fn ground_truth_bits() -> Seq<u32> {
    seq![0x3E800000u32, 0x3F000000u32, 0x3F000000u32, 0x3F000000u32, 0x3F400000u32]
}

/// The expected self-check output, as single-precision bit patterns.
pub fn ground_truth_output() -> (out: Vec<u32>)
    ensures
        out@ == ground_truth_bits(),
{
    let out: Vec<u32> = vec![
        0x3E800000u32,
        0x3F000000u32,
        0x3F000000u32,
        0x3F000000u32,
        0x3F400000u32,
    ];
    proof {
        assert(out@ =~= ground_truth_bits());
    }
    out
}

/// Dispatches the three convolution kernel variants — naive (per-element
/// bounds-checked), shared (tile-cached in workgroup memory) and padded
/// (bounds-check-free over the zero-extended signal) — on one signal and
/// filter, and returns the three outputs read back, each "same"-length with
/// the signal.
///
/// All three run over the same grid and the same parameter block, which
/// carries the signal and filter lengths; the padded variant reads the
/// signal zero-extended by `(filter_len - 1) / 2` words on each side, so its
/// kernel never shifts out of range.
pub fn convolution(
    handles: &GPUHandles,
    naive_source: &str,
    shared_source: &str,
    padded_source: &str,
    signal: Vec<u32>,
    filter: Vec<u32>,
) -> (outputs: (Vec<u32>, Vec<u32>, Vec<u32>))
    requires
        filter@.len() % 2 == 1,
        signal@.len() <= u32::MAX,
        filter@.len() <= u32::MAX,
        signal@.len() + filter@.len() <= usize::MAX,
        (signal@.len() + filter@.len()) * 4 <= u64::MAX,
    ensures
        outputs.0@.len() == signal@.len(),
        outputs.1@.len() == signal@.len(),
        outputs.2@.len() == signal@.len(),
{
    let data_element_count = signal.len();
    let filter_size = filter.len();
    let uniform = Uniform::new(handles, data_element_count, filter_size, 0, 0);
    let padding = (filter_size - 1) / 2;
    let signal_padded = pad_signal(&signal, padding);
    let signal_gpu = GPUVector::new(handles, signal, "signal", false);
    let filter_gpu = GPUVector::new(handles, filter, "filter", false);
    let zeros_naive = crate::utility::zero_words(data_element_count);
    let mut output_naive = GPUVector::new(handles, zeros_naive, "output", true);
    let zeros_shared = crate::utility::zero_words(data_element_count);
    let mut output_shared = GPUVector::new(handles, zeros_shared, "output", true);
    let zeros_padded = crate::utility::zero_words(data_element_count);
    let mut output_padded = GPUVector::new(handles, zeros_padded, "output", true);
    let blocks_x = crate::utility::launch_blocks(data_element_count, CONVOLUTION_BLOCK_SIZE);
    proof {
        // Every output element is covered by at least one thread.
        assert(blocks_x * CONVOLUTION_BLOCK_SIZE >= data_element_count);
    }
    crate::utility::run_compute_shader(
        handles,
        CONVOLUTION_BLOCK_SIZE,
        blocks_x as u32,
        1,
        1,
        naive_source,
        "conv_naive",
        &uniform,
        &signal_gpu,
        &filter_gpu,
        &mut output_naive,
    );
    crate::utility::run_compute_shader(
        handles,
        CONVOLUTION_BLOCK_SIZE,
        blocks_x as u32,
        1,
        1,
        shared_source,
        "conv_shared",
        &uniform,
        &signal_gpu,
        &filter_gpu,
        &mut output_shared,
    );
    let signal_padded_gpu = GPUVector::new(handles, signal_padded, "signal", false);
    crate::utility::run_compute_shader(
        handles,
        CONVOLUTION_BLOCK_SIZE,
        blocks_x as u32,
        1,
        1,
        padded_source,
        "conv_padded",
        &uniform,
        &signal_padded_gpu,
        &filter_gpu,
        &mut output_padded,
    );
    (output_naive.cpu_data, output_shared.cpu_data, output_padded.cpu_data)
}

/// Decides the convolution self-check: whether a computed reference output,
/// given as single-precision bit patterns, reproduces the hand-verified
/// expected array word for word.
pub fn test_ground_truth(computed: &Vec<u32>) -> (correct: bool)
    ensures
        correct <==> computed@ == ground_truth_bits(),
{
    let expected = ground_truth_output();
    crate::utility::words_equal(computed, &expected)
}

} // verus!
