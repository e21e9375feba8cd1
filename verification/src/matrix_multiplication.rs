//! Dense matrix multiplication support: the self-check decision, and the
//! square zero-padding used by the bounds-check-free kernel variant.
//!
//! Matrices are row-major sequences of 32-bit words (single-precision bit
//! patterns). Padding and extraction move those words without looking at
//! them, so both carry exact element-level contracts.

use vstd::prelude::*;
use crate::gpu_vector::GPUVector;
use crate::utility::GPUHandles;
use crate::utility::Uniform;
use crate::utility::div_ceil;

verus! {

/// Threads per workgroup along each axis for the matrix-multiplication
/// kernels: square 16-by-16 tiles.
pub const MATMUL_BLOCK_SIZE: usize = 16;

/// The word that row `r`, column `c` of the `dim x dim` zero-padded copy of a
/// `rows x cols` matrix holds: the original word inside the logical
/// sub-rectangle, the all-zero bit pattern outside it.
pub open spec fn pad_cell(data: Seq<u32>, rows: nat, cols: nat, r: int, c: int) -> u32 {
    if r < rows && c < cols {
        data[r * cols + c]
    } else {
        0u32
    }
}

/// The `dim x dim` zero-padded copy of a `rows x cols` row-major matrix.
pub open spec fn pad_spec(data: Seq<u32>, rows: nat, cols: nat, dim: nat) -> Seq<u32> {
    Seq::new(dim * dim, |i: int| pad_cell(data, rows, cols, i / (dim as int), i % (dim as int)))
}

/// The `rows x cols` sub-rectangle in the top-left corner of a
/// `src_dim x src_dim` row-major matrix.
pub open spec fn extract_spec(data: Seq<u32>, src_dim: nat, rows: nat, cols: nat) -> Seq<u32> {
    Seq::new(rows * cols, |i: int| data[(i / (cols as int)) * src_dim + i % (cols as int)])
}

/// Zero-pads a `rows x cols` row-major matrix into a `dim x dim` one: every
/// original word keeps its row and column, every new cell is the all-zero
/// word.
pub fn pad_matrix(data: &Vec<u32>, rows: usize, cols: usize, dim: usize) -> (padded: Vec<u32>)
    requires
        data@.len() == rows * cols,
        rows <= dim,
        cols <= dim,
        dim * dim <= usize::MAX,
    ensures
        padded@ == pad_spec(data@, rows as nat, cols as nat, dim as nat),
        padded@.len() == dim * dim,
{
    let ghost target = pad_spec(data@, rows as nat, cols as nat, dim as nat);
    proof {
        assert(rows * cols <= dim * dim) by (nonlinear_arith)
            requires
                rows <= dim,
                cols <= dim,
        ;
    }
    let mut padded: Vec<u32> = Vec::new();
    let mut r: usize = 0;
    while r < dim
        invariant
            r <= dim,
            data@.len() == rows * cols,
            rows <= dim,
            cols <= dim,
            rows * cols <= usize::MAX,
            dim * dim <= usize::MAX,
            padded@.len() == r * dim,
            target == pad_spec(data@, rows as nat, cols as nat, dim as nat),
            forall|j: int| 0 <= j < padded@.len() ==> padded@[j] == target[j],
        decreases dim - r,
    {
        let mut c: usize = 0;
        proof {
            assert(r * dim + dim <= dim * dim) by (nonlinear_arith)
                requires
                    r < dim,
            ;
        }
        while c < dim
            invariant
                c <= dim,
                r < dim,
                data@.len() == rows * cols,
                rows <= dim,
                cols <= dim,
                rows * cols <= usize::MAX,
                r * dim + dim <= dim * dim,
                dim * dim <= usize::MAX,
                padded@.len() == r * dim + c,
                target == pad_spec(data@, rows as nat, cols as nat, dim as nat),
                forall|j: int| 0 <= j < padded@.len() ==> padded@[j] == target[j],
            decreases dim - c,
        {
            let value: u32 = if r < rows && c < cols {
                proof {
                    assert(r * cols + c < rows * cols) by (nonlinear_arith)
                        requires
                            r < rows,
                            c < cols,
                    ;
                }
                data[r * cols + c]
            } else {
                0u32
            };
            proof {
                vstd::arithmetic::div_mod::lemma_fundamental_div_mod_converse(
                    (r * dim + c) as int, dim as int, r as int, c as int);
                assert(target[(r * dim + c) as int] == pad_cell(
                    data@, rows as nat, cols as nat, r as int, c as int));
            }
            padded.push(value);
            c = c + 1;
        }
        r = r + 1;
        proof {
            assert((r - 1) * dim + dim == r * dim) by (nonlinear_arith);
        }
    }
    proof {
        assert(dim * dim == padded@.len());
        assert(padded@ =~= target);
    }
    padded
}

/// Copies the logical `rows x cols` sub-rectangle back out of a
/// `src_dim x src_dim` row-major matrix, dropping the padding.
pub fn extract_submatrix(data: &Vec<u32>, src_dim: usize, rows: usize, cols: usize) -> (out: Vec<
    u32,
>)
    requires
        data@.len() == src_dim * src_dim,
        rows <= src_dim,
        cols <= src_dim,
    ensures
        out@ == extract_spec(data@, src_dim as nat, rows as nat, cols as nat),
        out@.len() == rows * cols,
{
    let ghost target = extract_spec(data@, src_dim as nat, rows as nat, cols as nat);
    proof {
        assert(data.len() == data@.len());
        assert(rows * cols <= src_dim * src_dim) by (nonlinear_arith)
            requires
                rows <= src_dim,
                cols <= src_dim,
        ;
    }
    let mut out: Vec<u32> = Vec::new();
    let mut r: usize = 0;
    while r < rows
        invariant
            r <= rows,
            data@.len() == src_dim * src_dim,
            rows <= src_dim,
            cols <= src_dim,
            rows * cols <= usize::MAX,
            src_dim * src_dim <= usize::MAX,
            target == extract_spec(data@, src_dim as nat, rows as nat, cols as nat),
            out@.len() == r * cols,
            forall|j: int| 0 <= j < out@.len() ==> out@[j] == target[j],
        decreases rows - r,
    {
        let mut c: usize = 0;
        proof {
            assert(r * cols + cols <= rows * cols) by (nonlinear_arith)
                requires
                    r < rows,
            ;
        }
        while c < cols
            invariant
                c <= cols,
                r < rows,
                data@.len() == src_dim * src_dim,
                rows <= src_dim,
                cols <= src_dim,
                r * cols + cols <= rows * cols,
                rows * cols <= usize::MAX,
                src_dim * src_dim <= usize::MAX,
                target == extract_spec(data@, src_dim as nat, rows as nat, cols as nat),
                out@.len() == r * cols + c,
                forall|j: int| 0 <= j < out@.len() ==> out@[j] == target[j],
            decreases cols - c,
        {
            proof {
                assert(r * src_dim + c < src_dim * src_dim) by (nonlinear_arith)
                    requires
                        r < rows,
                        rows <= src_dim,
                        c < cols,
                        cols <= src_dim,
                ;
                vstd::arithmetic::div_mod::lemma_fundamental_div_mod_converse(
                    (r * cols + c) as int, cols as int, r as int, c as int);
            }
            let value: u32 = data[r * src_dim + c];
            out.push(value);
            c = c + 1;
        }
        r = r + 1;
        proof {
            assert((r - 1) * cols + cols == r * cols) by (nonlinear_arith);
        }
    }
    proof {
        assert(out@ =~= target);
    }
    out
}

/// Padding then extracting is the identity on the logical matrix: the
/// `rows x cols` sub-rectangle of the `dim x dim` zero-padded copy is,
/// element for element, the original matrix.
pub proof fn lemma_pad_extract_roundtrip(data: Seq<u32>, rows: nat, cols: nat, dim: nat)
    requires
        data.len() == rows * cols,
        rows <= dim,
        cols <= dim,
    ensures
        extract_spec(pad_spec(data, rows, cols, dim), dim, rows, cols) == data,
{
    let padded = pad_spec(data, rows, cols, dim);
    let back = extract_spec(padded, dim, rows, cols);
    assert forall|i: int| 0 <= i < rows * cols implies back[i] == data[i] by {
        assert(rows > 0 && cols > 0) by (nonlinear_arith)
            requires
                0 <= i,
                i < rows * cols,
        ;
        let r = i / (cols as int);
        let c = i % (cols as int);
        vstd::arithmetic::div_mod::lemma_fundamental_div_mod(i, cols as int);
        vstd::arithmetic::div_mod::lemma_mod_bound(i, cols as int);
        assert(r < rows) by (nonlinear_arith)
            requires
                i == cols * r + c,
                0 <= c < cols,
                i < rows * cols,
                r >= 0,
        ;
        assert(r * dim + c < dim * dim) by (nonlinear_arith)
            requires
                0 <= r < rows,
                rows <= dim,
                0 <= c < cols,
                cols <= dim,
        ;
        vstd::arithmetic::div_mod::lemma_fundamental_div_mod_converse(
            r * dim + c, dim as int, r, c);
        assert(padded[r * dim + c] == pad_cell(data, rows, cols, r, c));
        assert(data[r * cols + c] == data[i]) by (nonlinear_arith)
            requires
                i == cols * r + c,
        ;
    }
    assert(back =~= data);
}

/// The uniform square dimension the padded kernel variant runs at: each of
/// the three matrix dimensions rounded up to the next multiple of the tile
/// size, and the largest of the three taken for every axis.
pub open spec fn padded_square_dim_spec(m: nat, n: nat, k: nat, tile: nat) -> nat
    recommends
        tile > 0,
{
    let mp = div_ceil(m, tile) * tile;
    let np = div_ceil(n, tile) * tile;
    let kp = div_ceil(k, tile) * tile;
    if mp >= np && mp >= kp {
        mp
    } else if np >= kp {
        np
    } else {
        kp
    }
}

/// Rounds the three dimensions of an `m x n` by `n x k` product up to the
/// next multiple of the tile size and returns the largest, the side of the
/// square padded problem.
pub fn padded_square_dim(m: usize, n: usize, k: usize, tile: usize) -> (dim: usize)
    requires
        tile > 0,
        m + tile <= usize::MAX,
        n + tile <= usize::MAX,
        k + tile <= usize::MAX,
    ensures
        dim == padded_square_dim_spec(m as nat, n as nat, k as nat, tile as nat),
        dim % tile == 0,
        dim >= m && dim >= n && dim >= k,
        dim < m + tile || dim < n + tile || dim < k + tile,
{
    let mp = round_up_to_multiple(m, tile);
    let np = round_up_to_multiple(n, tile);
    let kp = round_up_to_multiple(k, tile);
    if mp >= np && mp >= kp {
        mp
    } else if np >= kp {
        np
    } else {
        kp
    }
}

/// Rounds `x` up to the next multiple of `tile`.
fn round_up_to_multiple(x: usize, tile: usize) -> (rounded: usize)
    requires
        tile > 0,
        x + tile <= usize::MAX,
    ensures
        rounded == div_ceil(x as nat, tile as nat) * tile,
        rounded % tile == 0,
        x <= rounded < x + tile,
{
    let blocks = crate::utility::launch_blocks(x, tile);
    proof {
        crate::utility::lemma_launch_blocks_cover(x as nat, tile as nat);
        let q = div_ceil(x as nat, tile as nat) as int;
        let t = tile as int;
        assert(q * t >= x);
        if x > 0 {
            assert((q - 1) * t < x);
            assert(q * t == (q - 1) * t + t) by (nonlinear_arith);
            assert(q * t < x + t);
        } else {
            assert(q == 0);
        }
        vstd::arithmetic::div_mod::lemma_mod_multiples_basic(q, t);
        assert((q * t) % t == 0);
    }
    blocks * tile
}

/// Machine-size bounds under which an `m x n` by `n x k` product can be
/// dispatched: the square padded problem must fit addressable memory, and its
/// byte size the device's 64-bit sizes.
pub open spec fn matmul_dims_fit(m: nat, n: nat, k: nat) -> bool {
    let dim = padded_square_dim_spec(m, n, k, MATMUL_BLOCK_SIZE as nat);
    &&& m + MATMUL_BLOCK_SIZE <= usize::MAX
    &&& n + MATMUL_BLOCK_SIZE <= usize::MAX
    &&& k + MATMUL_BLOCK_SIZE <= usize::MAX
    &&& dim * dim <= usize::MAX
    &&& dim * dim * 4 <= u64::MAX
}

/// Dispatches the three matrix-multiplication kernel variants — naive
/// (per-element bounds-checked), tiled (shared-memory tile cache) and padded
/// (bounds-check-free over square zero-padded copies) — on one row-major
/// `m x n` by `n x k` product, and returns the three `m x k` outputs read
/// back, the padded variant's output already un-padded to the logical
/// sub-rectangle.
///
/// The unpadded dispatches carry `(k, m, n)` in the parameter block; the
/// padded dispatch pads all three dimensions up to the single square size
/// `padded_square_dim(m, n, k, 16)` and carries that size in all three slots.
/// Both grids cover `max(m, k)` elements per axis in 16-thread blocks.
pub fn matrix_multiplication(
    handles: &GPUHandles,
    naive_source: &str,
    tiled_source: &str,
    padded_source: &str,
    left_matrix: Vec<u32>,
    right_matrix: Vec<u32>,
    outer_dimension_left: usize,
    inner_dimension: usize,
    outer_dimension_right: usize,
) -> (outputs: (Vec<u32>, Vec<u32>, Vec<u32>))
    requires
        left_matrix@.len() == outer_dimension_left * inner_dimension,
        right_matrix@.len() == inner_dimension * outer_dimension_right,
        matmul_dims_fit(
            outer_dimension_left as nat,
            inner_dimension as nat,
            outer_dimension_right as nat,
        ),
    ensures
        outputs.0@.len() == outer_dimension_left * outer_dimension_right,
        outputs.1@.len() == outer_dimension_left * outer_dimension_right,
        outputs.2@.len() == outer_dimension_left * outer_dimension_right,
{
    let m = outer_dimension_left;
    let n = inner_dimension;
    let k = outer_dimension_right;
    let padded_dim = padded_square_dim(m, n, k, MATMUL_BLOCK_SIZE);
    proof {
        let p = padded_dim as int;
        assert(p <= 0xFFFF_FFFF) by (nonlinear_arith)
            requires
                p * p <= u64::MAX,
                p >= 0,
        ;
        assert(m * n <= p * p && n * k <= p * p && m * k <= p * p) by (nonlinear_arith)
            requires
                0 <= m <= p,
                0 <= n <= p,
                0 <= k <= p,
        ;
    }
    let left_padded = pad_matrix(&left_matrix, m, n, padded_dim);
    let right_padded = pad_matrix(&right_matrix, n, k, padded_dim);
    let uniform = Uniform::new(handles, k, m, n, 0);
    let left_gpu = GPUVector::new(handles, left_matrix, "left_matrix", false);
    let right_gpu = GPUVector::new(handles, right_matrix, "right_matrix", false);
    let output_len = m * k;
    let zeros_naive = crate::utility::zero_words(output_len);
    let mut output_naive = GPUVector::new(handles, zeros_naive, "output", true);
    let zeros_tiled = crate::utility::zero_words(output_len);
    let mut output_tiled = GPUVector::new(handles, zeros_tiled, "output", true);
    let uniform_padded = Uniform::new(handles, padded_dim, padded_dim, padded_dim, 0);
    let left_padded_gpu = GPUVector::new(handles, left_padded, "left_matrix", false);
    let right_padded_gpu = GPUVector::new(handles, right_padded, "right_matrix", false);
    let padded_len = padded_dim * padded_dim;
    let zeros_padded = crate::utility::zero_words(padded_len);
    let mut output_padded = GPUVector::new(handles, zeros_padded, "output", true);
    let max_outer = if m >= k {
        m
    } else {
        k
    };
    let blocks = crate::utility::launch_blocks(max_outer, MATMUL_BLOCK_SIZE);
    proof {
        // Each axis of the unpadded `m x k` output is covered by at least
        // one thread.
        assert(blocks * MATMUL_BLOCK_SIZE >= m && blocks * MATMUL_BLOCK_SIZE >= k);
    }
    crate::utility::run_compute_shader(
        handles,
        MATMUL_BLOCK_SIZE,
        blocks as u32,
        MATMUL_BLOCK_SIZE,
        blocks as u32,
        naive_source,
        "matmul_naive",
        &uniform,
        &left_gpu,
        &right_gpu,
        &mut output_naive,
    );
    crate::utility::run_compute_shader(
        handles,
        MATMUL_BLOCK_SIZE,
        blocks as u32,
        MATMUL_BLOCK_SIZE,
        blocks as u32,
        tiled_source,
        "matmul_tiled",
        &uniform,
        &left_gpu,
        &right_gpu,
        &mut output_tiled,
    );
    crate::utility::run_compute_shader(
        handles,
        MATMUL_BLOCK_SIZE,
        blocks as u32,
        MATMUL_BLOCK_SIZE,
        blocks as u32,
        padded_source,
        "matmul_padded",
        &uniform_padded,
        &left_padded_gpu,
        &right_padded_gpu,
        &mut output_padded,
    );
    let extracted = extract_submatrix(&output_padded.cpu_data, padded_dim, m, k);
    (output_naive.cpu_data, output_tiled.cpu_data, extracted)
}

/// Bit patterns of the hand-verified self-check: the `4 x 3` matrix
/// `[[1,0,1],[2,1,1],[0,1,1],[1,1,2]]` times the `3 x 3` matrix
/// `[[1,2,1],[2,3,1],[4,2,2]]` is `[[5,4,3],[8,9,5],[6,5,3],[11,9,6]]`.
/// Every value is a small integer, so a correct single-precision evaluation
/// reproduces these words exactly.
pub open spec fn ground_truth_bits() -> Seq<u32> {
    seq![
        0x40A00000u32,
        0x40800000u32,
        0x40400000u32,
        0x41000000u32,
        0x41100000u32,
        0x40A00000u32,
        0x40C00000u32,
        0x40A00000u32,
        0x40400000u32,
        0x41300000u32,
        0x41100000u32,
        0x40C00000u32,
    ]
}

/// The expected self-check product, row-major, as single-precision bit
/// patterns.
pub fn ground_truth_output() -> (out: Vec<u32>)
    ensures
        out@ == ground_truth_bits(),
{
    let out: Vec<u32> = vec![
        0x40A00000u32,
        0x40800000u32,
        0x40400000u32,
        0x41000000u32,
        0x41100000u32,
        0x40A00000u32,
        0x40C00000u32,
        0x40A00000u32,
        0x40400000u32,
        0x41300000u32,
        0x41100000u32,
        0x40C00000u32,
    ];
    proof {
        assert(out@ =~= ground_truth_bits());
    }
    out
}

/// Decides the matrix-multiplication self-check: whether a computed reference
/// product, given as single-precision bit patterns, reproduces the
/// hand-verified expected matrix word for word.
pub fn test_ground_truth(computed: &Vec<u32>) -> (correct: bool)
    ensures
        correct <==> computed@ == ground_truth_bits(),
{
    let expected = ground_truth_output();
    crate::utility::words_equal(computed, &expected)
}

} // verus!
