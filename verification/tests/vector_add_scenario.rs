//! The end-to-end vector-addition scenario, host side: inputs `a[i] = i` and
//! `b[i] = 0.1 * i` for `i` in `[0, 100)`, dispatched with block size 32 over
//! 4 grid blocks, must produce `a[i] + b[i]` for every element within the
//! equivalence tolerance of 0.001. (The kernel dispatch itself needs a
//! device; this checks the grid geometry and the reference sum the dispatch
//! is compared against.)

use gpu_hand_in::utility::launch_blocks;
use gpu_hand_in::vector_add::VECTOR_ADD_BLOCK_SIZE;

#[test]
fn vector_add_scenario_uses_four_blocks_of_32() {
    assert_eq!(VECTOR_ADD_BLOCK_SIZE, 32);
    assert_eq!(launch_blocks(100, VECTOR_ADD_BLOCK_SIZE), 4);
}

#[test]
fn vector_add_scenario_sums_within_tolerance() {
    let element_count = 100usize;
    let input_a: Vec<f32> = (0..element_count).map(|e| e as f32).collect();
    let input_b: Vec<f32> = (0..element_count).map(|e| e as f32 * 0.1).collect();
    let mut output = vec![0.0f32; element_count];
    for i in 0..element_count {
        output[i] = input_a[i] + input_b[i];
    }
    for i in 0..element_count {
        let expected = i as f32 + 0.1 * i as f32;
        assert!(
            (output[i] - expected).abs() <= 0.001,
            "element {i} is {} but {expected} was expected",
            output[i]
        );
    }
}
