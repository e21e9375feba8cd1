//! The CPU reference implementations reproduce the literal, hand-verified
//! self-check cases, and the crate's self-check deciders accept exactly the
//! words those cases produce.

use gpu_hand_in::convolution;
use gpu_hand_in::matrix_multiplication;

/// The reference 1-D "same"-length convolution, selecting the in-range filter
/// indices through the crate's boundary arithmetic.
fn convolution_reference(signal: &[f32], filter: &[f32]) -> Vec<f32> {
    let offset = filter.len() / 2;
    let mut output = vec![0.0f32; signal.len()];
    for i in 0..signal.len() {
        let (lo, hi) = convolution::filter_support(signal.len(), filter.len(), i);
        for k in lo..hi {
            output[i] += signal[i + k - offset] * filter[k];
        }
    }
    output
}

/// The reference dense row-major matrix product.
fn matrix_multiplication_reference(
    left: &[f32],
    right: &[f32],
    m: usize,
    n: usize,
    k: usize,
) -> Vec<f32> {
    let mut output = vec![0.0f32; m * k];
    for row in 0..m {
        for col in 0..k {
            for inner in 0..n {
                output[row * k + col] += left[row * n + inner] * right[inner * k + col];
            }
        }
    }
    output
}

fn to_bits(values: &[f32]) -> Vec<u32> {
    values.iter().map(|v| v.to_bits()).collect()
}

#[test]
fn convolution_reference_matches_literal_case() {
    let signal = [1.0f32, 1.0, 1.0, 1.0, 1.0];
    let filter = [0.25f32, 0.5, -0.25];
    let expected = [0.25f32, 0.5, 0.5, 0.5, 0.75];
    let output = convolution_reference(&signal, &filter);
    assert_eq!(output.len(), expected.len());
    for i in 0..expected.len() {
        assert!((output[i] - expected[i]).abs() <= 0.00001, "element {i} is {}", output[i]);
    }
}

#[test]
fn convolution_self_check_accepts_reference_output() {
    let signal = [1.0f32, 1.0, 1.0, 1.0, 1.0];
    let filter = [0.25f32, 0.5, -0.25];
    let output = convolution_reference(&signal, &filter);
    assert!(convolution::test_ground_truth(&to_bits(&output)));
}

#[test]
fn convolution_self_check_rejects_wrong_output() {
    let wrong = to_bits(&[0.25f32, 0.5, 0.5, 0.5, 0.5]);
    assert!(!convolution::test_ground_truth(&wrong));
    let short = to_bits(&[0.25f32, 0.5]);
    assert!(!convolution::test_ground_truth(&short));
}

#[test]
fn matrix_multiplication_reference_matches_literal_case() {
    let left = [1.0f32, 0.0, 1.0, 2.0, 1.0, 1.0, 0.0, 1.0, 1.0, 1.0, 1.0, 2.0];
    let right = [1.0f32, 2.0, 1.0, 2.0, 3.0, 1.0, 4.0, 2.0, 2.0];
    let expected = [5.0f32, 4.0, 3.0, 8.0, 9.0, 5.0, 6.0, 5.0, 3.0, 11.0, 9.0, 6.0];
    let output = matrix_multiplication_reference(&left, &right, 4, 3, 3);
    assert_eq!(output.len(), expected.len());
    for i in 0..expected.len() {
        assert!((output[i] - expected[i]).abs() <= 0.00001, "element {i} is {}", output[i]);
    }
}

#[test]
fn matrix_multiplication_self_check_accepts_reference_output() {
    let left = [1.0f32, 0.0, 1.0, 2.0, 1.0, 1.0, 0.0, 1.0, 1.0, 1.0, 1.0, 2.0];
    let right = [1.0f32, 2.0, 1.0, 2.0, 3.0, 1.0, 4.0, 2.0, 2.0];
    let output = matrix_multiplication_reference(&left, &right, 4, 3, 3);
    assert!(matrix_multiplication::test_ground_truth(&to_bits(&output)));
}

#[test]
fn matrix_multiplication_self_check_rejects_wrong_output() {
    let wrong = to_bits(&[
        5.0f32, 4.0, 3.0, 8.0, 9.0, 5.0, 6.0, 5.0, 3.0, 11.0, 9.0, 7.0,
    ]);
    assert!(!matrix_multiplication::test_ground_truth(&wrong));
}
