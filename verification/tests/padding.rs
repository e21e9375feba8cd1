//! Padding: zero-extension keeps every original word in place, the padded
//! square dimension is the largest rounded-up axis, and padding then
//! extracting reproduces the unpadded numerical result element for element.

use gpu_hand_in::convolution::pad_signal;
use gpu_hand_in::matrix_multiplication::extract_submatrix;
use gpu_hand_in::matrix_multiplication::pad_matrix;
use gpu_hand_in::matrix_multiplication::padded_square_dim;

fn to_bits(values: &[f32]) -> Vec<u32> {
    values.iter().map(|v| v.to_bits()).collect()
}

fn from_bits(words: &[u32]) -> Vec<f32> {
    words.iter().map(|w| f32::from_bits(*w)).collect()
}

#[test]
fn pad_matrix_places_words_and_zeros() {
    let data: Vec<u32> = vec![1, 2, 3, 4, 5, 6];
    let padded = pad_matrix(&data, 2, 3, 4);
    assert_eq!(
        padded,
        vec![1, 2, 3, 0, 4, 5, 6, 0, 0, 0, 0, 0, 0, 0, 0, 0]
    );
}

#[test]
fn extract_submatrix_drops_padding() {
    let data: Vec<u32> = vec![1, 2, 3, 0, 4, 5, 6, 0, 0, 0, 0, 0, 0, 0, 0, 0];
    let extracted = extract_submatrix(&data, 4, 2, 3);
    assert_eq!(extracted, vec![1, 2, 3, 4, 5, 6]);
}

#[test]
fn pad_then_extract_is_identity() {
    let data: Vec<u32> = (1..=12).collect();
    let padded = pad_matrix(&data, 4, 3, 16);
    assert_eq!(padded.len(), 256);
    let back = extract_submatrix(&padded, 16, 4, 3);
    assert_eq!(back, data);
}

#[test]
fn padded_dispatch_data_reproduces_unpadded_product() {
    // The literal self-check product, computed once unpadded and once over
    // square zero-padded copies, with the logical sub-rectangle extracted:
    // the two must agree element for element.
    let left = [1.0f32, 0.0, 1.0, 2.0, 1.0, 1.0, 0.0, 1.0, 1.0, 1.0, 1.0, 2.0];
    let right = [1.0f32, 2.0, 1.0, 2.0, 3.0, 1.0, 4.0, 2.0, 2.0];
    let (m, n, k) = (4usize, 3usize, 3usize);
    let dim = padded_square_dim(m, n, k, 16);
    assert_eq!(dim, 16);

    let left_padded = from_bits(&pad_matrix(&to_bits(&left), m, n, dim));
    let right_padded = from_bits(&pad_matrix(&to_bits(&right), n, k, dim));

    let mut unpadded = vec![0.0f32; m * k];
    for row in 0..m {
        for col in 0..k {
            for inner in 0..n {
                unpadded[row * k + col] += left[row * n + inner] * right[inner * k + col];
            }
        }
    }
    let mut padded_product = vec![0.0f32; dim * dim];
    for row in 0..dim {
        for col in 0..dim {
            for inner in 0..dim {
                padded_product[row * dim + col] +=
                    left_padded[row * dim + inner] * right_padded[inner * dim + col];
            }
        }
    }
    let extracted = extract_submatrix(&to_bits(&padded_product), dim, m, k);
    assert_eq!(extracted, to_bits(&unpadded));
}

#[test]
fn padded_square_dim_takes_largest_rounded_axis() {
    assert_eq!(padded_square_dim(1710, 241, 3512, 16), 3520);
    assert_eq!(padded_square_dim(30, 28, 29, 32), 32);
    assert_eq!(padded_square_dim(16, 16, 16, 16), 16);
    assert_eq!(padded_square_dim(17, 1, 1, 16), 32);
    assert_eq!(padded_square_dim(0, 0, 0, 16), 0);
}

#[test]
fn pad_signal_zero_extends_both_sides() {
    let signal: Vec<u32> = vec![7, 8, 9];
    assert_eq!(pad_signal(&signal, 2), vec![0, 0, 7, 8, 9, 0, 0]);
    assert_eq!(pad_signal(&signal, 0), vec![7, 8, 9]);
    let empty: Vec<u32> = Vec::new();
    assert_eq!(pad_signal(&empty, 1), vec![0, 0]);
}
