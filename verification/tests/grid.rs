//! Grid-size computation: the block count is the ceiling of the problem size
//! over the block size, and always covers every element.

use gpu_hand_in::utility::launch_blocks;

#[test]
fn launch_blocks_exact_multiples() {
    assert_eq!(launch_blocks(32, 32), 1);
    assert_eq!(launch_blocks(64, 32), 2);
    assert_eq!(launch_blocks(1_000_000, 32), 31_250);
}

#[test]
fn launch_blocks_rounds_up() {
    assert_eq!(launch_blocks(1, 32), 1);
    assert_eq!(launch_blocks(31, 32), 1);
    assert_eq!(launch_blocks(33, 32), 2);
    assert_eq!(launch_blocks(100, 32), 4);
    assert_eq!(launch_blocks(1710, 16), 107);
    assert_eq!(launch_blocks(3512, 16), 220);
}

#[test]
fn launch_blocks_empty_problem() {
    assert_eq!(launch_blocks(0, 32), 0);
    assert_eq!(launch_blocks(0, 1), 0);
}

#[test]
fn launch_blocks_covers_every_element() {
    for &n in &[0usize, 1, 5, 31, 32, 33, 100, 255, 256, 1000, 12345] {
        for &b in &[1usize, 2, 16, 32, 64, 256] {
            let g = launch_blocks(n, b);
            assert!(g * b >= n, "grid {g} of blocks {b} does not cover {n}");
            if n > 0 {
                assert!((g - 1) * b < n, "grid {g} of blocks {b} is too large for {n}");
            }
            assert_eq!(g, (n + b - 1) / b);
        }
    }
}
