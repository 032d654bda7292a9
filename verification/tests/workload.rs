use cuda_matmul::workload::{left_input, matmul_flops, right_input, MATMUL_SIZE};

#[test]
fn left_input_pattern() {
    let a = left_input(300);
    assert_eq!(a.len(), 300);
    assert_eq!(a[0], 0);
    assert_eq!(a[126], 126);
    assert_eq!(a[127], 0);
    assert_eq!(a[200], 73);
    for (i, x) in a.iter().enumerate() {
        assert_eq!(*x as usize, i % 127);
    }
}

#[test]
fn right_input_pattern() {
    let b = right_input(600);
    assert_eq!(b.len(), 600);
    assert_eq!(b[0], 0);
    assert_eq!(b[1], 3);
    assert_eq!(b[85], 0);
    assert_eq!(b[100], 45);
    for (i, x) in b.iter().enumerate() {
        assert_eq!(*x as usize, (i * 3) % 255);
    }
}

#[test]
fn empty_inputs() {
    assert!(left_input(0).is_empty());
    assert!(right_input(0).is_empty());
}

#[test]
fn full_size_inputs() {
    let n = (MATMUL_SIZE as usize) * (MATMUL_SIZE as usize);
    let a = left_input(n);
    let b = right_input(n);
    assert_eq!(a.len(), n);
    assert_eq!(b.len(), n);
    assert_eq!(a[n - 1] as usize, (n - 1) % 127);
    assert_eq!(b[n - 1] as usize, ((n - 1) * 3) % 255);
    assert!(a.iter().all(|x| *x < 127));
    assert!(b.iter().all(|x| *x < 255));
}

#[test]
fn flop_counts() {
    assert_eq!(matmul_flops(1024, 1024, 1024), 2_147_483_648);
    assert_eq!(matmul_flops(2, 3, 4), 48);
    assert_eq!(matmul_flops(0, 1024, 1024), 0);
    let max = u32::MAX as u128;
    assert_eq!(matmul_flops(u32::MAX, u32::MAX, u32::MAX), 2 * max * max * max);
}
