use cuda_matmul::launch::{
    ceil_div, cuda_core_kernels, f16_convert_dims, vector_add_dims, LaunchDims, MatmulKernel,
    VECTOR_ADD_THREADS_PER_BLOCK, WARP_SIZE,
};
use cuda_matmul::workload::{MATMUL_SIZE, VECTOR_ADD_ELEMENTS};

const ALL: [MatmulKernel; 6] = [
    MatmulKernel::Naive,
    MatmulKernel::Tiled,
    MatmulKernel::Tiled32,
    MatmulKernel::Tiled128,
    MatmulKernel::TiledDoubleBuffered,
    MatmulKernel::TensorCore,
];

#[test]
fn ceil_div_exact_and_rounding() {
    assert_eq!(ceil_div(1024, 16), 64);
    assert_eq!(ceil_div(1025, 16), 65);
    assert_eq!(ceil_div(1, 16), 1);
    assert_eq!(ceil_div(0, 16), 0);
    assert_eq!(ceil_div(u32::MAX - 15, 16), 268435455);
}

#[test]
fn vector_add_launch_matches_benchmark() {
    let d = vector_add_dims(VECTOR_ADD_ELEMENTS, VECTOR_ADD_THREADS_PER_BLOCK);
    assert_eq!(
        d,
        LaunchDims { grid_dim: (40, 1, 1), block_dim: (256, 1, 1), shared_mem_bytes: 0 }
    );
}

#[test]
fn vector_add_grid_covers_every_element() {
    for n in [1u32, 255, 256, 257, 10_000, 65_536] {
        let d = vector_add_dims(n, 256);
        let blocks = d.grid_dim.0 as u64;
        assert!(blocks * 256 >= n as u64);
        assert!((blocks - 1) * 256 < n as u64);
    }
}

#[test]
fn matmul_launches_for_square_1024() {
    let m = MATMUL_SIZE;
    let expect = [
        ((64, 64, 1), (16, 16, 1)),
        ((16, 8, 1), (32, 32, 1)),
        ((32, 32, 1), (32, 32, 1)),
        ((8, 8, 1), (32, 32, 1)),
        ((16, 16, 1), (32, 32, 1)),
        ((16, 16, 1), (32, 16, 1)),
    ];
    for (k, (grid, block)) in ALL.iter().zip(expect.iter()) {
        let d = k.launch_dims(m, m);
        assert_eq!(d.grid_dim, *grid, "{:?}", k);
        assert_eq!(d.block_dim, *block, "{:?}", k);
        assert_eq!(d.shared_mem_bytes, 0);
    }
}

#[test]
fn matmul_launch_for_ragged_shape() {
    // 100 rows, 200 columns: the x axis follows the columns.
    let d = MatmulKernel::Tiled.launch_dims(100, 200);
    assert_eq!(d.grid_dim, (4, 1, 1));
    let d = MatmulKernel::Naive.launch_dims(17, 33);
    assert_eq!(d.grid_dim, (3, 2, 1));
}

#[test]
fn matmul_grid_covers_every_output() {
    for k in ALL {
        let (rows, cols) = k.tile();
        for (m, n) in [(1u32, 1u32), (100, 200), (1024, 1024), (129, 65)] {
            let d = k.launch_dims(m, n);
            assert!(d.grid_dim.0 * cols >= n && (d.grid_dim.0 - 1) * cols < n);
            assert!(d.grid_dim.1 * rows >= m && (d.grid_dim.1 - 1) * rows < m);
        }
    }
}

#[test]
fn kernel_shapes_split_evenly_into_warps() {
    let per_thread = [1u32, 8, 1, 16, 4, 8];
    for (k, p) in ALL.iter().zip(per_thread.iter()) {
        let (x, y, z) = k.block_dim();
        let threads = x * y * z;
        assert_eq!(threads % WARP_SIZE, 0);
        assert_eq!(k.outputs_per_thread(), *p);
        let (rows, cols) = k.tile();
        assert_eq!(p * threads, rows * cols);
    }
    // The tensor-core block is 16 warps.
    let (x, y, z) = MatmulKernel::TensorCore.block_dim();
    assert_eq!(x * y * z / WARP_SIZE, 16);
}

#[test]
fn kernel_names_and_labels() {
    let names: Vec<&str> = ALL.iter().map(|k| k.ptx_name()).collect();
    assert_eq!(
        names,
        vec![
            "matmul_naive",
            "matmul_tiled",
            "matmul_tiled_32",
            "matmul_tiled_128x128",
            "matmul_tiled_db",
            "matmul_tiled_tc"
        ]
    );
    assert_eq!(MatmulKernel::Naive.label(), "Naive (1:1)");
    assert_eq!(MatmulKernel::Tiled.label(), "Tiled (coalesced)");
    assert_eq!(MatmulKernel::Tiled32.label(), "Tiled 32×32");
    assert_eq!(MatmulKernel::Tiled128.label(), "Tiled 128×128 (16/thread)");
    assert_eq!(MatmulKernel::TiledDoubleBuffered.label(), "Tiled double-buf (4/thr)");
    assert_eq!(MatmulKernel::TensorCore.label(), "Tensor Core (WMMA)");
}

#[test]
fn cuda_core_kernels_in_report_order() {
    assert_eq!(cuda_core_kernels(), ALL[..5].to_vec());
}

#[test]
fn f16_convert_launch_is_fixed() {
    assert_eq!(
        f16_convert_dims(),
        LaunchDims { grid_dim: (256, 1, 1), block_dim: (256, 1, 1), shared_mem_bytes: 0 }
    );
}
