//! Launch geometry: grid and block dimensions for every kernel.

use vstd::prelude::*;
use vstd::arithmetic::div_mod::lemma_fundamental_div_mod;
use vstd::arithmetic::div_mod::lemma_mod_bound;

verus! {

/// Threads per block of the vector-add kernel.
pub const VECTOR_ADD_THREADS_PER_BLOCK: u32 = 256;

/// Number of warps' worth of threads a block must be a whole multiple of.
pub const WARP_SIZE: u32 = 32;

/// The shape of one kernel launch, as handed to the driver: grid size in
/// blocks, block size in threads (both `(x, y, z)`), and dynamic shared memory.
#[derive(Clone, Copy, Debug, PartialEq, Eq)]
pub struct LaunchDims {
    pub grid_dim: (u32, u32, u32),
    pub block_dim: (u32, u32, u32),
    pub shared_mem_bytes: u32,
}

/// Smallest number of blocks of `per_block` items that holds `total` items.
pub open spec fn blocks_needed(total: int, per_block: int) -> int {
    (total + (per_block - 1)) / per_block
}

/// Block `b` is inside the grid exactly when it starts before the end of the
/// data: no item is left without a block and no block is left without an item.
pub proof fn lemma_blocks_needed(total: int, per_block: int, b: int)
    requires
        0 <= total,
        0 < per_block,
        0 <= b,
    ensures
        b < blocks_needed(total, per_block) <==> b * per_block < total,
        0 <= blocks_needed(total, per_block),
{
    let x = total + per_block - 1;
    let q = x / per_block;
    let r = x % per_block;
    lemma_fundamental_div_mod(x, per_block);
    lemma_mod_bound(x, per_block);
    assert(b < q <==> b * per_block < total) by (nonlinear_arith)
        requires
            x == per_block * q + r,
            0 <= r < per_block,
            x == total + per_block - 1,
            0 < per_block,
            0 <= b,
    ;
    assert(0 <= q) by (nonlinear_arith)
        requires
            x == per_block * q + r,
            0 <= r < per_block,
            x >= 0,
            0 < per_block,
    ;
}

/// Every item `i` of the data falls in block `i / per_block`, which lies
/// inside the grid and whose range of items contains `i`.
pub proof fn lemma_item_has_block(total: int, per_block: int, i: int)
    requires
        0 <= i < total,
        0 < per_block,
    ensures
        0 <= i / per_block < blocks_needed(total, per_block),
        (i / per_block) * per_block <= i < (i / per_block + 1) * per_block,
{
    let b = i / per_block;
    let r = i % per_block;
    lemma_fundamental_div_mod(i, per_block);
    lemma_mod_bound(i, per_block);
    assert(0 <= b && b * per_block <= i < (b + 1) * per_block) by (nonlinear_arith)
        requires
            i == per_block * b + r,
            0 <= r < per_block,
            0 <= i,
            0 < per_block,
    ;
    lemma_blocks_needed(total, per_block, b);
}

/// `ceil(total / per_block)`, computed as the benchmarks do.
pub fn ceil_div(total: u32, per_block: u32) -> (r: u32)
    requires
        per_block > 0,
        total + per_block - 1 <= u32::MAX,
    ensures
        r == blocks_needed(total as int, per_block as int),
{
    (total + (per_block - 1)) / per_block
}

/// One-dimensional launch of the vector-add kernel over `num_elements`
/// elements, `threads_per_block` threads to a block, one element per thread.
pub fn vector_add_dims(num_elements: u32, threads_per_block: u32) -> (d: LaunchDims)
    requires
        threads_per_block > 0,
        num_elements + threads_per_block - 1 <= u32::MAX,
    ensures
        d.grid_dim == (blocks_needed(num_elements as int, threads_per_block as int) as u32, 1u32, 1u32),
        d.block_dim == (threads_per_block, 1u32, 1u32),
        d.shared_mem_bytes == 0,
{
    let blocks_per_grid = ceil_div(num_elements, threads_per_block);
    LaunchDims {
        grid_dim: (blocks_per_grid, 1, 1),
        block_dim: (threads_per_block, 1, 1),
        shared_mem_bytes: 0,
    }
}

/// Every element of the vector is handled by some thread of the grid that
/// `vector_add_dims` describes, and the last block still has work.
pub proof fn lemma_vector_add_covers(num_elements: int, threads_per_block: int, i: int)
    requires
        0 <= i < num_elements,
        0 < threads_per_block,
    ensures
        0 <= i / threads_per_block < blocks_needed(num_elements, threads_per_block),
        (blocks_needed(num_elements, threads_per_block) - 1) * threads_per_block < num_elements,
        num_elements <= blocks_needed(num_elements, threads_per_block) * threads_per_block,
{
    lemma_item_has_block(num_elements, threads_per_block, i);
    let g = blocks_needed(num_elements, threads_per_block);
    lemma_blocks_needed(num_elements, threads_per_block, g - 1);
    lemma_blocks_needed(num_elements, threads_per_block, g);
    assert(g * threads_per_block == (g - 1) * threads_per_block + threads_per_block)
        by (nonlinear_arith);
}

/// Launch of the element-wise f32 to f16 conversion kernel: a fixed grid of
/// 256 blocks of 256 threads, whatever the number of elements.
pub fn f16_convert_dims() -> (d: LaunchDims)
    ensures
        d.grid_dim == (256u32, 1u32, 1u32),
        d.block_dim == (256u32, 1u32, 1u32),
        d.shared_mem_bytes == 0,
{
    LaunchDims { grid_dim: (256, 1, 1), block_dim: (256, 1, 1), shared_mem_bytes: 0 }
}

/// The matrix-multiplication kernels of the benchmarks.
#[derive(Clone, Copy, Debug, PartialEq, Eq, Structural)]
pub enum MatmulKernel {
    /// One thread per output element, 16 x 16 blocks.
    Naive,
    /// Coalesced tiling, 128 x 64 outputs per block, 8 per thread.
    Tiled,
    /// Shared-memory tiling, 32 x 32 outputs per block, 1 per thread.
    Tiled32,
    /// Wide tiling, 128 x 128 outputs per block, 16 per thread.
    Tiled128,
    /// Double-buffered tiling, 64 x 64 outputs per block, 4 per thread.
    TiledDoubleBuffered,
    /// Tensor-core (WMMA) kernel on half-precision inputs, 64 x 64 outputs
    /// per block of 16 warps.
    TensorCore,
}

impl MatmulKernel {
    /// `(rows, cols)` of the output tile that one block computes.
    pub open spec fn tile_shape(self) -> (u32, u32) {
        match self {
            MatmulKernel::Naive => (16, 16),
            MatmulKernel::Tiled => (128, 64),
            MatmulKernel::Tiled32 => (32, 32),
            MatmulKernel::Tiled128 => (128, 128),
            MatmulKernel::TiledDoubleBuffered => (64, 64),
            MatmulKernel::TensorCore => (64, 64),
        }
    }

    /// `(x, y, z)` threads of one block.
    pub open spec fn threads_shape(self) -> (u32, u32, u32) {
        match self {
            MatmulKernel::Naive => (16, 16, 1),
            MatmulKernel::TensorCore => (32, 16, 1),
            _ => (32, 32, 1),
        }
    }

    /// Threads in one block.
    pub open spec fn thread_count(self) -> int {
        self.threads_shape().0 * self.threads_shape().1 * self.threads_shape().2
    }

    /// Output elements each thread computes.
    pub open spec fn outputs_per_thread_spec(self) -> int {
        match self {
            MatmulKernel::Naive => 1,
            MatmulKernel::Tiled => 8,
            MatmulKernel::Tiled32 => 1,
            MatmulKernel::Tiled128 => 16,
            MatmulKernel::TiledDoubleBuffered => 4,
            MatmulKernel::TensorCore => 8,
        }
    }

    /// Name of the kernel's entry point in its PTX module.
    pub open spec fn ptx_name_spec(self) -> Seq<char> {
        match self {
            MatmulKernel::Naive => "matmul_naive"@,
            MatmulKernel::Tiled => "matmul_tiled"@,
            MatmulKernel::Tiled32 => "matmul_tiled_32"@,
            MatmulKernel::Tiled128 => "matmul_tiled_128x128"@,
            MatmulKernel::TiledDoubleBuffered => "matmul_tiled_db"@,
            MatmulKernel::TensorCore => "matmul_tiled_tc"@,
        }
    }

    /// Row label of the kernel in the results table.
    pub open spec fn label_spec(self) -> Seq<char> {
        match self {
            MatmulKernel::Naive => "Naive (1:1)"@,
            MatmulKernel::Tiled => "Tiled (coalesced)"@,
            MatmulKernel::Tiled32 => "Tiled 32×32"@,
            MatmulKernel::Tiled128 => "Tiled 128×128 (16/thread)"@,
            MatmulKernel::TiledDoubleBuffered => "Tiled double-buf (4/thr)"@,
            MatmulKernel::TensorCore => "Tensor Core (WMMA)"@,
        }
    }

    /// `(rows, cols)` of the output tile of one block.
    pub fn tile(&self) -> (r: (u32, u32))
        ensures
            r == self.tile_shape(),
    {
        match self {
            MatmulKernel::Naive => (16, 16),
            MatmulKernel::Tiled => (128, 64),
            MatmulKernel::Tiled32 => (32, 32),
            MatmulKernel::Tiled128 => (128, 128),
            MatmulKernel::TiledDoubleBuffered => (64, 64),
            MatmulKernel::TensorCore => (64, 64),
        }
    }

    /// `(x, y, z)` threads of one block.
    pub fn block_dim(&self) -> (r: (u32, u32, u32))
        ensures
            r == self.threads_shape(),
    {
        match self {
            MatmulKernel::Naive => (16, 16, 1),
            MatmulKernel::TensorCore => (32, 16, 1),
            _ => (32, 32, 1),
        }
    }

    /// Output elements each thread of a block computes.
    pub fn outputs_per_thread(&self) -> (r: u32)
        ensures
            r == self.outputs_per_thread_spec(),
            r * self.thread_count() == self.tile_shape().0 * self.tile_shape().1,
    {
        match self {
            MatmulKernel::Naive => 1,
            MatmulKernel::Tiled => 8,
            MatmulKernel::Tiled32 => 1,
            MatmulKernel::Tiled128 => 16,
            MatmulKernel::TiledDoubleBuffered => 4,
            MatmulKernel::TensorCore => 8,
        }
    }

    /// Name of the kernel's entry point in its PTX module.
    pub fn ptx_name(&self) -> (r: &'static str)
        ensures
            r@ == self.ptx_name_spec(),
    {
        match self {
            MatmulKernel::Naive => "matmul_naive",
            MatmulKernel::Tiled => "matmul_tiled",
            MatmulKernel::Tiled32 => "matmul_tiled_32",
            MatmulKernel::Tiled128 => "matmul_tiled_128x128",
            MatmulKernel::TiledDoubleBuffered => "matmul_tiled_db",
            MatmulKernel::TensorCore => "matmul_tiled_tc",
        }
    }

    /// Row label of the kernel in the results table.
    pub fn label(&self) -> (r: &'static str)
        ensures
            r@ == self.label_spec(),
    {
        match self {
            MatmulKernel::Naive => "Naive (1:1)",
            MatmulKernel::Tiled => "Tiled (coalesced)",
            MatmulKernel::Tiled32 => "Tiled 32×32",
            MatmulKernel::Tiled128 => "Tiled 128×128 (16/thread)",
            MatmulKernel::TiledDoubleBuffered => "Tiled double-buf (4/thr)",
            MatmulKernel::TensorCore => "Tensor Core (WMMA)",
        }
    }

    /// Two-dimensional launch of this kernel for an `m x n` output: the grid
    /// has one block per output tile, columns along `x` and rows along `y`.
    pub fn launch_dims(&self, m: u32, n: u32) -> (d: LaunchDims)
        requires
            m + self.tile_shape().0 - 1 <= u32::MAX,
            n + self.tile_shape().1 - 1 <= u32::MAX,
        ensures
            d.grid_dim == (
                blocks_needed(n as int, self.tile_shape().1 as int) as u32,
                blocks_needed(m as int, self.tile_shape().0 as int) as u32,
                1u32,
            ),
            d.block_dim == self.threads_shape(),
            d.shared_mem_bytes == 0,
    {
        let (rows, cols) = self.tile();
        LaunchDims {
            grid_dim: (ceil_div(n, cols), ceil_div(m, rows), 1),
            block_dim: self.block_dim(),
            shared_mem_bytes: 0,
        }
    }
}

/// The CUDA-core kernels of the matrix-multiplication benchmark, in the order
/// in which they are run and reported; the first is the baseline of the
/// speedup column.
pub fn cuda_core_kernels() -> (r: Vec<MatmulKernel>)
    ensures
        r@ == seq![
            MatmulKernel::Naive,
            MatmulKernel::Tiled,
            MatmulKernel::Tiled32,
            MatmulKernel::Tiled128,
            MatmulKernel::TiledDoubleBuffered,
        ],
{
    vec![
        MatmulKernel::Naive,
        MatmulKernel::Tiled,
        MatmulKernel::Tiled32,
        MatmulKernel::Tiled128,
        MatmulKernel::TiledDoubleBuffered,
    ]
}

/// Every block of every kernel is made of whole warps, and its tile splits
/// evenly among its threads.
pub proof fn lemma_kernel_shape(k: MatmulKernel)
    ensures
        k.thread_count() % (WARP_SIZE as int) == 0,
        k.outputs_per_thread_spec() * k.thread_count() == k.tile_shape().0 * k.tile_shape().1,
        k.threads_shape().2 == 1,
{
}

/// For the grid of `launch_dims(m, n)`: every output element `(row, col)` is
/// computed by a block inside the grid whose tile contains it, and the last
/// block along each axis still has output to compute.
pub proof fn lemma_matmul_grid_covers(k: MatmulKernel, m: int, n: int, row: int, col: int)
    requires
        0 <= row < m,
        0 <= col < n,
    ensures
        0 <= col / (k.tile_shape().1 as int) < blocks_needed(n, k.tile_shape().1 as int),
        0 <= row / (k.tile_shape().0 as int) < blocks_needed(m, k.tile_shape().0 as int),
        (col / (k.tile_shape().1 as int)) * k.tile_shape().1 <= col
            < (col / (k.tile_shape().1 as int) + 1) * k.tile_shape().1,
        (row / (k.tile_shape().0 as int)) * k.tile_shape().0 <= row
            < (row / (k.tile_shape().0 as int) + 1) * k.tile_shape().0,
        (blocks_needed(n, k.tile_shape().1 as int) - 1) * k.tile_shape().1 < n,
        (blocks_needed(m, k.tile_shape().0 as int) - 1) * k.tile_shape().0 < m,
{
    let rows = k.tile_shape().0 as int;
    let cols = k.tile_shape().1 as int;
    lemma_item_has_block(n, cols, col);
    lemma_item_has_block(m, rows, row);
    lemma_blocks_needed(n, cols, blocks_needed(n, cols) - 1);
    lemma_blocks_needed(m, rows, blocks_needed(m, rows) - 1);
}

} // verus!
