# cuda_matmul

Host-side planning for a set of CUDA benchmarks (vector add, five CUDA-core
matrix-multiplication kernels and one tensor-core kernel), verified with Verus.

- `src/launch.rs`: grid and block dimensions of every kernel, kernel names and
  report labels, and proofs that each grid covers its data with no idle block
  and that every block is made of whole warps sharing its tile evenly.
- `src/workload.rs`: the deterministic input matrices and the flop count of a
  multiplication.
- `app/main.rs`: the benchmark program (device memory, kernel launches through
  `cudarc`, timing, the f32 reference product and the report). It reads the PTX
  modules from `$PTX_DIR` (default `ptx/`).
