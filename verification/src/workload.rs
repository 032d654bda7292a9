//! The benchmark's workload: its deterministic input matrices and the number
//! of floating-point operations one multiplication performs.

use vstd::prelude::*;
use vstd::arithmetic::div_mod::lemma_mul_mod_noop_left;
use vstd::arithmetic::div_mod::lemma_mod_bound;
use vstd::arithmetic::div_mod::lemma_mod_add_multiples_vanish;

verus! {

/// Side of the square matrices multiplied by the benchmarks.
pub const MATMUL_SIZE: u32 = 1024;

/// Element count of the vector-add benchmark.
pub const VECTOR_ADD_ELEMENTS: u32 = 10_000;

/// Element `i` (row-major) of the left input matrix.
pub open spec fn left_entry(i: int) -> int {
    i % 127
}

/// Element `i` (row-major) of the right input matrix.
pub open spec fn right_entry(i: int) -> int {
    (i * 3) % 255
}

/// The left input matrix, flattened row-major: element `i` is `i mod 127`.
pub fn left_input(len: usize) -> (v: Vec<u32>)
    ensures
        v.len() == len,
        forall|i: int| 0 <= i < len ==> #[trigger] v@[i] == left_entry(i),
        forall|i: int| 0 <= i < len ==> #[trigger] v@[i] == i % 127,
{
    let mut v: Vec<u32> = Vec::with_capacity(len);
    let mut i: usize = 0;
    while i < len
        invariant
            i <= len,
            v.len() == i,
            forall|j: int| 0 <= j < i ==> v@[j] == left_entry(j),
            forall|j: int| 0 <= j < i ==> v@[j] == j % 127,
        decreases len - i,
    {
        let x: usize = i % 127;
        v.push(x as u32);
        i = i + 1;
    }
    v
}

/// The right input matrix, flattened row-major: element `i` is `3i mod 255`.
pub fn right_input(len: usize) -> (v: Vec<u32>)
    ensures
        v.len() == len,
        forall|i: int| 0 <= i < len ==> #[trigger] v@[i] == right_entry(i),
        forall|i: int| 0 <= i < len ==> #[trigger] v@[i] == (3 * i) % 255,
{
    let mut v: Vec<u32> = Vec::with_capacity(len);
    let mut i: usize = 0;
    while i < len
        invariant
            i <= len,
            v.len() == i,
            forall|j: int| 0 <= j < i ==> v@[j] == right_entry(j),
            forall|j: int| 0 <= j < i ==> v@[j] == (3 * j) % 255,
        decreases len - i,
    {
        // 3i can exceed usize for large i; reducing i first gives the same
        // residue without overflow.
        let r: usize = i % 255;
        let x: usize = (r * 3) % 255;
        proof {
            lemma_mul_mod_noop_left(i as int, 3, 255);
            lemma_mod_bound(r as int * 3, 255);
        }
        v.push(x as u32);
        i = i + 1;
    }
    v
}

/// The left matrix counts up from 0 to 126 and then starts over: its first
/// 127 entries are their own indices, and it repeats with period 127 all the
/// way along.
pub proof fn lemma_left_entry_period(i: int)
    requires
        0 <= i,
    ensures
        left_entry(i) == i % 127,
        0 <= left_entry(i) < 127,
        i < 127 ==> left_entry(i) == i,
        left_entry(i + 127) == left_entry(i),
{
    lemma_mod_bound(i, 127);
    lemma_mod_add_multiples_vanish(i, 127);
}

/// The right matrix steps by 3 from 0 to 252 and then starts over: its first
/// 85 entries are three times their index, and it repeats with period 85 all
/// the way along.
pub proof fn lemma_right_entry_period(i: int)
    requires
        0 <= i,
    ensures
        right_entry(i) == (3 * i) % 255,
        0 <= right_entry(i) < 255,
        i < 85 ==> right_entry(i) == 3 * i,
        right_entry(i + 85) == right_entry(i),
{
    lemma_mod_bound(3 * i, 255);
    assert((i + 85) * 3 == 3 * i + 255);
    lemma_mod_add_multiples_vanish(3 * i, 255);
}

/// Floating-point operations of an `m x k` by `k x n` multiplication: one
/// multiply and one add per term of each of the `m * n` dot products.
pub fn matmul_flops(m: u32, n: u32, k: u32) -> (f: u128)
    ensures
        f == 2 * m * n * k,
{
    assert(m * n <= 0xffff_ffff_ffff_ffff) by (nonlinear_arith)
        requires
            m <= 0xffff_ffffu32,
            n <= 0xffff_ffffu32,
    ;
    let mn: u128 = (m as u128) * (n as u128);
    assert(mn * k <= 0xffff_ffff_ffff_ffff_ffff_ffff) by (nonlinear_arith)
        requires
            mn <= 0xffff_ffff_ffff_ffffu128,
            k <= 0xffff_ffffu32,
    ;
    let mnk: u128 = mn * (k as u128);
    assert(2 * m * n * k == 2 * mnk) by (nonlinear_arith)
        requires
            mnk == mn * k,
            mn == m * n,
    ;
    2 * mnk
}

} // verus!
