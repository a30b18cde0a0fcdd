//! Fixed-size chunking of a file's bytes.
//!
//! A file is split into windows of `CHUNK_SIZE` bytes; the last window may
//! be shorter. The same boundaries are used both for hashing (the block
//! list) and for transfer, so concatenating the chunks in order reproduces
//! the file exactly.

use vstd::prelude::*;
use vstd::slice::slice_subrange;

verus! {

/// Size of one upload chunk in bytes (4 MiB).
pub const CHUNK_SIZE: usize = 4 * 1024 * 1024;

/// Number of chunks a file of `size` bytes splits into: `ceil(size / CHUNK_SIZE)`.
pub open spec fn spec_block_count(size: int) -> int {
    (size + CHUNK_SIZE as int - 1) / (CHUNK_SIZE as int)
}

/// Byte offset where chunk `i` starts.
pub open spec fn spec_chunk_start(i: int) -> int {
    i * (CHUNK_SIZE as int)
}

/// Byte offset just past the end of chunk `i` of a file of `size` bytes.
pub open spec fn spec_chunk_end(size: int, i: int) -> int {
    if (i + 1) * (CHUNK_SIZE as int) <= size {
        (i + 1) * (CHUNK_SIZE as int)
    } else {
        size
    }
}

/// The bytes of chunk `i` of `data`.
pub open spec fn spec_chunk(data: Seq<u8>, i: int) -> Seq<u8>
    recommends
        0 <= i < spec_block_count(data.len() as int),
{
    data.subrange(spec_chunk_start(i), spec_chunk_end(data.len() as int, i))
}

/// Every chunk index lies strictly inside the file, and the bounds of each
/// chunk are ordered and within the file.
pub proof fn lemma_chunk_bounds(size: int, i: int)
    requires
        0 <= i < spec_block_count(size),
    ensures
        spec_chunk_start(i) < size,
        spec_chunk_start(i) <= spec_chunk_end(size, i) <= size,
{
    let c = CHUNK_SIZE as int;
    assert(i * c < size) by (nonlinear_arith)
        requires
            c == CHUNK_SIZE as int,
            0 <= i < (size + c - 1) / c,
    {}
    assert(i * c <= spec_chunk_end(size, i)) by (nonlinear_arith)
        requires
            c == CHUNK_SIZE as int,
            i * c < size,
            spec_chunk_end(size, i) == if (i + 1) * c <= size { (i + 1) * c } else { size },
    {}
}

/// Chunk sizes: every chunk but the last is exactly `CHUNK_SIZE` bytes, and
/// the last chunk holds the remaining `size - (count - 1) * CHUNK_SIZE` bytes.
pub proof fn lemma_chunk_len(size: int, i: int)
    requires
        0 <= i < spec_block_count(size),
    ensures
        i + 1 < spec_block_count(size) ==> spec_chunk_end(size, i) - spec_chunk_start(i)
            == CHUNK_SIZE as int,
        i + 1 == spec_block_count(size) ==> spec_chunk_end(size, i) - spec_chunk_start(i)
            == size - i * (CHUNK_SIZE as int),
{
    let c = CHUNK_SIZE as int;
    lemma_chunk_bounds(size, i);
    assert((i + 1) * c == i * c + c) by (nonlinear_arith) {}
    if i + 1 < spec_block_count(size) {
        assert((i + 1) * c <= size) by (nonlinear_arith)
            requires
                c == CHUNK_SIZE as int,
                i + 1 < (size + c - 1) / c,
        {}
    } else {
        assert(size <= (i + 1) * c) by (nonlinear_arith)
            requires
                c == CHUNK_SIZE as int,
                0 <= i,
                i + 1 == (size + c - 1) / c,
        {}
    }
}

proof fn lemma_ceil_div(size: int, c: int)
    requires
        0 <= size,
        0 < c,
    ensures
        (size + c - 1) / c == if size % c == 0 {
            size / c
        } else {
            size / c + 1
        },
{
    assert((size + c - 1) / c == if size % c == 0 {
        size / c
    } else {
        size / c + 1
    }) by (nonlinear_arith)
        requires
            0 <= size,
            0 < c,
    {}
}

/// Number of chunks for a file of `size` bytes.
pub fn block_count(size: u64) -> (r: u64)
    ensures
        r as int == spec_block_count(size as int),
{
    let c = CHUNK_SIZE as u64;
    let q = size / c;
    let rem = size % c;
    proof {
        lemma_ceil_div(size as int, CHUNK_SIZE as int);
        assert(size as int / (CHUNK_SIZE as int) < u64::MAX) by (nonlinear_arith)
            requires
                size <= u64::MAX,
        {}
    }
    if rem == 0 {
        q
    } else {
        q + 1
    }
}

/// Number of chunks of a byte buffer held in memory.
pub fn block_count_of_len(len: usize) -> (r: usize)
    ensures
        r as int == spec_block_count(len as int),
{
    let q = len / CHUNK_SIZE;
    let rem = len % CHUNK_SIZE;
    proof {
        lemma_ceil_div(len as int, CHUNK_SIZE as int);
        assert(len as int / (CHUNK_SIZE as int) < usize::MAX) by (nonlinear_arith)
            requires
                len <= usize::MAX,
        {}
    }
    if rem == 0 {
        q
    } else {
        q + 1
    }
}

/// The bytes of chunk `i` of `data`, with the same boundaries the block
/// list uses.
pub fn chunk_at<'a>(data: &'a [u8], i: usize) -> (r: &'a [u8])
    requires
        (i as int) < spec_block_count(data@.len() as int),
    ensures
        r@ == spec_chunk(data@, i as int),
{
    proof {
        lemma_chunk_bounds(data@.len() as int, i as int);
        assert(i as int * (CHUNK_SIZE as int) < data@.len());
        assert((i as int + 1) * (CHUNK_SIZE as int) == i as int * (CHUNK_SIZE as int)
            + CHUNK_SIZE as int) by (nonlinear_arith) {}
    }
    let dlen = data.len();
    let start = i * CHUNK_SIZE;
    let end = if dlen - start >= CHUNK_SIZE {
        start + CHUNK_SIZE
    } else {
        dlen
    };
    slice_subrange(data, start, end)
}

/// The first `n` chunks of `data`, concatenated in order.
pub open spec fn spec_concat_chunks(data: Seq<u8>, n: nat) -> Seq<u8>
    decreases n,
{
    if n == 0 {
        Seq::empty()
    } else {
        spec_concat_chunks(data, (n - 1) as nat) + spec_chunk(data, n - 1)
    }
}

proof fn lemma_concat_chunks_prefix(data: Seq<u8>, n: nat)
    requires
        n <= spec_block_count(data.len() as int),
    ensures
        spec_concat_chunks(data, n) == data.take(
            vstd::math::min(spec_chunk_start(n as int), data.len() as int),
        ),
    decreases n,
{
    let c = CHUNK_SIZE as int;
    let goal = vstd::math::min(spec_chunk_start(n as int), data.len() as int);
    if n == 0 {
        assert(spec_chunk_start(0int) == 0) by (nonlinear_arith) {}
        assert(spec_concat_chunks(data, 0) =~= data.take(goal));
    } else {
        let m = (n - 1) as nat;
        lemma_concat_chunks_prefix(data, m);
        lemma_chunk_bounds(data.len() as int, m as int);
        assert(m * c < data.len());
        assert(n as int * c == m as int * c + c) by (nonlinear_arith)
            requires
                n as int == m as int + 1,
        {}
        assert(spec_concat_chunks(data, n) =~= data.take(goal));
    }
}

/// Concatenating all chunks of `data` in order reproduces `data` exactly:
/// the boundaries used for hashing and the boundaries used for transfer
/// partition the file identically.
pub proof fn lemma_chunks_reassemble(data: Seq<u8>)
    ensures
        spec_concat_chunks(data, spec_block_count(data.len() as int) as nat) == data,
{
    let c = CHUNK_SIZE as int;
    let n = spec_block_count(data.len() as int);
    assert(0 <= n) by (nonlinear_arith)
        requires
            c == CHUNK_SIZE as int,
            n == (data.len() as int + c - 1) / c,
    {}
    lemma_concat_chunks_prefix(data, n as nat);
    assert(data.len() as int <= n * c) by (nonlinear_arith)
        requires
            c == CHUNK_SIZE as int,
            n == (data.len() as int + c - 1) / c,
    {}
    assert(data.take(data.len() as int) =~= data);
}

} // verus!
