//! Cutting binary content into ordered chunks of bounded size.
use vstd::prelude::*;
use vstd::slice::{slice_subrange, slice_to_vec};

verus! {

/// The largest number of bytes that one stored chunk holds (10 MiB).
pub const CHUNK_SIZE: usize = 10485760;

/// How many chunks of at most `size` bytes a content of `len` bytes is cut into.
pub open spec fn chunk_count(len: nat, size: nat) -> nat
    recommends
        size > 0,
{
    if len == 0 {
        0
    } else {
        ((len - 1) as nat / size) + 1
    }
}

/// Where chunk `k` starts, for chunks of at most `size` bytes.
pub open spec fn chunk_start(k: int, size: nat) -> int {
    k * size
}

/// Where chunk `k` of a content of `len` bytes ends (exclusive).
pub open spec fn chunk_end(k: int, len: nat, size: nat) -> int {
    if (k + 1) * size <= len {
        (k + 1) * size
    } else {
        len as int
    }
}

/// Chunk `k` of `content`, for chunks of at most `size` bytes.
pub open spec fn chunk_of(content: Seq<u8>, k: int, size: nat) -> Seq<u8> {
    content.subrange(chunk_start(k, size), chunk_end(k, content.len(), size))
}

/// Every chunk of `content`, in order.
pub open spec fn chunks_of(content: Seq<u8>, size: nat) -> Seq<Seq<u8>> {
    Seq::new(chunk_count(content.len(), size), |k: int| chunk_of(content, k, size))
}

/// The bounds of chunk `k` lie inside the content, and each chunk but the last is full.
pub proof fn lemma_chunk_bounds(len: nat, size: nat, k: int)
    requires
        size > 0,
        0 <= k < chunk_count(len, size),
    ensures
        0 <= chunk_start(k, size) < chunk_end(k, len, size) <= len,
        chunk_end(k, len, size) - chunk_start(k, size) <= size,
        k + 1 < chunk_count(len, size) ==> chunk_end(k, len, size) - chunk_start(k, size) == size,
        k + 1 == chunk_count(len, size) ==> chunk_end(k, len, size) == len,
{
    let n = ((len - 1) as nat / size) as int;
    assert(len > 0);
    assert(n * size <= len - 1 < (n + 1) * size) by (nonlinear_arith)
        requires
            n == ((len - 1) as nat / size) as int,
            size > 0,
            len > 0,
    ;
    assert(k * size <= n * size) by (nonlinear_arith)
        requires
            k <= n,
            size > 0,
    ;
    assert(0 <= k * size) by (nonlinear_arith)
        requires
            k >= 0,
            size > 0,
    ;
    assert((k + 1) * size == k * size + size) by (nonlinear_arith);
    if k + 1 < chunk_count(len, size) {
        assert((k + 1) * size <= n * size) by (nonlinear_arith)
            requires
                k + 1 <= n,
                size > 0,
        ;
    }
    if k + 1 == chunk_count(len, size) {
        assert(k == n);
    }
}

/// Concatenating the chunks of a content in order gives the content back.
pub proof fn lemma_chunks_concat(content: Seq<u8>, size: nat)
    requires
        size > 0,
    ensures
        chunks_of(content, size).flatten() == content,
{
    let n = chunk_count(content.len(), size);
    lemma_prefix_concat(content, size, n);
    if n > 0 {
        lemma_chunk_bounds(content.len(), size, n - 1);
    }
    assert(content.subrange(0, content.len() as int) =~= content);
}

proof fn lemma_prefix_concat(content: Seq<u8>, size: nat, m: nat)
    requires
        size > 0,
        m <= chunk_count(content.len(), size),
    ensures
        Seq::new(m, |k: int| chunk_of(content, k, size)).flatten() == content.subrange(
            0,
            if m == 0 { 0 } else { chunk_end(m - 1, content.len(), size) },
        ),
    decreases m,
{
    let s = Seq::new(m, |k: int| chunk_of(content, k, size));
    if m == 0 {
        assert(s =~= Seq::<Seq<u8>>::empty());
        assert(content.subrange(0, 0) =~= Seq::<u8>::empty());
    } else {
        let p = (m - 1) as nat;
        lemma_prefix_concat(content, size, p);
        let sp = Seq::new(p, |k: int| chunk_of(content, k, size));
        assert(s.drop_last() =~= sp);
        lemma_chunk_bounds(content.len(), size, p as int);
        s.lemma_flatten_and_flatten_alt_are_equivalent();
        sp.lemma_flatten_and_flatten_alt_are_equivalent();
        assert(s.flatten_alt() == sp.flatten_alt() + s.last());
        let start = if p == 0 { 0 } else { chunk_end(p - 1, content.len(), size) };
        if p > 0 {
            lemma_chunk_bounds(content.len(), size, p - 1);
        }
        assert(start == chunk_start(p as int, size)) by (nonlinear_arith)
            requires
                p == 0 ==> start == 0,
                p > 0 ==> start == chunk_end(p - 1, content.len(), size),
                p > 0 ==> chunk_end(p - 1, content.len(), size) == p * size,
                chunk_start(p as int, size) == p * size,
        ;
        assert(content.subrange(0, start) + chunk_of(content, p as int, size) =~= content.subrange(
            0,
            chunk_end(p as int, content.len(), size),
        ));
    }
}

/// How many chunks of at most `size` bytes a content of `len` bytes is cut into.
pub fn count_chunks(len: usize, size: usize) -> (r: usize)
    requires
        size > 0,
    ensures
        r == chunk_count(len as nat, size as nat),
{
    if len == 0 {
        0
    } else {
        assert((len - 1) as nat / (size as nat) <= (len - 1) as nat) by (nonlinear_arith)
            requires
                size > 0,
        ;
        (len - 1) / size + 1
    }
}

/// Chunk `k` of `content`, for chunks of at most `size` bytes.
pub fn chunk_at(content: &[u8], k: usize, size: usize) -> (r: Vec<u8>)
    requires
        size > 0,
        k < chunk_count(content@.len(), size as nat),
    ensures
        r@ == chunk_of(content@, k as int, size as nat),
{
    let len = content.len();
    proof {
        lemma_chunk_bounds(content@.len(), size as nat, k as int);
        assert(k * size < len);
    }
    let start: usize = k * size;
    let end: usize = if content.len() - start > size { start + size } else { content.len() };
    assert(end == chunk_end(k as int, content@.len(), size as nat)) by (nonlinear_arith)
        requires
            start == k * size,
            end == (if content@.len() - start > size { start + size } else { content@.len() as int }),
            chunk_end(k as int, content@.len(), size as nat) == (if (k + 1) * size <= content@.len() { (k + 1) * size } else { content@.len() as int }),
    ;
    slice_to_vec(slice_subrange(content, start, end))
}

/// Cuts `content` into chunks of at most `size` bytes, keeping their order.
pub fn split_into_chunks(content: &[u8], size: usize) -> (r: Vec<Vec<u8>>)
    requires
        size > 0,
    ensures
        r@.len() == chunk_count(content@.len(), size as nat),
        forall|k: int| 0 <= k < r@.len() ==> #[trigger] r@[k]@ == chunk_of(content@, k, size as nat),
{
    let mut r: Vec<Vec<u8>> = Vec::new();
    let mut start: usize = 0;
    assert(r@.len() * size == 0);
    while start < content.len()
        invariant
            size > 0,
            start <= content@.len(),
            start < content@.len() ==> start == r@.len() * size,
            r@.len() == 0 ==> start == 0,
            start < content@.len() ==> r@.len() < chunk_count(content@.len(), size as nat),
            start == content@.len() ==> r@.len() == chunk_count(content@.len(), size as nat),
            forall|k: int| 0 <= k < r@.len() ==> #[trigger] r@[k]@ == chunk_of(content@, k, size as nat),
        decreases content@.len() - start,
    {
        let k = r.len();
        proof {
            lemma_chunk_bounds(content@.len(), size as nat, k as int);
        }
        let end: usize = if content.len() - start > size { start + size } else { content.len() };
        assert(end == chunk_end(k as int, content@.len(), size as nat)) by (nonlinear_arith)
            requires
                start == k * size,
                end == (if content@.len() - start > size { start + size } else { content@.len() as int }),
                chunk_end(k as int, content@.len(), size as nat) == (if (k + 1) * size <= content@.len() { (k + 1) * size } else { content@.len() as int }),
        ;
        let piece = slice_to_vec(slice_subrange(content, start, end));
        r.push(piece);
        proof {
            if k + 1 < chunk_count(content@.len(), size as nat) {
                lemma_chunk_bounds(content@.len(), size as nat, k + 1);
            }
            assert((k + 1) * size == k * size + size) by (nonlinear_arith);
        }
        start = end;
    }
    r
}

} // verus!
