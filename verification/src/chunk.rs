//! Cutting a run of bytes into pieces that fit one report each.

use vstd::prelude::*;
use crate::report::CHUNK_SIZE;

verus! {

/// Number of pieces that `total` bytes are cut into: every piece is full
/// but the last, which holds what is left.
pub open spec fn chunk_count(total: nat) -> nat {
    ((total + CHUNK_SIZE - 1) / (CHUNK_SIZE as int)) as nat
}

/// The offset at which piece `k` starts.
pub open spec fn chunk_start(k: nat) -> nat {
    k * CHUNK_SIZE as nat
}

/// Number of bytes in piece `k` of `total` bytes.
pub open spec fn chunk_len(total: nat, k: nat) -> nat {
    if chunk_start(k) >= total {
        0
    } else if total - chunk_start(k) < CHUNK_SIZE {
        (total - chunk_start(k)) as nat
    } else {
        CHUNK_SIZE as nat
    }
}

/// Piece `k` of `data`.
pub open spec fn chunk_of(data: Seq<u8>, k: nat) -> Seq<u8> {
    if chunk_start(k) >= data.len() {
        Seq::empty()
    } else {
        data.subrange(chunk_start(k) as int, (chunk_start(k) + chunk_len(data.len(), k)) as int)
    }
}

/// Number of bytes in the first `k` pieces of `total` bytes.
pub open spec fn covered(total: nat, k: nat) -> nat {
    if chunk_start(k) < total {
        chunk_start(k)
    } else {
        total
    }
}

/// Every piece before the last is full, the pieces are never empty, and
/// together they hold every byte.
pub proof fn lemma_chunk_bounds(total: nat, k: nat)
    ensures
        k < chunk_count(total) <==> chunk_start(k) < total,
        k < chunk_count(total) ==> 0 < chunk_len(total, k) <= CHUNK_SIZE,
        k + 1 < chunk_count(total) ==> chunk_len(total, k) == CHUNK_SIZE,
        chunk_start(k) + chunk_len(total, k) == covered(total, k + 1) || chunk_start(k) >= total,
        covered(total, chunk_count(total)) == total,
{
}

/// Number of pieces that `total` bytes are cut into.
pub fn count_chunks(total: usize) -> (count: usize)
    ensures
        count == chunk_count(total as nat),
{
    if total % CHUNK_SIZE == 0 {
        total / CHUNK_SIZE
    } else {
        total / CHUNK_SIZE + 1
    }
}

/// Number of bytes in piece `k` of `total` bytes.
pub fn length_of_chunk(total: usize, k: usize) -> (len: usize)
    ensures
        len == chunk_len(total as nat, k as nat),
        len <= CHUNK_SIZE,
{
    if k >= total / CHUNK_SIZE + 1 {
        0
    } else {
        let start: usize = k * CHUNK_SIZE;
        if start >= total {
            0
        } else if total - start < CHUNK_SIZE {
            total - start
        } else {
            CHUNK_SIZE
        }
    }
}

/// A copy of piece `k` of `data`.
pub fn copy_chunk(data: &Vec<u8>, k: usize) -> (piece: Vec<u8>)
    ensures
        piece@ == chunk_of(data@, k as nat),
        piece@.len() <= CHUNK_SIZE,
{
    let len: usize = length_of_chunk(data.len(), k);
    let mut piece: Vec<u8> = Vec::new();
    if len == 0 {
        assert(piece@ =~= chunk_of(data@, k as nat));
        return piece;
    }
    let start: usize = k * CHUNK_SIZE;
    let mut i: usize = 0;
    while i < len
        invariant
            i <= len,
            start + len <= data@.len() <= usize::MAX,
            piece@ == data@.subrange(start as int, start + i),
        decreases len - i,
    {
        piece.push(data[start + i]);
        assert(piece@ =~= data@.subrange(start as int, start + i + 1));
        i += 1;
    }
    piece
}

} // verus!
