use vstd::prelude::*;
use crate::dma::context::DmaCtx;
use crate::dma::process::MemRead;

verus! {

/// The reads made between two states of a context: those of `after` that came after
/// everything `before` had read.
pub open spec fn reads_between(before: DmaCtx, after: DmaCtx) -> Seq<MemRead> {
    after.reads@.subrange(before.reads@.len() as int, after.reads@.len() as int)
}

/// `after` kept every read of `before` and added to them.
pub open spec fn reads_grew(before: DmaCtx, after: DmaCtx) -> bool {
    &&& before.reads@.len() <= after.reads@.len()
    &&& forall|i: int| 0 <= i < before.reads@.len() ==> after.reads@[i] == #[trigger] before.reads@[i]
}

/// `m` is a completed read of `size` bytes at `addr`.
pub open spec fn read_at(m: MemRead, addr: u64, size: nat) -> bool {
    match m {
        MemRead::Value { addr: a, size: s, value: _ } => a == addr && s == size,
        _ => false,
    }
}

/// The value that an integer read gave.
pub open spec fn value_of(m: MemRead) -> int {
    match m {
        MemRead::Value { addr: _, size: _, value } => value,
        _ => 0,
    }
}

/// `m` is a read of a string of at most `max_len` bytes at `addr`.
pub open spec fn text_at(m: MemRead, addr: u64, max_len: nat) -> bool {
    match m {
        MemRead::Text { addr: a, max_len: n, text: _ } => a == addr && n == max_len,
        _ => false,
    }
}

/// The string that a string read gave.
pub open spec fn text_of(m: MemRead) -> Seq<char> {
    match m {
        MemRead::Text { addr: _, max_len: _, text } => text,
        _ => Seq::empty(),
    }
}

/// `m` is a read of raw bytes at `addr`.
pub open spec fn bytes_at(m: MemRead, addr: u64) -> bool {
    match m {
        MemRead::Bytes { addr: a, data: _ } => a == addr,
        _ => false,
    }
}

/// The bytes that a raw read gave.
pub open spec fn bytes_of(m: MemRead) -> Seq<u8> {
    match m {
        MemRead::Bytes { addr: _, data } => data,
        _ => Seq::empty(),
    }
}

/// `m` is a buffer of `len` bytes that a batch filled from `addr`.
pub open spec fn batched_at(m: MemRead, addr: u64, len: nat) -> bool {
    match m {
        MemRead::Batched { addr: a, data } => a == addr && data.len() == len,
        _ => false,
    }
}

/// The final contents of a batched buffer.
pub open spec fn batched_data(m: MemRead) -> Seq<u8> {
    match m {
        MemRead::Batched { addr: _, data } => data,
        _ => Seq::empty(),
    }
}

/// Reads laid end to end.
pub open spec fn concat(pieces: Seq<Seq<MemRead>>) -> Seq<MemRead>
    decreases pieces.len(),
{
    if pieces.len() == 0 {
        Seq::empty()
    } else {
        concat(pieces.drop_last()) + pieces.last()
    }
}

/// The vector that a vector read gave.
pub open spec fn triple_of(m: MemRead) -> crate::structs::vec3::Vec3 {
    match m {
        MemRead::Triple { addr: _, x, y, z } => crate::structs::vec3::Vec3 { x, y, z },
        _ => crate::structs::vec3::Vec3 { x: 0, y: 0, z: 0 },
    }
}

/// Adding a piece to a list of pieces adds its reads to theirs.
pub proof fn lemma_concat_push(pieces: Seq<Seq<MemRead>>, p: Seq<MemRead>)
    ensures
        concat(pieces.push(p)) == concat(pieces) + p,
{
    assert(pieces.push(p).drop_last() =~= pieces);
}

/// Reading through a context only ever adds to its record, and a record that grew twice grew.
pub proof fn lemma_reads_grew_trans(a: DmaCtx, b: DmaCtx, c: DmaCtx)
    requires
        reads_grew(a, b),
        reads_grew(b, c),
    ensures
        reads_grew(a, c),
        reads_between(a, c) == reads_between(a, b) + reads_between(b, c),
{
    assert(reads_between(a, c) =~= reads_between(a, b) + reads_between(b, c));
}

/// The reads from `a` to `c`, followed by more, are the reads from `a` to `b` followed by
/// the reads from `b` to `c` and those.
pub proof fn lemma_reads_between_split(a: DmaCtx, b: DmaCtx, c: DmaCtx, s: Seq<MemRead>)
    requires
        reads_grew(a, b),
        reads_grew(b, c),
    ensures
        reads_between(a, c) + s == reads_between(a, b) + (reads_between(b, c) + s),
{
    lemma_reads_grew_trans(a, b, c);
    assert(reads_between(a, c) + s =~= reads_between(a, b) + (reads_between(b, c) + s));
}

} // verus!
