use vstd::prelude::*;

use crate::image::TransitionInfo;

verus! {

/// A native buffer handle together with the device-memory allocation behind it.
#[derive(Clone, Copy, Debug, PartialEq, Eq, Structural)]
pub struct Resource {
    pub handle: u64,
    pub allocation: u64,
}

/// One effect recorded into a command buffer.
///
/// `Write` is a host write into the mapped memory of a host-visible buffer,
/// made as it is recorded; the others are GPU commands that run when the
/// command buffer is executed.
#[derive(Clone, Debug)]
pub enum Command {
    Write { dst: u64, bytes: Vec<u8> },
    CopyBuffer { src: u64, dst: u64, size: u64 },
    CopyBufferToImage { src: u64, image: u64, width: u32, height: u32 },
    Barrier { image: u64, info: TransitionInfo },
}

/// A copy of a byte slice.
pub fn copy_bytes(s: &[u8]) -> (r: Vec<u8>)
    ensures
        r@ == s@,
{
    let mut r: Vec<u8> = Vec::new();
    let mut i: usize = 0;
    while i < s.len()
        invariant
            i <= s@.len(),
            r@ == s@.take(i as int),
        decreases s@.len() - i,
    {
        r.push(s[i]);
        i += 1;
        assert(r@ =~= s@.take(i as int));
    }
    assert(s@.take(i as int) =~= s@);
    r
}

/// A command as a mathematical value.
pub ghost enum Op {
    Write { dst: u64, bytes: Seq<u8> },
    CopyBuffer { src: u64, dst: u64, size: u64 },
    CopyBufferToImage { src: u64, image: u64, width: u32, height: u32 },
    Barrier { image: u64, info: TransitionInfo },
}

impl View for Command {
    type V = Op;

    open spec fn view(&self) -> Op {
        match self {
            Command::Write { dst, bytes } => Op::Write { dst: *dst, bytes: bytes@ },
            Command::CopyBuffer { src, dst, size } => Op::CopyBuffer { src: *src, dst: *dst, size: *size },
            Command::CopyBufferToImage { src, image, width, height } => Op::CopyBufferToImage {
                src: *src,
                image: *image,
                width: *width,
                height: *height,
            },
            Command::Barrier { image, info } => Op::Barrier { image: *image, info: *info },
        }
    }
}

/// Device memory: the bytes held by each buffer or image, by native handle.
pub type Memory = Map<u64, Seq<u8>>;

/// The bytes held by `h`; nothing where `h` holds nothing yet.
pub open spec fn bytes_of(m: Memory, h: u64) -> Seq<u8> {
    if m.contains_key(h) {
        m[h]
    } else {
        Seq::empty()
    }
}

/// `dst` with its first `src.len()` bytes replaced by `src`.
pub open spec fn overwrite_prefix(dst: Seq<u8>, src: Seq<u8>) -> Seq<u8> {
    if src.len() >= dst.len() {
        src
    } else {
        src + dst.subrange(src.len() as int, dst.len() as int)
    }
}

/// The first `n` bytes of `s`, or all of `s` where it is shorter.
pub open spec fn first_bytes(s: Seq<u8>, n: nat) -> Seq<u8> {
    if n >= s.len() {
        s
    } else {
        s.take(n as int)
    }
}

/// What one command does to device memory.
pub open spec fn apply(m: Memory, c: Op) -> Memory {
    match c {
        Op::Write { dst, bytes } => m.insert(dst, overwrite_prefix(bytes_of(m, dst), bytes)),
        Op::CopyBuffer { src, dst, size } => m.insert(
            dst,
            overwrite_prefix(bytes_of(m, dst), first_bytes(bytes_of(m, src), size as nat)),
        ),
        Op::CopyBufferToImage { src, image, .. } => m.insert(
            image,
            overwrite_prefix(bytes_of(m, image), bytes_of(m, src)),
        ),
        Op::Barrier { .. } => m,
    }
}

/// What a sequence of commands does to device memory, run in order.
pub open spec fn run(m: Memory, cs: Seq<Op>) -> Memory
    decreases cs.len(),
{
    if cs.len() == 0 {
        m
    } else {
        apply(run(m, cs.drop_last()), cs.last())
    }
}

/// Running two sequences one after the other is running their concatenation.
pub proof fn lemma_run_concat(m: Memory, a: Seq<Op>, b: Seq<Op>)
    ensures
        run(m, a + b) == run(run(m, a), b),
    decreases b.len(),
{
    if b.len() == 0 {
        assert(a + b =~= a);
    } else {
        lemma_run_concat(m, a, b.drop_last());
        assert((a + b).drop_last() =~= a + b.drop_last());
        assert((a + b).last() == b.last());
    }
}

/// Ordering of submissions: the queue starts a submission only once the one
/// before it has finished, so the second starts from the memory the first left
/// behind; in particular a copy that the second submission makes out of a
/// buffer reads exactly what the first submission wrote there.
pub proof fn lemma_submission_order(
    m: Memory,
    first: Seq<Op>,
    second: Seq<Op>,
    src: u64,
    dst: u64,
    size: u64,
)
    requires
        src != dst,
        bytes_of(run(m, first), src).len() == size,
        bytes_of(run(m, first), dst).len() == size,
    ensures
        run(m, first + second) == run(run(m, first), second),
        bytes_of(run(m, first + seq![Op::CopyBuffer { src, dst, size }]), dst)
            == bytes_of(run(m, first), src),
{
    lemma_run_concat(m, first, second);
    let c = Op::CopyBuffer { src, dst, size };
    lemma_run_concat(m, first, seq![c]);
    assert(seq![c].drop_last() =~= Seq::<Op>::empty());
    let mid = run(m, first);
    assert(run(mid, seq![c]) == apply(run(mid, Seq::<Op>::empty()), c));
    assert(run(mid, Seq::<Op>::empty()) == mid);
    assert(first_bytes(bytes_of(mid, src), size as nat) == bytes_of(mid, src));
    assert(bytes_of(apply(mid, c), dst) == overwrite_prefix(bytes_of(mid, dst), bytes_of(mid, src)));
}

} // verus!
