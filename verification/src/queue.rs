//! The completion-queue carrier.
//!
//! The kernel delivers completions through a shared memory object: a queue
//! header, an index ring of chunk numbers, and an array of fixed-size chunks
//! onto which the kernel writes element records.  The user side supplies
//! chunks to the kernel by publishing their numbers on the ring and bumping
//! the head futex; the kernel reports progress through a per-chunk progress
//! futex.  This module owns every decision of that protocol: which chunk to
//! supply next, what a progress word means, how far a chunk has been
//! consumed, and when a chunk may be handed back to the kernel.  The shared
//! memory accesses and the futex syscalls themselves are described by the
//! values these functions return, and a driver performs them.
//!
//! Each chunk carries a reference count: one while the chunk is supplied to
//! the kernel, plus one per live [`QueueElement`] decoded from it.  A chunk
//! is reset and re-supplied exactly when its count drops to zero, so no
//! chunk is ever reused while an element still points into it.

use vstd::prelude::*;

use crate::handle::Handle;
use crate::wire::{read_le32, read_le64, spec_le32, spec_le64};

verus! {

/// Low bits of a progress futex word: the byte offset the kernel has written
/// up to inside the chunk.
pub const PROGRESS_MASK: u32 = 0x00FF_FFFF;

/// Progress futex bit: the kernel is done with the chunk and will not write
/// further bytes.
pub const PROGRESS_DONE: u32 = 0x0100_0000;

/// Progress futex bit: the user side announced that it waits on the word.
pub const PROGRESS_WAITERS: u32 = 0x0200_0000;

/// The head futex counts ring slots modulo this span.
pub const HEAD_LIMIT: u64 = 0x0100_0000;

/// Head futex bit: the kernel announced that it waits on the word.
pub const HEAD_WAITERS: u32 = 0x4000_0000;

/// Bytes of the queue header that precede the index ring.
pub const QUEUE_HEADER_BYTES: u64 = 64;

/// Bytes of the per-chunk header (next link and progress futex) that precede
/// the chunk's payload buffer.
pub const CHUNK_HEADER_BYTES: u64 = 8;

/// Bytes of an element header: length, opcode, and the completion context.
pub const ELEMENT_HEADER_BYTES: u64 = 16;

/// Alignment of the chunk array and of each reserved chunk slot.
pub const CHUNK_ALIGN_BYTES: u64 = 64;

/// Alignment of the whole mapped region.
pub const PAGE_BYTES: u64 = 4096;

/// A corrupted or exhausted queue state.  Every variant marks a protocol
/// violation that the driver must treat as fatal; the queue must not be used
/// after one is reported.
#[derive(Debug, Clone, Copy, PartialEq, Eq, Structural)]
pub enum QueueFault {
    /// A chunk had to be supplied but every chunk is already active.
    OutOfChunks,
    /// The head counter ran out of its integer range.
    IndexExhausted,
    /// A chunk reference count could not be raised further.
    RefcountOverflow,
    /// An element header claims more bytes than the chunk can hold past the
    /// current progress offset.
    ProgressOverrun,
}

/// `x` rounded up to the next multiple of `m`.
pub open spec fn spec_round_up(x: int, m: int) -> int
    recommends
        m > 0,
{
    ((x + m - 1) / m) * m
}

/// The header the kernel writes in front of every element's payload.
#[derive(Debug, Clone, Copy, PartialEq, Eq, Structural)]
pub struct ElementHeader {
    /// Payload length in bytes.
    pub length: u32,
    /// Operation code of the completion.
    pub opcode: u32,
    /// The user-chosen cookie echoed by the kernel.
    pub context: u64,
}

impl ElementHeader {
    /// Decodes an element header from the first bytes the kernel wrote at
    /// the current progress offset.
    pub fn parse(bytes: &[u8]) -> (r: ElementHeader)
        requires
            bytes@.len() >= ELEMENT_HEADER_BYTES,
        ensures
            r.length == spec_le32(bytes@, 0),
            r.opcode == spec_le32(bytes@, 4),
            r.context == spec_le64(bytes@, 8),
    {
        ElementHeader {
            length: read_le32(bytes, 0),
            opcode: read_le32(bytes, 4),
            context: read_le64(bytes, 8),
        }
    }
}

/// One decoded completion: the payload bytes that followed an element
/// header, the completion context, and the chunk the bytes came from.  A
/// live element holds one reference count on its chunk; it is handed back
/// through [`Queue::release_element`].
#[derive(Debug)]
pub struct QueueElement {
    /// The chunk this element was decoded from.
    pub chunk_index: usize,
    /// The user-chosen cookie echoed by the kernel.
    pub context: u64,
    /// The element's payload bytes.
    pub data: Vec<u8>,
    /// How many payload bytes have been consumed by result parsing.
    pub offset: usize,
}

impl QueueElement {
    /// Returns the context associated with this queue element.
    pub fn context(&self) -> (r: u64)
        ensures
            r == self.context,
    {
        self.context
    }

    /// The payload bytes that remain to be consumed.
    pub fn data(&self) -> (r: &[u8])
        requires
            self.offset <= self.data@.len(),
        ensures
            r@ == self.data@.subrange(self.offset as int, self.data@.len() as int),
    {
        let n = self.data.len();
        &self.data.as_slice()[self.offset..n]
    }

    /// How many payload bytes remain to be consumed.
    pub fn remaining(&self) -> (r: usize)
        requires
            self.offset <= self.data@.len(),
        ensures
            r == self.data@.len() - self.offset,
    {
        self.data.len() - self.offset
    }

    /// Consumes `length` bytes of the payload.  Consuming past the end is a
    /// programming error, so the caller must rule it out.
    pub fn advance(&mut self, length: usize)
        requires
            old(self).offset + length <= old(self).data@.len(),
        ensures
            *final(self) == (QueueElement { offset: (old(self).offset + length) as usize, ..*old(self) }),
    {
        let limit = self.data.len();
        self.offset = self.offset + length;
    }
}

/// What a progress futex word tells the user side to do next.
#[derive(Debug, Clone, Copy, PartialEq, Eq, Structural)]
pub enum ProgressDecision {
    /// The kernel has written past the consumed offset: an element can be
    /// decoded at the current progress offset.
    NewData,
    /// The kernel is done with the chunk and no new data remains: surrender
    /// the chunk and move to the next one.
    ChunkDone,
    /// The waiters bit is already published: park on the futex with the
    /// given expected word.
    Park { expected: u32 },
    /// Publish the waiters bit by compare-and-exchange from `expected` to
    /// `desired`; on success park with `desired`, on failure ask again with
    /// the word the exchange found.
    AnnounceWaiters { expected: u32, desired: u32 },
}

/// The shared-memory writes that supply one chunk to the kernel: zero the
/// chunk's progress futex, store the chunk number into the ring slot, then
/// swap the head futex to the new head word and report the old word back
/// through [`Queue::finish_supply`].
#[derive(Debug, Clone, Copy, PartialEq, Eq, Structural)]
pub struct EnqueueCommand {
    /// The chunk being supplied; its progress futex must be zeroed.
    pub chunk_index: usize,
    /// The ring slot that receives the chunk number.
    pub ring_slot: usize,
    /// The word to store into the ring slot.
    pub ring_word: u32,
    /// The word to swap into the head futex.
    pub new_head_word: u32,
}

/// The completion-queue carrier state.
///
/// `retrieve_index` and `next_index` are monotonic slot counters; the slice
/// `[retrieve_index, next_index)` is the window of chunks currently supplied
/// to the kernel, oldest first, each stored in the ring at its counter
/// modulo the ring size.  The head futex carries `next_index` modulo
/// [`HEAD_LIMIT`].
pub struct Queue {
    /// Handle of the kernel queue object; submissions name it.
    pub handle: Handle,
    /// Binary logarithm of the ring size.
    pub ring_shift: usize,
    /// Number of slots in the index ring.
    pub ring_size: usize,
    /// Number of chunks backing the queue.
    pub num_chunks: usize,
    /// Payload bytes per chunk.
    pub chunk_size: usize,
    /// Byte offset of the chunk array inside the mapped region.
    pub chunks_offset: usize,
    /// Bytes reserved per chunk (header plus payload, aligned).
    pub reserved_per_chunk: usize,
    /// Length of the mapped region in bytes.
    pub mapping_length: usize,
    /// How many chunks have been handed to the kernel at least once.
    pub active_chunks: usize,
    /// Counter of the oldest supplied ring slot.
    pub retrieve_index: u64,
    /// Counter of the first free ring slot.
    pub next_index: u64,
    /// Byte offset inside the current chunk up to which elements have been
    /// decoded.
    pub last_progress: usize,
    /// Whether the kernel was seen waiting on the head futex since the last
    /// chunk supply.
    pub had_waiters: bool,
    /// Per-chunk reference counts.
    pub ref_counts: Vec<u64>,
    /// Owned mirror of the shared index ring.
    pub ring: Vec<u32>,
    /// Per chunk: whether the chunk is currently supplied to the kernel.
    pub supplied: Ghost<Seq<bool>>,
    /// Per chunk: how many live elements point into the chunk.
    pub live_elements: Ghost<Seq<nat>>,
}

impl Queue {
    /// How many chunks are currently supplied to the kernel.
    pub open spec fn wlen(self) -> int {
        self.next_index - self.retrieve_index
    }

    /// The chunk stored at position `k` of the supplied window, oldest
    /// first.
    pub open spec fn window_chunk(self, k: int) -> int {
        self.ring@[(self.retrieve_index + k) % (self.ring_size as int)] as int
    }

    /// Geometry well-formedness: the derived byte offsets follow from the
    /// configured sizes.
    pub open spec fn geometry_wf(self) -> bool {
        &&& 0 < self.ring_size <= 65536
        &&& 1 <= self.num_chunks <= self.ring_size
        &&& ELEMENT_HEADER_BYTES <= self.chunk_size <= PROGRESS_MASK
        &&& self.chunks_offset == spec_round_up(
            QUEUE_HEADER_BYTES + 4 * self.ring_size,
            CHUNK_ALIGN_BYTES as int,
        )
        &&& self.reserved_per_chunk == spec_round_up(
            CHUNK_HEADER_BYTES + self.chunk_size,
            CHUNK_ALIGN_BYTES as int,
        )
        &&& self.mapping_length == spec_round_up(
            self.chunks_offset + self.reserved_per_chunk * self.num_chunks,
            PAGE_BYTES as int,
        )
    }

    /// Full well-formedness: geometry, array lengths, the supplied window,
    /// and the per-chunk reference-count balance.
    pub open spec fn wf(self) -> bool {
        &&& self.geometry_wf()
        &&& self.ref_counts@.len() == self.num_chunks
        &&& self.ring@.len() == self.ring_size
        &&& self.supplied@.len() == self.num_chunks
        &&& self.live_elements@.len() == self.num_chunks
        &&& self.retrieve_index <= self.next_index
        &&& self.wlen() <= self.num_chunks
        &&& self.active_chunks <= self.num_chunks
        &&& self.last_progress <= self.chunk_size
        // every reference count balances the supply share and the live
        // elements of its chunk
        &&& forall|c: int|
            0 <= c < self.num_chunks ==> self.ref_counts@[c] as int == (if self.supplied@[c] {
                1int
            } else {
                0int
            }) + self.live_elements@[c]
        // the window names real chunks, each currently supplied
        &&& forall|k: int|
            0 <= k < self.wlen() ==> 0 <= #[trigger] self.window_chunk(k) < self.num_chunks
        &&& forall|k: int|
            0 <= k < self.wlen() ==> self.supplied@[#[trigger] self.window_chunk(k)]
        // no chunk sits in the window twice
        &&& forall|k1: int, k2: int|
            0 <= k1 < k2 < self.wlen() ==> #[trigger] self.window_chunk(k1)
                != #[trigger] self.window_chunk(k2)
        // chunks that were never activated are untouched
        &&& forall|c: int|
            self.active_chunks <= c < self.num_chunks ==> !self.supplied@[c]
                && self.live_elements@[c] == 0
    }

    /// Creates the carrier state for a queue the kernel produced.  The
    /// driver issues the queue-creation syscall, wraps the returned
    /// descriptor in `handle`, and maps [`Queue::mapping_length`] bytes.
    /// Rejects geometries the protocol cannot carry: a ring shift above 16,
    /// more chunks than ring slots, no chunks at all, or a chunk size whose
    /// progress offsets would not fit the progress mask.
    pub fn new(ring_shift: usize, num_chunks: usize, chunk_size: usize, handle: Handle) -> (r:
        Result<Queue, crate::result::Error>)
        ensures
            r matches Ok(q) ==> {
                &&& q.wf()
                &&& q.handle == handle
                &&& q.ring_shift == ring_shift
                &&& q.ring_size == (1usize << ring_shift)
                &&& q.num_chunks == num_chunks
                &&& q.chunk_size == chunk_size
                &&& q.active_chunks == 0
                &&& q.retrieve_index == 0
                &&& q.next_index == 0
                &&& q.last_progress == 0
                &&& !q.had_waiters
                &&& forall|c: int| 0 <= c < num_chunks ==> q.ref_counts@[c] == 0
            },
            r is Err ==> !(ring_shift <= 16 && 1 <= num_chunks <= (1usize << ring_shift)
                && ELEMENT_HEADER_BYTES <= chunk_size <= PROGRESS_MASK
                && spec_round_up(
                QUEUE_HEADER_BYTES + 4 * (1usize << ring_shift),
                CHUNK_ALIGN_BYTES as int,
            ) + spec_round_up(CHUNK_HEADER_BYTES + chunk_size, CHUNK_ALIGN_BYTES as int)
                * num_chunks + PAGE_BYTES <= usize::MAX),
    {
        if ring_shift > 16 {
            return Err(crate::result::Error::IllegalArgs);
        }
        let ring_size: usize = 1usize << ring_shift;
        assert(ring_size >= 1 && ring_size <= 65536) by (bit_vector)
            requires
                ring_size == 1usize << ring_shift && ring_shift <= 16,
        ;
        if num_chunks < 1 || num_chunks > ring_size {
            return Err(crate::result::Error::IllegalArgs);
        }
        if chunk_size < 16 || chunk_size > 0x00FF_FFFF {
            return Err(crate::result::Error::IllegalArgs);
        }
        // the sizes are all small, so the geometry fits a u64 comfortably;
        // only the final total can exceed the address range of a narrow
        // platform
        let co: u64 = round_up_u64(64 + 4 * (ring_size as u64), 64);
        let rpc: u64 = round_up_u64(8 + (chunk_size as u64), 64);
        assert(rpc * (num_chunks as u64) <= 0x1000040u64 * 65536) by (nonlinear_arith)
            requires
                rpc <= 0x1000040u64,
                num_chunks as u64 <= 65536,
        ;
        let cb: u64 = rpc * (num_chunks as u64);
        if co + cb > usize::MAX as u64 - 4096 {
            return Err(crate::result::Error::IllegalArgs);
        }
        let ml: u64 = round_up_u64(co + cb, 4096);
        let chunks_offset: usize = co as usize;
        let reserved_per_chunk: usize = rpc as usize;
        let mapping_length: usize = ml as usize;
        let mut ref_counts: Vec<u64> = Vec::new();
        let mut i: usize = 0;
        while i < num_chunks
            invariant
                i <= num_chunks,
                ref_counts@.len() == i,
                forall|c: int| 0 <= c < i ==> ref_counts@[c] == 0,
            decreases num_chunks - i,
        {
            ref_counts.push(0);
            i = i + 1;
        }
        let mut ring: Vec<u32> = Vec::new();
        let mut j: usize = 0;
        while j < ring_size
            invariant
                j <= ring_size,
                ring@.len() == j,
            decreases ring_size - j,
        {
            ring.push(0);
            j = j + 1;
        }
        let q = Queue {
            handle,
            ring_shift,
            ring_size,
            num_chunks,
            chunk_size,
            chunks_offset,
            reserved_per_chunk,
            mapping_length,
            active_chunks: 0,
            retrieve_index: 0,
            next_index: 0,
            last_progress: 0,
            had_waiters: false,
            ref_counts,
            ring,
            supplied: Ghost(Seq::new(num_chunks as nat, |c: int| false)),
            live_elements: Ghost(Seq::new(num_chunks as nat, |c: int| 0nat)),
        };
        Ok(q)
    }

    /// Returns a reference to the queue's handle; submissions that complete
    /// on this queue name it.
    pub fn handle(&self) -> (r: &Handle)
        ensures
            r == self.handle,
    {
        &self.handle
    }

    /// Byte offset of the given chunk's header inside the mapped region.
    pub fn chunk_byte_offset(&self, chunk_index: usize) -> (r: usize)
        requires
            self.wf(),
            chunk_index < self.num_chunks,
        ensures
            r == self.chunks_offset + chunk_index * self.reserved_per_chunk,
            r + self.reserved_per_chunk <= self.mapping_length,
    {
        proof {
            lemma_chunk_offset_in_range(*self, chunk_index as int);
        }
        self.chunks_offset + chunk_index * self.reserved_per_chunk
    }

    /// Byte offset of the given chunk's payload buffer inside the mapped
    /// region.
    pub fn buffer_byte_offset(&self, chunk_index: usize) -> (r: usize)
        requires
            self.wf(),
            chunk_index < self.num_chunks,
        ensures
            r == self.chunks_offset + chunk_index * self.reserved_per_chunk + CHUNK_HEADER_BYTES,
            r + self.chunk_size <= self.mapping_length,
    {
        let off = self.chunk_byte_offset(chunk_index);
        off + 8
    }
}

/// Whether `post` is `pre` after an element of chunk `c` was released and
/// the chunk kept: the chunk's reference count and element tally drop by
/// one, and nothing else moves.
pub open spec fn spec_release_kept(pre: Queue, post: Queue, c: int) -> bool {
    &&& post == (Queue {
        ref_counts: post.ref_counts,
        live_elements: post.live_elements,
        ..pre
    })
    &&& post.ref_counts@ == pre.ref_counts@.update(c, (pre.ref_counts@[c] - 1) as u64)
    &&& post.live_elements@ == pre.live_elements@.update(c, (pre.live_elements@[c] - 1) as nat)
}

/// Whether `post` is `pre` after an element of chunk `c` was released and
/// the chunk re-supplied by `cmd`: the chunk's tallies reset to the bare
/// supply share, it joins the window's tail, and nothing else moves.
pub open spec fn spec_release_resupplied(
    pre: Queue,
    post: Queue,
    c: int,
    cmd: EnqueueCommand,
) -> bool {
    &&& post == (Queue {
        next_index: (pre.next_index + 1) as u64,
        ref_counts: post.ref_counts,
        ring: post.ring,
        supplied: post.supplied,
        live_elements: post.live_elements,
        ..pre
    })
    &&& post.ref_counts@ == pre.ref_counts@.update(c, 1u64)
    &&& post.live_elements@ == pre.live_elements@.update(c, 0nat)
    &&& post.supplied@ == pre.supplied@.update(c, true)
    &&& post.ring@ == pre.ring@.update(
        (pre.next_index as int) % (pre.ring_size as int),
        cmd.ring_word,
    )
    &&& cmd.chunk_index as int == c
    &&& cmd.ring_slot == (pre.next_index as int) % (pre.ring_size as int)
    &&& cmd.ring_word == cmd.chunk_index as u32
    &&& cmd.new_head_word == ((pre.next_index + 1) as u64 % HEAD_LIMIT) as u32
}

/// What to do with the status word the drive or futex-wait syscall
/// returned while parking on a progress futex.
#[derive(Debug, Clone, Copy, PartialEq, Eq, Structural)]
pub enum DriveDecision {
    /// The wait ended benignly — it was woken, or interrupted by a
    /// cancellation: re-read the progress word and keep waiting.
    Retry,
    /// The kernel reported a real failure: propagate it.
    Fail(crate::result::Error),
    /// A status outside the known set: a protocol violation, fatal.
    Corrupt(u32),
}

/// Triages the status of the syscall that parked on a progress futex: a
/// success and a cancellation are both benign — the wait loop re-reads the
/// progress word and goes on — while every other failure is propagated and
/// an unknown status is reported distinctly.
pub fn drive_result(code: u32) -> (r: DriveDecision)
    ensures
        code == crate::result::CODE_NONE ==> r == DriveDecision::Retry,
        code == crate::result::code_of_error(crate::result::Error::Cancelled) ==> r
            == DriveDecision::Retry,
        crate::result::is_error_code(code) && code != crate::result::code_of_error(
            crate::result::Error::Cancelled,
        ) ==> r == DriveDecision::Fail(crate::result::error_of_code(code)),
        !crate::result::is_known_code(code) ==> r == DriveDecision::Corrupt(code),
{
    match crate::result::classify_code(code) {
        crate::result::CodeClass::Success => DriveDecision::Retry,
        crate::result::CodeClass::Failure(e) => {
            if e == crate::result::Error::Cancelled {
                DriveDecision::Retry
            } else {
                DriveDecision::Fail(e)
            }
        },
        crate::result::CodeClass::Unknown(c) => DriveDecision::Corrupt(c),
    }
}

impl Queue {
    /// Supplies one chunk to the kernel: publishes it on the ring and
    /// advances the head counter.  The chunk must carry no references.
    fn enqueue_chunk(&mut self, chunk_index: usize) -> (r: Result<EnqueueCommand, QueueFault>)
        requires
            old(self).wf(),
            chunk_index < old(self).active_chunks,
            old(self).ref_counts@[chunk_index as int] == 0,
            old(self).wlen() < old(self).num_chunks,
        ensures
            final(self).wf(),
            r is Ok <==> old(self).next_index < u64::MAX,
            r is Err ==> *final(self) == *old(self),
            r matches Err(f) ==> f == QueueFault::IndexExhausted && old(self).next_index
                == u64::MAX,
            r matches Ok(cmd) ==> {
                &&& *final(self) == (Queue {
                    next_index: (old(self).next_index + 1) as u64,
                    ref_counts: final(self).ref_counts,
                    ring: final(self).ring,
                    supplied: final(self).supplied,
                    ..*old(self)
                })
                &&& final(self).ref_counts@ == old(self).ref_counts@.update(
                    chunk_index as int,
                    1u64,
                )
                &&& final(self).ring@ == old(self).ring@.update(
                    (old(self).next_index as int) % (old(self).ring_size as int),
                    chunk_index as u32,
                )
                &&& final(self).supplied@ == old(self).supplied@.update(chunk_index as int, true)
                &&& cmd.chunk_index == chunk_index
                &&& cmd.ring_slot == (old(self).next_index as int) % (old(self).ring_size as int)
                &&& cmd.ring_word == chunk_index as u32
                &&& cmd.new_head_word == ((old(self).next_index + 1) as u64 % HEAD_LIMIT) as u32
                &&& final(self).wlen() == old(self).wlen() + 1
                &&& forall|k: int|
                    0 <= k < old(self).wlen() ==> #[trigger] final(self).window_chunk(k) == old(self).window_chunk(k)
                &&& final(self).window_chunk(old(self).wlen()) == chunk_index
                // the chunk goes back to the kernel only with no live element
                // pointing into it
                &&& old(self).live_elements@[chunk_index as int] == 0
            },
    {
        let ghost pre = *self;
        if self.next_index == u64::MAX {
            return Err(QueueFault::IndexExhausted);
        }
        let slot: usize = (self.next_index % (self.ring_size as u64)) as usize;
        self.ring.set(slot, chunk_index as u32);
        self.ref_counts.set(chunk_index, 1);
        self.next_index = self.next_index + 1;
        proof {
            self.supplied@ = pre.supplied@.update(chunk_index as int, true);
        }
        let cmd = EnqueueCommand {
            chunk_index,
            ring_slot: slot,
            ring_word: chunk_index as u32,
            new_head_word: (self.next_index % HEAD_LIMIT) as u32,
        };
        proof {
            let rs = pre.ring_size as int;
            // the freshly written slot is outside the old window, so the old
            // entries survive
            assert forall|k: int| 0 <= k < pre.wlen() implies #[trigger] self.window_chunk(k)
                == pre.window_chunk(k) by {
                if (pre.retrieve_index + k) % rs == (pre.next_index as int) % rs {
                    lemma_mod_injective(rs, pre.retrieve_index + k, pre.next_index as int);
                }
            }
            assert(self.window_chunk(pre.wlen()) == chunk_index);
            // the chunk was unsupplied, so it sat nowhere in the old window
            assert(!pre.supplied@[chunk_index as int]);
            assert forall|k: int| 0 <= k < pre.wlen() implies #[trigger] pre.window_chunk(k)
                != chunk_index by {
                assert(pre.supplied@[pre.window_chunk(k)]);
            }
            assert(self.wf());
        }
        Ok(cmd)
    }

    /// Decides whether a chunk must be supplied to the kernel before
    /// parking: always when the supplied window is empty, and once more
    /// after the kernel was seen waiting, while inactive chunks remain.
    /// Returns at most one supply per call; the driver performs it,
    /// completes it with [`Queue::finish_supply`], and asks again until
    /// `None` comes back.
    pub fn next_supply(&mut self) -> (r: Result<Option<EnqueueCommand>, QueueFault>)
        requires
            old(self).wf(),
        ensures
            final(self).wf(),
            r matches Ok(None) ==> *final(self) == *old(self) && old(self).retrieve_index
                != old(self).next_index && !(old(self).had_waiters && old(self).active_chunks
                < old(self).num_chunks),
            r matches Ok(Some(cmd)) ==> {
                &&& old(self).active_chunks < old(self).num_chunks
                &&& cmd.chunk_index == old(self).active_chunks
                &&& *final(self) == (Queue {
                    active_chunks: (old(self).active_chunks + 1) as usize,
                    next_index: (old(self).next_index + 1) as u64,
                    had_waiters: final(self).had_waiters,
                    ref_counts: final(self).ref_counts,
                    ring: final(self).ring,
                    supplied: final(self).supplied,
                    ..*old(self)
                })
                &&& final(self).ring@ == old(self).ring@.update(
                    (old(self).next_index as int) % (old(self).ring_size as int),
                    cmd.ring_word,
                )
                &&& final(self).supplied@ == old(self).supplied@.update(
                    cmd.chunk_index as int,
                    true,
                )
                &&& final(self).wlen() == old(self).wlen() + 1
                &&& forall|k: int|
                    0 <= k < old(self).wlen() ==> #[trigger] final(self).window_chunk(k) == old(self).window_chunk(k)
                &&& final(self).window_chunk(old(self).wlen()) == cmd.chunk_index
                &&& final(self).ref_counts@ == old(self).ref_counts@.update(
                    cmd.chunk_index as int,
                    1u64,
                )
                &&& final(self).live_elements == old(self).live_elements
                &&& cmd.ring_slot == (old(self).next_index as int) % (old(self).ring_size as int)
                &&& cmd.ring_word == cmd.chunk_index as u32
                &&& cmd.new_head_word == ((old(self).next_index + 1) as u64 % HEAD_LIMIT) as u32
                &&& (old(self).retrieve_index == old(self).next_index || old(self).had_waiters)
                &&& final(self).had_waiters == (old(self).had_waiters && old(self).retrieve_index
                    == old(self).next_index)
            },
            r matches Err(f) ==> *final(self) == *old(self) && (f == QueueFault::OutOfChunks && old(self).retrieve_index == old(self).next_index && old(self).active_chunks == old(self).num_chunks || f == QueueFault::IndexExhausted && old(self).next_index == u64::MAX),
    {
        if self.retrieve_index == self.next_index {
            if self.active_chunks == self.num_chunks {
                return Err(QueueFault::OutOfChunks);
            }
            if self.next_index == u64::MAX {
                return Err(QueueFault::IndexExhausted);
            }
            let chunk = self.active_chunks;
            self.active_chunks = self.active_chunks + 1;
            proof {
                // the chunk was never activated, so nothing references it
                assert(!self.supplied@[chunk as int] && self.live_elements@[chunk as int] == 0);
                assert(self.ref_counts@[chunk as int] == 0);
                assert(self.wf());
            }
            match self.enqueue_chunk(chunk) {
                Ok(cmd) => Ok(Some(cmd)),
                Err(f) => Err(f),  // unreachable: the window was empty
            }
        } else if self.had_waiters && self.active_chunks < self.num_chunks {
            proof {
                // the next fresh chunk is unsupplied, so the window has room
                lemma_window_has_room(*self, self.active_chunks as int);
            }
            if self.next_index == u64::MAX {
                return Err(QueueFault::IndexExhausted);
            }
            let chunk = self.active_chunks;
            self.active_chunks = self.active_chunks + 1;
            self.had_waiters = false;
            proof {
                // the chunk was never activated, so nothing references it
                assert(!self.supplied@[chunk as int] && self.live_elements@[chunk as int] == 0);
                assert(self.ref_counts@[chunk as int] == 0);
                assert forall|k: int| 0 <= k < self.wlen() implies #[trigger] self.window_chunk(k)
                    == old(self).window_chunk(k) by {}
                assert(self.wf());
            }
            match self.enqueue_chunk(chunk) {
                Ok(cmd) => Ok(Some(cmd)),
                Err(f) => Err(f),  // unreachable: the window had room
            }
        } else {
            Ok(None)
        }
    }

    /// Completes a supply: the driver reports the head futex word it swapped
    /// out.  Remembers a waiting kernel and says whether it must be woken.
    pub fn finish_supply(&mut self, old_head_word: u32) -> (wake: bool)
        requires
            old(self).wf(),
        ensures
            final(self).wf(),
            *final(self) == (Queue { had_waiters: final(self).had_waiters, ..*old(self) }),
            final(self).had_waiters == (old(self).had_waiters || (old_head_word & HEAD_WAITERS
                != 0)),
            wake == (old_head_word & HEAD_WAITERS != 0),
    {
        let wake = if old_head_word & HEAD_WAITERS != 0 {
            self.had_waiters = true;
            true
        } else {
            false
        };
        proof {
            assert forall|k: int| 0 <= k < self.wlen() implies #[trigger] self.window_chunk(k)
                == old(self).window_chunk(k) by {}
            assert(self.wf());
        }
        wake
    }

    /// The chunk the kernel is currently writing: the oldest supplied one.
    pub fn current_chunk(&self) -> (r: usize)
        requires
            self.wf(),
            self.retrieve_index < self.next_index,
        ensures
            r as int == self.window_chunk(0),
            r < self.num_chunks,
    {
        let slot: usize = (self.retrieve_index % (self.ring_size as u64)) as usize;
        let c = self.ring[slot];
        assert(self.window_chunk(0) == self.ring@[slot as int]);
        c as usize
    }

    /// Interprets a progress futex word read from the current chunk: new
    /// data to decode, the chunk finished, or how to go to sleep until the
    /// kernel moves.
    pub fn progress_decision(&self, word: u32) -> (r: ProgressDecision)
        requires
            self.wf(),
        ensures
            word & PROGRESS_MASK != self.last_progress as u32 ==> r == ProgressDecision::NewData,
            word & PROGRESS_MASK == self.last_progress as u32 && word & PROGRESS_DONE != 0 ==> r
                == ProgressDecision::ChunkDone,
            word & PROGRESS_MASK == self.last_progress as u32 && word & PROGRESS_DONE == 0 && word
                & PROGRESS_WAITERS != 0 ==> r == (ProgressDecision::Park {
                expected: self.last_progress as u32 | PROGRESS_WAITERS,
            }),
            word & PROGRESS_MASK == self.last_progress as u32 && word & PROGRESS_DONE == 0 && word
                & PROGRESS_WAITERS == 0 ==> r == (ProgressDecision::AnnounceWaiters {
                expected: word,
                desired: self.last_progress as u32 | PROGRESS_WAITERS,
            }),
    {
        let progress = self.last_progress as u32;
        if word & PROGRESS_MASK != progress {
            ProgressDecision::NewData
        } else if word & PROGRESS_DONE != 0 {
            ProgressDecision::ChunkDone
        } else if word & PROGRESS_WAITERS != 0 {
            ProgressDecision::Park { expected: progress | PROGRESS_WAITERS }
        } else {
            ProgressDecision::AnnounceWaiters {
                expected: word,
                desired: progress | PROGRESS_WAITERS,
            }
        }
    }

    /// Adopts one element the kernel wrote at the current progress offset of
    /// the current chunk: `header` are its decoded first bytes, `payload`
    /// the `header.length` bytes after them.  Progress advances past the
    /// element and the chunk gains one reference, held by the returned
    /// [`QueueElement`] until [`Queue::release_element`].
    pub fn take_element(&mut self, header: ElementHeader, payload: Vec<u8>) -> (r: Result<
        QueueElement,
        QueueFault,
    >)
        requires
            old(self).wf(),
            old(self).retrieve_index < old(self).next_index,
            payload@.len() == header.length,
        ensures
            final(self).wf(),
            r is Err ==> *final(self) == *old(self),
            r matches Err(f) ==> (f == QueueFault::ProgressOverrun && old(self).last_progress
                + ELEMENT_HEADER_BYTES + header.length > old(self).chunk_size) || (f
                == QueueFault::RefcountOverflow),
            r is Ok <==> old(self).last_progress + ELEMENT_HEADER_BYTES + header.length <= old(self).chunk_size && old(self).ref_counts@[old(self).window_chunk(0)] < u64::MAX,
            r matches Ok(e) ==> {
                &&& e.chunk_index as int == old(self).window_chunk(0)
                &&& e.context == header.context
                &&& e.data == payload
                &&& e.offset == 0
                &&& *final(self) == (Queue {
                    last_progress: final(self).last_progress,
                    ref_counts: final(self).ref_counts,
                    live_elements: final(self).live_elements,
                    ..*old(self)
                })
                // progress is monotone while the chunk stays resident
                &&& final(self).last_progress == old(self).last_progress + ELEMENT_HEADER_BYTES
                    + header.length
                &&& final(self).ref_counts@ == old(self).ref_counts@.update(
                    e.chunk_index as int,
                    (old(self).ref_counts@[e.chunk_index as int] + 1) as u64,
                )
                &&& final(self).live_elements@ == old(self).live_elements@.update(
                    e.chunk_index as int,
                    old(self).live_elements@[e.chunk_index as int] + 1,
                )
            },
    {
        let needed: u64 = self.last_progress as u64 + 16 + header.length as u64;
        if needed > self.chunk_size as u64 {
            return Err(QueueFault::ProgressOverrun);
        }
        let chunk = self.current_chunk();
        let rc = self.ref_counts[chunk];
        if rc == u64::MAX {
            return Err(QueueFault::RefcountOverflow);
        }
        let ghost pre = *self;
        self.last_progress = needed as usize;
        self.ref_counts.set(chunk, rc + 1);
        proof {
            self.live_elements@ = pre.live_elements@.update(
                chunk as int,
                pre.live_elements@[chunk as int] + 1,
            );
            assert(pre.window_chunk(0) == chunk as int);
            assert(pre.supplied@[chunk as int]);
            assert((chunk as int) < pre.active_chunks) by {
                if pre.active_chunks <= chunk as int {
                    assert(!pre.supplied@[chunk as int]);
                }
            }
            assert forall|k: int| 0 <= k < self.wlen() implies #[trigger] self.window_chunk(k)
                == pre.window_chunk(k) by {}
            assert(self.wf());
        }
        let element = QueueElement { chunk_index: chunk, context: header.context, data: payload, offset: 0 };
        Ok(element)
    }

    /// Surrenders the current chunk after the kernel marked it done: its
    /// supply reference is dropped, the window moves on, and the progress
    /// offset resets to zero — the only place it ever resets.  When no live
    /// element holds the chunk any more it goes straight back to the kernel.
    pub fn surrender_current(&mut self) -> (r: Result<Option<EnqueueCommand>, QueueFault>)
        requires
            old(self).wf(),
            old(self).retrieve_index < old(self).next_index,
        ensures
            final(self).wf(),
            // the only fault is the head counter's range, and only when the
            // chunk has to be re-supplied
            r is Err <==> old(self).next_index == u64::MAX && old(
                self,
            ).ref_counts@[old(self).window_chunk(0)] == 1,
            r matches Err(f) ==> f == QueueFault::IndexExhausted,
            r is Ok ==> final(self).retrieve_index == old(self).retrieve_index + 1 && final(self).last_progress == 0,
            r matches Ok(None) ==> {
                &&& old(self).live_elements@[old(self).window_chunk(0)] >= 1
                &&& *final(self) == (Queue {
                    retrieve_index: (old(self).retrieve_index + 1) as u64,
                    last_progress: 0,
                    ref_counts: final(self).ref_counts,
                    supplied: final(self).supplied,
                    ..*old(self)
                })
                &&& final(self).ref_counts@ == old(self).ref_counts@.update(
                    old(self).window_chunk(0),
                    (old(self).ref_counts@[old(self).window_chunk(0)] - 1) as u64,
                )
                &&& final(self).supplied@ == old(self).supplied@.update(
                    old(self).window_chunk(0),
                    false,
                )
                &&& final(self).wlen() == old(self).wlen() - 1
                &&& forall|k: int|
                    0 <= k < final(self).wlen() ==> #[trigger] final(self).window_chunk(k) == old(self).window_chunk(k + 1)
            },
            r matches Ok(Some(cmd)) ==> {
                // the chunk goes back to the kernel only because no element
                // references it any more
                &&& old(self).live_elements@[old(self).window_chunk(0)] == 0
                &&& cmd.chunk_index as int == old(self).window_chunk(0)
                &&& *final(self) == (Queue {
                    retrieve_index: (old(self).retrieve_index + 1) as u64,
                    next_index: (old(self).next_index + 1) as u64,
                    last_progress: 0,
                    ref_counts: final(self).ref_counts,
                    ring: final(self).ring,
                    supplied: final(self).supplied,
                    ..*old(self)
                })
                &&& final(self).ref_counts@ == old(self).ref_counts@.update(
                    old(self).window_chunk(0),
                    1u64,
                )
                &&& final(self).supplied@ == old(self).supplied@.update(
                    old(self).window_chunk(0),
                    true,
                )
                &&& final(self).ring@ == old(self).ring@.update(
                    (old(self).next_index as int) % (old(self).ring_size as int),
                    cmd.ring_word,
                )
                &&& cmd.ring_slot == (old(self).next_index as int) % (old(self).ring_size as int)
                &&& cmd.ring_word == cmd.chunk_index as u32
                &&& cmd.new_head_word == ((old(self).next_index + 1) as u64 % HEAD_LIMIT) as u32
                &&& final(self).wlen() == old(self).wlen()
                &&& forall|k: int|
                    0 <= k < old(self).wlen() - 1 ==> #[trigger] final(self).window_chunk(k) == old(self).window_chunk(k + 1)
                &&& final(self).window_chunk(old(self).wlen() - 1) == cmd.chunk_index
            },
    {
        let chunk = self.current_chunk();
        let ghost pre = *self;
        let rc = self.ref_counts[chunk];
        proof {
            assert(pre.window_chunk(0) == chunk as int);
            assert(pre.supplied@[chunk as int]);
            assert(rc >= 1);
            assert((chunk as int) < pre.active_chunks) by {
                if pre.active_chunks <= chunk as int {
                    assert(!pre.supplied@[chunk as int]);
                }
            }
        }
        self.retrieve_index = self.retrieve_index + 1;
        self.last_progress = 0;
        self.ref_counts.set(chunk, rc - 1);
        proof {
            self.supplied@ = pre.supplied@.update(chunk as int, false);
            // the remaining window entries shift down one place and keep
            // their chunks, which the surrendered chunk never equals
            assert forall|k: int| 0 <= k < self.wlen() implies #[trigger] self.window_chunk(k)
                == pre.window_chunk(k + 1) by {}
            assert forall|k: int| 0 <= k < self.wlen() implies #[trigger] pre.window_chunk(k + 1)
                != chunk as int by {
                assert(pre.window_chunk(0) == chunk as int);
            }
            assert(self.wf());
        }
        if rc == 1 {
            match self.enqueue_chunk(chunk) {
                Ok(cmd) => {
                    proof {
                        assert(self.ref_counts@ =~= pre.ref_counts@.update(chunk as int, 1u64));
                        assert(self.supplied@ =~= pre.supplied@.update(chunk as int, true));
                    }
                    Ok(Some(cmd))
                },
                Err(f) => {
                    assert(self.wlen() < self.num_chunks);
                    Err(f)
                },
            }
        } else {
            Ok(None)
        }
    }

    /// Releases a decoded element: its chunk loses the reference the element
    /// held.  When that was the last reference the chunk goes back to the
    /// kernel.
    pub fn release_element(&mut self, element: QueueElement) -> (r: Result<
        Option<EnqueueCommand>,
        QueueFault,
    >)
        requires
            old(self).wf(),
            (element.chunk_index as int) < old(self).num_chunks,
            old(self).live_elements@[element.chunk_index as int] >= 1,
        ensures
            final(self).wf(),
            // the only fault is the head counter's range, and only when the
            // chunk has to be re-supplied
            r is Err <==> old(self).next_index == u64::MAX && old(
                self,
            ).ref_counts@[element.chunk_index as int] == 1,
            r matches Err(f) ==> f == QueueFault::IndexExhausted && *final(self) == (Queue {
                ref_counts: final(self).ref_counts,
                live_elements: final(self).live_elements,
                supplied: final(self).supplied,
                ..*old(self)
            }),
            r matches Ok(None) ==> {
                &&& spec_release_kept(*old(self), *final(self), element.chunk_index as int)
                &&& old(self).supplied@[element.chunk_index as int] || old(self).live_elements@[element.chunk_index as int] >= 2
            },
            r matches Ok(Some(cmd)) ==> {
                // the chunk goes back to the kernel only because this was
                // its very last reference
                &&& !old(self).supplied@[element.chunk_index as int]
                &&& old(self).live_elements@[element.chunk_index as int] == 1
                &&& spec_release_resupplied(
                    *old(self),
                    *final(self),
                    element.chunk_index as int,
                    cmd,
                )
                &&& final(self).wlen() == old(self).wlen() + 1
                &&& forall|k: int|
                    0 <= k < old(self).wlen() ==> #[trigger] final(self).window_chunk(k) == old(self).window_chunk(k)
                &&& final(self).window_chunk(old(self).wlen()) == cmd.chunk_index
            },
    {
        let chunk = element.chunk_index;
        let ghost pre = *self;
        let rc = self.ref_counts[chunk];
        proof {
            assert(pre.live_elements@[chunk as int] >= 1);
            assert(rc >= 1);
            assert((chunk as int) < pre.active_chunks) by {
                if pre.active_chunks <= chunk as int {
                    assert(pre.live_elements@[chunk as int] == 0);
                }
            }
        }
        self.ref_counts.set(chunk, rc - 1);
        proof {
            self.live_elements@ = pre.live_elements@.update(
                chunk as int,
                (pre.live_elements@[chunk as int] - 1) as nat,
            );
            assert forall|k: int| 0 <= k < self.wlen() implies #[trigger] self.window_chunk(k)
                == pre.window_chunk(k) by {}
            assert(self.wf());
        }
        if rc == 1 {
            proof {
                assert(!pre.supplied@[chunk as int]);
                // the released chunk itself is unsupplied, so the window
                // has room to take it back
                lemma_window_has_room(*self, chunk as int);
            }
            match self.enqueue_chunk(chunk) {
                Ok(cmd) => {
                    proof {
                        assert(self.ref_counts@ =~= pre.ref_counts@.update(chunk as int, 1u64));
                        assert(self.live_elements@ =~= pre.live_elements@.update(
                            chunk as int,
                            0nat,
                        ));
                        assert(self.supplied@ =~= pre.supplied@.update(chunk as int, true));
                    }
                    Ok(Some(cmd))
                },
                Err(f) => Err(f),
            }
        } else {
            Ok(None)
        }
    }
}

impl Queue {
    /// The chunks of the supplied window, oldest first.
    pub open spec fn window_seq(self) -> Seq<int> {
        Seq::new(self.wlen() as nat, |k: int| self.window_chunk(k))
    }
}

/// While any chunk is unsupplied the window has room: the window holds
/// pairwise distinct supplied chunks, so it can never cover every chunk.
proof fn lemma_window_has_room(q: Queue, c: int)
    requires
        q.wf(),
        0 <= c < q.num_chunks,
        !q.supplied@[c],
    ensures
        q.wlen() < q.num_chunks,
{
    broadcast use vstd::set::group_set_axioms;

    let w = q.window_seq();
    assert forall|i: int, j: int|
        0 <= i < w.len() && 0 <= j < w.len() && i != j implies w[i] != w[j] by {
        if i < j {
            assert(q.window_chunk(i) != q.window_chunk(j));
        } else {
            assert(q.window_chunk(j) != q.window_chunk(i));
        }
    }
    assert(w.no_duplicates());
    w.unique_seq_to_set();
    let range = vstd::set_lib::set_int_range(0, q.num_chunks as int);
    let avail = range.remove(c);
    assert forall|x: int| w.to_set().contains(x) implies avail.contains(x) by {
        let k = choose|k: int| 0 <= k < w.len() && w[k] == x;
        assert(q.window_chunk(k) == x);
        assert(0 <= x < q.num_chunks);
        assert(q.supplied@[x]);
    }
    assert(w.to_set().subset_of(avail));
    vstd::set_lib::lemma_int_range(0, q.num_chunks as int);
    assert(range.contains(c));
    assert(avail.len() == q.num_chunks - 1);
    vstd::set_lib::lemma_len_subset(w.to_set(), avail);
}

/// Law: retains and releases balance.  In every well-formed queue state a
/// chunk's reference count is exactly its supply share plus the live
/// elements decoded from it — so a chunk with live elements is never at
/// count zero, and only a chunk at count zero is ever re-supplied.
pub proof fn lemma_refcount_balance(q: Queue, c: int)
    requires
        q.wf(),
        0 <= c < q.num_chunks,
    ensures
        q.ref_counts@[c] as int == (if q.supplied@[c] {
            1int
        } else {
            0int
        }) + q.live_elements@[c],
        q.live_elements@[c] > 0 ==> q.ref_counts@[c] >= 1,
{
}

/// Law: every chunk handed to the kernel is accounted for.  A chunk in the
/// supplied window carries its supply reference, so it cannot be reset or
/// reused underneath the kernel.
pub proof fn lemma_supplied_chunk_referenced(q: Queue, k: int)
    requires
        q.wf(),
        0 <= k < q.wlen(),
    ensures
        0 <= q.window_chunk(k) < q.num_chunks,
        q.supplied@[q.window_chunk(k)],
        q.ref_counts@[q.window_chunk(k)] >= 1,
{
    assert(q.supplied@[q.window_chunk(k)]);
}

/// Distinct values below a modulus stay distinct under it when they lie less
/// than one modulus apart.
proof fn lemma_mod_injective(m: int, a: int, b: int)
    requires
        0 < m,
        0 <= a <= b,
        b - a < m,
        a % m == b % m,
    ensures
        a == b,
{
    vstd::arithmetic::div_mod::lemma_fundamental_div_mod(a, m);
    vstd::arithmetic::div_mod::lemma_fundamental_div_mod(b, m);
    let qa = a / m;
    let qb = b / m;
    assert(b - a == m * (qb - qa)) by (nonlinear_arith)
        requires
            a == m * qa + a % m,
            b == m * qb + b % m,
            a % m == b % m,
    ;
    if qb > qa {
        assert(m * (qb - qa) >= m) by (nonlinear_arith)
            requires
                qb - qa >= 1,
                m > 0,
        ;
    }
    if qb < qa {
        assert(m * (qb - qa) <= -m) by (nonlinear_arith)
            requires
                qb - qa <= -1,
                m > 0,
        ;
    }
}

/// `x` rounded up to the next multiple of `m`.
fn round_up_u64(x: u64, m: u64) -> (r: u64)
    requires
        0 < m,
        x + m - 1 <= u64::MAX,
    ensures
        r == spec_round_up(x as int, m as int),
        x <= r < x + m,
        (r as int) % (m as int) == 0,
{
    proof {
        lemma_round_up_bounds(x as int, m as int);
    }
    (x + (m - 1)) / m * m
}

/// Rounding up lands within one alignment unit above `x`, on a multiple of
/// `m`.
proof fn lemma_round_up_bounds(x: int, m: int)
    requires
        0 < m,
        0 <= x,
    ensures
        x <= spec_round_up(x, m) < x + m,
        spec_round_up(x, m) % m == 0,
{
    let q = (x + m - 1) / m;
    vstd::arithmetic::div_mod::lemma_fundamental_div_mod(x + m - 1, m);
    vstd::arithmetic::div_mod::lemma_mod_bound(x + m - 1, m);
    assert(q * m == (x + m - 1) - (x + m - 1) % m);
    vstd::arithmetic::div_mod::lemma_mod_multiples_basic(q, m);
}

/// Every reserved chunk slot lies inside the mapped region.
proof fn lemma_chunk_offset_in_range(q: Queue, chunk_index: int)
    requires
        q.geometry_wf(),
        0 <= chunk_index < q.num_chunks,
    ensures
        q.chunks_offset + chunk_index * q.reserved_per_chunk + q.reserved_per_chunk
            <= q.mapping_length,
        chunk_index * q.reserved_per_chunk >= 0,
{
    let r = q.reserved_per_chunk as int;
    let n = q.num_chunks as int;
    assert((chunk_index + 1) * r <= n * r) by (nonlinear_arith)
        requires
            chunk_index + 1 <= n,
            r >= 0,
    ;
    assert(chunk_index * r >= 0) by (nonlinear_arith)
        requires
            chunk_index >= 0,
            r >= 0,
    ;
    assert((chunk_index + 1) * r == chunk_index * r + r) by (nonlinear_arith);
    lemma_round_up_bounds(q.chunks_offset + q.reserved_per_chunk * q.num_chunks, PAGE_BYTES as int);
}

} // verus!
