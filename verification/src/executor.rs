//! The single-threaded cooperative executor.
//!
//! An executor confines a completion queue, a clone of the queue's handle
//! used as the submission target, and the table of in-flight operations to
//! one thread.  The driver loop around it polls tasks, parks inside the
//! queue's wait protocol, and hands every decoded completion element to
//! [`Executor::deliver_completion`], which recovers the operation from the
//! element's cookie: a live future gets the element stored and its waker
//! signalled; a dropped one has the element drained and its chunk reference
//! released on the spot, so cancellation neither panics nor leaks.

use vstd::prelude::*;

use crate::handle::Handle;
use crate::queue::{
    EnqueueCommand, Queue, QueueElement, QueueFault, spec_release_kept, spec_release_resupplied,
};
use crate::submission::{DeliverOutcome, OperationTable, spec_deliver};

verus! {

/// Ring shift of the default queue geometry.
pub const DEFAULT_RING_SHIFT: usize = 9;

/// Chunk count of the default queue geometry.
pub const DEFAULT_CHUNK_COUNT: usize = 16;

/// Chunk payload size of the default queue geometry, in bytes.
pub const DEFAULT_CHUNK_SIZE: usize = 4096;

/// A fatal runtime condition: a completion that names no in-flight
/// operation, or a queue fault underneath.
#[derive(Debug, Clone, Copy, PartialEq, Eq, Structural)]
pub enum RuntimeFault {
    /// The completion's context word names no operation with an
    /// outstanding kernel share.
    BadCookie,
    /// The queue state is corrupted or exhausted.
    Queue(QueueFault),
}

/// What delivering one completion element did.
#[derive(Debug, Clone, Copy, PartialEq, Eq, Structural)]
pub enum CompletionOutcome {
    /// The operation's element is stored and its waker must be signalled:
    /// the task behind `cookie` goes back on the run queue.
    Woken {
        /// The operation the completion belongs to.
        cookie: usize,
    },
    /// The operation's element is stored; no waker was installed.
    Quiet {
        /// The operation the completion belongs to.
        cookie: usize,
    },
    /// The operation's future was dropped earlier: the element was drained,
    /// its chunk reference released, and possibly a chunk resupply is owed
    /// to the kernel.
    Drained {
        /// The operation the completion belonged to; its state is freed.
        cookie: usize,
        /// The chunk supply the driver must perform, when the drained
        /// element held the chunk's last reference.
        resupply: Option<EnqueueCommand>,
    },
}

/// The per-thread executor state.
pub struct Executor {
    /// The completion queue this executor parks on.
    pub queue: Queue,
    /// A clone of the queue's handle, the submission target for operations
    /// spawned on this executor.
    pub queue_handle: Handle,
    /// The in-flight operations, indexed by cookie.
    pub ops: OperationTable,
}

impl Executor {
    /// Executor well-formedness: the queue and the operation table are.
    pub open spec fn wf(self) -> bool {
        self.queue.wf() && self.ops.wf()
    }

    /// Creates an executor over a queue the kernel produced and a clone of
    /// its handle minted for submissions.
    pub fn new(queue: Queue, queue_handle: Handle) -> (r: Executor)
        requires
            queue.wf(),
        ensures
            r.wf(),
            r.queue == queue,
            r.queue_handle == queue_handle,
            r.ops.slots@.len() == 0,
            r.ops.live_count() == 0,
    {
        Executor { queue, queue_handle, ops: OperationTable::new() }
    }

    /// Returns the handle submissions on this executor name.
    pub fn queue_handle(&self) -> (r: &Handle)
        ensures
            r == self.queue_handle,
    {
        &self.queue_handle
    }

    /// Delivers one completion element: the element's context word is the
    /// cookie of the operation it belongs to.  A live future gets the
    /// element stored; a dropped one has it drained and the chunk
    /// reference released.  A context that names no operation with an
    /// outstanding kernel share marks a corrupted queue and is fatal.
    pub fn deliver_completion(&mut self, element: QueueElement) -> (r: Result<
        CompletionOutcome,
        RuntimeFault,
    >)
        requires
            old(self).wf(),
            (element.chunk_index as int) < old(self).queue.num_chunks,
            old(self).queue.live_elements@[element.chunk_index as int] >= 1,
        ensures
            final(self).wf(),
            final(self).queue_handle == old(self).queue_handle,
            // success is owed whenever the cookie is good and the queue's
            // head counter has range left
            element.context <= usize::MAX && old(self).ops.deliver_allowed(element.context as int)
                && old(self).queue.next_index < u64::MAX ==> r is Ok,
            r matches Err(f) && f == RuntimeFault::BadCookie ==> *final(self) == *old(self) && !(
            element.context <= usize::MAX && old(self).ops.deliver_allowed(
                element.context as int,
            )),
            r matches Err(RuntimeFault::Queue(f)) ==> f == QueueFault::IndexExhausted && old(
                self,
            ).queue.next_index == u64::MAX,
            r is Ok ==> element.context <= usize::MAX && old(self).ops.deliver_allowed(
                element.context as int,
            ) && final(self).ops.slots@ == spec_deliver(
                old(self).ops.slots@,
                element.context as int,
                element,
            ),
            r matches Ok(o) ==> match o {
                CompletionOutcome::Woken { cookie } => cookie == element.context && old(self).ops.slot(cookie as int).future_live && old(self).ops.slot(
                    cookie as int,
                ).state.has_waker && final(self).queue == old(self).queue,
                CompletionOutcome::Quiet { cookie } => cookie == element.context && old(self).ops.slot(cookie as int).future_live && !old(self).ops.slot(
                    cookie as int,
                ).state.has_waker && final(self).queue == old(self).queue,
                CompletionOutcome::Drained { cookie, resupply } => cookie == element.context
                    && !old(self).ops.slot(cookie as int).future_live && match resupply {
                    None => spec_release_kept(
                        old(self).queue,
                        final(self).queue,
                        element.chunk_index as int,
                    ),
                    Some(cmd) => spec_release_resupplied(
                        old(self).queue,
                        final(self).queue,
                        element.chunk_index as int,
                        cmd,
                    ) && final(self).queue.live_elements@[element.chunk_index as int] == 0,
                },
            },
    {
        if element.context > usize::MAX as u64 {
            return Err(RuntimeFault::BadCookie);
        }
        let cookie = element.context as usize;
        if cookie >= self.ops.slots.len() {
            return Err(RuntimeFault::BadCookie);
        }
        let kernel_live = match &self.ops.slots[cookie] {
            Some(slot) => slot.kernel_live,
            None => false,
        };
        if !kernel_live {
            return Err(RuntimeFault::BadCookie);
        }
        match self.ops.deliver(cookie, element) {
            DeliverOutcome::Woken => Ok(CompletionOutcome::Woken { cookie }),
            DeliverOutcome::Quiet => Ok(CompletionOutcome::Quiet { cookie }),
            DeliverOutcome::Drained(drained) => {
                match self.queue.release_element(drained) {
                    Ok(resupply) => Ok(CompletionOutcome::Drained { cookie, resupply }),
                    Err(f) => Err(RuntimeFault::Queue(f)),
                }
            },
        }
    }
}

} // verus!
