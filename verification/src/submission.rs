//! The asynchronous operation runtime.
//!
//! An operation is submitted to the kernel once, suspends, and resumes when
//! its completion arrives on the queue.  The kernel echoes a caller-chosen
//! cookie with the completion; the runtime keeps every in-flight operation's
//! state in an [`OperationTable`] and uses the table index as the cookie, so
//! exactly one ownership share crosses the syscall boundary and comes back.
//!
//! Each operation carries two shares: the future's and the kernel's.  The
//! kernel share is granted when a submission is attempted, revoked if the
//! submit call fails, and consumed by the one delivery of the completion.
//! The state is freed exactly when both shares are gone, so nothing leaks —
//! also when the future is dropped before its completion, in which case the
//! delivery quietly drains the element instead of waking anyone.

use vstd::prelude::*;

use crate::Time;
use crate::action::{Action, ActionSlot, compose_actions, result_kinds, spec_compose, spec_compose_kinds, spec_total_count};
use crate::action_result::ResultKind;
use crate::handle::Handle;
use crate::queue::QueueElement;

verus! {

/// The kernel call a submission issues, with the completion cookie left for
/// the runtime to fill in.
pub enum SubmitCall {
    /// Wait until the monotonic clock reaches the given nanosecond value;
    /// the completion carries a simple result record.
    AwaitClock {
        /// Clock value to wait for, in nanoseconds since boot.
        nanos: u64,
    },
    /// Submit a packed action array on a lane; the completion carries one
    /// result record per action, in order.
    SubmitActions {
        /// Descriptor of the lane submitted on.
        lane_descriptor: i64,
        /// The packed action slots.
        actions: Vec<ActionSlot>,
        /// The kinds of the result records the completion will carry.
        result_kinds: Vec<ResultKind>,
    },
}

/// The call that completes when the clock reaches `time`.
pub fn sleep_until(time: Time) -> (r: SubmitCall)
    ensures
        r == (SubmitCall::AwaitClock { nanos: time.0 }),
{
    SubmitCall::AwaitClock { nanos: time.nanos() }
}

/// The call that completes `duration_nanos` after `now`.  Overflowing the
/// clock's range is a programming error, so the caller must rule it out.
pub fn sleep_for(now: Time, duration_nanos: u64) -> (r: SubmitCall)
    requires
        now.0 + duration_nanos <= u64::MAX,
    ensures
        r == (SubmitCall::AwaitClock { nanos: (now.0 + duration_nanos) as u64 }),
{
    let deadline = now.plus_nanos(duration_nanos);
    SubmitCall::AwaitClock { nanos: deadline.nanos() }
}

/// The call that submits the given action list on `lane`: the actions are
/// packed into their slot array, and the kinds of the result records the
/// completion will carry are laid out in action order.
pub fn submit_async(lane: &Handle, actions: &Vec<Action>) -> (r: SubmitCall)
    requires
        spec_total_count(actions@) <= usize::MAX,
    ensures
        r matches SubmitCall::SubmitActions { lane_descriptor, actions: slots, result_kinds: kinds }
            && lane_descriptor == lane.descriptor && slots@ == spec_compose(actions@) && kinds@
            == spec_compose_kinds(actions@),
{
    let slots = compose_actions(actions);
    let kinds = result_kinds(actions);
    SubmitCall::SubmitActions { lane_descriptor: lane.handle(), actions: slots, result_kinds: kinds }
}

/// Per-operation completion state: the submitted latch, whether a waker is
/// installed, and the stored completion element once it arrived.
pub struct OperationState {
    /// Whether the kernel submission has been issued successfully.
    pub submitted: bool,
    /// Whether the owning task's waker is installed.
    pub has_waker: bool,
    /// The completion element, once delivered and not yet taken.
    pub element: Option<QueueElement>,
}

impl OperationState {
    /// A fresh operation: unsubmitted, with no waker and no element.
    pub fn new() -> (r: OperationState)
        ensures
            !r.submitted,
            !r.has_waker,
            r.element is None,
    {
        OperationState { submitted: false, has_waker: false, element: None }
    }

    /// Whether the submission has been issued to the queue.
    pub fn is_submitted(&self) -> (r: bool)
        ensures
            r == self.submitted,
    {
        self.submitted
    }

    /// Takes the stored completion element, if one has been delivered.
    pub fn queue_element(&mut self) -> (r: Option<QueueElement>)
        ensures
            r == old(self).element,
            *final(self) == (OperationState { element: None, ..*old(self) }),
    {
        self.element.take()
    }

    /// Stores the delivered completion element and consumes the waker.
    /// Returns whether a waker was installed; when none is, the completion
    /// is kept silently rather than treated as an error.
    pub fn complete(&mut self, element: QueueElement) -> (woken: bool)
        ensures
            woken == old(self).has_waker,
            final(self).submitted == old(self).submitted,
            !final(self).has_waker,
            final(self).element matches Some(e) && e == element,
    {
        self.element = Some(element);
        let woken = self.has_waker;
        self.has_waker = false;
        woken
    }
}

/// A table slot: the operation state plus its two ownership shares.
pub struct OperationSlot {
    /// The operation's completion state.
    pub state: OperationState,
    /// Whether the future still owns its share.
    pub future_live: bool,
    /// Whether the kernel holds the cookie share.
    pub kernel_live: bool,
}

/// What a poll of an operation must do next.
pub enum PollStep {
    /// The completion has arrived: parse this element and return ready.
    Complete(QueueElement),
    /// Not submitted yet: the kernel share has been granted, issue the
    /// submit call and report the outcome through
    /// [`OperationTable::submit_ok`] or [`OperationTable::submit_failed`].
    Submit,
    /// Submitted and not yet complete: the waker is installed, suspend.
    Pending,
}

/// What delivering a completion did.
pub enum DeliverOutcome {
    /// The element was stored and the operation's waker must be signalled.
    Woken,
    /// The element was stored; no waker was installed, nothing to signal.
    Quiet,
    /// The future was dropped earlier: the operation is freed and the
    /// element comes back to be released against the queue.
    Drained(QueueElement),
}

/// The table of in-flight operations; a table index is the cookie the
/// kernel echoes.
pub struct OperationTable {
    /// One entry per allocated cookie; `None` once the operation is freed.
    pub slots: Vec<Option<OperationSlot>>,
}

/// How many operation states are live in `slots`.
pub open spec fn count_live(slots: Seq<Option<OperationSlot>>) -> nat
    decreases slots.len(),
{
    if slots.len() == 0 {
        0
    } else {
        count_live(slots.drop_last()) + (if slots.last() is Some {
            1nat
        } else {
            0nat
        })
    }
}

/// Whether a completion for `cookie` can be accepted against `slots`: the
/// cookie names a live operation whose kernel share is outstanding.
pub open spec fn seq_deliver_allowed(slots: Seq<Option<OperationSlot>>, cookie: int) -> bool {
    0 <= cookie < slots.len() && slots[cookie] is Some && slots[cookie]->0.kernel_live
}

/// The slots after the completion for `cookie` is delivered: a live future
/// gets the element stored and loses the kernel share; a dropped one has
/// the whole state freed.
pub open spec fn spec_deliver(
    slots: Seq<Option<OperationSlot>>,
    cookie: int,
    element: QueueElement,
) -> Seq<Option<OperationSlot>>
    recommends
        seq_deliver_allowed(slots, cookie),
{
    let s = slots[cookie]->0;
    if s.future_live {
        slots.update(
            cookie,
            Some(
                OperationSlot {
                    state: OperationState {
                        submitted: s.state.submitted,
                        has_waker: false,
                        element: Some(element),
                    },
                    future_live: true,
                    kernel_live: false,
                },
            ),
        )
    } else {
        slots.update(cookie, None)
    }
}

impl OperationTable {
    /// Whether `cookie` names a live operation.
    pub open spec fn is_live(self, cookie: int) -> bool {
        0 <= cookie < self.slots@.len() && self.slots@[cookie] is Some
    }

    /// The slot behind a live cookie.
    pub open spec fn slot(self, cookie: int) -> OperationSlot
        recommends
            self.is_live(cookie),
    {
        self.slots@[cookie]->0
    }

    /// How many operation states are live.
    pub open spec fn live_count(self) -> nat {
        count_live(self.slots@)
    }

    /// Every live operation is owned by its future, by the kernel, or by
    /// both: a state whose shares are both gone has been freed.
    pub open spec fn wf(self) -> bool {
        forall|i: int|
            0 <= i < self.slots@.len() && self.slots@[i] is Some ==> (#[trigger] self.slots@[i])->0.future_live
                || self.slots@[i]->0.kernel_live
    }

    /// Whether a completion for `cookie` can be accepted: the cookie is
    /// live and the kernel share is outstanding.
    pub open spec fn deliver_allowed(self, cookie: int) -> bool {
        seq_deliver_allowed(self.slots@, cookie)
    }

    /// An empty table.
    pub fn new() -> (r: OperationTable)
        ensures
            r.wf(),
            r.slots@.len() == 0,
            r.live_count() == 0,
    {
        OperationTable { slots: Vec::new() }
    }

    /// Allocates a state for a new operation and returns its cookie.  The
    /// future holds the only share.
    pub fn allocate(&mut self) -> (cookie: usize)
        requires
            old(self).wf(),
            old(self).slots@.len() < usize::MAX,
        ensures
            final(self).wf(),
            cookie == old(self).slots@.len(),
            final(self).slots@.len() == old(self).slots@.len() + 1,
            final(self).is_live(cookie as int),
            final(self).slot(cookie as int).future_live,
            !final(self).slot(cookie as int).kernel_live,
            !final(self).slot(cookie as int).state.submitted,
            !final(self).slot(cookie as int).state.has_waker,
            final(self).slot(cookie as int).state.element is None,
            forall|i: int| 0 <= i < old(self).slots@.len() ==> final(self).slots@[i] == #[trigger] old(self).slots@[i],
            final(self).live_count() == old(self).live_count() + 1,
    {
        let cookie = self.slots.len();
        let slot = OperationSlot { state: OperationState::new(), future_live: true, kernel_live: false };
        self.slots.push(Some(slot));
        proof {
            assert(self.slots@.drop_last() =~= old(self).slots@);
        }
        cookie
    }

    /// Polls an operation, as its future does: a stored element completes
    /// it; an unsubmitted operation grants the kernel share so the driver
    /// can issue the submit call; anything else installs the waker and
    /// suspends.
    pub fn poll(&mut self, cookie: usize) -> (r: PollStep)
        requires
            old(self).wf(),
            old(self).is_live(cookie as int),
            old(self).slot(cookie as int).future_live,
        ensures
            final(self).wf(),
            final(self).slots@.len() == old(self).slots@.len(),
            forall|i: int|
                0 <= i < old(self).slots@.len() && i != cookie ==> final(self).slots@[i]
                    == #[trigger] old(self).slots@[i],
            final(self).is_live(cookie as int),
            final(self).slot(cookie as int).future_live,
            old(self).slot(cookie as int).state.element matches Some(e) ==> r == PollStep::Complete(
                e,
            ) && final(self).slot(cookie as int) == (OperationSlot {
                state: OperationState { element: None, ..old(self).slot(cookie as int).state },
                ..old(self).slot(cookie as int)
            }),
            old(self).slot(cookie as int).state.element is None && !old(self).slot(
                cookie as int,
            ).state.submitted ==> r == PollStep::Submit && final(self).slot(cookie as int) == (OperationSlot {
                kernel_live: true,
                ..old(self).slot(cookie as int)
            }),
            old(self).slot(cookie as int).state.element is None && old(self).slot(
                cookie as int,
            ).state.submitted ==> r == PollStep::Pending && final(self).slot(cookie as int) == (OperationSlot {
                state: OperationState { has_waker: true, ..old(self).slot(cookie as int).state },
                ..old(self).slot(cookie as int)
            }),
            final(self).live_count() == old(self).live_count(),
    {
        let slot_ref = &mut self.slots[cookie];
        let r = match slot_ref {
            Some(slot) => {
                if let Some(element) = slot.state.queue_element() {
                    PollStep::Complete(element)
                } else if !slot.state.is_submitted() {
                    slot.kernel_live = true;
                    PollStep::Submit
                } else {
                    slot.state.has_waker = true;
                    PollStep::Pending
                }
            },
            None => PollStep::Pending,  // unreachable: the cookie is live
        };
        proof {
            lemma_count_live_update(old(self).slots@, cookie as int, self.slots@[cookie as int]);
        }
        r
    }

    /// Notes that the submit call for `cookie` succeeded: the submitted
    /// latch is set and the waker installed, the operation now suspends
    /// until its completion arrives.
    pub fn submit_ok(&mut self, cookie: usize)
        requires
            old(self).wf(),
            old(self).is_live(cookie as int),
            old(self).slot(cookie as int).kernel_live,
        ensures
            final(self).wf(),
            final(self).slots@.len() == old(self).slots@.len(),
            forall|i: int|
                0 <= i < old(self).slots@.len() && i != cookie ==> final(self).slots@[i]
                    == #[trigger] old(self).slots@[i],
            final(self).is_live(cookie as int),
            final(self).slot(cookie as int) == (OperationSlot {
                state: OperationState {
                    submitted: true,
                    has_waker: true,
                    ..old(self).slot(cookie as int).state
                },
                ..old(self).slot(cookie as int)
            }),
            final(self).live_count() == old(self).live_count(),
    {
        let slot_ref = &mut self.slots[cookie];
        match slot_ref {
            Some(slot) => {
                slot.state.submitted = true;
                slot.state.has_waker = true;
            },
            None => {},  // unreachable: the cookie is live
        }
        proof {
            lemma_count_live_update(old(self).slots@, cookie as int, self.slots@[cookie as int]);
        }
    }

    /// Notes that the submit call for `cookie` failed: the kernel share is
    /// reclaimed, nothing was placed on the queue, and the future reports
    /// the error.
    pub fn submit_failed(&mut self, cookie: usize)
        requires
            old(self).wf(),
            old(self).is_live(cookie as int),
            old(self).slot(cookie as int).kernel_live,
            old(self).slot(cookie as int).future_live,
        ensures
            final(self).wf(),
            final(self).slots@.len() == old(self).slots@.len(),
            forall|i: int|
                0 <= i < old(self).slots@.len() && i != cookie ==> final(self).slots@[i]
                    == #[trigger] old(self).slots@[i],
            final(self).is_live(cookie as int),
            final(self).slot(cookie as int) == (OperationSlot {
                kernel_live: false,
                ..old(self).slot(cookie as int)
            }),
            final(self).live_count() == old(self).live_count(),
    {
        let slot_ref = &mut self.slots[cookie];
        match slot_ref {
            Some(slot) => {
                slot.kernel_live = false;
            },
            None => {},  // unreachable: the cookie is live
        }
        proof {
            lemma_count_live_update(old(self).slots@, cookie as int, self.slots@[cookie as int]);
        }
    }

    /// Delivers the completion for `cookie`, consuming the kernel share.
    /// While the future lives, the element is stored and its waker, if any,
    /// must be signalled; for a dropped future the state is freed and the
    /// element handed back to be released.
    pub fn deliver(&mut self, cookie: usize, element: QueueElement) -> (r: DeliverOutcome)
        requires
            old(self).wf(),
            old(self).deliver_allowed(cookie as int),
        ensures
            final(self).wf(),
            final(self).slots@ == spec_deliver(old(self).slots@, cookie as int, element),
            !final(self).deliver_allowed(cookie as int),
            old(self).slot(cookie as int).future_live ==> r == (if old(self).slot(
                cookie as int,
            ).state.has_waker {
                DeliverOutcome::Woken
            } else {
                DeliverOutcome::Quiet
            }) && final(self).live_count() == old(self).live_count(),
            !old(self).slot(cookie as int).future_live ==> r == DeliverOutcome::Drained(element)
                && final(self).live_count() + 1 == old(self).live_count(),
    {
        let slot_ref = &mut self.slots[cookie];
        let mut freed = false;
        let r = match slot_ref {
            Some(slot) => {
                if slot.future_live {
                    slot.kernel_live = false;
                    let woken = slot.state.complete(element);
                    if woken {
                        DeliverOutcome::Woken
                    } else {
                        DeliverOutcome::Quiet
                    }
                } else {
                    freed = true;
                    DeliverOutcome::Drained(element)
                }
            },
            None => DeliverOutcome::Drained(element),  // unreachable: the cookie is live
        };
        if freed {
            self.slots.set(cookie, None);
        }
        proof {
            lemma_count_live_update(old(self).slots@, cookie as int, self.slots@[cookie as int]);
            assert(self.slots@ =~= spec_deliver(old(self).slots@, cookie as int, element));
        }
        r
    }

    /// Drops the future's share, as the future does when it completes or is
    /// cancelled.  A stored, unparsed element comes back to be released.
    /// With the kernel share gone too, the state is freed; otherwise it
    /// stays for the arriving completion to drain.
    pub fn drop_future(&mut self, cookie: usize) -> (r: Option<QueueElement>)
        requires
            old(self).wf(),
            old(self).is_live(cookie as int),
            old(self).slot(cookie as int).future_live,
        ensures
            final(self).wf(),
            final(self).slots@.len() == old(self).slots@.len(),
            forall|i: int|
                0 <= i < old(self).slots@.len() && i != cookie ==> final(self).slots@[i]
                    == #[trigger] old(self).slots@[i],
            r == old(self).slot(cookie as int).state.element,
            old(self).slot(cookie as int).kernel_live ==> final(self).is_live(cookie as int)
                && final(self).slot(cookie as int) == (OperationSlot {
                state: OperationState { element: None, ..old(self).slot(cookie as int).state },
                future_live: false,
                kernel_live: true,
            }) && final(self).live_count() == old(self).live_count(),
            !old(self).slot(cookie as int).kernel_live ==> final(self).slots@[cookie as int]
                is None && final(self).live_count() + 1 == old(self).live_count(),
    {
        let slot_ref = &mut self.slots[cookie];
        let mut freed = false;
        let r = match slot_ref {
            Some(slot) => {
                let element = slot.state.queue_element();
                if slot.kernel_live {
                    slot.future_live = false;
                } else {
                    freed = true;
                }
                element
            },
            None => None,  // unreachable: the cookie is live
        };
        if freed {
            self.slots.set(cookie, None);
            proof {
                assert(self.slots@ =~= old(self).slots@.update(cookie as int, None));
            }
        }
        proof {
            lemma_count_live_update(old(self).slots@, cookie as int, self.slots@[cookie as int]);
        }
        r
    }
}

/// Changing one slot changes the live count by the difference of that slot.
proof fn lemma_count_live_update(s: Seq<Option<OperationSlot>>, i: int, v: Option<OperationSlot>)
    requires
        0 <= i < s.len(),
    ensures
        count_live(s.update(i, v)) + (if s[i] is Some {
            1nat
        } else {
            0nat
        }) == count_live(s) + (if v is Some {
            1nat
        } else {
            0nat
        }),
    decreases s.len(),
{
    if i == s.len() - 1 {
        assert(s.update(i, v).drop_last() =~= s.drop_last());
    } else {
        assert(s.update(i, v).drop_last() =~= s.drop_last().update(i, v));
        lemma_count_live_update(s.drop_last(), i, v);
    }
}

/// Every freed slot stops counting: a table where every operation has lost
/// both its shares holds no live state at all.
proof fn lemma_count_live_all_none(s: Seq<Option<OperationSlot>>)
    requires
        forall|i: int| 0 <= i < s.len() ==> #[trigger] s[i] is None,
    ensures
        count_live(s) == 0,
    decreases s.len(),
{
    if s.len() > 0 {
        lemma_count_live_all_none(s.drop_last());
    }
}

/// Law: no state leaks.  In a well-formed table every live operation is
/// still owned by its future or by the kernel's cookie; once every
/// operation has been parsed by its future and had its completion either
/// consumed or drained — both shares gone — no operation state remains.
pub proof fn lemma_no_leaked_state(t: OperationTable)
    requires
        t.wf(),
        forall|i: int|
            0 <= i < t.slots@.len() && #[trigger] t.slots@[i] is Some ==> !t.slot(i).future_live
                && !t.slot(i).kernel_live,
    ensures
        t.live_count() == 0,
{
    assert forall|i: int| 0 <= i < t.slots@.len() implies #[trigger] t.slots@[i] is None by {
        if t.slots@[i] is Some {
            assert(t.slot(i).future_live || t.slot(i).kernel_live);
        }
    }
    lemma_count_live_all_none(t.slots@);
}

/// Law: a completion is delivered at most once.  Delivering consumes the
/// kernel's cookie share, so the delivery that just happened cannot be
/// accepted a second time.
pub proof fn lemma_no_double_delivery(
    slots: Seq<Option<OperationSlot>>,
    cookie: int,
    element: QueueElement,
)
    requires
        seq_deliver_allowed(slots, cookie),
    ensures
        !seq_deliver_allowed(spec_deliver(slots, cookie, element), cookie),
{
}

} // verus!
