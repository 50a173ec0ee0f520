//! Action assembly for vectored submissions.
//!
//! One kernel submission carries an ordered vector of actions — offer a new
//! lane, send a buffer, receive into a buffer or inline, pull a descriptor.
//! Each action contributes one raw action slot; an offer additionally
//! carries ancillary actions that run on the offered lane.  When an action
//! is followed by another in the same stream its chain flag is set, and an
//! offer with ancillary actions sets the ancillary flag.  This module packs
//! an action list into the slot array the submit syscall takes, with the
//! slot sequence pinned down exactly.

use vstd::prelude::*;

use crate::action_result::ResultKind;

verus! {

/// Slot type: no action; slots are initialized to it.
pub const ACTION_NONE: u32 = 0;

/// Slot type: offer a new lane to the peer.
pub const ACTION_OFFER: u32 = 1;

/// Slot type: send the bytes of a caller buffer.
pub const ACTION_SEND_FROM_BUFFER: u32 = 2;

/// Slot type: receive into a caller buffer.
pub const ACTION_RECV_TO_BUFFER: u32 = 3;

/// Slot type: receive inline, into the completion element itself.
pub const ACTION_RECV_INLINE: u32 = 4;

/// Slot type: pull a descriptor the peer pushed.
pub const ACTION_PULL_DESCRIPTOR: u32 = 5;

/// Slot flag: another action follows in the same stream.
pub const ITEM_CHAIN: u32 = 1;

/// Slot flag: the offered lane's handle is wanted in the result record.
pub const ITEM_WANT_LANE: u32 = 2;

/// Slot flag: the offer carries ancillary actions for the offered lane.
pub const ITEM_ANCILLARY: u32 = 4;

/// One raw action slot of the submit syscall's action array.  Buffer
/// addresses are attached by the driver when it issues the call; the slot
/// carries the buffer's length.
#[derive(Debug, Clone, Copy, PartialEq, Eq, Structural)]
pub struct ActionSlot {
    /// The slot type, one of the `ACTION_` constants.
    pub type_: u32,
    /// The union of `ITEM_` flags.
    pub flags: u32,
    /// Buffer length in bytes; zero when the action carries none.
    pub length: u64,
    /// Descriptor word; zero when the action carries none.
    pub handle: i64,
}

/// Sends the held bytes over the lane.
#[derive(Debug)]
pub struct SendBuffer {
    /// The bytes to send.
    pub data: Vec<u8>,
}

impl SendBuffer {
    /// A send of the given bytes.
    pub fn new(data: Vec<u8>) -> (r: SendBuffer)
        ensures
            r.data == data,
    {
        SendBuffer { data }
    }
}

/// Receives into a caller buffer of the given capacity.
#[derive(Debug, Clone, Copy, PartialEq, Eq, Structural)]
pub struct ReceiveBuffer {
    /// Capacity of the receiving buffer in bytes.
    pub capacity: usize,
}

impl ReceiveBuffer {
    /// A receive into a buffer of `capacity` bytes.
    pub fn new(capacity: usize) -> (r: ReceiveBuffer)
        ensures
            r.capacity == capacity,
    {
        ReceiveBuffer { capacity }
    }
}

/// A leaf action: one slot, no ancillary stream.
#[derive(Debug)]
pub enum BasicAction {
    /// Send the bytes of a buffer.
    Send(SendBuffer),
    /// Receive into a caller buffer.
    Receive(ReceiveBuffer),
    /// Receive inline, into the completion element.
    ReceiveInline,
    /// Pull a descriptor the peer pushed.
    PullDescriptor,
}

/// Offers a new lane, optionally asking for its handle back, and runs the
/// held ancillary actions on it.
#[derive(Debug)]
pub struct Offer {
    /// Whether the offered lane's handle is wanted in the result record.
    pub want_lane: bool,
    /// The ancillary actions to run on the offered lane.
    pub inner: Vec<BasicAction>,
}

impl Offer {
    /// An offer that runs `inner` on the offered lane.
    pub fn new(inner: Vec<BasicAction>) -> (r: Offer)
        ensures
            !r.want_lane,
            r.inner == inner,
    {
        Offer { want_lane: false, inner }
    }

    /// Like [`Offer::new`], and the offered lane's handle is returned in
    /// the result record.
    pub fn new_with_lane(inner: Vec<BasicAction>) -> (r: Offer)
        ensures
            r.want_lane,
            r.inner == inner,
    {
        Offer { want_lane: true, inner }
    }
}

/// One member of a submission's action list.
#[derive(Debug)]
pub enum Action {
    /// A leaf action.
    Basic(BasicAction),
    /// An offer with its ancillary actions.
    Offer(Offer),
}

/// The slot a leaf action packs to, chained when another action follows.
pub open spec fn spec_basic_slot(b: BasicAction, has_next: bool) -> ActionSlot {
    let chain: u32 = if has_next {
        ITEM_CHAIN
    } else {
        0
    };
    match b {
        BasicAction::Send(s) => ActionSlot {
            type_: ACTION_SEND_FROM_BUFFER,
            flags: chain,
            length: s.data@.len() as u64,
            handle: 0,
        },
        BasicAction::Receive(rb) => ActionSlot {
            type_: ACTION_RECV_TO_BUFFER,
            flags: chain,
            length: rb.capacity as u64,
            handle: 0,
        },
        BasicAction::ReceiveInline => ActionSlot {
            type_: ACTION_RECV_INLINE,
            flags: chain,
            length: 0,
            handle: 0,
        },
        BasicAction::PullDescriptor => ActionSlot {
            type_: ACTION_PULL_DESCRIPTOR,
            flags: chain,
            length: 0,
            handle: 0,
        },
    }
}

/// The slots a leaf list packs to: every member but the last is chained to
/// its successor, and the last is chained exactly when the stream goes on.
pub open spec fn spec_basic_slots(v: Seq<BasicAction>, has_next: bool) -> Seq<ActionSlot> {
    Seq::new(
        v.len(),
        |i: int|
            spec_basic_slot(
                v[i],
                if i < v.len() - 1 {
                    true
                } else {
                    has_next
                },
            ),
    )
}

/// The slot an offer's own action packs to.
pub open spec fn spec_offer_slot(o: Offer, has_next: bool) -> ActionSlot {
    let want: u32 = if o.want_lane {
        ITEM_WANT_LANE
    } else {
        0
    };
    let chain: u32 = if has_next {
        ITEM_CHAIN
    } else {
        0
    };
    let ancillary: u32 = if o.inner@.len() > 0 {
        ITEM_ANCILLARY
    } else {
        0
    };
    ActionSlot { type_: ACTION_OFFER, flags: want | chain | ancillary, length: 0, handle: 0 }
}

/// How many slots an action packs to.
pub open spec fn spec_action_count(a: Action) -> int {
    match a {
        Action::Basic(_) => 1int,
        Action::Offer(o) => 1 + o.inner@.len() as int,
    }
}

/// The slots an action packs to.  The ancillary stream of an offer is a
/// stream of its own: its last member is never chained onward.
pub open spec fn spec_action_slots(a: Action, has_next: bool) -> Seq<ActionSlot> {
    match a {
        Action::Basic(b) => seq![spec_basic_slot(b, has_next)],
        Action::Offer(o) => seq![spec_offer_slot(o, has_next)] + spec_basic_slots(o.inner@, false),
    }
}

/// The slots of the members of `v` from position `i` on, each chained
/// exactly when a member follows it.
pub open spec fn spec_compose_from(v: Seq<Action>, i: int) -> Seq<ActionSlot>
    decreases v.len() - i,
{
    if i < 0 || i >= v.len() {
        Seq::empty()
    } else {
        spec_action_slots(v[i], i < v.len() - 1) + spec_compose_from(v, i + 1)
    }
}

/// The slot array a whole action list packs to.
pub open spec fn spec_compose(v: Seq<Action>) -> Seq<ActionSlot> {
    spec_compose_from(v, 0)
}

/// How many slots a whole action list packs to.
pub open spec fn spec_total_count(v: Seq<Action>) -> int
    decreases v.len(),
{
    if v.len() == 0 {
        0
    } else {
        spec_action_count(v[0]) + spec_total_count(v.drop_first())
    }
}

impl BasicAction {
    /// Packs this leaf action into its slot.
    pub fn to_hel_action(&self, has_next: bool) -> (r: ActionSlot)
        ensures
            r == spec_basic_slot(*self, has_next),
    {
        let chain: u32 = if has_next {
            ITEM_CHAIN
        } else {
            0
        };
        match self {
            BasicAction::Send(s) => ActionSlot {
                type_: ACTION_SEND_FROM_BUFFER,
                flags: chain,
                length: s.data.len() as u64,
                handle: 0,
            },
            BasicAction::Receive(rb) => ActionSlot {
                type_: ACTION_RECV_TO_BUFFER,
                flags: chain,
                length: rb.capacity as u64,
                handle: 0,
            },
            BasicAction::ReceiveInline => ActionSlot {
                type_: ACTION_RECV_INLINE,
                flags: chain,
                length: 0,
                handle: 0,
            },
            BasicAction::PullDescriptor => ActionSlot {
                type_: ACTION_PULL_DESCRIPTOR,
                flags: chain,
                length: 0,
                handle: 0,
            },
        }
    }
}

impl Action {
    /// How many slots this action packs to.
    pub fn action_count(&self) -> (r: usize)
        requires
            spec_action_count(*self) <= usize::MAX,
        ensures
            r == spec_action_count(*self),
    {
        match self {
            Action::Basic(_) => 1,
            Action::Offer(o) => 1 + o.inner.len(),
        }
    }

    /// Packs this action, appending its slots to `out`.
    pub fn to_hel_actions(&self, has_next: bool, out: &mut Vec<ActionSlot>)
        requires
            old(out)@.len() + spec_action_count(*self) <= usize::MAX,
        ensures
            final(out)@ == old(out)@ + spec_action_slots(*self, has_next),
    {
        match self {
            Action::Basic(b) => {
                let slot = b.to_hel_action(has_next);
                out.push(slot);
                assert(final(out)@ =~= old(out)@ + spec_action_slots(*self, has_next));
            },
            Action::Offer(o) => {
                let chain: u32 = if has_next {
                    ITEM_CHAIN
                } else {
                    0
                };
                let want: u32 = if o.want_lane {
                    ITEM_WANT_LANE
                } else {
                    0
                };
                let ancillary: u32 = if o.inner.len() > 0 {
                    ITEM_ANCILLARY
                } else {
                    0
                };
                let slot = ActionSlot {
                    type_: ACTION_OFFER,
                    flags: want | chain | ancillary,
                    length: 0,
                    handle: 0,
                };
                out.push(slot);
                let ghost mid = out@;
                let n = o.inner.len();
                let mut i: usize = 0;
                while i < n
                    invariant
                        i <= n,
                        n == o.inner@.len(),
                        out@ == mid + spec_basic_slots(o.inner@, false).take(i as int),
                    decreases n - i,
                {
                    let slot_i = o.inner[i].to_hel_action(i + 1 < n);
                    out.push(slot_i);
                    proof {
                        assert(out@ =~= mid + spec_basic_slots(o.inner@, false).take(i + 1));
                    }
                    i = i + 1;
                }
                proof {
                    assert(spec_basic_slots(o.inner@, false).take(n as int) =~= spec_basic_slots(
                        o.inner@,
                        false,
                    ));
                    assert(out@ =~= old(out)@ + spec_action_slots(*self, has_next));
                }
            },
        }
    }
}

/// Packs a whole action list into the slot array handed to the submit
/// syscall.
pub fn compose_actions(actions: &Vec<Action>) -> (r: Vec<ActionSlot>)
    requires
        spec_total_count(actions@) <= usize::MAX,
    ensures
        r@ == spec_compose(actions@),
        r@.len() == spec_total_count(actions@),
{
    proof {
        lemma_compose_slot_count(actions@, 0);
    }
    let mut out: Vec<ActionSlot> = Vec::new();
    let n = actions.len();
    let mut i: usize = 0;
    while i < n
        invariant
            i <= n,
            n == actions@.len(),
            spec_total_count(actions@) <= usize::MAX,
            spec_compose_from(actions@, 0) == out@ + spec_compose_from(actions@, i as int),
        decreases n - i,
    {
        proof {
            lemma_compose_slot_count(actions@, 0);
            lemma_compose_slot_count(actions@, i as int);
            lemma_compose_slot_count(actions@, i + 1);
            lemma_total_count_nonneg(actions@, i + 1);
            assert(actions@.skip(0) =~= actions@);
            assert(actions@.skip(i as int).drop_first() =~= actions@.skip(i + 1));
            assert(actions@.skip(i as int)[0] == actions@[i as int]);
        }
        actions[i].to_hel_actions(i + 1 < n, &mut out);
        proof {
            assert(spec_compose_from(actions@, 0) =~= out@ + spec_compose_from(actions@, i + 1));
        }
        i = i + 1;
    }
    proof {
        assert(out@ =~= spec_compose(actions@));
        lemma_compose_slot_count(actions@, 0);
        assert(actions@.skip(0) =~= actions@);
    }
    out
}

/// The slot counts of the members from `i` on sum to the length of what
/// they pack to.
proof fn lemma_compose_slot_count(v: Seq<Action>, i: int)
    requires
        0 <= i <= v.len(),
    ensures
        spec_compose_from(v, i).len() == spec_total_count(v.skip(i)),
        spec_compose_from(v, i).len() >= 0,
    decreases v.len() - i,
{
    if i < v.len() {
        lemma_compose_slot_count(v, i + 1);
        assert(v.skip(i).drop_first() =~= v.skip(i + 1));
        assert(v.skip(i)[0] == v[i]);
    }
}

/// Slot counts are never negative.
proof fn lemma_total_count_nonneg(v: Seq<Action>, i: int)
    requires
        0 <= i <= v.len(),
    ensures
        spec_total_count(v.skip(i)) >= 0,
    decreases v.len() - i,
{
    if i < v.len() {
        lemma_total_count_nonneg(v, i + 1);
        assert(v.skip(i).drop_first() =~= v.skip(i + 1));
        assert(v.skip(i)[0] == v[i]);
    }
}

/// The kind of result record a leaf action's completion carries.
pub open spec fn spec_basic_kind(b: BasicAction) -> ResultKind {
    match b {
        BasicAction::Send(_) => ResultKind::Simple,
        BasicAction::Receive(_) => ResultKind::Length,
        BasicAction::ReceiveInline => ResultKind::Inline,
        BasicAction::PullDescriptor => ResultKind::Handle,
    }
}

/// The result kinds of a leaf list, in order.
pub open spec fn spec_basic_kinds(v: Seq<BasicAction>) -> Seq<ResultKind> {
    Seq::new(v.len(), |i: int| spec_basic_kind(v[i]))
}

/// The result kinds an action's completion carries: an offer reports its
/// lane handle first, then its ancillary actions' results in order.
pub open spec fn spec_action_kinds(a: Action) -> Seq<ResultKind> {
    match a {
        Action::Basic(b) => seq![spec_basic_kind(b)],
        Action::Offer(o) => seq![ResultKind::Handle] + spec_basic_kinds(o.inner@),
    }
}

/// The result kinds of a whole action list: record order follows action
/// order.
pub open spec fn spec_compose_kinds(v: Seq<Action>) -> Seq<ResultKind>
    decreases v.len(),
{
    if v.len() == 0 {
        Seq::empty()
    } else {
        spec_action_kinds(v[0]) + spec_compose_kinds(v.drop_first())
    }
}

/// The result kinds a whole action list's completion carries, in the order
/// the records are parsed.
pub fn result_kinds(actions: &Vec<Action>) -> (r: Vec<ResultKind>)
    ensures
        r@ == spec_compose_kinds(actions@),
{
    let mut out: Vec<ResultKind> = Vec::new();
    let n = actions.len();
    let mut i: usize = 0;
    proof {
        assert(actions@.skip(0) =~= actions@);
        assert(Seq::<ResultKind>::empty() + spec_compose_kinds(actions@) =~= spec_compose_kinds(
            actions@,
        ));
    }
    #[verifier::loop_isolation(false)]
    while i < n
        invariant
            i <= n,
            out@ + spec_compose_kinds(actions@.skip(i as int)) == spec_compose_kinds(actions@),
        decreases n - i,
    {
        proof {
            assert(actions@.skip(i as int)[0] == actions@[i as int]);
            assert(actions@.skip(i as int).drop_first() =~= actions@.skip(i + 1));
        }
        match &actions[i] {
            Action::Basic(b) => {
                let kind = basic_kind(b);
                out.push(kind);
                proof {
                    assert(out@ + spec_compose_kinds(actions@.skip(i + 1)) =~= spec_compose_kinds(
                        actions@,
                    ));
                }
            },
            Action::Offer(o) => {
                out.push(ResultKind::Handle);
                let ghost mid = out@;
                let m = o.inner.len();
                let mut j: usize = 0;
                while j < m
                    invariant
                        j <= m,
                        m == o.inner@.len(),
                        out@ == mid + spec_basic_kinds(o.inner@).take(j as int),
                    decreases m - j,
                {
                    let kind = basic_kind(&o.inner[j]);
                    out.push(kind);
                    proof {
                        assert(out@ =~= mid + spec_basic_kinds(o.inner@).take(j + 1));
                    }
                    j = j + 1;
                }
                proof {
                    assert(spec_basic_kinds(o.inner@).take(m as int) =~= spec_basic_kinds(
                        o.inner@,
                    ));
                    assert(out@ + spec_compose_kinds(actions@.skip(i + 1)) =~= spec_compose_kinds(
                        actions@,
                    ));
                }
            },
        }
        i = i + 1;
    }
    proof {
        assert(actions@.skip(n as int) =~= Seq::<Action>::empty());
        assert(out@ =~= spec_compose_kinds(actions@));
    }
    out
}

/// The kind of result record a leaf action's completion carries.
fn basic_kind(b: &BasicAction) -> (r: ResultKind)
    ensures
        r == spec_basic_kind(*b),
{
    match b {
        BasicAction::Send(_) => ResultKind::Simple,
        BasicAction::Receive(_) => ResultKind::Length,
        BasicAction::ReceiveInline => ResultKind::Inline,
        BasicAction::PullDescriptor => ResultKind::Handle,
    }
}

/// Law: packing writes exactly as many slots as the action list declares.
pub proof fn lemma_compose_writes_declared_count(v: Seq<Action>)
    ensures
        spec_compose(v).len() == spec_total_count(v),
{
    lemma_compose_slot_count(v, 0);
    assert(v.skip(0) =~= v);
}

/// Law: in a flat action list — leaf actions only — packing yields one
/// slot per action, and the chain flag stands on slot `k` exactly when
/// another action follows it.  An offer's ancillary stream is exempt: it
/// is chained internally, not onto the actions after the offer.
pub proof fn lemma_flat_chain_flags(v: Seq<Action>)
    requires
        forall|i: int| 0 <= i < v.len() ==> (#[trigger] v[i]) is Basic,
    ensures
        spec_compose(v).len() == v.len(),
        forall|k: int|
            0 <= k < v.len() ==> ((#[trigger] spec_compose(v)[k]).flags & ITEM_CHAIN != 0 <==> k
                < v.len() - 1),
{
    lemma_flat_compose_from(v, 0);
}

/// The flat-list law, for the members from `i` on.
proof fn lemma_flat_compose_from(v: Seq<Action>, i: int)
    requires
        0 <= i <= v.len(),
        forall|j: int| 0 <= j < v.len() ==> (#[trigger] v[j]) is Basic,
    ensures
        spec_compose_from(v, i).len() == v.len() - i,
        forall|k: int|
            0 <= k < v.len() - i ==> ((#[trigger] spec_compose_from(v, i)[k]).flags & ITEM_CHAIN
                != 0 <==> i + k < v.len() - 1),
    decreases v.len() - i,
{
    if i < v.len() {
        lemma_flat_compose_from(v, i + 1);
        let slots = spec_compose_from(v, i);
        let head = spec_basic_slot(v[i]->Basic_0, i < v.len() - 1);
        assert(slots[0] == head);
        assert(ITEM_CHAIN & ITEM_CHAIN != 0) by (bit_vector);
        assert(0u32 & ITEM_CHAIN == 0) by (bit_vector);
        assert forall|k: int| 0 <= k < v.len() - i implies ((#[trigger] slots[k]).flags
            & ITEM_CHAIN != 0 <==> i + k < v.len() - 1) by {
            if k > 0 {
                assert(slots[k] == spec_compose_from(v, i + 1)[k - 1]);
            }
        }
    }
}

} // verus!
