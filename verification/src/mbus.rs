//! The bus enumeration protocol.
//!
//! A bus server keeps a registry of entities, each with a name and a tree
//! of properties, and answers filtered enumeration queries.  The transport
//! serializes the messages; this module owns the protocol's data: property
//! items and filters with their wire encodings, and the enumeration state
//! that turns a server reply into events — an entity seen for the first
//! time is reported as created, one seen again as changed.

use vstd::prelude::*;

verus! {

/// Wire code: the request succeeded.
pub const MBUS_ERROR_SUCCESS: u32 = 0;

/// Wire code: the named entity does not exist.
pub const MBUS_ERROR_NO_SUCH_ENTITY: u32 = 1;

/// An error of the bus service, or of the IPC carrying it.
#[derive(Debug, Clone, Copy, PartialEq, Eq, Structural)]
pub enum Error {
    /// The named entity does not exist.
    NoSuchEntity,
    /// The kernel IPC underneath failed.
    HelError(crate::result::Error),
}

impl Error {
    /// Maps a service failure code onto its variant; the success code and
    /// anything outside the closed set map to `None`.
    pub fn from_wire(code: u32) -> (r: Option<Error>)
        ensures
            r is Some <==> code == MBUS_ERROR_NO_SUCH_ENTITY,
            r matches Some(e) ==> e == Error::NoSuchEntity,
    {
        if code == MBUS_ERROR_NO_SUCH_ENTITY {
            Some(Error::NoSuchEntity)
        } else {
            None
        }
    }

    /// Wraps a kernel IPC error.
    pub fn from_hel(e: crate::result::Error) -> (r: Error)
        ensures
            r == Error::HelError(e),
    {
        Error::HelError(e)
    }
}

/// A property value: a text leaf or an array of property values.
#[derive(Debug)]
pub enum Item {
    /// A text leaf.
    Text(String),
    /// An array of items.
    Array(Vec<Item>),
}

/// Wire tag of a property item.
#[derive(Debug, Clone, Copy, PartialEq, Eq, Structural)]
pub enum ItemType {
    /// The item is a text leaf.
    Text,
    /// The item is an array.
    Array,
}

/// A property item as the wire carries it: a tag and the field the tag
/// selects.
#[derive(Debug)]
pub struct AnyItem {
    /// Which field the item uses.
    pub item_type: ItemType,
    /// The text of a text leaf.
    pub string_item: Option<String>,
    /// The members of an array item.
    pub items: Option<Vec<AnyItem>>,
}

/// The mathematical shape of a property item.
pub enum ItemModel {
    /// A text leaf.
    Text(Seq<char>),
    /// An array of items.
    Array(Seq<ItemModel>),
}

/// The shape of an item.
pub open spec fn item_model(item: Item) -> ItemModel
    decreases item,
{
    match item {
        Item::Text(s) => ItemModel::Text(s@),
        Item::Array(v) => ItemModel::Array(models_of(v@)),
    }
}

/// The shapes of a list of items, in order.
pub open spec fn models_of(s: Seq<Item>) -> Seq<ItemModel>
    decreases s,
{
    if s.len() == 0 {
        Seq::empty()
    } else {
        seq![item_model(s[0])] + models_of(s.drop_first())
    }
}

/// Lists of items with the same shapes, member for member, have the same
/// shape lists.
proof fn lemma_models_of_pointwise(a: Seq<Item>, b: Seq<Item>)
    requires
        a.len() == b.len(),
        forall|i: int| 0 <= i < a.len() ==> item_model(#[trigger] a[i]) == item_model(b[i]),
    ensures
        models_of(a) == models_of(b),
    decreases a.len(),
{
    if a.len() > 0 {
        assert forall|i: int|
            0 <= i < a.drop_first().len() implies item_model(#[trigger] a.drop_first()[i])
            == item_model(b.drop_first()[i]) by {
            assert(a.drop_first()[i] == a[i + 1]);
            assert(b.drop_first()[i] == b[i + 1]);
        }
        lemma_models_of_pointwise(a.drop_first(), b.drop_first());
        assert(item_model(a[0]) == item_model(b[0]));
    }
}

/// Whether `w` is the wire encoding of `item`.
pub open spec fn encodes(item: Item, w: AnyItem) -> bool
    decreases item,
{
    match item {
        Item::Text(s) => {
            &&& w.item_type == ItemType::Text
            &&& w.string_item matches Some(t) && t@ == s@
            &&& w.items is None
        },
        Item::Array(v) => {
            &&& w.item_type == ItemType::Array
            &&& w.string_item is None
            &&& w.items matches Some(ws) && ws@.len() == v@.len() && (forall|i: int|
                0 <= i < v@.len() ==> encodes(#[trigger] v@[i], ws@[i]))
        },
    }
}

/// Whether the wire value `w` decodes to `item`: the tag selects the field
/// read; a field the tag does not select is ignored.
pub open spec fn decodes(w: AnyItem, item: Item) -> bool
    decreases w,
{
    match w.item_type {
        ItemType::Text => {
            &&& item matches Item::Text(s)
            &&& w.string_item matches Some(t) && s@ == t@
        },
        ItemType::Array => {
            &&& item matches Item::Array(v)
            &&& w.items matches Some(ws) && v@.len() == ws@.len() && (forall|i: int|
                0 <= i < ws@.len() ==> decodes(#[trigger] ws@[i], v@[i]))
        },
    }
}

/// Whether a wire item is well-formed: the field its tag selects is
/// present, recursively.
pub open spec fn wf_any(w: AnyItem) -> bool
    decreases w,
{
    match w.item_type {
        ItemType::Text => w.string_item is Some,
        ItemType::Array => w.items matches Some(ws) && (forall|i: int|
            0 <= i < ws@.len() ==> wf_any(#[trigger] ws@[i])),
    }
}

impl Item {
    /// Encodes this item for the wire.
    pub fn encode_item(&self) -> (w: AnyItem)
        ensures
            encodes(*self, w),
        decreases *self,
    {
        match self {
            Item::Text(s) => AnyItem {
                item_type: ItemType::Text,
                string_item: Some(clone_string(s)),
                items: None,
            },
            Item::Array(v) => {
                let mut ws: Vec<AnyItem> = Vec::new();
                let n = v.len();
                let mut i: usize = 0;
                #[verifier::loop_isolation(false)]
                while i < n
                    invariant
                        i <= n,
                        ws@.len() == i,
                        forall|k: int| 0 <= k < i ==> encodes(#[trigger] v@[k], ws@[k]),
                    decreases n - i,
                {
                    let w_i = v[i].encode_item();
                    ws.push(w_i);
                    i = i + 1;
                }
                AnyItem { item_type: ItemType::Array, string_item: None, items: Some(ws) }
            },
        }
    }

    /// Decodes a wire item.  A wire value whose tag selects a missing
    /// field, at any depth, is rejected.
    pub fn decode_item(w: &AnyItem) -> (r: Option<Item>)
        ensures
            r is Some <==> wf_any(*w),
            r matches Some(item) ==> decodes(*w, item),
        decreases *w,
    {
        match w.item_type {
            ItemType::Text => match &w.string_item {
                Some(s) => Some(Item::Text(clone_string(s))),
                None => None,
            },
            ItemType::Array => match &w.items {
                Some(ws) => {
                    let mut v: Vec<Item> = Vec::new();
                    let n = ws.len();
                    let mut i: usize = 0;
                    #[verifier::loop_isolation(false)]
                    while i < n
                        invariant
                            i <= n,
                            v@.len() == i,
                            forall|k: int| 0 <= k < i ==> wf_any(#[trigger] ws@[k]),
                            forall|k: int| 0 <= k < i ==> decodes(#[trigger] ws@[k], v@[k]),
                        decreases n - i,
                    {
                        match Item::decode_item(&ws[i]) {
                            Some(item) => {
                                v.push(item);
                            },
                            None => {
                                return None;
                            },
                        }
                        i = i + 1;
                    }
                    Some(Item::Array(v))
                },
                None => None,
            },
        }
    }
}

/// Law: encoding always produces a well-formed wire item.
pub proof fn lemma_encode_well_formed(item: Item, w: AnyItem)
    requires
        encodes(item, w),
    ensures
        wf_any(w),
    decreases item,
{
    match item {
        Item::Text(s) => {},
        Item::Array(v) => {
            let ws = w.items->0;
            assert forall|i: int| 0 <= i < ws@.len() implies wf_any(#[trigger] ws@[i]) by {
                assert(encodes(v@[i], ws@[i]));
                lemma_encode_well_formed(v@[i], ws@[i]);
            }
        },
    }
}

/// Law: items round-trip through the wire.  Whatever decodes from an
/// item's encoding has the item's own shape.
pub proof fn lemma_item_round_trip(x: Item, w: AnyItem, y: Item)
    requires
        encodes(x, w),
        decodes(w, y),
    ensures
        item_model(x) == item_model(y),
    decreases x,
{
    match x {
        Item::Text(s) => {},
        Item::Array(v) => {
            let ws = w.items->0;
            let vy = y->Array_0;
            assert forall|i: int|
                0 <= i < v@.len() implies item_model(#[trigger] v@[i]) == item_model(vy@[i]) by {
                assert(encodes(v@[i], ws@[i]));
                assert(decodes(ws@[i], vy@[i]));
                lemma_item_round_trip(v@[i], ws@[i], vy@[i]);
            }
            lemma_models_of_pointwise(v@, vy@);
        },
    }
}

/// A query filter over entity properties.
#[derive(Debug)]
pub enum Filter {
    /// The property at the given path equals the given text.
    Equals(String, String),
    /// All member filters hold.
    Conjunction(Vec<Filter>),
    /// At least one member filter holds.
    Disjunction(Vec<Filter>),
}

/// Wire tag of a filter.
#[derive(Debug, Clone, Copy, PartialEq, Eq, Structural)]
pub enum FilterType {
    /// An equality test on one property.
    Equals,
    /// All operands must hold.
    Conjunction,
    /// At least one operand must hold.
    Disjunction,
}

/// A filter as the wire carries it: a tag, the equality operands, and the
/// member filters; fields the tag does not select stay empty.
#[derive(Debug)]
pub struct AnyFilter {
    /// Which fields the filter uses.
    pub filter_type: FilterType,
    /// The property path of an equality test.
    pub path: String,
    /// The value of an equality test.
    pub value: String,
    /// The members of a conjunction or disjunction.
    pub operands: Vec<AnyFilter>,
}

/// Whether `w` is the wire encoding of `filter`.
pub open spec fn filter_encodes(filter: Filter, w: AnyFilter) -> bool
    decreases filter,
{
    match filter {
        Filter::Equals(path, value) => {
            &&& w.filter_type == FilterType::Equals
            &&& w.path@ == path@
            &&& w.value@ == value@
            &&& w.operands@.len() == 0
        },
        Filter::Conjunction(members) => {
            &&& w.filter_type == FilterType::Conjunction
            &&& w.path@.len() == 0
            &&& w.value@.len() == 0
            &&& w.operands@.len() == members@.len()
            &&& forall|i: int|
                0 <= i < members@.len() ==> filter_encodes(#[trigger] members@[i], w.operands@[i])
        },
        Filter::Disjunction(members) => {
            &&& w.filter_type == FilterType::Disjunction
            &&& w.path@.len() == 0
            &&& w.value@.len() == 0
            &&& w.operands@.len() == members@.len()
            &&& forall|i: int|
                0 <= i < members@.len() ==> filter_encodes(#[trigger] members@[i], w.operands@[i])
        },
    }
}

impl Filter {
    /// Encodes this filter for the wire.
    pub fn encode_filter(&self) -> (w: AnyFilter)
        ensures
            filter_encodes(*self, w),
        decreases *self,
    {
        match self {
            Filter::Equals(path, value) => AnyFilter {
                filter_type: FilterType::Equals,
                path: clone_string(path),
                value: clone_string(value),
                operands: Vec::new(),
            },
            Filter::Conjunction(members) => AnyFilter {
                filter_type: FilterType::Conjunction,
                path: new_string(),
                value: new_string(),
                operands: encode_members(members),
            },
            Filter::Disjunction(members) => AnyFilter {
                filter_type: FilterType::Disjunction,
                path: new_string(),
                value: new_string(),
                operands: encode_members(members),
            },
        }
    }
}

/// Encodes a filter list memberwise.
fn encode_members(members: &Vec<Filter>) -> (r: Vec<AnyFilter>)
    ensures
        r@.len() == members@.len(),
        forall|i: int|
            0 <= i < members@.len() ==> filter_encodes(#[trigger] members@[i], r@[i]),
    decreases *members,
{
    let mut out: Vec<AnyFilter> = Vec::new();
    let n = members.len();
    let mut i: usize = 0;
    #[verifier::loop_isolation(false)]
    while i < n
        invariant
            i <= n,
            out@.len() == i,
            forall|k: int| 0 <= k < i ==> filter_encodes(#[trigger] members@[k], out@[k]),
        decreases n - i,
    {
        let w = members[i].encode_filter();
        out.push(w);
        i = i + 1;
    }
    out
}

/// An entity on the bus, named by its registry id.
#[derive(Debug, Clone, Copy, PartialEq, Eq, Structural)]
pub struct Entity {
    /// The entity's registry id.
    pub id: i64,
}

impl Entity {
    /// The entity behind a registry id.
    pub fn from_id(id: i64) -> (r: Entity)
        ensures
            r.id == id,
    {
        Entity { id }
    }

    /// The entity's registry id.
    pub fn id(&self) -> (r: i64)
        ensures
            r == self.id,
    {
        self.id
    }
}

/// The kind of change an enumeration event reports.
#[derive(Debug, Clone, Copy, PartialEq, Eq, Structural)]
pub enum EventType {
    /// The entity was created.
    Created,
    /// The entity was removed.
    Removed,
    /// The entity's properties were changed.
    PropertiesChanged,
}

/// One named property as the wire carries it.
#[derive(Debug)]
pub struct WireProperty {
    /// The property's name.
    pub name: String,
    /// The property's value.
    pub item: AnyItem,
}

/// An entity's properties, as name and value pairs.
pub type Properties = Vec<(String, Item)>;

/// One entity of an enumeration reply as the wire carries it.
#[derive(Debug)]
pub struct EntityData {
    /// The entity's registry id.
    pub id: i64,
    /// The entity's name.
    pub name: String,
    /// The entity's properties.
    pub properties: Vec<WireProperty>,
}

/// An enumeration reply as the wire carries it.
#[derive(Debug)]
pub struct EnumerateResponseData {
    /// The registry sequence number the reply reaches up to.
    pub out_seq: u64,
    /// The registry's current sequence number.
    pub actual_seq: u64,
    /// The entities that changed since the queried sequence number.
    pub entities: Vec<EntityData>,
}

/// One event of an enumeration: an entity appeared or changed.
#[derive(Debug)]
pub struct EnumerationEvent {
    /// The kind of change.
    pub event_type: EventType,
    /// The registry id of the entity the event is about.
    pub entity_id: i64,
    /// The entity's name.
    pub name: String,
    /// The entity's properties after the change.
    pub properties: Properties,
}

impl EnumerationEvent {
    /// The kind of change.
    pub fn event_type(&self) -> (r: EventType)
        ensures
            r == self.event_type,
    {
        self.event_type
    }

    /// The registry id of the entity the event is about.
    pub fn entity_id(&self) -> (r: i64)
        ensures
            r == self.entity_id,
    {
        self.entity_id
    }

    /// The entity the event is about.
    pub fn entity(&self) -> (r: Entity)
        ensures
            r.id == self.entity_id,
    {
        Entity { id: self.entity_id }
    }

    /// The entity's name.
    pub fn name(&self) -> (r: &String)
        ensures
            r == self.name,
    {
        &self.name
    }

    /// The entity's properties after the change.
    pub fn properties(&self) -> (r: &Properties)
        ensures
            r == self.properties,
    {
        &self.properties
    }
}

/// Whether `props` decodes name for name and value for value to `r`.
pub open spec fn spec_properties_decoded(props: Seq<WireProperty>, r: Seq<(String, Item)>) -> bool {
    &&& r.len() == props.len()
    &&& forall|k: int|
        0 <= k < props.len() ==> {
            let p = #[trigger] r[k];
            p.0@ == props[k].name@ && decodes(props[k].item, p.1)
        }
}

/// Decodes a wire property list into named items, in order.  Properties
/// that share a name are all kept, in reply order.  A malformed item
/// anywhere rejects the whole list.
pub fn decode_properties(props: &Vec<WireProperty>) -> (r: Option<Properties>)
    ensures
        r is Some <==> (forall|k: int|
            0 <= k < props@.len() ==> wf_any((#[trigger] props@[k]).item)),
        r matches Some(v) ==> spec_properties_decoded(props@, v@),
{
    let mut out: Properties = Vec::new();
    let m = props.len();
    let mut k: usize = 0;
    #[verifier::loop_isolation(false)]
    while k < m
        invariant
            k <= m,
            out@.len() == k,
            forall|q: int| 0 <= q < k ==> wf_any((#[trigger] props@[q]).item),
            forall|q: int|
                0 <= q < k ==> {
                    let p = #[trigger] out@[q];
                    p.0@ == props@[q].name@ && decodes(props@[q].item, p.1)
                },
        decreases m - k,
    {
        let wire_property = &props[k];
        match Item::decode_item(&wire_property.item) {
            Some(item) => {
                let name = clone_string(&wire_property.name);
                out.push((name, item));
            },
            None => {
                return None;
            },
        }
        k = k + 1;
    }
    Some(out)
}

/// Encodes named items into a wire property list, in order.
pub fn encode_properties(props: &Properties) -> (r: Vec<WireProperty>)
    ensures
        r@.len() == props@.len(),
        forall|k: int|
            0 <= k < props@.len() ==> (#[trigger] r@[k]).name@ == props@[k].0@ && encodes(
                props@[k].1,
                r@[k].item,
            ),
{
    let mut out: Vec<WireProperty> = Vec::new();
    let m = props.len();
    let mut k: usize = 0;
    #[verifier::loop_isolation(false)]
    while k < m
        invariant
            k <= m,
            out@.len() == k,
            forall|q: int|
                0 <= q < k ==> (#[trigger] out@[q]).name@ == props@[q].0@ && encodes(
                    props@[q].1,
                    out@[q].item,
                ),
        decreases m - k,
    {
        let (name, item) = &props[k];
        let wire = WireProperty { name: clone_string(name), item: item.encode_item() };
        out.push(wire);
        k = k + 1;
    }
    out
}

/// Interprets a reply that should have pushed the entity's lane: a
/// successful status yields the pulled handle, a failure status its error.
/// A success without a pushed descriptor marks a corrupted conversation
/// and is on the caller to have ruled out.
pub fn lane_reply(code: u32, pulled: Option<crate::handle::Handle>) -> (r: Result<
    crate::handle::Handle,
    Error,
>)
    requires
        code == MBUS_ERROR_SUCCESS || code == MBUS_ERROR_NO_SUCH_ENTITY,
        code == MBUS_ERROR_SUCCESS ==> pulled is Some,
    ensures
        code == MBUS_ERROR_SUCCESS ==> (r matches Ok(h) && Some(h) == pulled),
        code == MBUS_ERROR_NO_SUCH_ENTITY ==> r == Err::<crate::handle::Handle, Error>(
            Error::NoSuchEntity,
        ),
{
    if code == MBUS_ERROR_SUCCESS {
        match pulled {
            Some(h) => Ok(h),
            None => Err(Error::NoSuchEntity),  // unreachable: a descriptor was pushed
        }
    } else {
        Err(Error::NoSuchEntity)
    }
}

/// Interprets a reply that carries only a status, as the answer to a
/// property update does.
pub fn status_reply(code: u32) -> (r: Result<(), Error>)
    requires
        code == MBUS_ERROR_SUCCESS || code == MBUS_ERROR_NO_SUCH_ENTITY,
    ensures
        code == MBUS_ERROR_SUCCESS <==> r == Ok::<(), Error>(()),
        code == MBUS_ERROR_NO_SUCH_ENTITY ==> r == Err::<(), Error>(Error::NoSuchEntity),
{
    if code == MBUS_ERROR_SUCCESS {
        Ok(())
    } else {
        Err(Error::NoSuchEntity)
    }
}

/// Whether entity `i` of a reply was already seen when its turn comes:
/// either in an earlier enumeration, or earlier in the same reply.
pub open spec fn spec_seen_before(old_seen: Seq<i64>, ents: Seq<EntityData>, i: int) -> bool {
    old_seen.contains(ents[i].id) || (exists|j: int| 0 <= j < i && ents[j].id == ents[i].id)
}

/// Whether every property item of a reply is well formed.
pub open spec fn spec_response_wf(resp: EnumerateResponseData) -> bool {
    forall|i: int, k: int|
        0 <= i < resp.entities@.len() && 0 <= k < resp.entities@[i].properties@.len() ==> wf_any(
            (#[trigger] resp.entities@[i].properties@[k]).item,
        )
}

/// Whether `events` reports exactly the entities of `resp`, in order, with
/// the right change kinds and decoded properties, against the previously
/// seen ids `old_seen`.
pub open spec fn spec_events_of(
    old_seen: Seq<i64>,
    resp: EnumerateResponseData,
    events: Seq<EnumerationEvent>,
) -> bool {
    &&& events.len() == resp.entities@.len()
    &&& forall|i: int|
        0 <= i < events.len() ==> {
            let ent = resp.entities@[i];
            let ev = #[trigger] events[i];
            &&& ev.entity_id == ent.id
            &&& ev.name@ == ent.name@
            &&& ev.event_type == (if spec_seen_before(old_seen, resp.entities@, i) {
                EventType::PropertiesChanged
            } else {
                EventType::Created
            })
            &&& ev.properties@.len() == ent.properties@.len()
            &&& forall|k: int|
                0 <= k < ent.properties@.len() ==> {
                    let p = #[trigger] ev.properties@[k];
                    p.0@ == ent.properties@[k].name@ && decodes(ent.properties@[k].item, p.1)
                }
        }
}

/// The enumeration state: the encoded filter the queries carry, the
/// sequence number reached, and the ids seen so far.
#[derive(Debug)]
pub struct Enumerator {
    /// The wire encoding of the enumeration filter.
    pub filter: AnyFilter,
    /// The registry sequence number enumerated up to.
    pub current_seq: u64,
    /// The registry ids seen in earlier replies.
    pub seen_ids: Vec<i64>,
}

impl Enumerator {
    /// An enumeration over the entities the given filter matches, starting
    /// from the beginning of the registry's history.
    pub fn new(filter: &Filter) -> (r: Enumerator)
        ensures
            filter_encodes(*filter, r.filter),
            r.current_seq == 0,
            r.seen_ids@.len() == 0,
    {
        Enumerator { filter: filter.encode_filter(), current_seq: 0, seen_ids: Vec::new() }
    }

    /// Turns one enumeration reply into events: one per reported entity,
    /// in reply order; an id never seen before is reported as created, a
    /// known one as changed.  Also returns whether the registry had moved
    /// past the reply's range, so another query is owed.  The reply's
    /// sequence number becomes the position to continue from.  A reply
    /// with a malformed property item is rejected with the state left as
    /// it was, except that its ids may already count as seen.
    pub fn process_response(&mut self, resp: &EnumerateResponseData) -> (r: Option<
        (bool, Vec<EnumerationEvent>),
    >)
        ensures
            final(self).filter == old(self).filter,
            r is Some <==> spec_response_wf(*resp),
            r is None ==> final(self).current_seq == old(self).current_seq,
            r matches Some((more, events)) ==> {
                &&& more == (resp.out_seq != resp.actual_seq)
                &&& final(self).current_seq == resp.out_seq
                &&& spec_events_of(old(self).seen_ids@, *resp, events@)
                &&& forall|x: i64|
                    final(self).seen_ids@.contains(x) <==> old(self).seen_ids@.contains(x) || (
                    exists|j: int| 0 <= j < resp.entities@.len() && (#[trigger] resp.entities@[j]).id == x)
            },
    {
        let ghost old_seen = self.seen_ids@;
        let mut events: Vec<EnumerationEvent> = Vec::new();
        let n = resp.entities.len();
        let mut i: usize = 0;
        #[verifier::loop_isolation(false)]
        while i < n
            invariant
                i <= n,
                self.filter == old(self).filter,
                self.current_seq == old(self).current_seq,
                events@.len() == i,
                forall|e: int, k: int|
                    0 <= e < i && 0 <= k < resp.entities@[e].properties@.len() ==> wf_any(
                        (#[trigger] resp.entities@[e].properties@[k]).item,
                    ),
                forall|e: int|
                    0 <= e < i ==> {
                        let ent = resp.entities@[e];
                        let ev = #[trigger] events@[e];
                        &&& ev.entity_id == ent.id
                        &&& ev.name@ == ent.name@
                        &&& ev.event_type == (if spec_seen_before(old_seen, resp.entities@, e) {
                            EventType::PropertiesChanged
                        } else {
                            EventType::Created
                        })
                        &&& ev.properties@.len() == ent.properties@.len()
                        &&& forall|k: int|
                            0 <= k < ent.properties@.len() ==> {
                                let p = #[trigger] ev.properties@[k];
                                p.0@ == ent.properties@[k].name@ && decodes(
                                    ent.properties@[k].item,
                                    p.1,
                                )
                            }
                    },
                forall|x: i64|
                    #![trigger self.seen_ids@.contains(x)]
                    self.seen_ids@.contains(x) <==> old_seen.contains(x) || (exists|j: int|
                        0 <= j < i && (#[trigger] resp.entities@[j]).id == x),
            decreases n - i,
        {
            let ent = &resp.entities[i];
            let first_seen = !contains_id(&self.seen_ids, ent.id);
            if first_seen {
                let ghost pre_seen = self.seen_ids@;
                self.seen_ids.push(ent.id);
                proof {
                    assert(self.seen_ids@ == pre_seen.push(ent.id));
                    assert forall|x: i64|
                        #![trigger self.seen_ids@.contains(x)]
                        self.seen_ids@.contains(x) <==> old_seen.contains(x) || (exists|j: int|
                            0 <= j <= i && (#[trigger] resp.entities@[j]).id == x) by {
                        assert(pre_seen.contains(x) <==> old_seen.contains(x) || (exists|j: int|
                            0 <= j < i && (#[trigger] resp.entities@[j]).id == x));
                        if self.seen_ids@.contains(x) {
                            let idx = choose|idx: int|
                                0 <= idx < self.seen_ids@.len() && self.seen_ids@[idx] == x;
                            if idx < self.seen_ids@.len() - 1 {
                                assert(pre_seen.contains(x)) by {
                                    assert(pre_seen[idx] == x);
                                }
                            } else {
                                assert(resp.entities@[i as int].id == x);
                            }
                        }
                        if old_seen.contains(x) || (exists|j: int|
                            0 <= j <= i && (#[trigger] resp.entities@[j]).id == x) {
                            if old_seen.contains(x) || (exists|j: int|
                                0 <= j < i && (#[trigger] resp.entities@[j]).id == x) {
                                assert(pre_seen.contains(x));
                                let idx = choose|idx: int|
                                    0 <= idx < pre_seen.len() && pre_seen[idx] == x;
                                assert(self.seen_ids@.contains(x)) by {
                                    assert(self.seen_ids@[idx] == x);
                                }
                            } else {
                                assert(self.seen_ids@.contains(x)) by {
                                    assert(self.seen_ids@[self.seen_ids@.len() - 1] == x);
                                }
                            }
                        }
                    }
                }
            } else {
                proof {
                    assert forall|x: i64|
                        #![trigger self.seen_ids@.contains(x)]
                        self.seen_ids@.contains(x) <==> old_seen.contains(x) || (exists|j: int|
                            0 <= j <= i && (#[trigger] resp.entities@[j]).id == x) by {
                        assert(self.seen_ids@.contains(x) <==> old_seen.contains(x) || (exists|j: int|
                            0 <= j < i && (#[trigger] resp.entities@[j]).id == x));
                        if !(old_seen.contains(x) || (exists|j: int|
                            0 <= j < i && (#[trigger] resp.entities@[j]).id == x)) && (exists|j: int|
                            0 <= j <= i && (#[trigger] resp.entities@[j]).id == x) {
                            assert(resp.entities@[i as int].id == x);
                            assert(self.seen_ids@.contains(x));
                        }
                    }
                }
            }
            let event_type = if first_seen {
                EventType::Created
            } else {
                EventType::PropertiesChanged
            };
            let properties: Properties = match decode_properties(&ent.properties) {
                Some(properties) => properties,
                None => {
                    return None;
                },
            };
            let event = EnumerationEvent {
                event_type,
                entity_id: ent.id,
                name: clone_string(&ent.name),
                properties,
            };
            events.push(event);
            i = i + 1;
        }
        self.current_seq = resp.out_seq;
        let more = resp.out_seq != resp.actual_seq;
        Some((more, events))
    }
}

/// Whether `x` stands in `v`.
fn contains_id(v: &Vec<i64>, x: i64) -> (r: bool)
    ensures
        r <==> v@.contains(x),
{
    let n = v.len();
    let mut i: usize = 0;
    #[verifier::loop_isolation(false)]
    while i < n
        invariant
            i <= n,
            forall|k: int| 0 <= k < i ==> v@[k] != x,
        decreases n - i,
    {
        if v[i] == x {
            proof {
                assert(v@.contains(x)) by {
                    assert(v@[i as int] == x);
                }
            }
            return true;
        }
        i = i + 1;
    }
    proof {
        if v@.contains(x) {
            let idx = choose|idx: int| 0 <= idx < v@.len() && v@[idx] == x;
            assert(v@[idx] != x);
        }
    }
    false
}

/// A copy of a string, character for character.
fn clone_string(s: &String) -> (r: String)
    ensures
        r@ == s@,
{
    s.clone()
}

/// The empty string.
fn new_string() -> (r: String)
    ensures
        r@.len() == 0,
{
    String::new()
}

} // verus!
