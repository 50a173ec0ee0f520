//! Action packing and result parsing: slot counts, chain flags, and the
//! byte-exact decoding of the per-action result records.

use hel::action::{
    ACTION_OFFER, ACTION_PULL_DESCRIPTOR, ACTION_RECV_INLINE, ACTION_RECV_TO_BUFFER,
    ACTION_SEND_FROM_BUFFER, Action, BasicAction, ITEM_ANCILLARY, ITEM_CHAIN, ITEM_WANT_LANE,
    Offer, ReceiveBuffer, SendBuffer, compose_actions, result_kinds,
};
use hel::action_result::{
    HandleResult, InlineResult, LengthResult, ParsedResult, ResultKind, SimpleResult, WireError,
    parse_results,
};
use hel::queue::QueueElement;
use hel::result::Error;

fn element_of(data: Vec<u8>) -> QueueElement {
    QueueElement { chunk_index: 0, context: 0, data, offset: 0 }
}

fn simple_record(code: u32) -> Vec<u8> {
    let mut v = code.to_le_bytes().to_vec();
    v.extend_from_slice(&[0; 4]);
    v
}

fn length_record(code: u32, length: u64) -> Vec<u8> {
    let mut v = code.to_le_bytes().to_vec();
    v.extend_from_slice(&[0; 4]);
    v.extend_from_slice(&length.to_le_bytes());
    v
}

fn handle_record(code: u32, handle: i64) -> Vec<u8> {
    let mut v = code.to_le_bytes().to_vec();
    v.extend_from_slice(&[0; 4]);
    v.extend_from_slice(&handle.to_le_bytes());
    v
}

fn inline_record(code: u32, bytes: &[u8]) -> Vec<u8> {
    let mut v = code.to_le_bytes().to_vec();
    v.extend_from_slice(&[0; 4]);
    v.extend_from_slice(&(bytes.len() as u64).to_le_bytes());
    v.extend_from_slice(bytes);
    while v.len() % 8 != 0 {
        v.push(0);
    }
    v
}

#[test]
fn flat_list_writes_one_slot_per_action_with_chain_flags() {
    let actions = vec![
        Action::Basic(BasicAction::Send(SendBuffer::new(vec![1, 2, 3]))),
        Action::Basic(BasicAction::Receive(ReceiveBuffer::new(128))),
        Action::Basic(BasicAction::ReceiveInline),
        Action::Basic(BasicAction::PullDescriptor),
    ];
    let slots = compose_actions(&actions);
    assert_eq!(slots.len(), 4);
    assert_eq!(slots[0].type_, ACTION_SEND_FROM_BUFFER);
    assert_eq!(slots[0].length, 3);
    assert_eq!(slots[1].type_, ACTION_RECV_TO_BUFFER);
    assert_eq!(slots[1].length, 128);
    assert_eq!(slots[2].type_, ACTION_RECV_INLINE);
    assert_eq!(slots[3].type_, ACTION_PULL_DESCRIPTOR);
    // the chain flag stands on every slot but the last
    for (i, slot) in slots.iter().enumerate() {
        assert_eq!(slot.flags & ITEM_CHAIN != 0, i < slots.len() - 1);
    }
}

#[test]
fn offer_carries_its_ancillary_stream() {
    let actions = vec![Action::Offer(Offer::new_with_lane(vec![
        BasicAction::Send(SendBuffer::new(vec![0xDE, 0xAD, 0xBE, 0xEF])),
        BasicAction::ReceiveInline,
    ]))];
    let slots = compose_actions(&actions);
    assert_eq!(slots.len(), 3);
    assert_eq!(slots[0].type_, ACTION_OFFER);
    assert_ne!(slots[0].flags & ITEM_WANT_LANE, 0);
    assert_ne!(slots[0].flags & ITEM_ANCILLARY, 0);
    // the offer itself is last in its stream, so it is not chained onward
    assert_eq!(slots[0].flags & ITEM_CHAIN, 0);
    // the ancillary stream is chained internally
    assert_eq!(slots[1].type_, ACTION_SEND_FROM_BUFFER);
    assert_ne!(slots[1].flags & ITEM_CHAIN, 0);
    assert_eq!(slots[2].type_, ACTION_RECV_INLINE);
    assert_eq!(slots[2].flags & ITEM_CHAIN, 0);

    let kinds = result_kinds(&actions);
    assert_eq!(
        kinds,
        vec![ResultKind::Handle, ResultKind::Simple, ResultKind::Inline]
    );
}

#[test]
fn empty_offer_has_no_ancillary_flag() {
    let actions = vec![Action::Offer(Offer::new(vec![]))];
    let slots = compose_actions(&actions);
    assert_eq!(slots.len(), 1);
    assert_eq!(slots[0].flags & ITEM_ANCILLARY, 0);
    assert_eq!(slots[0].flags & ITEM_WANT_LANE, 0);
}

#[test]
fn offer_reply_parses_in_action_order() {
    // the reply to an offer of a send and an inline receive: the lane
    // handle, the send outcome, and the inline bytes [0x01, 0x02]
    let mut payload = handle_record(0, 77);
    payload.extend_from_slice(&simple_record(0));
    payload.extend_from_slice(&inline_record(0, &[0x01, 0x02]));
    let mut element = element_of(payload);
    let kinds = vec![ResultKind::Handle, ResultKind::Simple, ResultKind::Inline];
    let parsed = parse_results(&kinds, &mut element).unwrap();
    assert_eq!(parsed.len(), 3);
    match &parsed[0] {
        ParsedResult::Handle(Ok(Some(h))) => assert_eq!(h.handle(), 77),
        other => panic!("lane handle expected, got {:?}", other),
    }
    match &parsed[1] {
        ParsedResult::Simple(Ok(())) => {},
        other => panic!("send success expected, got {:?}", other),
    }
    match &parsed[2] {
        ParsedResult::Inline(Ok(bytes)) => assert_eq!(bytes, &vec![0x01, 0x02]),
        other => panic!("inline bytes expected, got {:?}", other),
    }
    // the whole padded stream was consumed
    assert_eq!(element.remaining(), 0);
}

#[test]
fn pull_on_closed_lane_reports_end_of_lane() {
    let mut element = element_of(handle_record(13, 0));
    let parsed = HandleResult::from_queue_element(&mut element).unwrap();
    assert_eq!(parsed, Err(Error::EndOfLane));
    // the record was consumed even though it reports an error
    assert_eq!(element.remaining(), 0);
}

#[test]
fn null_descriptor_parses_to_none() {
    let mut element = element_of(handle_record(0, 0));
    let parsed = HandleResult::from_queue_element(&mut element).unwrap();
    assert_eq!(parsed.as_ref().map(|h| h.is_none()), Ok(true));
}

#[test]
fn length_record_parses_exactly() {
    let mut element = element_of(length_record(0, 4096));
    assert_eq!(LengthResult::from_queue_element(&mut element), Ok(Ok(4096)));
    let mut element = element_of(length_record(15, 0));
    assert_eq!(
        LengthResult::from_queue_element(&mut element),
        Ok(Err(Error::BufferTooSmall))
    );
}

#[test]
fn truncated_record_is_a_wire_error() {
    let mut element = element_of(vec![0, 0, 0]);
    assert_eq!(
        SimpleResult::from_queue_element(&mut element),
        Err(WireError::Truncated)
    );
}

#[test]
fn unknown_code_is_a_wire_error() {
    let mut element = element_of(simple_record(123));
    assert_eq!(
        SimpleResult::from_queue_element(&mut element),
        Err(WireError::UnknownCode)
    );
}

#[test]
fn inline_length_past_the_element_is_a_wire_error() {
    let mut bad = (0u32).to_le_bytes().to_vec();
    bad.extend_from_slice(&[0; 4]);
    bad.extend_from_slice(&(1000u64).to_le_bytes());
    let mut element = element_of(bad);
    assert_eq!(
        InlineResult::from_queue_element(&mut element),
        Err(WireError::LengthOutOfBounds)
    );
}

#[test]
fn inline_record_with_error_still_advances() {
    let mut payload = inline_record(7, &[9, 9, 9]);
    payload.extend_from_slice(&simple_record(0));
    let mut element = element_of(payload);
    let kinds = vec![ResultKind::Inline, ResultKind::Simple];
    let parsed = parse_results(&kinds, &mut element).unwrap();
    match &parsed[0] {
        ParsedResult::Inline(Err(Error::Cancelled)) => {},
        other => panic!("cancelled inline expected, got {:?}", other),
    }
    match &parsed[1] {
        ParsedResult::Simple(Ok(())) => {},
        other => panic!("trailing record expected, got {:?}", other),
    }
}

#[test]
fn element_data_is_the_unconsumed_tail() {
    let mut element = element_of(simple_record(0));
    assert_eq!(element.data().len(), 8);
    SimpleResult::from_queue_element(&mut element).unwrap().unwrap();
    assert!(element.data().is_empty());
}
