//! Handle lifetime and mapping bookkeeping: idempotent close and unmap,
//! descriptor transfers, and the flag algebra.

use hel::handle::{
    CloseRequest, Handle, NULL_DESCRIPTOR, THIS_THREAD_DESCRIPTOR, THIS_UNIVERSE_DESCRIPTOR,
    ZERO_MEMORY_DESCRIPTOR,
};
use hel::mapping::{MAP_PROT_READ, MAP_PROT_WRITE, Mapping, MappingFlags};

#[test]
fn pseudo_handles_carry_their_sentinels() {
    assert_eq!(Handle::null().handle(), NULL_DESCRIPTOR);
    assert!(Handle::null().is_null());
    assert_eq!(Handle::this_universe().handle(), THIS_UNIVERSE_DESCRIPTOR);
    assert_eq!(Handle::this_thread().handle(), THIS_THREAD_DESCRIPTOR);
    assert_eq!(Handle::zero_memory().handle(), ZERO_MEMORY_DESCRIPTOR);
}

#[test]
fn close_is_idempotent() {
    let mut h = Handle::from_raw(42);
    let first = h.close();
    assert_eq!(
        first,
        Some(CloseRequest { universe: THIS_UNIVERSE_DESCRIPTOR, descriptor: 42 })
    );
    assert!(h.is_null());
    // the second close owes the kernel nothing and changes nothing
    let second = h.close();
    assert_eq!(second, None);
    assert!(h.is_null());
}

#[test]
fn close_of_null_is_a_no_op() {
    let mut h = Handle::null();
    assert_eq!(h.close(), None);
}

#[test]
fn transfer_mints_into_the_target_universe() {
    let h = Handle::from_raw(7);
    let universe = Handle::from_raw_in_universe(99, NULL_DESCRIPTOR);
    let request = h.transfer_request(&universe);
    assert_eq!(request.descriptor, 7);
    assert_eq!(request.target_universe, 99);
    let minted = Handle::from_transfer(55, &universe);
    assert_eq!(minted.handle(), 55);
    assert_eq!(minted.universe(), 99);
}

#[test]
fn unmap_is_idempotent() {
    let request = Mapping::map_request_this_space(
        &Handle::from_raw(3),
        0,
        0,
        8192,
        MappingFlags::read().union(MappingFlags::write()),
    );
    assert_eq!(request.flags, MAP_PROT_READ | MAP_PROT_WRITE);
    assert_eq!(request.length, 8192);
    let mut mapping = Mapping::from_map_reply(&request);
    assert!(mapping.is_mapped());
    assert_eq!(mapping.len(), 8192);
    let first = mapping.unmap();
    assert!(first.is_some());
    assert_eq!(first.unwrap().length, 8192);
    assert!(!mapping.is_mapped());
    // the second unmap owes the kernel nothing and changes nothing
    assert_eq!(mapping.unmap(), None);
    assert!(!mapping.is_mapped());
}

#[test]
fn flag_sets_contain_their_unions() {
    let rw = MappingFlags::read().union(MappingFlags::write());
    assert!(rw.contains(MappingFlags::read()));
    assert!(rw.contains(MappingFlags::write()));
    assert!(!MappingFlags::read().contains(rw));
    assert_eq!(MappingFlags::empty().bits(), 0);
}

#[test]
fn clone_handle_targets_the_calling_universe() {
    let h = Handle::from_raw(31);
    let request = h.clone_handle();
    assert_eq!(request.descriptor, 31);
    assert_eq!(request.target_universe, THIS_UNIVERSE_DESCRIPTOR);
}
