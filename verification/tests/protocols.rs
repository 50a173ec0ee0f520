//! The hardware and bus protocols: PCI reply decoding, property item
//! round trips, filter encoding, and enumeration events.

use hel::hw::{
    BarInfo, Capability, Device, ExpansionRomInfo, IoType, PciBarData, PciExpansionRomData,
    PciInfo, PciInfoData,
};
use hel::mbus::{
    AnyItem, EntityData, Enumerator, EnumerateResponseData, EventType, Filter, Item, ItemType,
    WireProperty,
};
use hel::handle::Handle;

#[test]
fn io_type_codes_decode_exactly() {
    assert_eq!(IoType::decode(0), Some(IoType::NoBar));
    assert_eq!(IoType::decode(1), Some(IoType::Port));
    assert_eq!(IoType::decode(2), Some(IoType::Memory));
    assert_eq!(IoType::decode(3), None);
}

#[test]
fn pci_reply_decodes_to_the_typed_description() {
    let reply = PciInfoData {
        bars: Some(vec![
            PciBarData { io_type: 2, host_type: 2, address: 0xF000_0000, length: 0x1000, offset: 0 },
            PciBarData { io_type: 1, host_type: 1, address: 0xC000, length: 64, offset: 16 },
        ]),
        expansion_rom: Some(PciExpansionRomData { address: 0xE000_0000, length: 0x8000 }),
        capabilities: Some(vec![0x05, 0x11]),
        num_msis: Some(8),
        msi_x: Some(1),
    };
    let info = PciInfo::decode(&reply).unwrap();
    let bars = info.bar_info();
    assert_eq!(bars.len(), 6);
    assert_eq!(bars[0].io_type(), IoType::Memory);
    assert_eq!(bars[0].address(), 0xF000_0000);
    assert_eq!(bars[0].length(), 0x1000);
    assert_eq!(bars[1].io_type(), IoType::Port);
    assert_eq!(bars[1].offset(), 16);
    // unreported register slots are unimplemented
    for bar in &bars[2..] {
        assert_eq!(bar.io_type(), IoType::NoBar);
        assert_eq!(bar.length(), 0);
    }
    assert_eq!(info.expansion_rom_info().address(), 0xE000_0000);
    assert_eq!(info.expansion_rom_info().length(), 0x8000);
    let caps: Vec<u32> = info.caps().iter().map(Capability::type_).collect();
    assert_eq!(caps, vec![0x05, 0x11]);
    assert_eq!(info.num_msis(), 8);
    assert!(info.msi_x());
}

#[test]
fn omitted_pci_fields_take_their_defaults() {
    let reply = PciInfoData {
        bars: None,
        expansion_rom: None,
        capabilities: None,
        num_msis: None,
        msi_x: None,
    };
    let info = PciInfo::decode(&reply).unwrap();
    assert_eq!(info.bar_info().len(), 6);
    assert_eq!(info.expansion_rom_info(), &ExpansionRomInfo { address: 0, length: 0 });
    assert!(info.caps().is_empty());
    assert_eq!(info.num_msis(), 0);
    assert!(!info.msi_x());
}

#[test]
fn invalid_pci_replies_are_rejected() {
    let bad_kind = PciInfoData {
        bars: Some(vec![PciBarData { io_type: 9, host_type: 0, address: 0, length: 0, offset: 0 }]),
        expansion_rom: None,
        capabilities: None,
        num_msis: None,
        msi_x: None,
    };
    assert!(PciInfo::decode(&bad_kind).is_none());
    let too_many = PciInfoData {
        bars: Some(vec![
            PciBarData { io_type: 0, host_type: 0, address: 0, length: 0, offset: 0 };
            7
        ]),
        expansion_rom: None,
        capabilities: None,
        num_msis: None,
        msi_x: None,
    };
    assert!(PciInfo::decode(&too_many).is_none());
    // a decodable reply can be decoded bar by bar as well
    assert!(
        BarInfo::decode(&PciBarData { io_type: 1, host_type: 2, address: 4, length: 8, offset: 1 })
            .is_some()
    );
}

#[test]
fn hw_error_codes_map_exactly() {
    assert_eq!(hel::hw::Error::from_wire(0), None);
    assert_eq!(hel::hw::Error::from_wire(1), Some(hel::hw::Error::OutOfBounds));
    assert_eq!(hel::hw::Error::from_wire(2), Some(hel::hw::Error::IllegalArguments));
    assert_eq!(hel::hw::Error::from_wire(3), Some(hel::hw::Error::ResourceExhaustion));
    assert_eq!(hel::hw::Error::from_wire(4), Some(hel::hw::Error::DeviceError));
    assert_eq!(hel::hw::Error::from_wire(5), None);
    assert_eq!(
        hel::hw::Error::from_hel(hel::Error::Fault),
        hel::hw::Error::HelError(hel::Error::Fault)
    );
}

#[test]
fn device_keeps_its_lane() {
    let device = Device::new(Handle::from_raw(23));
    assert_eq!(device.handle.handle(), 23);
}

#[test]
fn items_round_trip_through_the_wire() {
    let item = Item::Array(vec![
        Item::Text("pci".to_string()),
        Item::Array(vec![Item::Text("4".to_string()), Item::Text("11".to_string())]),
    ]);
    let wire = item.encode_item();
    assert_eq!(wire.item_type, ItemType::Array);
    let back = Item::decode_item(&wire).expect("an encoded item must decode");
    match back {
        Item::Array(members) => {
            assert_eq!(members.len(), 2);
            match &members[0] {
                Item::Text(s) => assert_eq!(s, "pci"),
                other => panic!("a text leaf was expected, got {:?}", other),
            }
            match &members[1] {
                Item::Array(inner) => assert_eq!(inner.len(), 2),
                other => panic!("an array was expected, got {:?}", other),
            }
        },
        other => panic!("an array was expected, got {:?}", other),
    }
}

#[test]
fn malformed_wire_items_are_rejected() {
    let missing_text = AnyItem { item_type: ItemType::Text, string_item: None, items: None };
    assert!(Item::decode_item(&missing_text).is_none());
    let missing_members = AnyItem { item_type: ItemType::Array, string_item: None, items: None };
    assert!(Item::decode_item(&missing_members).is_none());
    let bad_inside = AnyItem {
        item_type: ItemType::Array,
        string_item: None,
        items: Some(vec![AnyItem { item_type: ItemType::Text, string_item: None, items: None }]),
    };
    assert!(Item::decode_item(&bad_inside).is_none());
}

#[test]
fn filters_encode_their_shape() {
    let filter = Filter::Conjunction(vec![
        Filter::Equals("class".to_string(), "pci".to_string()),
        Filter::Disjunction(vec![Filter::Equals("bus".to_string(), "0".to_string())]),
    ]);
    let wire = filter.encode_filter();
    assert_eq!(wire.operands.len(), 2);
    assert_eq!(wire.operands[0].path, "class");
    assert_eq!(wire.operands[0].value, "pci");
    assert!(wire.operands[0].operands.is_empty());
    assert_eq!(wire.operands[1].operands.len(), 1);
    assert_eq!(wire.operands[1].operands[0].path, "bus");
}

fn entity(id: i64, name: &str) -> EntityData {
    EntityData {
        id,
        name: name.to_string(),
        properties: vec![WireProperty {
            name: "class".to_string(),
            item: AnyItem {
                item_type: ItemType::Text,
                string_item: Some("pci".to_string()),
                items: None,
            },
        }],
    }
}

#[test]
fn enumeration_reports_created_then_changed() {
    let mut enumerator = Enumerator::new(&Filter::Equals("class".to_string(), "pci".to_string()));
    assert_eq!(enumerator.current_seq, 0);

    let first = EnumerateResponseData {
        out_seq: 5,
        actual_seq: 7,
        entities: vec![entity(1, "gpu"), entity(2, "nic")],
    };
    let (more, events) = enumerator.process_response(&first).unwrap();
    // the registry had moved past the reply's range
    assert!(more);
    assert_eq!(enumerator.current_seq, 5);
    assert_eq!(events.len(), 2);
    assert_eq!(events[0].event_type(), EventType::Created);
    assert_eq!(events[0].entity_id(), 1);
    assert_eq!(events[0].entity().id(), 1);
    assert_eq!(events[0].name(), "gpu");
    assert_eq!(events[0].properties().len(), 1);
    assert_eq!(events[0].properties()[0].0, "class");
    assert_eq!(events[1].event_type(), EventType::Created);

    let second = EnumerateResponseData {
        out_seq: 7,
        actual_seq: 7,
        entities: vec![entity(2, "nic"), entity(3, "usb")],
    };
    let (more, events) = enumerator.process_response(&second).unwrap();
    assert!(!more);
    assert_eq!(enumerator.current_seq, 7);
    // a known id is a change, a fresh one a creation
    assert_eq!(events[0].event_type(), EventType::PropertiesChanged);
    assert_eq!(events[1].event_type(), EventType::Created);
}

#[test]
fn duplicate_id_inside_one_reply_is_changed_the_second_time() {
    let mut enumerator = Enumerator::new(&Filter::Equals("a".to_string(), "b".to_string()));
    let reply = EnumerateResponseData {
        out_seq: 1,
        actual_seq: 1,
        entities: vec![entity(9, "disk"), entity(9, "disk")],
    };
    let (_, events) = enumerator.process_response(&reply).unwrap();
    assert_eq!(events[0].event_type(), EventType::Created);
    assert_eq!(events[1].event_type(), EventType::PropertiesChanged);
}

#[test]
fn malformed_reply_is_rejected() {
    let mut enumerator = Enumerator::new(&Filter::Equals("a".to_string(), "b".to_string()));
    let reply = EnumerateResponseData {
        out_seq: 3,
        actual_seq: 3,
        entities: vec![EntityData {
            id: 4,
            name: "bad".to_string(),
            properties: vec![WireProperty {
                name: "broken".to_string(),
                item: AnyItem { item_type: ItemType::Text, string_item: None, items: None },
            }],
        }],
    };
    assert!(enumerator.process_response(&reply).is_none());
    // the sequence position did not move
    assert_eq!(enumerator.current_seq, 0);
}

#[test]
fn mbus_error_codes_map_exactly() {
    assert_eq!(hel::mbus::Error::from_wire(0), None);
    assert_eq!(hel::mbus::Error::from_wire(1), Some(hel::mbus::Error::NoSuchEntity));
    assert_eq!(hel::mbus::Error::from_wire(2), None);
    assert_eq!(
        hel::mbus::Error::from_hel(hel::Error::LaneShutdown),
        hel::mbus::Error::HelError(hel::Error::LaneShutdown)
    );
}

#[test]
fn info_reply_splits_success_and_failure() {
    let reply = PciInfoData {
        bars: None,
        expansion_rom: None,
        capabilities: None,
        num_msis: Some(2),
        msi_x: None,
    };
    let info = hel::hw::info_reply(0, &reply).unwrap();
    assert_eq!(info.num_msis(), 2);
    match hel::hw::info_reply(4, &reply) {
        Err(e) => assert_eq!(e, hel::hw::Error::DeviceError),
        Ok(_) => panic!("a failure status must not decode"),
    }
}

#[test]
fn descriptor_reply_hands_the_pulled_handle_through() {
    let pulled = Some(Handle::from_raw(44));
    assert_eq!(hel::hw::descriptor_reply(0, pulled), Ok(Handle::from_raw(44)));
    assert_eq!(
        hel::hw::descriptor_reply(1, None),
        Err(hel::hw::Error::OutOfBounds)
    );
}

#[test]
fn lane_and_status_replies_follow_the_wire_code() {
    assert_eq!(
        hel::mbus::lane_reply(0, Some(Handle::from_raw(8))),
        Ok(Handle::from_raw(8))
    );
    assert_eq!(
        hel::mbus::lane_reply(1, None),
        Err(hel::mbus::Error::NoSuchEntity)
    );
    assert_eq!(hel::mbus::status_reply(0), Ok(()));
    assert_eq!(hel::mbus::status_reply(1), Err(hel::mbus::Error::NoSuchEntity));
}

#[test]
fn properties_survive_an_encode_decode_trip() {
    let properties: hel::mbus::Properties = vec![
        ("class".to_string(), Item::Text("pci".to_string())),
        (
            "addresses".to_string(),
            Item::Array(vec![Item::Text("0".to_string()), Item::Text("1".to_string())]),
        ),
    ];
    let wire = hel::mbus::encode_properties(&properties);
    assert_eq!(wire.len(), 2);
    assert_eq!(wire[0].name, "class");
    let back = hel::mbus::decode_properties(&wire).expect("an encoded list must decode");
    assert_eq!(back.len(), 2);
    assert_eq!(back[0].0, "class");
    match &back[1].1 {
        Item::Array(inner) => assert_eq!(inner.len(), 2),
        other => panic!("an array was expected, got {:?}", other),
    }
}
