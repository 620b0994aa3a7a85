use networkframework::advertise_descriptor::{advertise_route, bonjour_arguments};
use networkframework::browser::discovery_event;
use networkframework::connection_report::path_index_in_range;
use networkframework::ethernet_channel::{ethernet_frame_from_parts, mac_address};
use networkframework::framer::{cleared_wakeup_milliseconds, wakeup_milliseconds};
use networkframework::path_monitor::{
    path_update_from_raw, Scope, NW_SHIM_PATH_SCOPE_ALL, NW_SHIM_PATH_SCOPE_ETHERNET_CHANNEL,
    NW_SHIM_PATH_SCOPE_INTERFACE_TYPE,
};
use networkframework::quic_support::application_error_code;
use networkframework::txt_record::{check_record_bytes, entry_from_parts, lookup_from_parts, lookup_value};
use networkframework::websocket::finish_ws_receive;
use networkframework::{
    dedupe_interfaces, network_interface_from_parts, AdvertiseNames, AdvertiseRoute,
    BrowseResultChange, BrowserEvent, DiscoveredService, InterfaceType, NetworkError,
    NetworkInterface, Opcode, PathMonitorBuilder, PathUpdate, ReadOnly, TxtRecordEntry,
    TxtRecordFindResult, TxtRecordLookup,
};

fn iface(name: &str, t: InterfaceType, index: u32) -> NetworkInterface {
    NetworkInterface { name: name.to_string(), interface_type: t, index }
}

#[test]
fn dedupe_keeps_first_occurrences_in_order() {
    let mut list = vec![
        iface("en0", InterfaceType::WiFi, 4),
        iface("lo0", InterfaceType::Loopback, 1),
        iface("en0", InterfaceType::WiFi, 4),
        iface("en0", InterfaceType::Wired, 4),
        iface("lo0", InterfaceType::Loopback, 1),
    ];
    dedupe_interfaces(&mut list);
    assert_eq!(
        list,
        vec![
            iface("en0", InterfaceType::WiFi, 4),
            iface("lo0", InterfaceType::Loopback, 1),
            iface("en0", InterfaceType::Wired, 4),
        ]
    );
    let snapshot = list.clone();
    dedupe_interfaces(&mut list);
    assert_eq!(list, snapshot);
    let mut empty: Vec<NetworkInterface> = Vec::new();
    dedupe_interfaces(&mut empty);
    assert!(empty.is_empty());
}

#[test]
fn interfaces_from_parts_decode_the_type() {
    assert_eq!(network_interface_from_parts("utun3".into(), 0, 9), iface("utun3", InterfaceType::Other, 9));
    assert_eq!(network_interface_from_parts("en1".into(), 3, 2), iface("en1", InterfaceType::Wired, 2));
}

#[test]
fn browse_change_flags() {
    let change = BrowseResultChange::from_bits(0x02 | 0x20);
    assert_eq!(change.bits(), 0x22);
    assert!(change.contains(BrowseResultChange::result_added()));
    assert!(change.contains(BrowseResultChange::txt_record_changed()));
    assert!(!change.contains(BrowseResultChange::result_removed()));
    assert!(change.contains(BrowseResultChange::invalid()));
    assert!(change.contains(change));
    assert_eq!(BrowseResultChange::identical().bits(), 0x01);
    assert_eq!(BrowseResultChange::interface_added().bits(), 0x08);
    assert_eq!(BrowseResultChange::interface_removed().bits(), 0x10);
    assert_eq!(BrowseResultChange::from_raw(7).bits(), 7);
}

#[test]
fn discovery_events_follow_the_found_flag() {
    let svc = DiscoveredService {
        name: "Living Room".into(),
        service_type: "_airplay._tcp".into(),
        domain: "local".into(),
    };
    assert_eq!(discovery_event(svc.clone(), true), BrowserEvent::Found(svc.clone()));
    assert_eq!(discovery_event(svc.clone(), false), BrowserEvent::Lost(svc));
}

#[test]
fn txt_values_follow_the_framework_rules() {
    assert_eq!(lookup_value(TxtRecordFindResult::NonEmptyValue, Some(b"on")), Some(b"on".to_vec()));
    assert_eq!(lookup_value(TxtRecordFindResult::NoValue, Some(b"x")), Some(b"x".to_vec()));
    assert_eq!(lookup_value(TxtRecordFindResult::EmptyValue, Some(b"")), Some(Vec::new()));
    assert_eq!(lookup_value(TxtRecordFindResult::EmptyValue, None), Some(Vec::new()));
    assert_eq!(lookup_value(TxtRecordFindResult::NoValue, Some(b"")), None);
    assert_eq!(lookup_value(TxtRecordFindResult::NotPresent, None), None);
    assert_eq!(
        lookup_from_parts(4, Some(b"v1")),
        TxtRecordLookup { status: TxtRecordFindResult::NonEmptyValue, value: Some(b"v1".to_vec()) }
    );
    assert_eq!(
        entry_from_parts("k".into(), 4, Some(b"")),
        TxtRecordEntry { key: "k".into(), status: TxtRecordFindResult::NonEmptyValue, value: Some(Vec::new()) }
    );
    assert_eq!(
        entry_from_parts("k".into(), 2, None),
        TxtRecordEntry { key: "k".into(), status: TxtRecordFindResult::NoValue, value: None }
    );
    assert_eq!(
        entry_from_parts("k".into(), 3, None),
        TxtRecordEntry { key: "k".into(), status: TxtRecordFindResult::EmptyValue, value: Some(Vec::new()) }
    );
    assert_eq!(check_record_bytes(b"\x03a=b"), Ok(()));
    assert_eq!(
        check_record_bytes(b""),
        Err(NetworkError::InvalidArgument("TXT record bytes must not be empty".into()))
    );
}

#[test]
fn ethernet_frames_copy_payload_and_addresses() {
    let frame = ethernet_frame_from_parts(
        Some(&[1, 2, 3]),
        7,
        Some(&[0xaa, 0xbb, 0xcc, 0xdd, 0xee, 0xff, 0x11]),
        None,
    );
    assert_eq!(frame.data, vec![1, 2, 3]);
    assert_eq!(frame.vlan_tag, 7);
    assert_eq!(frame.local_address, [0xaa, 0xbb, 0xcc, 0xdd, 0xee, 0xff]);
    assert_eq!(frame.remote_address, [0; 6]);
    assert_eq!(ethernet_frame_from_parts(None, 0, None, None).data, Vec::<u8>::new());
    assert_eq!(mac_address(Some(&[1, 2, 3, 4, 5, 6])), [1, 2, 3, 4, 5, 6]);
}

#[test]
fn path_monitor_builder_tracks_scope_and_prohibitions() {
    let builder = PathMonitorBuilder::default();
    assert_eq!(builder.scope(), Scope::All);
    assert_eq!(builder.scope_codes(), (NW_SHIM_PATH_SCOPE_ALL, 0));
    let builder = builder
        .prohibit_interface_type(InterfaceType::Cellular)
        .interface_type(InterfaceType::WiFi)
        .prohibit_interface_type(InterfaceType::Loopback);
    assert_eq!(builder.scope(), Scope::InterfaceType(InterfaceType::WiFi));
    assert_eq!(builder.scope_codes(), (NW_SHIM_PATH_SCOPE_INTERFACE_TYPE, 1));
    assert_eq!(builder.prohibited_codes(), vec![2, 4]);
    let builder = builder.ethernet_channel();
    assert_eq!(builder.scope_codes(), (NW_SHIM_PATH_SCOPE_ETHERNET_CHANNEL, 0));
    assert_eq!(builder.prohibited_codes(), vec![2, 4]);
    assert_eq!(
        path_update_from_raw(1, 3),
        PathUpdate { satisfied: true, interface: InterfaceType::Wired }
    );
    assert_eq!(
        path_update_from_raw(0, 12),
        PathUpdate { satisfied: false, interface: InterfaceType::Other }
    );
}

#[test]
fn framer_wakeups_saturate() {
    assert_eq!(wakeup_milliseconds(1500), 1500);
    assert_eq!(wakeup_milliseconds(u128::from(u64::MAX) + 1), u64::MAX);
    assert_eq!(cleared_wakeup_milliseconds(), u64::MAX);
}

#[test]
fn quic_application_errors_use_a_sentinel() {
    assert_eq!(application_error_code(0), Some(0));
    assert_eq!(application_error_code(0x10c), Some(0x10c));
    assert_eq!(application_error_code(u64::MAX), None);
}

#[test]
fn report_paths_are_bounded() {
    assert!(path_index_in_range(0, 1));
    assert!(!path_index_in_range(1, 1));
    assert!(!path_index_in_range(0, 0));
}

#[test]
fn websocket_receives_decode_opcode_and_truncate() {
    let got = finish_ws_receive(vec![b'h', b'i', 0, 0], 2, 1).unwrap();
    assert_eq!(got.opcode, Opcode::Text);
    assert_eq!(got.data, b"hi".to_vec());
    assert_eq!(finish_ws_receive(vec![0; 4], -2, 1), Err(NetworkError::ConnectFailed));
    assert_eq!(finish_ws_receive(vec![7; 2], 1, 99).unwrap().opcode, Opcode::Binary);
}

#[test]
fn advertise_names_and_routes() {
    let names = AdvertiseNames::bonjour(Some("printer"), "_ipp._tcp", None);
    assert_eq!(names.service_name(), Some("printer"));
    assert_eq!(names.service_type(), Some("_ipp._tcp"));
    assert_eq!(names.domain(), None);
    assert_eq!(names.application_service_name(), None);
    let app = AdvertiseNames::application_service("com.example.svc");
    assert_eq!(app.application_service_name(), Some("com.example.svc"));
    assert_eq!(app.service_type(), None);

    assert_eq!(
        advertise_route(Some("printer"), Some("_ipp._tcp"), Some("local")),
        Ok(AdvertiseRoute::Bonjour {
            service_type: b"_ipp._tcp\0".to_vec(),
            service_name: b"printer\0".to_vec(),
            domain: Some(b"local\0".to_vec()),
        })
    );
    assert_eq!(advertise_route(None, Some("_ipp._tcp"), None), Ok(AdvertiseRoute::Descriptor));
    assert_eq!(advertise_route(Some("x"), None, None), Ok(AdvertiseRoute::Descriptor));
    assert_eq!(
        advertise_route(Some("p\0"), Some("t\0"), None),
        Err(NetworkError::InvalidArgument(
            "service_type NUL byte: nul byte found in provided data at position: 1".into()
        ))
    );
    assert_eq!(
        advertise_route(Some("p\0"), Some("t"), Some("\0")),
        Err(NetworkError::InvalidArgument(
            "service_name NUL byte: nul byte found in provided data at position: 1".into()
        ))
    );
    assert_eq!(
        advertise_route(Some("p"), Some("t"), Some("\0")),
        Err(NetworkError::InvalidArgument(
            "domain NUL byte: nul byte found in provided data at position: 0".into()
        ))
    );
}

#[test]
fn read_only_values_deref() {
    let value = ReadOnly::new(vec![1, 2, 3]);
    assert_eq!(value.len(), 3);
    assert_eq!(value.get(), &vec![1, 2, 3]);
}

#[test]
fn browse_changes_are_their_bits() {
    let removed = BrowseResultChange::result_removed();
    assert_eq!(BrowseResultChange::from_bits(removed.bits()), removed);
    assert_eq!(BrowseResultChange::from_bits(0x00), BrowseResultChange::invalid());
    assert_eq!(BrowseResultChange::from_bits(0x01), BrowseResultChange::identical());
    let a = BrowseResultChange::from_bits(0x06);
    let b = BrowseResultChange::from_bits(0x04 | 0x02);
    assert!(a.contains(b) && b.contains(a));
    assert_eq!(a, b);
    assert!(a.contains(BrowseResultChange::invalid()));
}

#[test]
fn bonjour_arguments_are_checked_type_then_name_then_domain() {
    assert_eq!(
        bonjour_arguments(Some("demo"), "_http._tcp", Some("local")),
        Ok((b"_http._tcp\0".to_vec(), Some(b"demo\0".to_vec()), Some(b"local\0".to_vec())))
    );
    assert_eq!(bonjour_arguments(None, "_http._tcp", None), Ok((b"_http._tcp\0".to_vec(), None, None)));
    assert_eq!(
        bonjour_arguments(Some("d\0"), "_h\0", Some("l\0")),
        Err(NetworkError::InvalidArgument(
            "service_type NUL byte: nul byte found in provided data at position: 2".into()
        ))
    );
    assert_eq!(
        bonjour_arguments(Some("d\0"), "_http._tcp", Some("l\0")),
        Err(NetworkError::InvalidArgument("name NUL byte: nul byte found in provided data at position: 1".into()))
    );
    assert_eq!(
        bonjour_arguments(Some("demo"), "_http._tcp", Some("\0")),
        Err(NetworkError::InvalidArgument("domain NUL byte: nul byte found in provided data at position: 0".into()))
    );
}
