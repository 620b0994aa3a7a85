use networkframework::{
    BrowserState, ConnectionGroupState, ConnectionState, DataTransferReportState, EndpointType,
    EthernetChannelState, ExpiredDnsBehavior, FramerStart, InterfaceRadioType, InterfaceType,
    IpEcnFlag, IpLocalAddressPreference, IpVersion, LinkQuality, ListenerState, MultipathService,
    Opcode, ParametersAttribution, PathStatus, PathUnsatisfiedReason, QuicStreamType,
    ResolutionProtocol, ResolutionSource, ServiceClass, TcpMultipathVersion, TlsVersion,
    TxtRecordFindResult, WsCloseCode, WsResponseStatus, WsVersion,
};

#[test]
fn state_codes_decode() {
    assert_eq!(ConnectionState::from_raw(3), ConnectionState::Ready);
    assert_eq!(ConnectionState::from_raw(5), ConnectionState::Cancelled);
    assert_eq!(ConnectionState::from_raw(9), ConnectionState::Unknown(9));
    assert_eq!(ListenerState::from_raw(2), ListenerState::Ready);
    assert_eq!(ListenerState::from_raw(-1), ListenerState::Unknown(-1));
    assert_eq!(BrowserState::from_raw(4), BrowserState::Waiting);
    assert_eq!(BrowserState::from_raw(1), BrowserState::Ready);
    assert_eq!(ConnectionGroupState::from_raw(2), ConnectionGroupState::Ready);
    assert_eq!(ConnectionGroupState::from_raw(77), ConnectionGroupState::Invalid);
    assert_eq!(EthernetChannelState::from_raw(4), EthernetChannelState::Failed);
    assert_eq!(EthernetChannelState::from_raw(6), EthernetChannelState::Unknown(6));
    assert_eq!(DataTransferReportState::from_raw(2), DataTransferReportState::Collected);
    assert_eq!(DataTransferReportState::from_raw(0), DataTransferReportState::Unknown(0));
    assert_eq!(EndpointType::from_raw(3), EndpointType::BonjourService);
    assert_eq!(EndpointType::from_raw(5), EndpointType::Unknown(5));
    assert_eq!(QuicStreamType::from_raw(3), QuicStreamType::Datagram);
    assert_eq!(QuicStreamType::from_raw(4), QuicStreamType::Other(4));
    assert_eq!(ResolutionSource::from_raw(3), ResolutionSource::ExpiredCache);
    assert_eq!(ResolutionSource::from_raw(0), ResolutionSource::Unknown(0));
    assert_eq!(ResolutionProtocol::from_raw(4), ResolutionProtocol::Https);
    assert_eq!(ResolutionProtocol::from_raw(5), ResolutionProtocol::Other(5));
    assert_eq!(TxtRecordFindResult::from_raw(3), TxtRecordFindResult::EmptyValue);
    assert_eq!(TxtRecordFindResult::from_raw(8), TxtRecordFindResult::Unknown(8));
}

#[test]
fn path_codes_decode() {
    assert_eq!(PathStatus::from_raw(1), PathStatus::Satisfied);
    assert_eq!(PathStatus::from_raw(3), PathStatus::Satisfiable);
    assert_eq!(PathStatus::from_raw(4), PathStatus::Unknown(4));
    assert_eq!(PathUnsatisfiedReason::from_raw(4), PathUnsatisfiedReason::VpnInactive);
    assert_eq!(PathUnsatisfiedReason::from_raw(5), PathUnsatisfiedReason::Unknown(5));
    assert_eq!(LinkQuality::from_raw(20), LinkQuality::Moderate);
    assert_eq!(LinkQuality::from_raw(30), LinkQuality::Good);
    assert_eq!(LinkQuality::from_raw(25), LinkQuality::Other(25));
}

#[test]
fn interface_codes_round_trip() {
    for t in [
        InterfaceType::Other,
        InterfaceType::WiFi,
        InterfaceType::Cellular,
        InterfaceType::Wired,
        InterfaceType::Loopback,
    ] {
        assert_eq!(InterfaceType::from_raw(t.as_raw()), t);
    }
    assert_eq!(InterfaceType::from_raw(17), InterfaceType::Other);
    assert_eq!(InterfaceType::Loopback.as_raw(), 4);
    assert_eq!(InterfaceRadioType::from_raw(0x80), InterfaceRadioType::CellLte);
    assert_eq!(InterfaceRadioType::from_raw(6), InterfaceRadioType::WiFiAx);
    assert_eq!(InterfaceRadioType::from_raw(0x88), InterfaceRadioType::CellEvdo);
    assert_eq!(InterfaceRadioType::from_raw(7), InterfaceRadioType::Other(7));
}

#[test]
fn raw_codes_survive_decode_and_encode() {
    for raw in [-5, -1, 0, 1, 2, 3, 4, 5, 6, 9, 1000, 1015, 2000] {
        assert_eq!(IpVersion::from_raw(raw).as_raw(), raw);
        assert_eq!(IpEcnFlag::from_raw(raw).as_raw(), raw);
        assert_eq!(ServiceClass::from_raw(raw).as_raw(), raw);
        assert_eq!(MultipathService::from_raw(raw).as_raw(), raw);
        assert_eq!(ExpiredDnsBehavior::from_raw(raw).as_raw(), raw);
        assert_eq!(WsVersion::from_raw(raw).as_raw(), raw);
        assert_eq!(WsCloseCode::from_raw(raw).as_raw(), raw);
        assert_eq!(WsResponseStatus::from_raw(raw).as_raw(), raw);
    }
}

#[test]
fn named_values_have_their_codes() {
    assert_eq!(IpVersion::from_raw(4), IpVersion::V4);
    assert_eq!(IpVersion::V6.as_raw(), 6);
    assert_eq!(IpVersion::from_raw(5), IpVersion::Other(5));
    assert_eq!(IpEcnFlag::from_raw(2), IpEcnFlag::Ect0);
    assert_eq!(IpEcnFlag::Ect1.as_raw(), 1);
    assert_eq!(IpLocalAddressPreference::Stable.as_raw(), 2);
    assert_eq!(IpLocalAddressPreference::Other(9).as_raw(), 9);
    assert_eq!(TcpMultipathVersion::Unspecified.as_raw(), -1);
    assert_eq!(TcpMultipathVersion::V1.as_raw(), 1);
    assert_eq!(ServiceClass::from_raw(5), ServiceClass::Signaling);
    assert_eq!(ServiceClass::InteractiveVoice.as_raw(), 3);
    assert_eq!(MultipathService::from_raw(3), MultipathService::Aggregate);
    assert_eq!(ExpiredDnsBehavior::from_raw(3), ExpiredDnsBehavior::Persistent);
    assert_eq!(WsCloseCode::from_raw(1015), WsCloseCode::TlsHandshake);
    assert_eq!(WsCloseCode::from_raw(1004), WsCloseCode::Other(1004));
    assert_eq!(WsCloseCode::MessageTooBig.as_raw(), 1009);
    assert_eq!(WsResponseStatus::from_raw(2), WsResponseStatus::Reject);
    assert_eq!(WsVersion::from_raw(1), WsVersion::V13);
    assert_eq!(ParametersAttribution::from_raw(2), ParametersAttribution::User);
    assert_eq!(ParametersAttribution::from_raw(7), ParametersAttribution::Developer);
    assert_eq!(ParametersAttribution::User.as_raw(), 2);
    assert_eq!(ParametersAttribution::Developer.as_raw(), 1);
}

#[test]
fn opcodes_round_trip_and_default_to_binary() {
    for o in [Opcode::Text, Opcode::Binary, Opcode::Close, Opcode::Ping, Opcode::Pong] {
        assert_eq!(Opcode::from_raw(o.as_raw()), o);
    }
    assert_eq!(Opcode::Pong.as_raw(), 10);
    assert_eq!(Opcode::from_raw(0), Opcode::Binary);
    assert_eq!(Opcode::from_raw(3), Opcode::Binary);
}

#[test]
fn tls_versions_use_wire_codes() {
    assert_eq!(TlsVersion::Tls12.as_raw(), 0x0303);
    assert_eq!(TlsVersion::Tls13.as_raw(), 0x0304);
    assert_eq!(TlsVersion::from_raw(0x0304), Some(TlsVersion::Tls13));
    assert_eq!(TlsVersion::from_raw(0x0302), None);
}

#[test]
fn framer_start_codes() {
    assert_eq!(FramerStart::Ready.as_raw(), 1);
    assert_eq!(FramerStart::WillMarkReady.as_raw(), 2);
}
