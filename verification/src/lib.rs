//! Verified core of a Network.framework binding: the raw-code vocabularies of
//! the framework, the mapping from shim statuses to errors, the validation of
//! arguments before they cross into C, and the decoding of the records that
//! come back (interfaces, TXT records, Ethernet frames, TLS peers).

pub mod advertise_descriptor;
pub mod async_api;
pub mod browser;
pub mod connection_group;
pub mod connection_report;
pub mod endpoint;
pub mod error;
pub mod ethernet_channel;
pub mod framer;
pub mod interface;
pub mod interface_support;
pub mod parameters;
pub mod parameters_support;
pub mod path;
pub mod path_monitor;
pub mod protocol;
pub mod quic_support;
pub mod read_only;
pub mod text;
pub mod tls;
pub mod txt_record;
pub mod websocket;

pub use advertise_descriptor::{advertise_route, bonjour_arguments, AdvertiseNames, AdvertiseRoute};
pub use async_api::{ConnectionState, ListenerState};
pub use browser::{discovery_event, BrowseResultChange, BrowserEvent, BrowserState, DiscoveredService};
pub use connection_group::ConnectionGroupState;
pub use connection_report::{
    DataTransferPathReport, DataTransferReportState, ResolutionProtocol, ResolutionSource,
};
pub use endpoint::EndpointType;
pub use error::{
    check_created, check_status, finish_datagram_receive, finish_receive, from_status, receive_error,
    ErrorDomain, NetworkError,
};
pub use ethernet_channel::{EthernetChannelState, EthernetFrame};
pub use framer::FramerStart;
pub use interface::{dedupe_interfaces, InterfaceType, NetworkInterface};
pub use interface_support::{network_interface_from_parts, InterfaceRadioType};
pub use parameters::ParametersAttribution;
pub use parameters_support::{ExpiredDnsBehavior, MultipathService, ServiceClass};
pub use path::{LinkQuality, PathStatus, PathUnsatisfiedReason};
pub use path_monitor::{PathMonitorBuilder, PathUpdate};
pub use protocol::{IpEcnFlag, IpLocalAddressPreference, IpVersion, TcpMultipathVersion};
pub use quic_support::QuicStreamType;
pub use read_only::ReadOnly;
pub use text::{c_string_bytes, c_string_labeled, optional_c_string};
pub use tls::{SecretBytes, TlsPeer, TlsVersion};
pub use txt_record::{TxtRecordEntry, TxtRecordFindResult, TxtRecordLookup};
pub use websocket::{Opcode, WsCloseCode, WsMessage, WsResponseStatus, WsVersion};
