//! Vocabularies and records of connection establishment and data-transfer
//! reports.

use vstd::prelude::*;

use crate::interface::NetworkInterface;
use crate::interface_support::InterfaceRadioType;

verus! {

/// DNS resolution source used during connection establishment.
#[derive(Debug, Clone, Copy, PartialEq, Eq, Structural)]
pub enum ResolutionSource {
    Query,
    Cache,
    ExpiredCache,
    Unknown(i32),
}

/// The resolution source that a raw code stands for.
pub open spec fn spec_resolution_source(raw: i32) -> ResolutionSource {
    match raw {
        1 => ResolutionSource::Query,
        2 => ResolutionSource::Cache,
        3 => ResolutionSource::ExpiredCache,
        other => ResolutionSource::Unknown(other),
    }
}

impl ResolutionSource {
    /// Decode a raw resolution-source code.
    pub fn from_raw(raw: i32) -> (s: Self)
        ensures
            s == spec_resolution_source(raw),
    {
        match raw {
            1 => Self::Query,
            2 => Self::Cache,
            3 => Self::ExpiredCache,
            other => Self::Unknown(other),
        }
    }
}

/// Protocol used for a resolution step.
#[derive(Debug, Clone, Copy, PartialEq, Eq, Structural)]
pub enum ResolutionProtocol {
    Unknown,
    Udp,
    Tcp,
    Tls,
    Https,
    Other(i32),
}

/// The resolution protocol that a raw code stands for.
pub open spec fn spec_resolution_protocol(raw: i32) -> ResolutionProtocol {
    match raw {
        0 => ResolutionProtocol::Unknown,
        1 => ResolutionProtocol::Udp,
        2 => ResolutionProtocol::Tcp,
        3 => ResolutionProtocol::Tls,
        4 => ResolutionProtocol::Https,
        other => ResolutionProtocol::Other(other),
    }
}

impl ResolutionProtocol {
    /// Decode a raw resolution-protocol code.
    pub fn from_raw(raw: i32) -> (p: Self)
        ensures
            p == spec_resolution_protocol(raw),
    {
        match raw {
            0 => Self::Unknown,
            1 => Self::Udp,
            2 => Self::Tcp,
            3 => Self::Tls,
            4 => Self::Https,
            other => Self::Other(other),
        }
    }
}

/// Current lifecycle state of a data-transfer report.
#[derive(Debug, Clone, Copy, PartialEq, Eq, Structural)]
pub enum DataTransferReportState {
    Collecting,
    Collected,
    Unknown(i32),
}

/// The report state that a raw code stands for.
pub open spec fn spec_report_state(raw: i32) -> DataTransferReportState {
    match raw {
        1 => DataTransferReportState::Collecting,
        2 => DataTransferReportState::Collected,
        other => DataTransferReportState::Unknown(other),
    }
}

impl DataTransferReportState {
    /// Decode a raw report-state code.
    pub fn from_raw(raw: i32) -> (s: Self)
        ensures
            s == spec_report_state(raw),
    {
        match raw {
            1 => Self::Collecting,
            2 => Self::Collected,
            other => Self::Unknown(other),
        }
    }
}

/// One path entry from a collected data-transfer report.
#[derive(Debug, Clone)]
pub struct DataTransferPathReport {
    pub interface: Option<NetworkInterface>,
    pub radio_type: InterfaceRadioType,
    pub received_ip_packet_count: u64,
    pub sent_ip_packet_count: u64,
    pub received_transport_byte_count: u64,
    pub received_transport_duplicate_byte_count: u64,
    pub received_transport_out_of_order_byte_count: u64,
    pub sent_transport_byte_count: u64,
    pub sent_transport_retransmitted_byte_count: u64,
    pub transport_smoothed_rtt_milliseconds: u64,
    pub transport_minimum_rtt_milliseconds: u64,
    pub transport_rtt_variance: u64,
    pub received_application_byte_count: u64,
    pub sent_application_byte_count: u64,
}

/// Whether `path_index` names one of the `path_count` path entries of a report.
pub fn path_index_in_range(path_index: u32, path_count: u32) -> (b: bool)
    ensures
        b == (path_index < path_count),
{
    path_index < path_count
}

/// The raw codes of `ResolutionSource` as the framework defines them: 1 to `Query`, 2 to
/// `Cache`, 3 to `ExpiredCache`; each named value comes from exactly one code, and every other
/// code is kept, unchanged, in `Unknown`.
pub proof fn lemma_resolution_source_codes(raw: i32)
    ensures
        (spec_resolution_source(raw) == ResolutionSource::Query) <==> raw == 1,
        (spec_resolution_source(raw) == ResolutionSource::Cache) <==> raw == 2,
        (spec_resolution_source(raw) == ResolutionSource::ExpiredCache) <==> raw == 3,
        (spec_resolution_source(raw) is Unknown) <==> !(raw == 1 || raw == 2 || raw == 3),
        !(raw == 1 || raw == 2 || raw == 3) ==> spec_resolution_source(raw) == ResolutionSource::Unknown(raw),
{
}

/// The raw codes of `ResolutionProtocol` as the framework defines them: 0 to `Unknown`, 1 to
/// `Udp`, 2 to `Tcp`, 3 to `Tls`, 4 to `Https`; each named value comes from exactly one code,
/// and every other code is kept, unchanged, in `Other`.
pub proof fn lemma_resolution_protocol_codes(raw: i32)
    ensures
        (spec_resolution_protocol(raw) == ResolutionProtocol::Unknown) <==> raw == 0,
        (spec_resolution_protocol(raw) == ResolutionProtocol::Udp) <==> raw == 1,
        (spec_resolution_protocol(raw) == ResolutionProtocol::Tcp) <==> raw == 2,
        (spec_resolution_protocol(raw) == ResolutionProtocol::Tls) <==> raw == 3,
        (spec_resolution_protocol(raw) == ResolutionProtocol::Https) <==> raw == 4,
        (spec_resolution_protocol(raw) is Other) <==> !(raw == 0 || raw == 1 || raw == 2 || raw == 3 || raw == 4),
        !(raw == 0 || raw == 1 || raw == 2 || raw == 3 || raw == 4) ==> spec_resolution_protocol(raw) == ResolutionProtocol::Other(raw),
{
}

/// The raw codes of `DataTransferReportState` as the framework defines them: 1 to `Collecting`,
/// 2 to `Collected`; each named value comes from exactly one code, and every other code is
/// kept, unchanged, in `Unknown`.
pub proof fn lemma_report_state_codes(raw: i32)
    ensures
        (spec_report_state(raw) == DataTransferReportState::Collecting) <==> raw == 1,
        (spec_report_state(raw) == DataTransferReportState::Collected) <==> raw == 2,
        (spec_report_state(raw) is Unknown) <==> !(raw == 1 || raw == 2),
        !(raw == 1 || raw == 2) ==> spec_report_state(raw) == DataTransferReportState::Unknown(raw),
{
}

} // verus!
