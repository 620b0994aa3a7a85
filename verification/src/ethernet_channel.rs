//! Ethernet channel states and received frames.

use vstd::prelude::*;
use vstd::slice::slice_to_vec;

verus! {

/// Ethernet channel lifecycle state.
#[derive(Debug, Clone, Copy, PartialEq, Eq, Structural)]
pub enum EthernetChannelState {
    Invalid,
    Waiting,
    Preparing,
    Ready,
    Failed,
    Cancelled,
    Unknown(i32),
}

/// The channel state that a raw code stands for.
pub open spec fn spec_channel_state(raw: i32) -> EthernetChannelState {
    match raw {
        0 => EthernetChannelState::Invalid,
        1 => EthernetChannelState::Waiting,
        2 => EthernetChannelState::Preparing,
        3 => EthernetChannelState::Ready,
        4 => EthernetChannelState::Failed,
        5 => EthernetChannelState::Cancelled,
        other => EthernetChannelState::Unknown(other),
    }
}

impl EthernetChannelState {
    /// Decode a raw channel-state code.
    pub fn from_raw(raw: i32) -> (s: Self)
        ensures
            s == spec_channel_state(raw),
    {
        match raw {
            0 => Self::Invalid,
            1 => Self::Waiting,
            2 => Self::Preparing,
            3 => Self::Ready,
            4 => Self::Failed,
            5 => Self::Cancelled,
            other => Self::Unknown(other),
        }
    }
}

/// One received Ethernet frame.
#[derive(Debug, Clone, PartialEq, Eq)]
pub struct EthernetFrame {
    pub data: Vec<u8>,
    pub vlan_tag: u16,
    pub local_address: [u8; 6],
    pub remote_address: [u8; 6],
}

/// The MAC address read from `bytes`: its first six bytes, or all zeros when
/// no address was supplied.
pub open spec fn spec_mac_address(bytes: Option<Seq<u8>>) -> Seq<u8> {
    match bytes {
        Some(b) => b.take(6),
        None => seq![0u8, 0u8, 0u8, 0u8, 0u8, 0u8],
    }
}

/// The view of an optional byte slice.
pub open spec fn optional_bytes(bytes: Option<&[u8]>) -> Option<Seq<u8>> {
    match bytes {
        Some(b) => Some(b@),
        None => None,
    }
}

/// Read a MAC address from the six bytes at `bytes`, or all zeros when there are none.
pub fn mac_address(bytes: Option<&[u8]>) -> (a: [u8; 6])
    requires
        bytes matches Some(b) ==> b@.len() >= 6,
    ensures
        a@ == spec_mac_address(optional_bytes(bytes)),
{
    match bytes {
        Some(b) => {
            let a = [b[0], b[1], b[2], b[3], b[4], b[5]];
            assert(a@ =~= b@.take(6));
            a
        },
        None => {
            let a = [0u8, 0u8, 0u8, 0u8, 0u8, 0u8];
            assert(a@ =~= seq![0u8, 0u8, 0u8, 0u8, 0u8, 0u8]);
            a
        },
    }
}

/// Assemble a received frame from its payload, VLAN tag and addresses; a
/// missing payload is an empty one and a missing address is all zeros.
pub fn ethernet_frame_from_parts(
    data: Option<&[u8]>,
    vlan_tag: u16,
    local_address: Option<&[u8]>,
    remote_address: Option<&[u8]>,
) -> (f: EthernetFrame)
    requires
        local_address matches Some(b) ==> b@.len() >= 6,
        remote_address matches Some(b) ==> b@.len() >= 6,
    ensures
        f.data@ == (match data {
            Some(d) => d@,
            None => Seq::<u8>::empty(),
        }),
        f.vlan_tag == vlan_tag,
        f.local_address@ == spec_mac_address(optional_bytes(local_address)),
        f.remote_address@ == spec_mac_address(optional_bytes(remote_address)),
{
    let payload = match data {
        Some(d) => slice_to_vec(d),
        None => Vec::new(),
    };
    EthernetFrame {
        data: payload,
        vlan_tag,
        local_address: mac_address(local_address),
        remote_address: mac_address(remote_address),
    }
}

/// The raw codes of `EthernetChannelState` as the framework defines them: 0 to `Invalid`, 1 to
/// `Waiting`, 2 to `Preparing`, 3 to `Ready`, 4 to `Failed`, 5 to `Cancelled`; each named value
/// comes from exactly one code, and every other code is kept, unchanged, in `Unknown`.
pub proof fn lemma_channel_state_codes(raw: i32)
    ensures
        (spec_channel_state(raw) == EthernetChannelState::Invalid) <==> raw == 0,
        (spec_channel_state(raw) == EthernetChannelState::Waiting) <==> raw == 1,
        (spec_channel_state(raw) == EthernetChannelState::Preparing) <==> raw == 2,
        (spec_channel_state(raw) == EthernetChannelState::Ready) <==> raw == 3,
        (spec_channel_state(raw) == EthernetChannelState::Failed) <==> raw == 4,
        (spec_channel_state(raw) == EthernetChannelState::Cancelled) <==> raw == 5,
        (spec_channel_state(raw) is Unknown) <==> !(raw == 0 || raw == 1 || raw == 2 || raw == 3 || raw == 4 || raw == 5),
        !(raw == 0 || raw == 1 || raw == 2 || raw == 3 || raw == 4 || raw == 5) ==> spec_channel_state(raw) == EthernetChannelState::Unknown(raw),
{
}

} // verus!
