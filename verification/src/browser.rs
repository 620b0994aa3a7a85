//! Service discovery vocabulary: discovered services, browser events and
//! states, and the change flags of browse results.

use vstd::prelude::*;

verus! {

/// One Bonjour service that the browser has observed appearing or
/// disappearing on the network.
#[derive(Debug, Clone, PartialEq, Eq)]
pub struct DiscoveredService {
    /// Instance name, e.g. `"Living Room Apple TV"`.
    pub name: String,
    /// Service type with protocol, e.g. `"_airplay._tcp"`.
    pub service_type: String,
    /// DNS domain, usually `"local"`.
    pub domain: String,
}

/// Discovery event delivered to the browser closure.
#[derive(Debug, Clone, PartialEq, Eq)]
pub enum BrowserEvent {
    Found(DiscoveredService),
    Lost(DiscoveredService),
}

/// The event for a service that appeared (`is_found`) or disappeared.
pub fn discovery_event(service: DiscoveredService, is_found: bool) -> (e: BrowserEvent)
    ensures
        is_found ==> e == BrowserEvent::Found(service),
        !is_found ==> e == BrowserEvent::Lost(service),
{
    if is_found {
        BrowserEvent::Found(service)
    } else {
        BrowserEvent::Lost(service)
    }
}

/// Browser lifecycle states.
#[derive(Debug, Clone, Copy, PartialEq, Eq, Structural)]
pub enum BrowserState {
    Invalid,
    Ready,
    Failed,
    Cancelled,
    Waiting,
    Unknown(i32),
}

/// The browser state that a raw code stands for.
pub open spec fn spec_browser_state(raw: i32) -> BrowserState {
    match raw {
        0 => BrowserState::Invalid,
        1 => BrowserState::Ready,
        2 => BrowserState::Failed,
        3 => BrowserState::Cancelled,
        4 => BrowserState::Waiting,
        other => BrowserState::Unknown(other),
    }
}

impl BrowserState {
    /// Decode a raw browser-state code.
    pub fn from_raw(raw: i32) -> (s: Self)
        ensures
            s == spec_browser_state(raw),
    {
        match raw {
            0 => Self::Invalid,
            1 => Self::Ready,
            2 => Self::Failed,
            3 => Self::Cancelled,
            4 => Self::Waiting,
            other => Self::Unknown(other),
        }
    }
}

/// Bitflags describing how a browse result changed.
#[derive(Debug, Clone, Copy, PartialEq, Eq, Structural)]
pub struct BrowseResultChange(u64);

/// `a` has every bit of `b` set.
pub open spec fn bits_contain(a: u64, b: u64) -> bool {
    a & b == b
}

impl BrowseResultChange {
    /// No change flags.
    pub fn invalid() -> (c: Self)
        ensures
            c.spec_bits() == 0x00,
    {
        BrowseResultChange(0x00)
    }

    /// The result is identical to the previous one.
    pub fn identical() -> (c: Self)
        ensures
            c.spec_bits() == 0x01,
    {
        BrowseResultChange(0x01)
    }

    /// A result was added.
    pub fn result_added() -> (c: Self)
        ensures
            c.spec_bits() == 0x02,
    {
        BrowseResultChange(0x02)
    }

    /// A result was removed.
    pub fn result_removed() -> (c: Self)
        ensures
            c.spec_bits() == 0x04,
    {
        BrowseResultChange(0x04)
    }

    /// An interface now advertises the result.
    pub fn interface_added() -> (c: Self)
        ensures
            c.spec_bits() == 0x08,
    {
        BrowseResultChange(0x08)
    }

    /// An interface stopped advertising the result.
    pub fn interface_removed() -> (c: Self)
        ensures
            c.spec_bits() == 0x10,
    {
        BrowseResultChange(0x10)
    }

    /// The TXT record of the result changed.
    pub fn txt_record_changed() -> (c: Self)
        ensures
            c.spec_bits() == 0x20,
    {
        BrowseResultChange(0x20)
    }

    /// The bits of the change set.
    pub closed spec fn spec_bits(self) -> u64 {
        self.0
    }

    /// The raw bits of the change set.
    pub fn bits(self) -> (b: u64)
        ensures
            b == self.spec_bits(),
    {
        self.0
    }

    /// Whether every flag of `flag` is set in this change set.
    pub fn contains(self, flag: Self) -> (b: bool)
        ensures
            b == bits_contain(self.spec_bits(), flag.spec_bits()),
    {
        (self.0 & flag.0) == flag.0
    }

    /// The change set with exactly the bits `bits`.
    pub fn from_bits(bits: u64) -> (c: Self)
        ensures
            c.spec_bits() == bits,
    {
        BrowseResultChange(bits)
    }

    /// The change set that the framework reported as `bits`.
    pub fn from_raw(bits: u64) -> (c: Self)
        ensures
            c.spec_bits() == bits,
    {
        BrowseResultChange(bits)
    }
}

/// A change set is determined by its bits: two change sets with the same
/// bits are the same value. In particular `from_bits(c.bits())` is `c`.
pub proof fn lemma_bits_determine_change(a: BrowseResultChange, b: BrowseResultChange)
    requires
        a.spec_bits() == b.spec_bits(),
    ensures
        a == b,
{
}

/// Two change sets that contain each other are the same change set.
pub proof fn lemma_contains_antisymmetric_sets(a: BrowseResultChange, b: BrowseResultChange)
    requires
        bits_contain(a.spec_bits(), b.spec_bits()),
        bits_contain(b.spec_bits(), a.spec_bits()),
    ensures
        a == b,
{
    lemma_contains_antisymmetric(a.spec_bits(), b.spec_bits());
}

/// Every change set contains the empty set of flags and itself.
pub proof fn lemma_contains_empty_and_self(a: u64)
    ensures
        bits_contain(a, 0),
        bits_contain(a, a),
{
    assert(a & 0 == 0) by (bit_vector);
    assert(a & a == a) by (bit_vector);
}

/// Containment of change flags is transitive.
pub proof fn lemma_contains_transitive(a: u64, b: u64, c: u64)
    requires
        bits_contain(a, b),
        bits_contain(b, c),
    ensures
        bits_contain(a, c),
{
    assert((a & b == b && b & c == c) ==> a & c == c) by (bit_vector);
}

/// Two change sets that contain each other are the same set.
pub proof fn lemma_contains_antisymmetric(a: u64, b: u64)
    requires
        bits_contain(a, b),
        bits_contain(b, a),
    ensures
        a == b,
{
    assert((a & b == b && b & a == a) ==> a == b) by (bit_vector);
}

/// A change set contains a single flag exactly when that flag's bit is set,
/// and it contains two flags together exactly when it contains each of them.
pub proof fn lemma_contains_union(a: u64, b: u64, c: u64)
    ensures
        bits_contain(a, b | c) <==> (bits_contain(a, b) && bits_contain(a, c)),
{
    assert(a & (b | c) == (b | c) <==> (a & b == b && a & c == c)) by (bit_vector);
}

/// The raw codes of `BrowserState` as the framework defines them: 0 to `Invalid`, 1 to `Ready`,
/// 2 to `Failed`, 3 to `Cancelled`, 4 to `Waiting`; each named value comes from exactly one
/// code, and every other code is kept, unchanged, in `Unknown`.
pub proof fn lemma_browser_state_codes(raw: i32)
    ensures
        (spec_browser_state(raw) == BrowserState::Invalid) <==> raw == 0,
        (spec_browser_state(raw) == BrowserState::Ready) <==> raw == 1,
        (spec_browser_state(raw) == BrowserState::Failed) <==> raw == 2,
        (spec_browser_state(raw) == BrowserState::Cancelled) <==> raw == 3,
        (spec_browser_state(raw) == BrowserState::Waiting) <==> raw == 4,
        (spec_browser_state(raw) is Unknown) <==> !(raw == 0 || raw == 1 || raw == 2 || raw == 3 || raw == 4),
        !(raw == 0 || raw == 1 || raw == 2 || raw == 3 || raw == 4) ==> spec_browser_state(raw) == BrowserState::Unknown(raw),
{
}

} // verus!
