//! Path updates and the configuration of a path monitor before it starts.

use vstd::prelude::*;

use crate::interface::{spec_interface_type, InterfaceType};
use crate::interface_support::spec_interface_type_raw;

verus! {

/// One network-path update.
#[derive(Debug, Clone, Copy, PartialEq, Eq, Structural)]
pub struct PathUpdate {
    /// `true` if the system thinks the network can route traffic.
    pub satisfied: bool,
    pub interface: InterfaceType,
}

/// The update reported by the raw satisfied flag and interface-type code.
pub fn path_update_from_raw(satisfied: i32, interface_type: i32) -> (u: PathUpdate)
    ensures
        u.satisfied == (satisfied != 0),
        u.interface == spec_interface_type(interface_type),
{
    PathUpdate { satisfied: satisfied != 0, interface: InterfaceType::from_raw(interface_type) }
}

/// Monitor every path.
pub const NW_SHIM_PATH_SCOPE_ALL: i32 = 0;
/// Monitor paths over one interface type.
pub const NW_SHIM_PATH_SCOPE_INTERFACE_TYPE: i32 = 1;
/// Monitor paths usable by Ethernet channels.
pub const NW_SHIM_PATH_SCOPE_ETHERNET_CHANNEL: i32 = 2;

/// Which paths a monitor observes.
#[derive(Debug, Clone, Copy, PartialEq, Eq, Structural)]
pub enum Scope {
    All,
    InterfaceType(InterfaceType),
    EthernetChannel,
}

/// Builder for a path monitor: the paths to observe and the interface types
/// to leave out.
#[derive(Debug, Clone)]
pub struct PathMonitorBuilder {
    scope: Scope,
    prohibited: Vec<InterfaceType>,
}

impl View for PathMonitorBuilder {
    type V = (Scope, Seq<InterfaceType>);

    closed spec fn view(&self) -> (Scope, Seq<InterfaceType>) {
        (self.scope, self.prohibited@)
    }
}

impl Default for PathMonitorBuilder {
    fn default() -> (b: Self)
        ensures
            b@ == (Scope::All, Seq::<InterfaceType>::empty()),
    {
        PathMonitorBuilder { scope: Scope::All, prohibited: Vec::new() }
    }
}

/// The scope code and interface-type code that start a monitor for `scope`.
pub open spec fn spec_scope_codes(scope: Scope) -> (i32, i32) {
    match scope {
        Scope::All => (NW_SHIM_PATH_SCOPE_ALL, 0),
        Scope::InterfaceType(t) => (NW_SHIM_PATH_SCOPE_INTERFACE_TYPE, spec_interface_type_raw(t)),
        Scope::EthernetChannel => (NW_SHIM_PATH_SCOPE_ETHERNET_CHANNEL, 0),
    }
}

impl PathMonitorBuilder {
    /// Observe only paths over `interface_type`.
    pub fn interface_type(self, interface_type: InterfaceType) -> (b: Self)
        ensures
            b@ == with_scope(self@, Scope::InterfaceType(interface_type)),
    {
        let mut b = self;
        b.scope = Scope::InterfaceType(interface_type);
        b
    }

    /// Observe the paths usable by Ethernet channels.
    pub fn ethernet_channel(self) -> (b: Self)
        ensures
            b@ == with_scope(self@, Scope::EthernetChannel),
    {
        let mut b = self;
        b.scope = Scope::EthernetChannel;
        b
    }

    /// Leave paths over `interface_type` out, in addition to those already left out.
    pub fn prohibit_interface_type(self, interface_type: InterfaceType) -> (b: Self)
        ensures
            b@ == with_prohibited(self@, interface_type),
    {
        let mut b = self;
        b.prohibited.push(interface_type);
        b
    }

    /// The scope the monitor will observe.
    pub fn scope(&self) -> (s: Scope)
        ensures
            s == self@.0,
    {
        self.scope
    }

    /// The scope code and interface-type code handed to the framework.
    pub fn scope_codes(&self) -> (c: (i32, i32))
        ensures
            c == spec_scope_codes(self@.0),
    {
        match self.scope {
            Scope::All => (NW_SHIM_PATH_SCOPE_ALL, 0),
            Scope::InterfaceType(t) => (NW_SHIM_PATH_SCOPE_INTERFACE_TYPE, t.as_raw()),
            Scope::EthernetChannel => (NW_SHIM_PATH_SCOPE_ETHERNET_CHANNEL, 0),
        }
    }

    /// The raw codes of the left-out interface types, in the order they were added.
    pub fn prohibited_codes(&self) -> (codes: Vec<i32>)
        ensures
            codes@ == self@.1.map_values(|t: InterfaceType| spec_interface_type_raw(t)),
    {
        let mut codes: Vec<i32> = Vec::new();
        let mut i: usize = 0;
        while i < self.prohibited.len()
            invariant
                i <= self.prohibited@.len(),
                codes@ == self.prohibited@.take(i as int).map_values(|t: InterfaceType| spec_interface_type_raw(t)),
            decreases self.prohibited.len() - i,
        {
            codes.push(self.prohibited[i].as_raw());
            i = i + 1;
            assert(codes@ =~= self.prohibited@.take(i as int).map_values(|t: InterfaceType| spec_interface_type_raw(t)));
        }
        assert(self.prohibited@.take(i as int) =~= self.prohibited@);
        codes
    }
}

/// The configuration after choosing `scope`.
pub open spec fn with_scope(b: (Scope, Seq<InterfaceType>), scope: Scope) -> (Scope, Seq<InterfaceType>) {
    (scope, b.1)
}

/// The configuration after leaving out `t`.
pub open spec fn with_prohibited(b: (Scope, Seq<InterfaceType>), t: InterfaceType) -> (Scope, Seq<InterfaceType>) {
    (b.0, b.1.push(t))
}

/// The scope chosen last is the one the monitor observes.
pub proof fn lemma_last_scope_wins(b: (Scope, Seq<InterfaceType>), first: Scope, second: Scope)
    ensures
        with_scope(with_scope(b, first), second) == with_scope(b, second),
{
}

/// Choosing a scope and leaving out an interface type do not interfere: the
/// order of the two calls does not matter.
pub proof fn lemma_scope_and_prohibition_commute(b: (Scope, Seq<InterfaceType>), scope: Scope, t: InterfaceType)
    ensures
        with_prohibited(with_scope(b, scope), t) == with_scope(with_prohibited(b, t), scope),
{
}

/// Left-out interface types accumulate in the order they were added.
pub proof fn lemma_prohibitions_accumulate(b: (Scope, Seq<InterfaceType>), t1: InterfaceType, t2: InterfaceType)
    ensures
        with_prohibited(with_prohibited(b, t1), t2).1 == b.1 + seq![t1, t2],
{
    assert(b.1.push(t1).push(t2) =~= b.1 + seq![t1, t2]);
}

} // verus!
