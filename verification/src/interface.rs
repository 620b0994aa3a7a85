//! Network interface descriptions and the de-duplication applied to
//! interface listings.

use vstd::prelude::*;

verus! {

/// High-level classification for a network interface.
#[derive(Debug, Clone, Copy, PartialEq, Eq, Hash, Structural)]
pub enum InterfaceType {
    Other,
    WiFi,
    Cellular,
    Wired,
    Loopback,
}

/// The interface type that a raw type code stands for; unknown codes are `Other`.
pub open spec fn spec_interface_type(raw: i32) -> InterfaceType {
    match raw {
        1 => InterfaceType::WiFi,
        2 => InterfaceType::Cellular,
        3 => InterfaceType::Wired,
        4 => InterfaceType::Loopback,
        _ => InterfaceType::Other,
    }
}

impl InterfaceType {
    /// Decode a raw interface-type code.
    pub fn from_raw(raw: i32) -> (t: Self)
        ensures
            t == spec_interface_type(raw),
    {
        match raw {
            1 => Self::WiFi,
            2 => Self::Cellular,
            3 => Self::Wired,
            4 => Self::Loopback,
            _ => Self::Other,
        }
    }
}

/// One visible network interface.
#[derive(Debug, Clone, PartialEq, Eq, Hash)]
pub struct NetworkInterface {
    pub name: String,
    pub interface_type: InterfaceType,
    pub index: u32,
}

/// What identifies an interface: its name, type and index.
pub type InterfaceView = (Seq<char>, InterfaceType, u32);

impl View for NetworkInterface {
    type V = InterfaceView;

    open spec fn view(&self) -> InterfaceView {
        (self.name@, self.interface_type, self.index)
    }
}

/// The views of a sequence of interfaces.
pub open spec fn interface_views(s: Seq<NetworkInterface>) -> Seq<InterfaceView> {
    s.map_values(|i: NetworkInterface| i@)
}

/// `s` with every entry that repeats an earlier one removed.
pub open spec fn dedup_views(s: Seq<InterfaceView>) -> Seq<InterfaceView>
    decreases s.len(),
{
    if s.len() == 0 {
        Seq::empty()
    } else {
        let prev = dedup_views(s.drop_last());
        if prev.contains(s.last()) {
            prev
        } else {
            prev.push(s.last())
        }
    }
}

impl NetworkInterface {
    fn duplicate(&self) -> (r: Self)
        ensures
            r@ == self@,
    {
        NetworkInterface { name: self.name.clone(), interface_type: self.interface_type, index: self.index }
    }

    fn same_as(&self, other: &Self) -> (b: bool)
        ensures
            b == (self@ == other@),
    {
        self.index == other.index && self.interface_type == other.interface_type
            && self.name == other.name
    }
}

fn contains_interface(kept: &Vec<NetworkInterface>, candidate: &NetworkInterface) -> (b: bool)
    ensures
        b == interface_views(kept@).contains(candidate@),
{
    let mut j: usize = 0;
    while j < kept.len()
        invariant
            j <= kept.len(),
            forall|k: int| 0 <= k < j ==> kept@[k]@ != candidate@,
        decreases kept.len() - j,
    {
        if kept[j].same_as(candidate) {
            assert(interface_views(kept@)[j as int] == candidate@);
            return true;
        }
        j = j + 1;
    }
    proof {
        if interface_views(kept@).contains(candidate@) {
            let k = choose|k: int| 0 <= k < interface_views(kept@).len() && interface_views(kept@)[k] == candidate@;
            assert(kept@[k]@ == candidate@);
        }
    }
    false
}

/// Remove every interface that repeats an earlier one, keeping the first
/// occurrence of each and the order of the list.
pub fn dedupe_interfaces(interfaces: &mut Vec<NetworkInterface>)
    ensures
        interface_views(final(interfaces)@) == dedup_views(interface_views(old(interfaces)@)),
{
    let ghost original = interface_views(interfaces@);
    let mut kept: Vec<NetworkInterface> = Vec::new();
    let n = interfaces.len();
    let mut i: usize = 0;
    while i < n
        invariant
            n == interfaces.len(),
            original == interface_views(interfaces@),
            i <= n,
            interface_views(kept@) == dedup_views(original.take(i as int)),
        decreases n - i,
    {
        let candidate = &interfaces[i];
        proof {
            assert(original.take(i as int + 1).drop_last() == original.take(i as int));
            assert(original.take(i as int + 1).last() == candidate@);
        }
        if !contains_interface(&kept, candidate) {
            let copy = candidate.duplicate();
            kept.push(copy);
            assert(interface_views(kept@) == interface_views(kept@).drop_last().push(copy@));
        }
        i = i + 1;
    }
    assert(original.take(n as int) == original);
    *interfaces = kept;
}

/// After de-duplication no interface occurs twice.
pub proof fn lemma_dedup_has_no_repeats(s: Seq<InterfaceView>)
    ensures
        dedup_views(s).no_duplicates(),
    decreases s.len(),
{
    if s.len() > 0 {
        lemma_dedup_has_no_repeats(s.drop_last());
    }
}

/// De-duplication keeps exactly the interfaces of the list: each one of the
/// result comes from the list, and each one of the list is in the result.
pub proof fn lemma_dedup_keeps_every_interface(s: Seq<InterfaceView>)
    ensures
        forall|x: InterfaceView| #[trigger] dedup_views(s).contains(x) <==> s.contains(x),
    decreases s.len(),
{
    if s.len() > 0 {
        lemma_dedup_keeps_every_interface(s.drop_last());
        assert forall|x: InterfaceView| #[trigger] dedup_views(s).contains(x) <==> s.contains(x) by {
            let prev = dedup_views(s.drop_last());
            if s.contains(x) {
                let k = choose|k: int| 0 <= k < s.len() && s[k] == x;
                if k < s.len() - 1 {
                    assert(s.drop_last()[k] == x);
                }
            }
            if s.drop_last().contains(x) {
                let k = choose|k: int| 0 <= k < s.drop_last().len() && s.drop_last()[k] == x;
                assert(s[k] == x);
            }
            if !prev.contains(s.last()) {
                assert(prev.push(s.last())[prev.len() as int] == s.last());
                if prev.push(s.last()).contains(x) && x != s.last() {
                    let k = choose|k: int| 0 <= k < prev.push(s.last()).len() && prev.push(s.last())[k] == x;
                    assert(prev[k] == x);
                }
                if prev.contains(x) {
                    let k = choose|k: int| 0 <= k < prev.len() && prev[k] == x;
                    assert(prev.push(s.last())[k] == x);
                }
            }
            assert(s[s.len() - 1] == s.last());
        }
    }
}

/// A list without repeats is left unchanged by de-duplication.
pub proof fn lemma_dedup_of_distinct(s: Seq<InterfaceView>)
    requires
        s.no_duplicates(),
    ensures
        dedup_views(s) == s,
    decreases s.len(),
{
    if s.len() > 0 {
        let init = s.drop_last();
        assert(init.no_duplicates()) by {
            assert forall|i: int, j: int| 0 <= i < init.len() && 0 <= j < init.len() && i != j implies init[i] != init[j] by {
                assert(s[i] != s[j]);
            }
        }
        lemma_dedup_of_distinct(init);
        if init.contains(s.last()) {
            let k = choose|k: int| 0 <= k < init.len() && init[k] == s.last();
            assert(s[k] == s[s.len() - 1]);
        }
        assert(init.push(s.last()) == s);
    }
}

/// De-duplicating twice gives what de-duplicating once gives.
pub proof fn lemma_dedup_idempotent(s: Seq<InterfaceView>)
    ensures
        dedup_views(dedup_views(s)) == dedup_views(s),
{
    lemma_dedup_has_no_repeats(s);
    lemma_dedup_of_distinct(dedup_views(s));
}

/// The raw codes of `InterfaceType` as the framework defines them: 1 to `WiFi`, 2 to
/// `Cellular`, 3 to `Wired`, 4 to `Loopback`; each named value comes from exactly one code, and
/// every other code decodes to `Other`.
pub proof fn lemma_interface_type_codes(raw: i32)
    ensures
        (spec_interface_type(raw) == InterfaceType::WiFi) <==> raw == 1,
        (spec_interface_type(raw) == InterfaceType::Cellular) <==> raw == 2,
        (spec_interface_type(raw) == InterfaceType::Wired) <==> raw == 3,
        (spec_interface_type(raw) == InterfaceType::Loopback) <==> raw == 4,
        (spec_interface_type(raw) == InterfaceType::Other) <==> !(raw == 1 || raw == 2 || raw == 3 || raw == 4),
{
}

} // verus!
