//! The configuration of a switch: its ports, its VLANs, and the builder that
//! checks them against each other.

use crate::error::{invalid_port_message, no_ports_message, SwitchrError};
use crate::vlan::VlanId;
use std::collections::HashMap;
use vstd::prelude::*;
use vstd::std_specs::iter::IteratorSpec;

verus! {

/// The number of a port, counted from zero.
pub type PortNumber = usize;

/// Which frames a port lets in.
#[derive(Debug, Clone, Copy, PartialEq, Eq, Structural)]
pub enum FrameTypes {
    /// Only frames that carry an 802.1Q tag.
    Tagged,
    /// Only frames without a tag.
    Untagged,
    /// Every frame.
    All,
}

/// The same policy under the name that a port's field gives it.
pub type AcceptableFrameTypes = FrameTypes;

impl FrameTypes {
    /// Whether the policy lets in a frame that is `tagged`, or one that is not.
    pub open spec fn admits(self, tagged: bool) -> bool {
        match self {
            FrameTypes::All => true,
            FrameTypes::Tagged => tagged,
            FrameTypes::Untagged => !tagged,
        }
    }

    /// Whether the policy lets in a frame with the tag `dot1q`, or without one.
    pub fn accepts(&self, dot1q: &Option<VlanId>) -> (accepted: bool)
        ensures
            accepted == self.admits(dot1q is Some),
    {
        match (self, dot1q) {
            (FrameTypes::All, _) => true,
            (FrameTypes::Tagged, Some(_)) => true,
            (FrameTypes::Untagged, None) => true,
            _ => false,
        }
    }
}

/// How one port treats the frames that arrive on it.
#[derive(Debug, Clone, Copy)]
pub struct PortConfig {
    /// The frames that the port lets in.
    pub acceptable_frame_types: FrameTypes,
    /// The VLAN of a frame that arrives without a tag.
    pub pvid: VlanId,
}

impl PortConfig {
    /// A port with the given admission policy and VLAN for untagged frames.
    pub fn new(acceptable_frame_types: FrameTypes, pvid: VlanId) -> (port: PortConfig)
        ensures
            port.acceptable_frame_types == acceptable_frame_types,
            port.pvid == pvid,
    {
        PortConfig { acceptable_frame_types, pvid }
    }
}

/// The first of `ports` that is not below `port_count`, if there is one.
pub open spec fn first_beyond(ports: Seq<PortNumber>, port_count: nat) -> Option<PortNumber>
    decreases ports.len(),
{
    if ports.len() == 0 {
        None
    } else if ports.first() >= port_count {
        Some(ports.first())
    } else {
        first_beyond(ports.drop_first(), port_count)
    }
}

/// `first_beyond` finds a port exactly where one of `ports` is not below
/// `port_count`, and what it finds is such a port.
pub proof fn lemma_first_beyond(ports: Seq<PortNumber>, port_count: nat)
    ensures
        match first_beyond(ports, port_count) {
            Some(port) => ports.contains(port) && port >= port_count,
            None => forall|port: PortNumber| #[trigger] ports.contains(port) ==> port < port_count,
        },
    decreases ports.len(),
{
    if ports.len() > 0 {
        lemma_first_beyond(ports.drop_first(), port_count);
        assert forall|port: PortNumber| #[trigger] ports.contains(port) implies port == ports.first()
            || ports.drop_first().contains(port) by {
            let i = choose|i: int| 0 <= i < ports.len() && ports[i] == port;
            if i > 0 {
                assert(ports.drop_first()[i - 1] == port);
            }
        }
    }
}

/// The ports of one VLAN, by the form in which frames leave them.
#[derive(Debug)]
pub struct VlanConfig {
    /// Ports on which the VLAN's frames leave without a tag.
    pub untagged_ports: Vec<PortNumber>,
    /// Ports on which the VLAN's frames leave with the VLAN's tag.
    pub tagged_ports: Vec<PortNumber>,
}

impl VlanConfig {
    /// A VLAN with the given member ports.
    pub fn new(untagged_ports: Vec<PortNumber>, tagged_ports: Vec<PortNumber>) -> (vlan: VlanConfig)
        ensures
            vlan.untagged_ports == untagged_ports,
            vlan.tagged_ports == tagged_ports,
    {
        VlanConfig { untagged_ports, tagged_ports }
    }

    /// Whether the VLAN names `port` in one of its lists.
    pub open spec fn references(self, port: PortNumber) -> bool {
        self.untagged_ports@.contains(port) || self.tagged_ports@.contains(port)
    }

    /// Whether every port that the VLAN names is one of the first `port_count`.
    pub open spec fn within(self, port_count: nat) -> bool {
        forall|port: PortNumber| #[trigger] self.references(port) ==> port < port_count
    }

    /// The first port that the VLAN names and that is not below `port_count`,
    /// if there is one: the tagged ports are searched before the untagged.
    pub open spec fn first_beyond(self, port_count: nat) -> Option<PortNumber> {
        match first_beyond(self.tagged_ports@, port_count) {
            Some(port) => Some(port),
            None => first_beyond(self.untagged_ports@, port_count),
        }
    }

    /// A VLAN is within `port_count` exactly where no port of it is found
    /// beyond, and a port found beyond is one that the VLAN names.
    pub proof fn lemma_first_beyond(self, port_count: nat)
        ensures
            self.first_beyond(port_count) is None <==> self.within(port_count),
            self.first_beyond(port_count) matches Some(port) ==> self.references(port) && port
                >= port_count,
    {
        lemma_first_beyond(self.tagged_ports@, port_count);
        lemma_first_beyond(self.untagged_ports@, port_count);
        match self.first_beyond(port_count) {
            Some(port) => {
                assert(self.references(port));
            },
            None => {
                assert forall|port: PortNumber| #[trigger] self.references(port) implies port
                    < port_count by {}
            },
        }
    }
}

/// Whether `ports` and `vlans` make a configuration: at least one port, and no
/// VLAN that names a port beyond the last.
pub open spec fn consistent(ports: Seq<PortConfig>, vlans: Map<u16, VlanConfig>) -> bool {
    &&& ports.len() > 0
    &&& forall|id: u16| #[trigger] vlans.contains_key(id) ==> vlans[id].within(ports.len())
}

/// A checked configuration: the ports in order of their numbers, and the
/// VLANs by identifier. Only `ConfigBuilder::build` makes one, so every
/// `Config` is consistent.
#[derive(Debug)]
pub struct Config {
    ports: Vec<PortConfig>,
    vlans: HashMap<u16, VlanConfig>,
}

impl Config {
    #[verifier::type_invariant]
    spec fn checked(self) -> bool {
        consistent(self.ports@, self.vlans@)
    }

    /// The ports; the index is the port's number.
    pub closed spec fn ports(&self) -> Seq<PortConfig> {
        self.ports@
    }

    /// The configured VLANs, by identifier.
    pub closed spec fn vlans(&self) -> Map<u16, VlanConfig> {
        self.vlans@
    }

    /// The number of ports, which is never zero.
    pub fn port_count(&self) -> (count: usize)
        ensures
            count == self.ports().len(),
            count > 0,
    {
        proof {
            use_type_invariant(self);
        }
        self.ports.len()
    }

    /// The configuration of port `port_number`.
    pub fn port(&self, port_number: PortNumber) -> (port: &PortConfig)
        requires
            port_number < self.ports().len(),
        ensures
            *port == self.ports()[port_number as int],
    {
        &self.ports[port_number]
    }

    /// The configuration of `vlan_id`, if the VLAN is configured. Its ports
    /// all exist.
    pub fn vlan(&self, vlan_id: VlanId) -> (vlan: Option<&VlanConfig>)
        ensures
            match vlan {
                Some(found) => self.vlans().contains_key(vlan_id@) && *found == self.vlans()[vlan_id@]
                    && found.within(self.ports().len()),
                None => !self.vlans().contains_key(vlan_id@),
            },
    {
        proof {
            use_type_invariant(self);
        }
        let key = vlan_id.to_u16();
        self.vlans.get(&key)
    }
}

/// Searches `ports` for the first that is not below `port_count`.
fn find_first_beyond(ports: &Vec<PortNumber>, port_count: usize) -> (found: Option<PortNumber>)
    ensures
        found == first_beyond(ports@, port_count as nat),
{
    let mut i: usize = 0;
    assert(ports@.skip(0) =~= ports@);
    while i < ports.len()
        invariant
            i <= ports.len(),
            first_beyond(ports@, port_count as nat) == first_beyond(ports@.skip(i as int), port_count as nat),
        decreases ports.len() - i,
    {
        let port = ports[i];
        if port >= port_count {
            return Some(port);
        }
        assert(ports@.skip(i as int).drop_first() =~= ports@.skip(i + 1));
        i += 1;
    }
    None
}

/// Collects ports and VLANs, and checks them when asked to build.
#[derive(Debug)]
pub struct ConfigBuilder {
    ports: Vec<PortConfig>,
    vlans: HashMap<u16, VlanConfig>,
}

impl ConfigBuilder {
    /// The ports collected so far.
    pub closed spec fn ports(&self) -> Seq<PortConfig> {
        self.ports@
    }

    /// The VLANs collected so far, by identifier.
    pub closed spec fn vlans(&self) -> Map<u16, VlanConfig> {
        self.vlans@
    }

    /// A builder without ports or VLANs.
    pub fn new() -> (builder: Self)
        ensures
            builder.ports() == Seq::<PortConfig>::empty(),
            builder.vlans() == Map::<u16, VlanConfig>::empty(),
    {
        ConfigBuilder { ports: Vec::new(), vlans: HashMap::new() }
    }

    /// Replaces the ports; their order gives them their numbers.
    pub fn with_ports(self, ports: Vec<PortConfig>) -> (builder: Self)
        ensures
            builder.ports() == ports@,
            builder.vlans() == self.vlans(),
    {
        ConfigBuilder { ports, vlans: self.vlans }
    }

    /// Sets the configuration of `vlan_id`, in place of an earlier one.
    pub fn with_vlan(self, vlan_id: VlanId, config: VlanConfig) -> (builder: Self)
        ensures
            builder.ports() == self.ports(),
            builder.vlans() == self.vlans().insert(vlan_id@, config),
    {
        let mut vlans = self.vlans;
        vlans.insert(vlan_id.to_u16(), config);
        ConfigBuilder { ports: self.ports, vlans }
    }

    /// Checks what was collected and hands it out as a `Config`.
    ///
    /// Fails without ports, with the text of `no_ports_message`. Fails where
    /// a VLAN names a port that does not exist, with the text of
    /// `invalid_port_message` for the first such port of one such VLAN; with
    /// several such VLANs, any of them may be the one.
    pub fn build(self) -> (built: Result<Config, SwitchrError>)
        ensures
            match built {
                Ok(config) => {
                    &&& consistent(self.ports(), self.vlans())
                    &&& config.ports() == self.ports()
                    &&& config.vlans() == self.vlans()
                },
                Err(error) => {
                    &&& !consistent(self.ports(), self.vlans())
                    &&& error matches SwitchrError::BadConfig(text)
                    &&& if self.ports().len() == 0 {
                        text@ == no_ports_message()
                    } else {
                        exists|id: u16|
                            {
                                &&& #[trigger] self.vlans().contains_key(id)
                                &&& self.vlans()[id].first_beyond(self.ports().len()) matches Some(port)
                                &&& text@ == invalid_port_message(port as nat)
                            }
                    }
                },
            },
    {
        let port_count = self.ports.len();
        if port_count == 0 {
            return Err(SwitchrError::no_ports());
        }
        let ghost all = self.vlans.values().remaining();
        for vlan_conf in it: self.vlans.values()
            invariant
                port_count == self.ports@.len(),
                port_count > 0,
                it.seq() == all,
                all.unref().to_set() == self.vlans@.values(),
                forall|i: int| 0 <= i < it.index() ==> (#[trigger] all[i]).within(port_count as nat),
        {
            let beyond = match find_first_beyond(&vlan_conf.tagged_ports, port_count) {
                Some(port) => Some(port),
                None => find_first_beyond(&vlan_conf.untagged_ports, port_count),
            };
            proof {
                vlan_conf.lemma_first_beyond(port_count as nat);
            }
            if let Some(port) = beyond {
                proof {
                    assert(all.unref().to_set().contains(*vlan_conf));
                    let id = choose|id: u16| self.vlans@.contains_key(id) && self.vlans@[id] == *vlan_conf;
                    assert(self.vlans().contains_key(id) && self.vlans()[id].first_beyond(
                        self.ports().len(),
                    ) == Some(port));
                }
                return Err(SwitchrError::invalid_port(port));
            }
        }
        proof {
            assert forall|id: u16| #[trigger] self.vlans@.contains_key(id) implies self.vlans@[id].within(
                port_count as nat,
            ) by {
                assert(all.unref().to_set().contains(self.vlans@[id]));
                let i = choose|i: int| 0 <= i < all.unref().len() && all.unref()[i] == self.vlans@[id];
                assert(all[i].within(port_count as nat));
            }
        }
        Ok(Config { ports: self.ports, vlans: self.vlans })
    }
}

} // verus!
