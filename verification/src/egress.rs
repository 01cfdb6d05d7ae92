//! Egress: which ports a frame leaves on, and in which form.

use crate::config::{Config, PortNumber, VlanConfig};
use crate::frame::{ScopedFrame, ScopedFrameView};
use crate::table::FowardingTable;
use std::rc::Rc;
use vstd::prelude::*;

verus! {

/// One frame to put on the wire: the port and the bytes.
#[derive(Debug, PartialEq, Eq)]
pub struct Transmission {
    /// The port that the bytes leave on.
    pub port_number: PortNumber,
    /// The frame as it goes onto the wire.
    pub data: Vec<u8>,
}

impl View for Transmission {
    type V = (PortNumber, Seq<u8>);

    open spec fn view(&self) -> (PortNumber, Seq<u8>) {
        (self.port_number, self.data@)
    }
}

/// The transmissions `sent` as pairs of port and bytes.
pub open spec fn wire(sent: Seq<Transmission>) -> Seq<(PortNumber, Seq<u8>)> {
    sent.map_values(|transmission: Transmission| transmission@)
}

/// Those of `ports` that a frame goes to: all of them while the destination
/// is unknown, else the known port wherever it is listed. The order is kept.
pub open spec fn targets(ports: Seq<PortNumber>, known_port: Option<PortNumber>) -> Seq<PortNumber> {
    ports.filter(|port: PortNumber| known_port is None || known_port == Some(port))
}

/// What is sent for `frame`, given the configuration of its VLAN, if it has
/// one, and the port that its destination was learned on, if any: first the
/// untagged form to the VLAN's untagged ports, then the tagged form to its
/// tagged ports. For a VLAN that is not configured nothing is sent. The port
/// that the frame came in on gets no special treatment: it is a target like
/// any other port of the VLAN.
pub open spec fn plan(
    vlan: Option<VlanConfig>,
    known_port: Option<PortNumber>,
    frame: ScopedFrameView,
) -> Seq<(PortNumber, Seq<u8>)> {
    match vlan {
        None => Seq::empty(),
        Some(vlan) => targets(vlan.untagged_ports@, known_port).map_values(
            |port: PortNumber| (port, frame.untagged()),
        ) + targets(vlan.tagged_ports@, known_port).map_values(
            |port: PortNumber| (port, frame.tagged()),
        ),
    }
}

/// Flooding: while the destination is unknown, every untagged port of the
/// VLAN gets the untagged form and every tagged port the tagged form, each in
/// the order of its list.
pub proof fn lemma_unknown_destination_floods(vlan: VlanConfig, frame: ScopedFrameView)
    ensures
        plan(Some(vlan), None, frame) == vlan.untagged_ports@.map_values(
            |port: PortNumber| (port, frame.untagged()),
        ) + vlan.tagged_ports@.map_values(|port: PortNumber| (port, frame.tagged())),
{
    lemma_targets_of_unknown(vlan.untagged_ports@);
    lemma_targets_of_unknown(vlan.tagged_ports@);
}

/// While the destination is unknown every port is a target.
proof fn lemma_targets_of_unknown(ports: Seq<PortNumber>)
    ensures
        targets(ports, None) == ports,
    decreases ports.len(),
{
    reveal(Seq::filter);
    if ports.len() > 0 {
        lemma_targets_of_unknown(ports.drop_last());
    }
}

/// Unicast: once the destination is known, nothing goes to another port.
pub proof fn lemma_known_destination_alone(
    vlan: VlanConfig,
    known_port: PortNumber,
    frame: ScopedFrameView,
    i: int,
)
    requires
        0 <= i < plan(Some(vlan), Some(known_port), frame).len(),
    ensures
        plan(Some(vlan), Some(known_port), frame)[i].0 == known_port,
{
    let chosen = |port: PortNumber| Some(known_port) is None || Some(known_port) == Some(port);
    let untagged = targets(vlan.untagged_ports@, Some(known_port));
    let tagged = targets(vlan.tagged_ports@, Some(known_port));
    if i < untagged.len() {
        vlan.untagged_ports@.lemma_filter_pred(chosen, i);
    } else {
        vlan.tagged_ports@.lemma_filter_pred(chosen, i - untagged.len());
    }
}

/// The form follows the list: the transmissions for the untagged ports come
/// first and carry the untagged bytes, the others carry the tagged bytes.
pub proof fn lemma_form_follows_list(
    vlan: VlanConfig,
    known_port: Option<PortNumber>,
    frame: ScopedFrameView,
    i: int,
)
    requires
        0 <= i < plan(Some(vlan), known_port, frame).len(),
    ensures
        plan(Some(vlan), known_port, frame)[i].1 == if i < targets(
            vlan.untagged_ports@,
            known_port,
        ).len() {
            frame.untagged()
        } else {
            frame.tagged()
        },
{
}

/// A frame of a VLAN that is not configured goes nowhere.
pub proof fn lemma_unconfigured_vlan_drops(known_port: Option<PortNumber>, frame: ScopedFrameView)
    ensures
        plan(None, known_port, frame).len() == 0,
{
}

/// Every transmission of a plan goes to a port that the VLAN names; so within
/// a consistent configuration it goes to a port that exists.
pub proof fn lemma_plan_stays_in_vlan(
    vlan: VlanConfig,
    known_port: Option<PortNumber>,
    frame: ScopedFrameView,
    i: int,
)
    requires
        0 <= i < plan(Some(vlan), known_port, frame).len(),
    ensures
        vlan.references(plan(Some(vlan), known_port, frame)[i].0),
{
    let chosen = |port: PortNumber| known_port is None || known_port == Some(port);
    let untagged = targets(vlan.untagged_ports@, known_port);
    let tagged = targets(vlan.tagged_ports@, known_port);
    if i < untagged.len() {
        vlan.untagged_ports@.lemma_filter_contains_rev(chosen, untagged[i]);
    } else {
        let j = i - untagged.len();
        vlan.tagged_ports@.lemma_filter_contains_rev(chosen, tagged[j]);
    }
}

/// Adds to `sent` one transmission of `data` for each target among `ports`.
fn send_to_targets(
    sent: &mut Vec<Transmission>,
    ports: &Vec<PortNumber>,
    known_port: Option<PortNumber>,
    data: &Vec<u8>,
)
    ensures
        wire(final(sent)@) == wire(old(sent)@) + targets(ports@, known_port).map_values(
            |port: PortNumber| (port, data@),
        ),
{
    let ghost chosen = |port: PortNumber| known_port is None || known_port == Some(port);
    let ghost paired = |port: PortNumber| (port, data@);
    let mut i: usize = 0;
    assert(wire(sent@) =~= wire(old(sent)@) + ports@.take(0).filter(chosen).map_values(paired)) by {
        reveal(Seq::filter);
    }
    while i < ports.len()
        invariant
            i <= ports.len(),
            chosen == |port: PortNumber| known_port is None || known_port == Some(port),
            paired == |port: PortNumber| (port, data@),
            wire(sent@) == wire(old(sent)@) + ports@.take(i as int).filter(chosen).map_values(paired),
        decreases ports.len() - i,
    {
        let port = ports[i];
        let ghost before = sent@;
        let wanted = match known_port {
            None => true,
            Some(known) => port == known,
        };
        if wanted {
            sent.push(Transmission { port_number: port, data: data.clone() });
        }
        proof {
            assert(ports@.take(i + 1) =~= ports@.take(i as int).push(port));
            ports@.take(i as int).lemma_filter_push(port, chosen);
            if wanted {
                assert(wire(sent@) =~= wire(before).push((port, data@)));
            }
            assert(wire(sent@) =~= wire(old(sent)@) + ports@.take(i + 1).filter(chosen).map_values(
                paired,
            ));
        }
        i += 1;
    }
    assert(ports@.take(i as int) =~= ports@);
}

/// The egress side of a switch.
pub struct Egress {
    config: Rc<Config>,
}

impl Egress {
    /// The configuration that the egress side goes by.
    pub closed spec fn config(&self) -> Config {
        *self.config
    }

    /// The egress side of a switch configured as `config`.
    pub fn new(config: Rc<Config>) -> (egress: Self)
        ensures
            egress.config() == *config,
    {
        Egress { config }
    }

    /// Decides what to send for `frame`: see `plan`. The destination is
    /// looked up in `forwarding_table`, within the frame's VLAN, unless the
    /// VLAN is not configured: then the frame is dropped and the table is not
    /// read. Every port in the result is a port of the switch.
    pub fn dispatch(&self, frame: ScopedFrame, forwarding_table: &mut FowardingTable) -> (sent: Vec<
        Transmission,
    >)
        requires
            old(forwarding_table).wf(),
        ensures
            wire(sent@) == plan(
                self.config().vlans().get(frame.vlan_id@),
                old(forwarding_table).entries(frame.vlan_id@).get(frame.frame.dst@),
                frame@,
            ),
            match self.config().vlans().get(frame.vlan_id@) {
                Some(_) => FowardingTable::after_lookup(
                    *old(forwarding_table),
                    *final(forwarding_table),
                    frame.vlan_id@,
                ),
                None => *final(forwarding_table) == *old(forwarding_table),
            },
            self.config().vlans().get(frame.vlan_id@) is None ==> sent.len() == 0,
            forall|i: int| 0 <= i < sent.len() ==> (#[trigger] sent[i]).port_number < self.config().ports().len(),
    {
        let mut sent: Vec<Transmission> = Vec::new();
        let vlan_config = match self.config.vlan(frame.vlan_id) {
            Some(vlan_config) => vlan_config,
            None => {
                return sent;
            },
        };
        let known_port = forwarding_table.lookup(frame.vlan_id, frame.frame.dst);
        let untagged = frame.untagged();
        send_to_targets(&mut sent, &vlan_config.untagged_ports, known_port, &untagged);
        let tagged = frame.tagged();
        send_to_targets(&mut sent, &vlan_config.tagged_ports, known_port, &tagged);
        proof {
            assert forall|i: int| 0 <= i < sent.len() implies (#[trigger] sent[i]).port_number
                < self.config().ports().len() by {
                lemma_plan_stays_in_vlan(*vlan_config, known_port, frame@, i);
            }
        }
        sent
    }
}

} // verus!
