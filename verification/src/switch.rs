//! The switch: ingress, learning and egress for one frame at a time.

use crate::cache::no_entries;
use crate::config::{Config, PortNumber};
use crate::egress::{plan, wire, Egress, Transmission};
use crate::frame::ScopedFrameView;
use crate::ingress::{classify, Ingress};
use crate::table::FowardingTable;
use std::rc::Rc;
use vstd::prelude::*;

verus! {

/// The number of addresses that a switch learns per VLAN before it evicts.
pub const TABLE_SIZE: u64 = 65536;

/// A switch: a configuration and what was learned so far.
pub struct Switch {
    ingress: Ingress,
    egress: Egress,
    fowarding_table: FowardingTable,
}

impl Switch {
    /// The configuration of the switch.
    pub closed spec fn config(&self) -> Config {
        self.ingress.config()
    }

    /// What the switch has learned.
    pub closed spec fn table(&self) -> FowardingTable {
        self.fowarding_table
    }

    /// Both sides of the switch go by one configuration, and the table is
    /// well formed. Holds of every switch that `new` made.
    pub closed spec fn wf(&self) -> bool {
        &&& self.egress.config() == self.ingress.config()
        &&& self.fowarding_table.wf()
    }

    /// A switch configured as `config` that has learned nothing yet.
    pub fn new(config: Config) -> (switch: Self)
        ensures
            switch.wf(),
            switch.config() == config,
            switch.table().size() == TABLE_SIZE,
            forall|vlan: u16| switch.table().entries(vlan) == no_entries(),
    {
        let config = Rc::new(config);
        let fowarding_table = FowardingTable::new(TABLE_SIZE);
        Switch { ingress: Ingress::new(config.clone()), egress: Egress::new(config), fowarding_table }
    }

    /// The number of ports of the switch.
    pub fn port_count(&self) -> (count: usize)
        ensures
            count == self.config().ports().len(),
            count > 0,
    {
        self.ingress.port_count()
    }

    /// What an admitted frame does to a switch. The frame `scoped`, which
    /// came in on `port_number`, first teaches the table `before` that its
    /// source is reachable through that port within its VLAN, which gives the
    /// table `learned`. Then it is dispatched against `learned`: `sent` is the
    /// plan for it, and `after` is the table once its destination was looked
    /// up, or `learned` itself where the VLAN is not configured.
    pub open spec fn forwarded(
        config: Config,
        before: FowardingTable,
        learned: FowardingTable,
        after: FowardingTable,
        port_number: PortNumber,
        scoped: ScopedFrameView,
        sent: Seq<(PortNumber, Seq<u8>)>,
    ) -> bool {
        &&& FowardingTable::after_update(
            before,
            learned,
            scoped.vlan_id,
            scoped.frame.src,
            port_number,
        )
        &&& sent == plan(
            config.vlans().get(scoped.vlan_id),
            learned.entries(scoped.vlan_id).get(scoped.frame.dst),
            scoped,
        )
        &&& match config.vlans().get(scoped.vlan_id) {
            Some(_) => FowardingTable::after_lookup(learned, after, scoped.vlan_id),
            None => after == learned,
        }
    }

    /// Flood on unknown destination: an admitted frame whose destination the
    /// table did not hold within the frame's VLAN, and which is not addressed
    /// to its own source, goes to every port of its VLAN. The port that it
    /// came in on is no exception: a member port gets its own frame back.
    pub proof fn lemma_unknown_destination_floods(
        config: Config,
        before: FowardingTable,
        learned: FowardingTable,
        after: FowardingTable,
        port_number: PortNumber,
        scoped: ScopedFrameView,
        sent: Seq<(PortNumber, Seq<u8>)>,
    )
        requires
            Self::forwarded(config, before, learned, after, port_number, scoped, sent),
            before.entries(scoped.vlan_id).get(scoped.frame.dst) is None,
            scoped.frame.dst != scoped.frame.src,
        ensures
            sent == plan(config.vlans().get(scoped.vlan_id), None, scoped),
    {
        FowardingTable::lemma_update_learns_one(
            before,
            learned,
            scoped.vlan_id,
            scoped.frame.src,
            port_number,
            scoped.frame.dst,
        );
    }

    /// A frame of a VLAN that is not configured is learned from and then
    /// dropped: nothing is sent, and the table is not read.
    pub proof fn lemma_unconfigured_vlan_drops(
        config: Config,
        before: FowardingTable,
        learned: FowardingTable,
        after: FowardingTable,
        port_number: PortNumber,
        scoped: ScopedFrameView,
        sent: Seq<(PortNumber, Seq<u8>)>,
    )
        requires
            Self::forwarded(config, before, learned, after, port_number, scoped, sent),
            config.vlans().get(scoped.vlan_id) is None,
        ensures
            sent.len() == 0,
            after == learned,
    {
    }

    /// Learning, then unicast: after a frame from some source came in on
    /// `first_port`, a later frame of the same VLAN that is addressed to that
    /// source, and comes from another, is planned for `first_port` alone,
    /// provided that the VLAN holds both sources within the table's size.
    pub proof fn lemma_learned_source_is_the_target(
        config: Config,
        before: FowardingTable,
        first_learned: FowardingTable,
        between: FowardingTable,
        second_learned: FowardingTable,
        after: FowardingTable,
        first_port: PortNumber,
        first: ScopedFrameView,
        first_sent: Seq<(PortNumber, Seq<u8>)>,
        second_port: PortNumber,
        second: ScopedFrameView,
        second_sent: Seq<(PortNumber, Seq<u8>)>,
    )
        requires
            before.wf(),
            Self::forwarded(config, before, first_learned, between, first_port, first, first_sent),
            Self::forwarded(config, between, second_learned, after, second_port, second, second_sent),
            second.vlan_id == first.vlan_id,
            second.frame.dst == first.frame.src,
            second.frame.src != first.frame.src,
            before.entries(first.vlan_id).insert(first.frame.src, first_port).insert(
                second.frame.src,
                second_port,
            ).len() <= before.size(),
        ensures
            second_sent == plan(config.vlans().get(second.vlan_id), Some(first_port), second),
    {
        let vlan = first.vlan_id;
        let one = before.entries(vlan).insert(first.frame.src, first_port);
        let both = one.insert(second.frame.src, second_port);
        before.lemma_entries_finite(vlan);
        vstd::set_lib::lemma_len_subset(one.dom(), both.dom());
    }

    /// Takes the bytes `data` that arrived on port `port_number` through the
    /// switch and returns what is to be sent, in order.
    ///
    /// A frame that ingress drops changes nothing and sends nothing. An
    /// admitted frame is learned from, whether or not it is then forwarded,
    /// and dispatched: see `forwarded`. Every port in the result is a port of
    /// the switch.
    pub fn forward(&mut self, port_number: PortNumber, data: Vec<u8>) -> (sent: Vec<Transmission>)
        requires
            old(self).wf(),
            port_number < old(self).config().ports().len(),
        ensures
            final(self).wf(),
            final(self).config() == old(self).config(),
            match classify(old(self).config().ports()[port_number as int], data@) {
                None => sent@.len() == 0 && final(self).table() == old(self).table(),
                Some(scoped) => exists|learned: FowardingTable| #[trigger]
                    Self::forwarded(
                        old(self).config(),
                        old(self).table(),
                        learned,
                        final(self).table(),
                        port_number,
                        scoped,
                        wire(sent@),
                    ),
            },
            forall|i: int|
                0 <= i < sent.len() ==> (#[trigger] sent[i]).port_number < old(self).config().ports().len(),
    {
        let ghost outcome = classify(self.config().ports()[port_number as int], data@);
        match self.ingress.process(port_number, data) {
            None => Vec::new(),
            Some(frame) => {
                self.fowarding_table.update(frame.vlan_id, frame.frame.src, port_number);
                let ghost learned = self.fowarding_table;
                let sent = self.egress.dispatch(frame, &mut self.fowarding_table);
                assert(Self::forwarded(
                    old(self).config(),
                    old(self).table(),
                    learned,
                    final(self).table(),
                    port_number,
                    outcome.unwrap(),
                    wire(sent@),
                ));
                sent
            },
        }
    }
}

} // verus!
