//! The forwarding table: which port each learned address was last seen on,
//! kept apart for every VLAN and bounded per VLAN.

use crate::cache::{cache_entries, cache_get, cache_insert, cache_limit, cache_with_limit, no_entries};
use crate::config::PortNumber;
use crate::frame::HwAddr;
use crate::vlan::VlanId;
use std::collections::hash_map::Entry;
use std::collections::HashMap;
use vstd::prelude::*;

verus! {

/// MAC learning state: one bounded cache per VLAN, made when the VLAN is first
/// written to.
pub struct FowardingTable {
    size: u64,
    caches: HashMap<u16, moka::sync::Cache<HwAddr, PortNumber>>,
}

impl Default for FowardingTable {
    /// A table of size zero, which learns nothing.
    fn default() -> (table: Self)
        ensures
            table.wf(),
            table.size() == 0,
            forall|vlan: u16| table.entries(vlan) == no_entries(),
    {
        FowardingTable::new(0)
    }
}

impl FowardingTable {
    /// The number of addresses that one VLAN may hold before entries are
    /// evicted.
    pub closed spec fn size(&self) -> u64 {
        self.size
    }

    /// The associations currently held for `vlan`: address to port.
    pub closed spec fn entries(&self, vlan: u16) -> Map<Seq<u8>, PortNumber> {
        if self.caches@.contains_key(vlan) {
            cache_entries(self.caches@[vlan])
        } else {
            no_entries()
        }
    }

    /// Every VLAN's cache was built for `size` addresses. Holds of every table
    /// that `new` made, whatever was done with it since.
    pub closed spec fn wf(&self) -> bool {
        forall|vlan: u16| #[trigger]
            self.caches@.contains_key(vlan) ==> {
                &&& cache_limit(self.caches@[vlan]) == self.size
                &&& cache_entries(self.caches@[vlan]).dom().finite()
            }
    }

    /// A well-formed table holds finitely many associations for each VLAN.
    pub proof fn lemma_entries_finite(&self, vlan: u16)
        requires
            self.wf(),
        ensures
            self.entries(vlan).dom().finite(),
    {
    }

    /// How a table `after` a write of `mac -> port` into `vlan` relates to the
    /// table `before` it. The other VLANs are as they were. The written VLAN
    /// holds nothing that it did not hold before, but for the new association,
    /// which it does hold unless the table's size is zero. While the VLAN stays
    /// within the table's size nothing is lost; beyond it, which entries
    /// leave, and when, is up to the cache.
    pub open spec fn after_update(
        before: Self,
        after: Self,
        vlan: u16,
        mac: Seq<u8>,
        port: PortNumber,
    ) -> bool {
        &&& after.wf()
        &&& after.size() == before.size()
        &&& forall|other: u16| other != vlan ==> after.entries(other) == before.entries(other)
        &&& after.entries(vlan).submap_of(before.entries(vlan).insert(mac, port))
        &&& before.size() != 0 ==> after.entries(vlan).contains_pair(mac, port)
        &&& before.entries(vlan).insert(mac, port).len() <= before.size() ==> after.entries(vlan)
            == before.entries(vlan).insert(mac, port)
    }

    /// How a table `after` a read in `vlan` relates to the table `before` it.
    /// The other VLANs are as they were. The read VLAN holds nothing new, and
    /// has lost nothing if it was within the table's size.
    pub open spec fn after_lookup(before: Self, after: Self, vlan: u16) -> bool {
        &&& after.wf()
        &&& after.size() == before.size()
        &&& forall|other: u16| other != vlan ==> after.entries(other) == before.entries(other)
        &&& after.entries(vlan).submap_of(before.entries(vlan))
        &&& before.entries(vlan).len() <= before.size() ==> after.entries(vlan) == before.entries(
            vlan,
        )
    }

    /// Round trip: once `mac -> port` was written into `vlan`, a table of
    /// non-zero size answers a read of `mac` in `vlan` with `port`.
    pub proof fn lemma_update_then_lookup(
        before: Self,
        after: Self,
        vlan: u16,
        mac: Seq<u8>,
        port: PortNumber,
    )
        requires
            Self::after_update(before, after, vlan, mac, port),
            before.size() != 0,
        ensures
            after.entries(vlan).get(mac) == Some(port),
    {
    }

    /// A write teaches nothing about other addresses: one that `vlan` did not
    /// hold before a write of `mac` is not held after it.
    pub proof fn lemma_update_learns_one(
        before: Self,
        after: Self,
        vlan: u16,
        mac: Seq<u8>,
        port: PortNumber,
        unlearned: Seq<u8>,
    )
        requires
            Self::after_update(before, after, vlan, mac, port),
            unlearned != mac,
            before.entries(vlan).get(unlearned) is None,
        ensures
            after.entries(vlan).get(unlearned) is None,
    {
        if after.entries(vlan).contains_key(unlearned) {
            assert(before.entries(vlan).insert(mac, port).contains_key(unlearned));
        }
    }

    /// VLANs are learned apart: a write into `vlan` leaves the answers of
    /// every other VLAN as they were, also for the same address.
    pub proof fn lemma_update_keeps_other_vlans(
        before: Self,
        after: Self,
        vlan: u16,
        mac: Seq<u8>,
        port: PortNumber,
        other: u16,
        any_mac: Seq<u8>,
    )
        requires
            Self::after_update(before, after, vlan, mac, port),
            other != vlan,
        ensures
            after.entries(other).get(any_mac) == before.entries(other).get(any_mac),
    {
    }

    /// A read never teaches: what a table answers after a read in `vlan`, it
    /// answered before it.
    pub proof fn lemma_lookup_learns_nothing(
        before: Self,
        after: Self,
        vlan: u16,
        any_vlan: u16,
        any_mac: Seq<u8>,
    )
        requires
            Self::after_lookup(before, after, vlan),
        ensures
            after.entries(any_vlan).get(any_mac) is Some ==> after.entries(any_vlan).get(any_mac)
                == before.entries(any_vlan).get(any_mac),
    {
    }

    /// An empty table whose VLANs will each hold up to `size` addresses.
    pub fn new(size: u64) -> (table: Self)
        ensures
            table.wf(),
            table.size() == size,
            forall|vlan: u16| table.entries(vlan) == no_entries(),
    {
        FowardingTable { size, caches: HashMap::new() }
    }

    /// Records that `mac` is reachable through `port_number` within `vlan_id`,
    /// in place of what was known of `mac` there.
    pub fn update(&mut self, vlan_id: VlanId, mac: HwAddr, port_number: PortNumber)
        requires
            old(self).wf(),
        ensures
            Self::after_update(*old(self), *final(self), vlan_id@, mac@, port_number),
    {
        let size = self.size;
        let cache = match self.caches.entry(vlan_id.to_u16()) {
            Entry::Occupied(occupied) => occupied.into_mut(),
            Entry::Vacant(vacant) => vacant.insert(cache_with_limit(size)),
        };
        cache_insert(cache, mac, port_number);
    }

    /// The port that `mac` was last learned on within `vlan_id`, if the table
    /// still holds it. The read counts as a use of the entry, so the table is
    /// not left untouched.
    pub fn lookup(&mut self, vlan_id: VlanId, mac: HwAddr) -> (port: Option<PortNumber>)
        requires
            old(self).wf(),
        ensures
            port == old(self).entries(vlan_id@).get(mac@),
            Self::after_lookup(*old(self), *final(self), vlan_id@),
    {
        match self.caches.entry(vlan_id.to_u16()) {
            Entry::Occupied(occupied) => cache_get(occupied.into_mut(), &mac),
            Entry::Vacant(_) => None,
        }
    }
}

} // verus!
