//! VLAN identifiers.

use crate::error::SwitchrError;
use vstd::prelude::*;
use vstd::std_specs::convert::{TryFromSpec, TryFromSpecImpl};

verus! {

/// Whether `v` is a usable 802.1Q VLAN identifier: 12 bits, zero excluded.
pub open spec fn is_vlan_id(v: u16) -> bool {
    1 <= v <= 4095
}

/// A VLAN identifier, always in `1..=4095`.
#[derive(Debug, Eq, Hash, PartialEq, Clone, Copy, Structural)]
pub struct VlanId(u16);

impl View for VlanId {
    type V = u16;

    closed spec fn view(&self) -> u16 {
        self.0
    }
}

impl VlanId {
    #[verifier::type_invariant]
    spec fn in_range(self) -> bool {
        is_vlan_id(self.0)
    }

    /// Builds the identifier `vlan_id`, or nothing when it is out of range.
    pub fn new(vlan_id: u16) -> (r: Option<Self>)
        ensures
            r is Some <==> is_vlan_id(vlan_id),
            r matches Some(id) ==> id@ == vlan_id,
    {
        if vlan_id > 0 && vlan_id < 4096 {
            Some(VlanId(vlan_id))
        } else {
            None
        }
    }

    /// VLAN 1, the default VLAN of a port.
    pub fn one() -> (r: Self)
        ensures
            r@ == 1,
    {
        VlanId(1)
    }

    /// The identifier as a number.
    pub fn to_u16(&self) -> (r: u16)
        ensures
            r == self@,
            is_vlan_id(r),
    {
        proof {
            use_type_invariant(self);
        }
        self.0
    }
}

/// An identifier is its number: two with one number are the same.
pub proof fn lemma_number_tells_vlan(a: VlanId, b: VlanId)
    requires
        a@ == b@,
    ensures
        a == b,
{
}

/// The number of the VLAN `dot1q`, if there is one.
pub open spec fn vlan_number(dot1q: Option<VlanId>) -> Option<u16> {
    match dot1q {
        Some(vlan_id) => Some(vlan_id@),
        None => None,
    }
}

impl TryFrom<u16> for VlanId {
    type Error = SwitchrError;

    /// The identifier `value`, or `InvalidVlan` when it is out of range.
    fn try_from(value: u16) -> (r: Result<Self, SwitchrError>)
        ensures
            r is Ok <==> is_vlan_id(value),
            r matches Ok(id) ==> id@ == value,
            r matches Err(error) ==> error == SwitchrError::InvalidVlan,
    {
        match Self::new(value) {
            Some(id) => Ok(id),
            None => Err(SwitchrError::InvalidVlan),
        }
    }
}

impl TryFromSpecImpl<u16> for VlanId {
    open spec fn obeys_try_from_spec() -> bool {
        true
    }

    closed spec fn try_from_spec(value: u16) -> Result<Self, SwitchrError> {
        if is_vlan_id(value) {
            Ok(VlanId(value))
        } else {
            Err(SwitchrError::InvalidVlan)
        }
    }
}

/// What `try_from` makes of `value`: the identifier with that number where
/// `value` is one, else `InvalidVlan`.
pub proof fn lemma_try_from(value: u16)
    ensures
        match <VlanId as TryFromSpec<u16>>::try_from_spec(value) {
            Ok(id) => is_vlan_id(value) && id@ == value,
            Err(error) => !is_vlan_id(value) && error == SwitchrError::InvalidVlan,
        },
{
}

} // verus!
