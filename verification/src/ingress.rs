//! Ingress: from the bytes that arrive on a port to an admitted frame with its
//! VLAN, or to nothing.

use crate::config::{Config, PortConfig, PortNumber};
use crate::error::SwitchrError;
use crate::frame::{parse, read_be16, Frame, ScopedFrame, ScopedFrameView, ETH_TYPE_DOT1Q};
use crate::vlan::{vlan_number, VlanId};
use std::rc::Rc;
use vstd::prelude::*;

verus! {

/// What a port configured as `port` makes of the bytes `data`: the frame and
/// its VLAN, which is the tag's or else the port's own; or nothing, where the
/// bytes are no frame or the port's policy rejects it.
pub open spec fn classify(port: PortConfig, data: Seq<u8>) -> Option<ScopedFrameView> {
    match parse(data) {
        Err(_) => None,
        Ok((dot1q, frame)) => if port.acceptable_frame_types.admits(dot1q is Some) {
            Some(
                ScopedFrameView {
                    vlan_id: match dot1q {
                        Some(vlan_id) => vlan_id,
                        None => port.pvid@,
                    },
                    frame,
                },
            )
        } else {
            None
        },
    }
}

/// The ingress side of a switch.
pub struct Ingress(Rc<Config>);

impl Ingress {
    /// The configuration that the ingress side goes by.
    pub closed spec fn config(&self) -> Config {
        *self.0
    }

    /// The ingress side of a switch configured as `config`.
    pub fn new(config: Rc<Config>) -> (ingress: Self)
        ensures
            ingress.config() == *config,
    {
        Ingress(config)
    }

    /// The number of ports that frames may arrive on.
    pub fn port_count(&self) -> (count: usize)
        ensures
            count == self.config().ports().len(),
            count > 0,
    {
        self.0.port_count()
    }

    /// Handles the bytes `data` that arrived on port `port_number`: parses
    /// them, applies the port's admission policy and settles the VLAN. Frames
    /// that are malformed or not admitted are dropped without an error.
    pub fn process(&self, port_number: PortNumber, data: Vec<u8>) -> (admitted: Option<ScopedFrame>)
        requires
            port_number < self.config().ports().len(),
        ensures
            match admitted {
                Some(scoped) => classify(self.config().ports()[port_number as int], data@) == Some(scoped@),
                None => classify(self.config().ports()[port_number as int], data@) is None,
            },
    {
        let port_config = self.0.port(port_number);
        let (dot1q, frame) = match Self::parse_frame(data) {
            Ok(parsed) => parsed,
            Err(_) => {
                return None;
            },
        };
        if !port_config.acceptable_frame_types.accepts(&dot1q) {
            return None;
        }
        let vlan_id = match dot1q {
            Some(vlan_id) => vlan_id,
            None => port_config.pvid,
        };
        Some(ScopedFrame { vlan_id, frame })
    }

    /// Splits the bytes of a frame into addresses, 802.1Q tag and the rest.
    ///
    /// Fails with a `ParseError` where the bytes end before the header does
    /// (`short_frame_message`) or the tag carries VLAN 0 (`null_vlan_message`).
    pub fn parse_frame(data: Vec<u8>) -> (parsed: Result<(Option<VlanId>, Frame), SwitchrError>)
        ensures
            match parsed {
                Ok((dot1q, frame)) => parse(data@) matches Ok(found) && found.0 == vlan_number(dot1q)
                    && found.1 == frame@,
                Err(error) => parse(data@) matches Err(reason) && error matches SwitchrError::ParseError(
                    text,
                ) && text@ == reason,
            },
    {
        let mut data = data;
        let ghost bytes = data@;
        if data.len() < 14 {
            return Err(SwitchrError::short_frame());
        }
        let dst = [data[0], data[1], data[2], data[3], data[4], data[5]];
        let src = [data[6], data[7], data[8], data[9], data[10], data[11]];
        assert(dst@ =~= bytes.subrange(0, 6));
        assert(src@ =~= bytes.subrange(6, 12));
        let eth_type = read_be16(data[12], data[13]);
        if eth_type != ETH_TYPE_DOT1Q {
            let rest = data.split_off(12);
            return Ok((None, Frame { dst, src, rest }));
        }
        if data.len() < 16 {
            return Err(SwitchrError::short_frame());
        }
        let tci = read_be16(data[14], data[15]);
        let vid: u16 = tci & 0x0fff;
        assert(vid < 4096) by (bit_vector)
            requires
                vid == tci & 0x0fff,
        ;
        match VlanId::new(vid) {
            Some(vlan_id) => {
                let rest = data.split_off(16);
                Ok((Some(vlan_id), Frame { dst, src, rest }))
            },
            None => Err(SwitchrError::null_vlan()),
        }
    }
}

} // verus!
