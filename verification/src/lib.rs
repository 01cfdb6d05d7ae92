//! A software Ethernet switch with IEEE 802.1Q VLANs and MAC learning.
//!
//! The library decides; it does no I/O. A caller hands it the bytes that
//! arrived on a port and gets back the frames to put on the wire:
//!
//! - [`config`]: ports and VLANs, checked once by [`ConfigBuilder::build`];
//! - [`frame`]: the wire format, tagged and untagged, and its round trips;
//! - [`ingress`]: parsing, the port's admission policy, the frame's VLAN;
//! - [`table`]: the forwarding table, one bounded cache of learned addresses
//!   per VLAN, over [`cache`], which states what is trusted of the cache;
//! - [`egress`]: unicast or flood, and the form of the frame for each port;
//! - [`switch`]: ingress, learning and egress for one frame at a time.
//!
//! Every function is verified against its contract on all inputs, but for
//! the three in [`cache`] that call the cache: their contracts are taken on
//! trust. The contracts speak of frames as sequences of bytes and of the
//! table as a map per VLAN, so that what the switch does can be read off
//! them.

pub mod cache;
pub mod config;
pub mod egress;
pub mod error;
pub mod frame;
pub mod ingress;
pub mod switch;
pub mod table;
pub mod vlan;

pub use config::{
    AcceptableFrameTypes, Config, ConfigBuilder, FrameTypes, PortConfig, PortNumber, VlanConfig,
};
pub use egress::{Egress, Transmission};
pub use error::SwitchrError;
pub use frame::{Frame, HwAddr, ScopedFrame};
pub use ingress::Ingress;
pub use switch::Switch;
pub use table::FowardingTable;
pub use vlan::VlanId;
