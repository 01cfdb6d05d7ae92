use std::rc::Rc;
use switchr::{ConfigBuilder, FrameTypes, Ingress, PortConfig, VlanId};

const UNTAGGED: &str = "003018051cc074563cffd2780800cafe";
const TAGGED: &str = "003018051cc074563cffd2788100000a0800cafe";

fn ingress() -> Ingress {
    let config = ConfigBuilder::new()
        .with_ports(vec![
            PortConfig::new(FrameTypes::All, VlanId::new(100).unwrap()),
            PortConfig::new(FrameTypes::Tagged, VlanId::new(200).unwrap()),
            PortConfig::new(FrameTypes::Untagged, VlanId::new(300).unwrap()),
        ])
        .build()
        .unwrap();
    Ingress::new(Rc::new(config))
}

fn scope(port_number: usize, frame: &str) -> Option<u16> {
    ingress().process(port_number, hex::decode(frame).unwrap()).map(|scoped| scoped.vlan_id.to_u16())
}

#[test]
fn policy_all_accepts_tagged_and_untagged() {
    let tag = VlanId::new(10);
    assert!(FrameTypes::All.accepts(&tag));
    assert!(FrameTypes::All.accepts(&None));
}

#[test]
fn policy_tagged_accepts_only_tagged() {
    let tag = VlanId::new(10);
    assert!(FrameTypes::Tagged.accepts(&tag));
    assert!(!FrameTypes::Tagged.accepts(&None));
}

#[test]
fn policy_untagged_accepts_only_untagged() {
    let tag = VlanId::new(10);
    assert!(!FrameTypes::Untagged.accepts(&tag));
    assert!(FrameTypes::Untagged.accepts(&None));
}

#[test]
fn port_for_all_frames_scopes_an_untagged_frame_to_its_pvid() {
    assert_eq!(scope(0, UNTAGGED), Some(100));
}

#[test]
fn port_for_all_frames_scopes_a_tagged_frame_to_its_tag() {
    assert_eq!(scope(0, TAGGED), Some(10));
}

#[test]
fn tagged_only_port_drops_an_untagged_frame() {
    assert_eq!(scope(1, UNTAGGED), None);
}

#[test]
fn tagged_only_port_scopes_a_tagged_frame_to_its_tag() {
    assert_eq!(scope(1, TAGGED), Some(10));
}

#[test]
fn untagged_only_port_scopes_an_untagged_frame_to_its_pvid() {
    assert_eq!(scope(2, UNTAGGED), Some(300));
}

#[test]
fn untagged_only_port_drops_a_tagged_frame() {
    assert_eq!(scope(2, TAGGED), None);
}

#[test]
fn malformed_frame_is_dropped_on_every_port() {
    for port_number in 0..3 {
        assert_eq!(scope(port_number, "003018051cc074563cffd278"), None);
        assert_eq!(scope(port_number, "003018051cc074563cffd2788100"), None);
        assert_eq!(scope(port_number, "003018051cc074563cffd278810000000800"), None);
    }
}

#[test]
fn admitted_frame_is_handed_on_without_its_tag() {
    let scoped = ingress().process(0, hex::decode(TAGGED).unwrap()).unwrap();
    assert_eq!(scoped.frame.dst, [0x00, 0x30, 0x18, 0x05, 0x1c, 0xc0]);
    assert_eq!(scoped.frame.src, [0x74, 0x56, 0x3c, 0xff, 0xd2, 0x78]);
    assert_eq!(scoped.frame.rest, hex::decode("0800cafe").unwrap());
}

#[test]
fn admitted_untagged_frame_keeps_its_payload() {
    let scoped = ingress().process(2, hex::decode(UNTAGGED).unwrap()).unwrap();
    assert_eq!(scoped.frame.rest, hex::decode("0800cafe").unwrap());
}

#[test]
fn ingress_knows_the_number_of_ports() {
    assert_eq!(ingress().port_count(), 3);
}

#[test]
fn policy_is_known_under_its_longer_name() {
    let tag = VlanId::new(10);
    assert!(switchr::AcceptableFrameTypes::Tagged.accepts(&tag));
    assert!(!switchr::AcceptableFrameTypes::Untagged.accepts(&tag));
    assert_eq!(switchr::AcceptableFrameTypes::All, FrameTypes::All);
}
