use switchr::{ConfigBuilder, FrameTypes, PortConfig, Switch, Transmission, VlanConfig, VlanId};

const AA: &str = "aaaaaaaaaaaa";
const BB: &str = "bbbbbbbbbbbb";
const BROADCAST: &str = "ffffffffffff";

fn vlan(id: u16) -> VlanId {
    VlanId::new(id).unwrap()
}

// Four ports; VLAN 1 is untagged on all of them.
fn flat_switch() -> Switch {
    let config = ConfigBuilder::new()
        .with_ports((0..4).map(|_| PortConfig::new(FrameTypes::All, VlanId::one())).collect())
        .with_vlan(VlanId::one(), VlanConfig::new(vec![0, 1, 2, 3], vec![]))
        .build()
        .unwrap();
    Switch::new(config)
}

// Port 0 is a trunk; ports 1 to 3 are access ports of VLANs 1001 to 1003.
fn trunk_switch() -> Switch {
    let config = ConfigBuilder::new()
        .with_ports(vec![
            PortConfig::new(FrameTypes::Tagged, VlanId::one()),
            PortConfig::new(FrameTypes::Untagged, vlan(1001)),
            PortConfig::new(FrameTypes::All, vlan(1002)),
            PortConfig::new(FrameTypes::Untagged, vlan(1003)),
        ])
        .with_vlan(VlanId::one(), VlanConfig::new(vec![], vec![0]))
        .with_vlan(vlan(1001), VlanConfig::new(vec![1], vec![0]))
        .with_vlan(vlan(1002), VlanConfig::new(vec![2], vec![0]))
        .with_vlan(vlan(1003), VlanConfig::new(vec![3], vec![0]))
        .build()
        .unwrap();
    Switch::new(config)
}

fn untagged(dst: &str, src: &str) -> Vec<u8> {
    hex::decode(format!("{}{}0800cafe", dst, src)).unwrap()
}

fn tagged(dst: &str, src: &str, tci: &str) -> Vec<u8> {
    hex::decode(format!("{}{}8100{}0800cafe", dst, src, tci)).unwrap()
}

fn ports(sent: &[Transmission]) -> Vec<usize> {
    sent.iter().map(|transmission| transmission.port_number).collect()
}

#[test]
fn learned_source_is_reached_by_unicast() {
    let mut switch = flat_switch();
    switch.forward(1, untagged(BB, AA));
    let sent = switch.forward(0, untagged(AA, BB));
    assert_eq!(sent, vec![Transmission { port_number: 1, data: untagged(AA, BB) }]);
}

#[test]
fn unknown_destination_is_flooded_untagged() {
    let mut switch = flat_switch();
    let sent = switch.forward(0, untagged(BROADCAST, AA));
    assert_eq!(ports(&sent), vec![0, 1, 2, 3]);
    for transmission in &sent {
        assert_eq!(transmission.data, untagged(BROADCAST, AA));
    }
}

#[test]
fn flood_reaches_the_port_that_the_frame_came_in_on() {
    let mut switch = flat_switch();
    let sent = switch.forward(2, untagged(BROADCAST, AA));
    assert!(ports(&sent).contains(&2));
}

#[test]
fn unicast_may_go_back_out_of_the_port_that_the_frame_came_in_on() {
    let mut switch = flat_switch();
    switch.forward(1, untagged(BROADCAST, AA));
    let sent = switch.forward(1, untagged(AA, BB));
    assert_eq!(ports(&sent), vec![1]);
}

#[test]
fn frame_to_its_own_source_comes_back() {
    let mut switch = flat_switch();
    let sent = switch.forward(3, untagged(AA, AA));
    assert_eq!(ports(&sent), vec![3]);
}

#[test]
fn source_that_moved_is_reached_on_its_new_port() {
    let mut switch = flat_switch();
    switch.forward(1, untagged(BROADCAST, AA));
    switch.forward(2, untagged(BROADCAST, AA));
    let sent = switch.forward(0, untagged(AA, BB));
    assert_eq!(ports(&sent), vec![2]);
}

#[test]
fn broadcast_keeps_flooding_after_learning() {
    let mut switch = flat_switch();
    switch.forward(1, untagged(BROADCAST, AA));
    switch.forward(0, untagged(AA, BB));
    let sent = switch.forward(1, untagged(BROADCAST, AA));
    assert_eq!(ports(&sent), vec![0, 1, 2, 3]);
}

#[test]
fn malformed_frame_sends_nothing_and_teaches_nothing() {
    let mut switch = flat_switch();
    assert_eq!(switch.forward(1, hex::decode("ffffffffffffaaaaaaaaaaaa").unwrap()), vec![]);
    let sent = switch.forward(0, untagged(AA, BB));
    assert_eq!(ports(&sent), vec![0, 1, 2, 3]);
}

#[test]
fn rejected_frame_sends_nothing_and_teaches_nothing() {
    let mut switch = trunk_switch();
    assert_eq!(switch.forward(1, tagged(BROADCAST, AA, "03e9")), vec![]);
    assert_eq!(switch.forward(0, untagged(BROADCAST, AA)), vec![]);
    let sent = switch.forward(0, tagged(AA, BB, "03e9"));
    assert_eq!(ports(&sent), vec![1, 0]);
}

#[test]
fn frame_of_an_unconfigured_vlan_is_dropped() {
    let mut switch = trunk_switch();
    assert_eq!(switch.forward(0, tagged(BROADCAST, AA, "0bbb")), vec![]);
}

#[test]
fn frame_of_an_unconfigured_vlan_teaches_no_other_vlan() {
    let config = ConfigBuilder::new()
        .with_ports(vec![
            PortConfig::new(FrameTypes::All, vlan(7)),
            PortConfig::new(FrameTypes::All, VlanId::one()),
        ])
        .with_vlan(VlanId::one(), VlanConfig::new(vec![0, 1], vec![]))
        .build()
        .unwrap();
    let mut switch = Switch::new(config);
    assert_eq!(switch.forward(0, untagged(BROADCAST, AA)), vec![]);
    assert_eq!(ports(&switch.forward(1, untagged(AA, BB))), vec![0, 1]);
}

#[test]
fn access_frame_leaves_the_trunk_tagged() {
    let mut switch = trunk_switch();
    let sent = switch.forward(1, untagged(BROADCAST, AA));
    assert_eq!(
        sent,
        vec![
            Transmission { port_number: 1, data: untagged(BROADCAST, AA) },
            Transmission { port_number: 0, data: tagged(BROADCAST, AA, "03e9") },
        ]
    );
}

#[test]
fn trunk_frame_leaves_the_access_port_untagged() {
    let mut switch = trunk_switch();
    switch.forward(3, untagged(BROADCAST, BB));
    let sent = switch.forward(0, tagged(BB, AA, "03eb"));
    assert_eq!(sent, vec![Transmission { port_number: 3, data: untagged(BB, AA) }]);
}

#[test]
fn priority_bits_of_a_tag_are_not_passed_on() {
    let mut switch = trunk_switch();
    let sent = switch.forward(0, tagged(BROADCAST, AA, "a3ea"));
    assert_eq!(
        sent,
        vec![
            Transmission { port_number: 2, data: untagged(BROADCAST, AA) },
            Transmission { port_number: 0, data: tagged(BROADCAST, AA, "03ea") },
        ]
    );
}

#[test]
fn vlans_learn_apart() {
    let mut switch = trunk_switch();
    switch.forward(1, untagged(BROADCAST, AA));
    let sent = switch.forward(0, tagged(AA, BB, "03ea"));
    assert_eq!(ports(&sent), vec![2, 0]);
    let sent = switch.forward(0, tagged(AA, BB, "03e9"));
    assert_eq!(ports(&sent), vec![1]);
}

#[test]
fn switch_knows_the_number_of_its_ports() {
    assert_eq!(flat_switch().port_count(), 4);
    assert_eq!(trunk_switch().port_count(), 4);
}
