use switchr::{Config, ConfigBuilder, FrameTypes, PortConfig, SwitchrError, VlanConfig, VlanId};

fn ports(count: usize) -> Vec<PortConfig> {
    (0..count).map(|_| PortConfig::new(FrameTypes::All, VlanId::one())).collect()
}

fn bad_config(built: Result<Config, SwitchrError>) -> String {
    match built {
        Err(SwitchrError::BadConfig(text)) => text,
        Err(other) => panic!("another error: {:?}", other),
        Ok(_) => panic!("the configuration was accepted"),
    }
}

#[test]
fn builder_without_ports_fails() {
    let built = ConfigBuilder::new().build();
    assert_eq!(bad_config(built), "No ports provided");
}

#[test]
fn builder_with_an_empty_port_list_fails() {
    let built = ConfigBuilder::new()
        .with_ports(Vec::new())
        .with_vlan(VlanId::one(), VlanConfig::new(vec![], vec![]))
        .build();
    assert_eq!(bad_config(built), "No ports provided");
}

#[test]
fn builder_without_ports_fails_before_it_looks_at_vlans() {
    let built = ConfigBuilder::new()
        .with_vlan(VlanId::one(), VlanConfig::new(vec![3], vec![]))
        .build();
    assert_eq!(bad_config(built), "No ports provided");
}

#[test]
fn untagged_port_equal_to_the_port_count_fails() {
    let built = ConfigBuilder::new()
        .with_ports(ports(4))
        .with_vlan(VlanId::one(), VlanConfig::new(vec![0, 4], vec![]))
        .build();
    assert_eq!(bad_config(built), "Invalid port 4");
}

#[test]
fn tagged_port_equal_to_the_port_count_fails() {
    let built = ConfigBuilder::new()
        .with_ports(ports(2))
        .with_vlan(VlanId::one(), VlanConfig::new(vec![0, 1], vec![1, 2]))
        .build();
    assert_eq!(bad_config(built), "Invalid port 2");
}

#[test]
fn tagged_ports_are_checked_before_untagged_ones() {
    let built = ConfigBuilder::new()
        .with_ports(ports(1))
        .with_vlan(VlanId::one(), VlanConfig::new(vec![10], vec![20]))
        .build();
    assert_eq!(bad_config(built), "Invalid port 20");
}

#[test]
fn invalid_port_is_written_in_decimal() {
    for port in [1usize, 9, 10, 11, 99, 100, 101, 12345, 9_876_543_210, usize::MAX] {
        let built = ConfigBuilder::new()
            .with_ports(ports(1))
            .with_vlan(VlanId::one(), VlanConfig::new(vec![port], vec![]))
            .build();
        assert_eq!(bad_config(built), format!("Invalid port {}", port));
    }
}

#[test]
fn one_bad_vlan_among_good_ones_fails() {
    let built = ConfigBuilder::new()
        .with_ports(ports(3))
        .with_vlan(VlanId::new(10).unwrap(), VlanConfig::new(vec![0, 1], vec![2]))
        .with_vlan(VlanId::new(20).unwrap(), VlanConfig::new(vec![], vec![7]))
        .with_vlan(VlanId::new(30).unwrap(), VlanConfig::new(vec![2], vec![]))
        .build();
    assert_eq!(bad_config(built), "Invalid port 7");
}

#[test]
fn with_several_bad_ports_one_of_them_is_named() {
    let built = ConfigBuilder::new()
        .with_ports(ports(2))
        .with_vlan(VlanId::new(10).unwrap(), VlanConfig::new(vec![5], vec![]))
        .with_vlan(VlanId::new(20).unwrap(), VlanConfig::new(vec![6], vec![]))
        .build();
    let text = bad_config(built);
    assert!(text == "Invalid port 5" || text == "Invalid port 6", "{}", text);
}

#[test]
fn valid_configuration_builds() {
    let config = ConfigBuilder::new()
        .with_ports(ports(4))
        .with_vlan(VlanId::one(), VlanConfig::new(vec![0, 1, 2, 3], vec![]))
        .with_vlan(VlanId::new(3003).unwrap(), VlanConfig::new(vec![], vec![]))
        .build()
        .unwrap();
    assert_eq!(config.port_count(), 4);
}

#[test]
fn highest_port_may_be_referenced() {
    let config = ConfigBuilder::new()
        .with_ports(ports(4))
        .with_vlan(VlanId::one(), VlanConfig::new(vec![3], vec![3]))
        .build()
        .unwrap();
    let vlan = config.vlan(VlanId::one()).unwrap();
    assert_eq!(vlan.untagged_ports, vec![3]);
    assert_eq!(vlan.tagged_ports, vec![3]);
}

#[test]
fn configuration_without_vlans_builds() {
    let config = ConfigBuilder::new().with_ports(ports(1)).build().unwrap();
    assert_eq!(config.port_count(), 1);
    assert!(config.vlan(VlanId::one()).is_none());
}

#[test]
fn one_port_may_be_untagged_in_one_vlan_and_tagged_in_another() {
    let config = ConfigBuilder::new()
        .with_ports(ports(2))
        .with_vlan(VlanId::new(10).unwrap(), VlanConfig::new(vec![0], vec![1]))
        .with_vlan(VlanId::new(20).unwrap(), VlanConfig::new(vec![1], vec![0]))
        .build()
        .unwrap();
    assert_eq!(config.vlan(VlanId::new(10).unwrap()).unwrap().tagged_ports, vec![1]);
    assert_eq!(config.vlan(VlanId::new(20).unwrap()).unwrap().untagged_ports, vec![1]);
}

#[test]
fn built_configuration_keeps_ports_in_order() {
    let config = ConfigBuilder::new()
        .with_ports(vec![
            PortConfig::new(FrameTypes::Untagged, VlanId::one()),
            PortConfig::new(FrameTypes::Tagged, VlanId::new(1001).unwrap()),
            PortConfig::new(FrameTypes::All, VlanId::new(1002).unwrap()),
        ])
        .build()
        .unwrap();
    assert_eq!(config.port(0).acceptable_frame_types, FrameTypes::Untagged);
    assert_eq!(config.port(0).pvid, VlanId::one());
    assert_eq!(config.port(1).acceptable_frame_types, FrameTypes::Tagged);
    assert_eq!(config.port(1).pvid.to_u16(), 1001);
    assert_eq!(config.port(2).acceptable_frame_types, FrameTypes::All);
    assert_eq!(config.port(2).pvid.to_u16(), 1002);
}

#[test]
fn with_ports_replaces_earlier_ports() {
    let config = ConfigBuilder::new().with_ports(ports(5)).with_ports(ports(2)).build().unwrap();
    assert_eq!(config.port_count(), 2);
}

#[test]
fn with_vlan_replaces_an_earlier_configuration_of_the_vlan() {
    let config = ConfigBuilder::new()
        .with_ports(ports(2))
        .with_vlan(VlanId::one(), VlanConfig::new(vec![9], vec![]))
        .with_vlan(VlanId::one(), VlanConfig::new(vec![1], vec![0]))
        .build()
        .unwrap();
    let vlan = config.vlan(VlanId::one()).unwrap();
    assert_eq!(vlan.untagged_ports, vec![1]);
    assert_eq!(vlan.tagged_ports, vec![0]);
}

#[test]
fn error_message_is_the_text_it_carries() {
    assert_eq!(SwitchrError::BadConfig("No ports provided".to_string()).message(), "No ports provided");
    assert_eq!(SwitchrError::ParseError("Frame too short".to_string()).message(), "Frame too short");
    assert_eq!(SwitchrError::InvalidVlan.message(), "Invalid VLAN");
}
