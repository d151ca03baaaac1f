use commander::inventory::ExecOutcome;
use commander::network::{
    interfaces_from_outcome, networks_from_outcome, parse_bridge_interfaces,
    parse_network_listing,
};

#[test]
fn network_listing_filters_and_splits() {
    let text = "bridge\tabc123def456\tbridge\n\
                host\t111222333444\thost\n\
                snort_net\t555666777888\tbridge\n";
    let nets = parse_network_listing(text);
    assert_eq!(nets.len(), 2);
    assert_eq!(nets[0].name, "bridge");
    assert_eq!(nets[0].id, "abc123def456");
    assert_eq!(nets[0].driver, "bridge");
    assert_eq!(nets[1].name, "snort_net");
}

#[test]
fn lab_named_network_is_kept_whatever_its_driver() {
    let nets = parse_network_listing("zeek_net\taaa\tmacvlan");
    assert_eq!(nets.len(), 1);
    assert_eq!(nets[0].driver, "macvlan");
}

#[test]
fn failed_network_listing_degrades_to_empty() {
    let outcome = ExecOutcome::Failed { error: "cannot connect".to_string() };
    assert!(networks_from_outcome(&outcome).is_empty());
}

#[test]
fn bridge_interfaces_capture_first_inet_line() {
    let text = "\
1: lo: <LOOPBACK,UP,LOWER_UP> mtu 65536\n\
    inet 127.0.0.1/8 scope host lo\n\
4: docker0: <NO-CARRIER,BROADCAST,MULTICAST,UP> mtu 1500\n\
    inet 172.17.0.1/16 brd 172.17.255.255 scope global docker0\n\
5: br-1a2b3c4d@if6: <BROADCAST,MULTICAST,UP> mtu 1500\n\
    inet 172.28.0.1/24 brd 172.28.0.255 scope global br-1a2b3c4d\n\
    inet 172.28.0.2/24 brd 172.28.0.255 scope global secondary br-1a2b3c4d\n";
    let interfaces = parse_bridge_interfaces(text);
    assert_eq!(interfaces.len(), 2);
    assert_eq!(interfaces[0].name, "docker0");
    assert_eq!(interfaces[0].cidr, "172.17.0.1/16");
    // The '@' peer suffix is cut off, and only the first address is kept.
    assert_eq!(interfaces[1].name, "br-1a2b3c4d");
    assert_eq!(interfaces[1].cidr, "172.28.0.1/24");
}

#[test]
fn inet_line_without_tracked_interface_is_ignored() {
    let text = "2: eth0: <BROADCAST> mtu 1500\n    inet 10.0.0.2/24 scope global eth0\n";
    assert!(parse_bridge_interfaces(text).is_empty());
}

#[test]
fn failed_interface_listing_degrades_to_empty() {
    let outcome = ExecOutcome::Failed { error: "exec not found".to_string() };
    assert!(interfaces_from_outcome(&outcome).is_empty());
}
