use ros_tunnel::arguments::firewall::{Command, Disable, Pierce, Reset, SubCommand};
use ros_tunnel::firewall::{
    address_source, firewall, generate_pierce_commands, AddressFamily, AddressSource, HostAddress,
};

fn address(text: &str) -> HostAddress {
    HostAddress {
        family: if text.contains(':') { AddressFamily::V6 } else { AddressFamily::V4 },
        loopback: text == "::1" || text.starts_with("127."),
        text: text.to_string(),
    }
}

fn command(subcommand: SubCommand) -> Command {
    Command { hosts: None, project_root: None, subcommand }
}

#[test]
fn disable_and_reset() {
    assert_eq!(firewall(&command(SubCommand::Disable(Disable {})), &vec![]), "systemctl stop firewall");
    assert_eq!(
        firewall(&command(SubCommand::Reset(Reset {})), &vec![address("10.0.0.1")]),
        "systemctl restart firewall"
    );
}

#[test]
fn pierce_lists_every_address_but_loopback() {
    let addresses = vec![
        address("127.0.0.1"),
        address("192.168.1.20"),
        address("::1"),
        address("fe80::1"),
        address("10.0.0.7"),
    ];
    let expected = "iptables -I nixos-fw -s 192.168.1.20 -j nixos-fw-accept\n\
                    ip6tables -I nixos-fw -s fe80::1 -j nixos-fw-accept\n\
                    iptables -I nixos-fw -s 10.0.0.7 -j nixos-fw-accept\n";
    assert_eq!(generate_pierce_commands(&addresses), expected);
    assert_eq!(
        firewall(&command(SubCommand::Pierce(Pierce { host: vec![] })), &addresses),
        expected
    );
    assert_eq!(generate_pierce_commands(&vec![]), "");
    assert_eq!(generate_pierce_commands(&vec![address("127.0.0.1")]), "");
}

#[test]
fn addresses_come_from_the_hosts_named() {
    assert_eq!(address_source(&Pierce { host: vec![] }), AddressSource::LocalInterfaces);
    assert_eq!(
        address_source(&Pierce { host: vec!["robot.local".to_string()] }),
        AddressSource::NamedHosts
    );
}
