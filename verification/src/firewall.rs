//! What is run on a host to manage its firewall.

use vstd::prelude::*;
use vstd::string::*;
use crate::arguments::firewall::{Command, Pierce, SubCommand};

verus! {

/// The family of an IP address.
#[derive(Debug, Clone, Copy, PartialEq, Eq)]
pub enum AddressFamily {
    V4,
    V6,
}

/// An IP address that a firewall may be opened to.
#[derive(Debug, Clone, PartialEq, Eq)]
pub struct HostAddress {
    pub family: AddressFamily,
    /// Whether the address is a loopback address.
    pub loopback: bool,
    /// The address as it is written.
    pub text: String,
}

/// Where the addresses to open a firewall to come from.
#[derive(Debug, Clone, Copy, PartialEq, Eq)]
pub enum AddressSource {
    /// The network interfaces of this computer.
    LocalInterfaces,
    /// What the hosts named on the command line resolve to, in their order.
    NamedHosts,
}

/// The line that lets `address` through the firewall.
pub open spec fn pierce_line(address: HostAddress) -> Seq<char> {
    (match address.family {
        AddressFamily::V4 => "iptables"@,
        AddressFamily::V6 => "ip6tables"@,
    }) + " -I nixos-fw -s "@ + address.text@ + " -j nixos-fw-accept\n"@
}

/// The lines that let `addresses` through the firewall, one for each address
/// in order; loopback addresses are left out.
pub open spec fn pierce_commands(addresses: Seq<HostAddress>) -> Seq<char>
    decreases addresses.len(),
{
    if addresses.len() == 0 {
        Seq::empty()
    } else if addresses.last().loopback {
        pierce_commands(addresses.drop_last())
    } else {
        pierce_commands(addresses.drop_last()) + pierce_line(addresses.last())
    }
}

/// What is run on each host for `subcommand`.
pub open spec fn firewall_command(subcommand: SubCommand, addresses: Seq<HostAddress>) -> Seq<
    char,
> {
    match subcommand {
        SubCommand::Disable(_) => "systemctl stop firewall"@,
        SubCommand::Reset(_) => "systemctl restart firewall"@,
        SubCommand::Pierce(_) => pierce_commands(addresses),
    }
}

/// Where the addresses for `command` come from: the given hosts, or this
/// computer's own interfaces where none is given.
pub fn address_source(command: &Pierce) -> (source: AddressSource)
    ensures
        source == (if command.host@.len() == 0 {
            AddressSource::LocalInterfaces
        } else {
            AddressSource::NamedHosts
        }),
{
    if command.host.len() == 0 {
        AddressSource::LocalInterfaces
    } else {
        AddressSource::NamedHosts
    }
}

/// The commands that open the firewall of a host to `addresses`.
pub fn generate_pierce_commands(addresses: &Vec<HostAddress>) -> (command: String)
    ensures
        command@ == pierce_commands(addresses@),
{
    let mut command = String::new();
    let mut i: usize = 0;
    assert(addresses@.take(0) =~= Seq::<HostAddress>::empty());
    while i < addresses.len()
        invariant
            i <= addresses.len(),
            command@ == pierce_commands(addresses@.take(i as int)),
        decreases addresses.len() - i,
    {
        let address = &addresses[i];
        proof {
            assert(addresses@.take(i + 1).drop_last() =~= addresses@.take(i as int));
            assert(addresses@.take(i + 1).last() == *address);
        }
        let ghost before = command@;
        if !address.loopback {
            match address.family {
                AddressFamily::V4 => command.append("iptables"),
                AddressFamily::V6 => command.append("ip6tables"),
            }
            command.append(" -I nixos-fw -s ");
            command.append(address.text.as_str());
            command.append(" -j nixos-fw-accept\n");
            assert(command@ =~= before + pierce_line(*address));
        }
        i = i + 1;
    }
    assert(addresses@.take(i as int) =~= addresses@);
    command
}

/// What is run on each host of the project for `args`. `addresses` are the
/// addresses that [`address_source`] stands for; they count only where a
/// firewall is pierced.
pub fn firewall(args: &Command, addresses: &Vec<HostAddress>) -> (command: String)
    ensures
        command@ == firewall_command(args.subcommand, addresses@),
{
    match &args.subcommand {
        SubCommand::Disable(_) => "systemctl stop firewall".to_owned(),
        SubCommand::Reset(_) => "systemctl restart firewall".to_owned(),
        SubCommand::Pierce(_) => generate_pierce_commands(addresses),
    }
}

} // verus!
