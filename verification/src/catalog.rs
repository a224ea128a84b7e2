//! Static catalog of well-known ports, keyed by transport protocol.
//!
//! The catalog is read-only data: for each protocol a list of common
//! ports, and for each (protocol, port) pair a service name, empty when
//! the catalog has no entry for that pair.

use vstd::prelude::*;

verus! {

/// The transport semantics under which a port is probed.
#[derive(Clone, Copy, Debug, PartialEq, Eq, Structural)]
pub enum TransportProtocol {
    Tcp,
    Udp,
    Sctp,
    Unspecified,
}

/// The common TCP ports of the catalog, in catalog order.
pub open spec fn tcp_ports_spec() -> Seq<u16> {
    seq![21u16, 22u16, 23u16, 25u16, 53u16, 80u16, 110u16, 143u16, 443u16, 993u16, 3306u16,
        5060u16, 5432u16, 6379u16, 8080u16]
}

/// The common UDP ports of the catalog, in catalog order.
pub open spec fn udp_ports_spec() -> Seq<u16> {
    seq![53u16, 67u16, 69u16, 123u16, 161u16, 500u16, 514u16, 1900u16]
}

/// The common SCTP ports of the catalog, in catalog order.
pub open spec fn sctp_ports_spec() -> Seq<u16> {
    seq![2905u16, 3868u16, 5060u16, 9899u16, 36412u16]
}

/// The port table of one protocol; the sentinel `Unspecified` owns no
/// table of its own.
pub open spec fn catalog_ports_spec(protocol: TransportProtocol) -> Seq<u16> {
    match protocol {
        TransportProtocol::Tcp => tcp_ports_spec(),
        TransportProtocol::Udp => udp_ports_spec(),
        TransportProtocol::Sctp => sctp_ports_spec(),
        TransportProtocol::Unspecified => Seq::<u16>::empty(),
    }
}

/// The common ports of one protocol as a vector, in catalog order.
pub fn catalog_ports(protocol: TransportProtocol) -> (r: Vec<u16>)
    ensures
        r@ == catalog_ports_spec(protocol),
{
    let mut v: Vec<u16> = Vec::new();
    match protocol {
        TransportProtocol::Tcp => {
            v.push(21);
            v.push(22);
            v.push(23);
            v.push(25);
            v.push(53);
            v.push(80);
            v.push(110);
            v.push(143);
            v.push(443);
            v.push(993);
            v.push(3306);
            v.push(5060);
            v.push(5432);
            v.push(6379);
            v.push(8080);
            assert(v@ =~= tcp_ports_spec());
        },
        TransportProtocol::Udp => {
            v.push(53);
            v.push(67);
            v.push(69);
            v.push(123);
            v.push(161);
            v.push(500);
            v.push(514);
            v.push(1900);
            assert(v@ =~= udp_ports_spec());
        },
        TransportProtocol::Sctp => {
            v.push(2905);
            v.push(3868);
            v.push(5060);
            v.push(9899);
            v.push(36412);
            assert(v@ =~= sctp_ports_spec());
        },
        TransportProtocol::Unspecified => {
            assert(v@ =~= Seq::<u16>::empty());
        },
    }
    v
}

/// The TCP service name of a port, empty when the catalog has no entry.
pub open spec fn tcp_service_spec(port: u16) -> Seq<char> {
    if port == 21 {
        "ftp"@
    } else if port == 22 {
        "ssh"@
    } else if port == 23 {
        "telnet"@
    } else if port == 25 {
        "smtp"@
    } else if port == 53 {
        "domain"@
    } else if port == 80 {
        "http"@
    } else if port == 110 {
        "pop3"@
    } else if port == 143 {
        "imap"@
    } else if port == 443 {
        "https"@
    } else if port == 993 {
        "imaps"@
    } else if port == 3306 {
        "mysql"@
    } else if port == 5060 {
        "sip"@
    } else if port == 5432 {
        "postgresql"@
    } else if port == 6379 {
        "redis"@
    } else if port == 8080 {
        "http-alt"@
    } else {
        ""@
    }
}

/// The UDP service name of a port, empty when the catalog has no entry.
pub open spec fn udp_service_spec(port: u16) -> Seq<char> {
    if port == 53 {
        "domain"@
    } else if port == 67 {
        "dhcps"@
    } else if port == 69 {
        "tftp"@
    } else if port == 123 {
        "ntp"@
    } else if port == 161 {
        "snmp"@
    } else if port == 500 {
        "isakmp"@
    } else if port == 514 {
        "syslog"@
    } else if port == 1900 {
        "ssdp"@
    } else {
        ""@
    }
}

/// The SCTP service name of a port, empty when the catalog has no entry.
pub open spec fn sctp_service_spec(port: u16) -> Seq<char> {
    if port == 2905 {
        "m3ua"@
    } else if port == 3868 {
        "diameter"@
    } else if port == 5060 {
        "sip"@
    } else if port == 9899 {
        "sctp-tunneling"@
    } else if port == 36412 {
        "s1ap"@
    } else {
        ""@
    }
}

/// The service name shown for a (protocol, port) pair. A scan without a
/// protocol probes the merged catalogs, so its lookup takes the first
/// entry in merge order: SCTP, then TCP, then UDP.
pub open spec fn service_name_spec(protocol: TransportProtocol, port: u16) -> Seq<char> {
    match protocol {
        TransportProtocol::Tcp => tcp_service_spec(port),
        TransportProtocol::Udp => udp_service_spec(port),
        TransportProtocol::Sctp => sctp_service_spec(port),
        TransportProtocol::Unspecified => {
            if sctp_service_spec(port).len() > 0 {
                sctp_service_spec(port)
            } else if tcp_service_spec(port).len() > 0 {
                tcp_service_spec(port)
            } else {
                udp_service_spec(port)
            }
        },
    }
}

fn tcp_service(port: u16) -> (r: &'static str)
    ensures
        r@ == tcp_service_spec(port),
{
    match port {
        21 => "ftp",
        22 => "ssh",
        23 => "telnet",
        25 => "smtp",
        53 => "domain",
        80 => "http",
        110 => "pop3",
        143 => "imap",
        443 => "https",
        993 => "imaps",
        3306 => "mysql",
        5060 => "sip",
        5432 => "postgresql",
        6379 => "redis",
        8080 => "http-alt",
        _ => "",
    }
}

fn udp_service(port: u16) -> (r: &'static str)
    ensures
        r@ == udp_service_spec(port),
{
    match port {
        53 => "domain",
        67 => "dhcps",
        69 => "tftp",
        123 => "ntp",
        161 => "snmp",
        500 => "isakmp",
        514 => "syslog",
        1900 => "ssdp",
        _ => "",
    }
}

fn sctp_service(port: u16) -> (r: &'static str)
    ensures
        r@ == sctp_service_spec(port),
{
    match port {
        2905 => "m3ua",
        3868 => "diameter",
        5060 => "sip",
        9899 => "sctp-tunneling",
        36412 => "s1ap",
        _ => "",
    }
}

/// Looks a (protocol, port) pair up in the catalog; the empty string
/// says that the catalog has no entry for the pair.
pub fn service_name(protocol: TransportProtocol, port: u16) -> (r: &'static str)
    ensures
        r@ == service_name_spec(protocol, port),
{
    match protocol {
        TransportProtocol::Tcp => tcp_service(port),
        TransportProtocol::Udp => udp_service(port),
        TransportProtocol::Sctp => sctp_service(port),
        TransportProtocol::Unspecified => {
            let s = sctp_service(port);
            if !s.is_empty() {
                return s;
            }
            let t = tcp_service(port);
            if !t.is_empty() {
                return t;
            }
            udp_service(port)
        },
    }
}

} // verus!
