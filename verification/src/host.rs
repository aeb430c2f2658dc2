//! The target of a connection: a host name or an IP address, identity
//! only. Addresses are held as plain numeric groups, and their textual
//! rendering is specified exactly.

use crate::text::{dec_digits, hex_digits, push_decimal, push_hex};
use vstd::prelude::*;

verus! {

/// An IP address as plain values: four octets, or eight 16-bit groups.
#[derive(Clone, Copy, Debug, PartialEq, Eq, Hash)]
pub enum IpAddress {
    V4(u8, u8, u8, u8),
    V6(u16, u16, u16, u16, u16, u16, u16, u16),
}

/// Where to connect: a name to be resolved, or a literal address.
#[derive(Clone, Debug, PartialEq, Eq, Hash)]
pub enum Host {
    Hostname(String),
    IpAddress(IpAddress),
}

/// The dotted-decimal or colon-separated rendering of an address. V6
/// groups are lowercase hexadecimal without leading zeros and without
/// zero-run compression.
pub open spec fn ip_text(ip: IpAddress) -> Seq<char> {
    match ip {
        IpAddress::V4(a, b, c, d) => dec_digits(a as nat) + seq!['.'] + dec_digits(b as nat)
            + seq!['.'] + dec_digits(c as nat) + seq!['.'] + dec_digits(d as nat),
        IpAddress::V6(g0, g1, g2, g3, g4, g5, g6, g7) => hex_digits(g0 as nat) + seq![':']
            + hex_digits(g1 as nat) + seq![':'] + hex_digits(g2 as nat) + seq![':'] + hex_digits(
            g3 as nat,
        ) + seq![':'] + hex_digits(g4 as nat) + seq![':'] + hex_digits(g5 as nat) + seq![':']
            + hex_digits(g6 as nat) + seq![':'] + hex_digits(g7 as nat),
    }
}

/// The textual form of a host: the name itself, or the address rendering.
pub open spec fn host_text(h: Host) -> Seq<char> {
    match h {
        Host::Hostname(s) => s@,
        Host::IpAddress(ip) => ip_text(ip),
    }
}

/// The `host:port` form handed to the transport dialer.
pub open spec fn address_text(h: Host, port: nat) -> Seq<char> {
    host_text(h) + seq![':'] + dec_digits(port)
}

impl IpAddress {
    /// Renders the address as text.
    pub fn to_text(&self) -> (r: String)
        ensures
            r@ == ip_text(*self),
    {
        proof {
            reveal_strlit(".");
            reveal_strlit(":");
        }
        let mut out = String::new();
        match self {
            IpAddress::V4(a, b, c, d) => {
                push_decimal(&mut out, *a as usize);
                out.append(".");
                push_decimal(&mut out, *b as usize);
                out.append(".");
                push_decimal(&mut out, *c as usize);
                out.append(".");
                push_decimal(&mut out, *d as usize);
            },
            IpAddress::V6(g0, g1, g2, g3, g4, g5, g6, g7) => {
                push_hex(&mut out, *g0);
                out.append(":");
                push_hex(&mut out, *g1);
                out.append(":");
                push_hex(&mut out, *g2);
                out.append(":");
                push_hex(&mut out, *g3);
                out.append(":");
                push_hex(&mut out, *g4);
                out.append(":");
                push_hex(&mut out, *g5);
                out.append(":");
                push_hex(&mut out, *g6);
                out.append(":");
                push_hex(&mut out, *g7);
            },
        }
        proof {
            assert("."@ =~= seq!['.']);
            assert(":"@ =~= seq![':']);
            assert(out@ =~= ip_text(*self));
        }
        out
    }
}

impl Host {
    /// Renders the host as text: the name, or the address.
    pub fn to_text(&self) -> (r: String)
        ensures
            r@ == host_text(*self),
    {
        match self {
            Host::Hostname(s) => s.clone(),
            Host::IpAddress(ip) => ip.to_text(),
        }
    }
}

} // verus!
