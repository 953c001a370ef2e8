//! Socket addresses as plain values.

use vstd::prelude::*;
use vstd::string::StringExecFns;

use crate::text::{decimal, hex4, push_char, push_decimal, push_hex4};

verus! {

/// The address of a peer's socket: an IPv4 or IPv6 address, as the integer
/// its octets spell in network order, and a port.
#[derive(Debug, Clone, Copy, PartialEq, Eq, Structural, Hash)]
#[allow(inconsistent_fields)]
pub enum SocketAddress {
    V4 { ip: u32, port: u16 },
    V6 { ip: u128, port: u16, flowinfo: u32, scope_id: u32 },
}

/// The last `n` octets of an IPv4 address in dotted decimal notation.
pub open spec fn octets_text(ip: nat, n: nat) -> Seq<char>
    decreases n,
{
    if n <= 1 {
        decimal(ip % 256)
    } else {
        octets_text(ip / 256, (n - 1) as nat).push('.') + decimal(ip % 256)
    }
}

/// The last `n` groups of an IPv6 address: four hexadecimal digits each,
/// with colons between them.
pub open spec fn groups_text(ip: nat, n: nat) -> Seq<char>
    decreases n,
{
    if n <= 1 {
        hex4((ip % 65536) as u16)
    } else {
        groups_text(ip / 65536, (n - 1) as nat).push(':') + hex4((ip % 65536) as u16)
    }
}

/// Appends the last `n` octets of an IPv4 address in dotted decimal notation.
fn push_octets(text: &mut String, ip: u32, n: u8)
    ensures
        final(text)@ == old(text)@ + octets_text(ip as nat, n as nat),
    decreases n,
{
    if n <= 1 {
        push_decimal(text, (ip % 256) as u64);
    } else {
        push_octets(text, ip / 256, n - 1);
        push_char(text, '.');
        push_decimal(text, (ip % 256) as u64);
        assert(text@ =~= old(text)@ + octets_text(ip as nat, n as nat));
    }
}

/// Appends the last `n` groups of an IPv6 address.
fn push_groups(text: &mut String, ip: u128, n: u8)
    ensures
        final(text)@ == old(text)@ + groups_text(ip as nat, n as nat),
    decreases n,
{
    if n <= 1 {
        push_hex4(text, (ip % 65536) as u16);
    } else {
        push_groups(text, ip / 65536, n - 1);
        push_char(text, ':');
        push_hex4(text, (ip % 65536) as u16);
        assert(text@ =~= old(text)@ + groups_text(ip as nat, n as nat));
    }
}

impl SocketAddress {
    /// The text shown for an address: `a.b.c.d:port` for IPv4, and for IPv6
    /// the eight groups in full between square brackets, then the port.
    pub open spec fn text(&self) -> Seq<char> {
        match *self {
            SocketAddress::V4 { ip, port } => octets_text(ip as nat, 4).push(':') + decimal(
                port as nat,
            ),
            SocketAddress::V6 { ip, port, .. } => (seq!['['] + groups_text(ip as nat, 8)).push(
                ']',
            ).push(':') + decimal(port as nat),
        }
    }

    /// The text shown for this address.
    pub fn to_text(&self) -> (text: String)
        ensures
            text@ == self.text(),
    {
        let mut text = String::new();
        self.write_to(&mut text);
        assert(text@ =~= self.text());
        text
    }

    /// Appends the text shown for this address.
    pub fn write_to(&self, text: &mut String)
        ensures
            final(text)@ == old(text)@ + self.text(),
    {
        match *self {
            SocketAddress::V4 { ip, port } => {
                push_octets(text, ip, 4);
                push_char(text, ':');
                push_decimal(text, port as u64);
            },
            SocketAddress::V6 { ip, port, .. } => {
                push_char(text, '[');
                push_groups(text, ip, 8);
                push_char(text, ']');
                push_char(text, ':');
                push_decimal(text, port as u64);
            },
        }
        assert(text@ =~= old(text)@ + self.text());
    }

    pub open spec fn spec_port(&self) -> u16 {
        match *self {
            SocketAddress::V4 { port, .. } => port,
            SocketAddress::V6 { port, .. } => port,
        }
    }

    pub fn port(&self) -> (p: u16)
        ensures
            p == self.spec_port(),
    {
        match *self {
            SocketAddress::V4 { port, .. } => port,
            SocketAddress::V6 { port, .. } => port,
        }
    }

    pub fn is_ipv4(&self) -> (b: bool)
        ensures
            b == (*self is V4),
    {
        match *self {
            SocketAddress::V4 { .. } => true,
            SocketAddress::V6 { .. } => false,
        }
    }
}

} // verus!
