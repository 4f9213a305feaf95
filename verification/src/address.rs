//! IPv4 addresses as four octets, and the fixed resolvers.

use crate::text::{decimal, decimal_text};
use vstd::prelude::*;
use vstd::string::*;

verus! {

/// The port every DNS query goes to.
pub const DNS_PORT: u16 = 53;

/// An IPv4 address, most significant octet first.
#[derive(Clone, Copy, Debug, PartialEq, Eq, Structural)]
pub struct Ipv4Address {
    pub a: u8,
    pub b: u8,
    pub c: u8,
    pub d: u8,
}

impl Ipv4Address {
    /// The address `a.b.c.d`.
    pub fn new(a: u8, b: u8, c: u8, d: u8) -> (addr: Ipv4Address)
        ensures
            addr == (Ipv4Address { a, b, c, d }),
    {
        Ipv4Address { a, b, c, d }
    }

    /// The dotted-quad notation of the address.
    pub open spec fn text(self) -> Seq<char> {
        decimal_text(self.a as nat) + "."@ + decimal_text(self.b as nat) + "."@ + decimal_text(
            self.c as nat,
        ) + "."@ + decimal_text(self.d as nat)
    }

    /// Writes the address in dotted-quad notation.
    pub fn to_text(&self) -> (s: String)
        ensures
            s@ == self.text(),
    {
        let mut s = decimal(self.a as u64);
        s.append(".");
        s.append(decimal(self.b as u64).as_str());
        s.append(".");
        s.append(decimal(self.c as u64).as_str());
        s.append(".");
        s.append(decimal(self.d as u64).as_str());
        s
    }
}

/// The public resolver that echoes the caller's own address: 208.67.222.222.
pub open spec fn echo_resolver_address() -> Ipv4Address {
    Ipv4Address { a: 208, b: 67, c: 222, d: 222 }
}

/// The resolver asked for the published record: 1.0.0.1.
pub open spec fn provider_resolver_address() -> Ipv4Address {
    Ipv4Address { a: 1, b: 0, c: 0, d: 1 }
}

/// The public resolver that echoes the caller's own address.
pub fn echo_resolver() -> (addr: Ipv4Address)
    ensures
        addr == echo_resolver_address(),
{
    Ipv4Address { a: 208, b: 67, c: 222, d: 222 }
}

/// The provider's own resolver, asked for the published record.
pub fn provider_resolver() -> (addr: Ipv4Address)
    ensures
        addr == provider_resolver_address(),
{
    Ipv4Address { a: 1, b: 0, c: 0, d: 1 }
}

} // verus!
