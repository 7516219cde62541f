//! Addresses, and the network devices of sandboxes.

use vstd::prelude::*;
use vstd::string::*;

use crate::text::itoa_u64;

verus! {

/// An IPv4 address, most significant byte first.
#[derive(Clone, Copy, Debug, PartialEq, Eq, Structural)]
pub struct Ipv4Addr {
    pub a: u8,
    pub b: u8,
    pub c: u8,
    pub d: u8,
}

impl Ipv4Addr {
    /// The address `0.0.0.0`.
    pub open spec fn unspecified() -> Ipv4Addr {
        Ipv4Addr { a: 0, b: 0, c: 0, d: 0 }
    }

    /// The address whose bytes are those of `bits`.
    pub open spec fn of_bits(bits: u32) -> Ipv4Addr {
        Ipv4Addr {
            a: (bits / 0x100_0000) as u8,
            b: (bits / 0x1_0000 % 0x100) as u8,
            c: (bits / 0x100 % 0x100) as u8,
            d: (bits % 0x100) as u8,
        }
    }

    /// The address in dotted decimal.
    pub open spec fn text(self) -> Seq<char> {
        crate::text::decimal(self.a as nat) + "."@ + crate::text::decimal(self.b as nat) + "."@ + crate::text::decimal(self.c as nat)
            + "."@ + crate::text::decimal(self.d as nat)
    }

    pub fn from_bits(bits: u32) -> (r: Ipv4Addr)
        ensures
            r == Ipv4Addr::of_bits(bits),
    {
        Ipv4Addr {
            a: (bits / 0x100_0000) as u8,
            b: (bits / 0x1_0000 % 0x100) as u8,
            c: (bits / 0x100 % 0x100) as u8,
            d: (bits % 0x100) as u8,
        }
    }

    /// The address in dotted decimal.
    pub fn to_text(&self) -> (r: String)
        ensures
            r@ == self.text(),
    {
        let mut r = itoa_u64(self.a as u64);
        r.append(".");
        r.append(itoa_u64(self.b as u64).as_str());
        r.append(".");
        r.append(itoa_u64(self.c as u64).as_str());
        r.append(".");
        r.append(itoa_u64(self.d as u64).as_str());
        r
    }
}

/// A network device on the host that a sandbox is attached to; the sandbox goes by its name.
#[derive(Debug)]
pub struct TapInfo {
    pub name: String,
    /// The sandbox's address.
    pub ip_addr: Ipv4Addr,
    pub gateway: Ipv4Addr,
    pub prefix_len: u8,
}

impl Clone for TapInfo {
    fn clone(&self) -> (r: TapInfo)
        ensures
            r == *self,
    {
        TapInfo {
            name: self.name.clone(),
            ip_addr: self.ip_addr,
            gateway: self.gateway,
            prefix_len: self.prefix_len,
        }
    }
}

/// An address has all bits of the number that it is made from, the most significant byte first.
pub proof fn law_address_of_bits(bits: u32)
    ensures
        ({
            let addr = Ipv4Addr::of_bits(bits);
            bits == addr.a * 0x100_0000 + addr.b * 0x1_0000 + addr.c * 0x100 + addr.d
        }),
{
}

} // verus!
