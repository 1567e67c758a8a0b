//! Internet addresses as bound values: four octets, or sixteen.

use vstd::prelude::*;
use crate::column::{payload, ColumnDecoder};
use crate::decoder::FrameError;
use crate::encoder::{cell_of, ColumnEncoder, BE_16_BYTES_LEN, BE_4_BYTES_LEN};

verus! {

/// An IPv4 address: its four octets in network order.
#[derive(Clone, Copy, Debug, PartialEq, Eq)]
pub struct Ipv4Addr {
    pub octets: [u8; 4],
}

/// An IPv6 address: its sixteen octets in network order.
#[derive(Clone, Copy, Debug, PartialEq, Eq)]
pub struct Ipv6Addr {
    pub octets: [u8; 16],
}

/// An address of either family.
#[derive(Clone, Copy, Debug, PartialEq, Eq)]
pub enum IpAddr {
    V4(Ipv4Addr),
    V6(Ipv6Addr),
}

impl Ipv4Addr {
    /// The address `a.b.c.d`.
    pub fn new(a: u8, b: u8, c: u8, d: u8) -> (address: Ipv4Addr)
        ensures
            address.octets@ == seq![a, b, c, d],
    {
        let address = Ipv4Addr { octets: [a, b, c, d] };
        assert(address.octets@ =~= seq![a, b, c, d]);
        address
    }

    /// The four octets of the address.
    pub fn octets(&self) -> (octets: [u8; 4])
        ensures
            octets == self.octets,
    {
        self.octets
    }
}

impl Ipv6Addr {
    /// The address with the given sixteen octets.
    pub fn new(octets: [u8; 16]) -> (address: Ipv6Addr)
        ensures
            address.octets == octets,
    {
        Ipv6Addr { octets }
    }

    /// The sixteen octets of the address.
    pub fn octets(&self) -> (octets: [u8; 16])
        ensures
            octets == self.octets,
    {
        self.octets
    }
}

impl IpAddr {
    /// The octets of the address: four or sixteen.
    pub open spec fn spec_octets(&self) -> Seq<u8> {
        match self {
            IpAddr::V4(ip) => ip.octets@,
            IpAddr::V6(ip) => ip.octets@,
        }
    }
}

impl ColumnEncoder for Ipv4Addr {
    open spec fn cell(&self) -> Seq<u8> {
        cell_of(self.octets@)
    }

    open spec fn encodable(&self) -> bool {
        true
    }

    fn encode(&self, buffer: &mut Vec<u8>) {
        buffer.extend_from_slice(BE_4_BYTES_LEN.as_slice());
        buffer.extend_from_slice(self.octets.as_slice());
        assert(buffer@ =~= old(buffer)@ + self.cell());
    }
}

impl ColumnEncoder for Ipv6Addr {
    open spec fn cell(&self) -> Seq<u8> {
        cell_of(self.octets@)
    }

    open spec fn encodable(&self) -> bool {
        true
    }

    fn encode(&self, buffer: &mut Vec<u8>) {
        buffer.extend_from_slice(BE_16_BYTES_LEN.as_slice());
        buffer.extend_from_slice(self.octets.as_slice());
        assert(buffer@ =~= old(buffer)@ + self.cell());
    }
}

impl ColumnEncoder for IpAddr {
    open spec fn cell(&self) -> Seq<u8> {
        cell_of(self.spec_octets())
    }

    open spec fn encodable(&self) -> bool {
        true
    }

    fn encode(&self, buffer: &mut Vec<u8>) {
        match self {
            IpAddr::V4(ip) => {
                buffer.extend_from_slice(BE_4_BYTES_LEN.as_slice());
                buffer.extend_from_slice(ip.octets.as_slice());
            },
            IpAddr::V6(ip) => {
                buffer.extend_from_slice(BE_16_BYTES_LEN.as_slice());
                buffer.extend_from_slice(ip.octets.as_slice());
            },
        }
        assert(buffer@ =~= old(buffer)@ + self.cell());
    }
}

/// The address that the four bytes of `bytes` spell.
fn ipv4_from(bytes: &[u8]) -> (address: Ipv4Addr)
    requires
        bytes@.len() == 4,
    ensures
        address.octets@ == bytes@,
{
    let address = Ipv4Addr { octets: [bytes[0], bytes[1], bytes[2], bytes[3]] };
    assert(address.octets@ =~= bytes@);
    address
}

/// The address that the sixteen bytes of `bytes` spell.
fn ipv6_from(bytes: &[u8]) -> (address: Ipv6Addr)
    requires
        bytes@.len() == 16,
    ensures
        address.octets@ == bytes@,
{
    let address = Ipv6Addr {
        octets: [
            bytes[0],
            bytes[1],
            bytes[2],
            bytes[3],
            bytes[4],
            bytes[5],
            bytes[6],
            bytes[7],
            bytes[8],
            bytes[9],
            bytes[10],
            bytes[11],
            bytes[12],
            bytes[13],
            bytes[14],
            bytes[15],
        ],
    };
    assert(address.octets@ =~= bytes@);
    address
}

impl ColumnDecoder for Ipv4Addr {
    open spec fn accepts(payload: Seq<u8>) -> bool {
        payload.len() == 4
    }

    fn decode(buffer: &[u8], start: usize, length: usize) -> (value: Result<Self, FrameError>)
        ensures
            value is Ok ==> value->Ok_0.octets@ == buffer@.subrange(start as int, start + length),
    {
        match payload(buffer, start, length) {
            None => Err(FrameError::TruncatedFrame),
            Some(bytes) => {
                if length != 4 {
                    return Err(FrameError::SchemaMismatch);
                }
                Ok(ipv4_from(bytes))
            },
        }
    }
}

impl ColumnDecoder for Ipv6Addr {
    open spec fn accepts(payload: Seq<u8>) -> bool {
        payload.len() == 16
    }

    fn decode(buffer: &[u8], start: usize, length: usize) -> (value: Result<Self, FrameError>)
        ensures
            value is Ok ==> value->Ok_0.octets@ == buffer@.subrange(start as int, start + length),
    {
        match payload(buffer, start, length) {
            None => Err(FrameError::TruncatedFrame),
            Some(bytes) => {
                if length != 16 {
                    return Err(FrameError::SchemaMismatch);
                }
                Ok(ipv6_from(bytes))
            },
        }
    }
}

impl ColumnDecoder for IpAddr {
    open spec fn accepts(payload: Seq<u8>) -> bool {
        payload.len() == 4 || payload.len() == 16
    }

    fn decode(buffer: &[u8], start: usize, length: usize) -> (value: Result<Self, FrameError>)
        ensures
            value is Ok ==> value->Ok_0.spec_octets() == buffer@.subrange(
                start as int,
                start + length,
            ),
            value is Ok ==> (value->Ok_0 is V4 <==> length == 4),
    {
        match payload(buffer, start, length) {
            None => Err(FrameError::TruncatedFrame),
            Some(bytes) => {
                if length == 4 {
                    Ok(IpAddr::V4(ipv4_from(bytes)))
                } else if length == 16 {
                    Ok(IpAddr::V6(ipv6_from(bytes)))
                } else {
                    Err(FrameError::SchemaMismatch)
                }
            },
        }
    }
}

/// Reading the payload of an address's cell gives the address back: its
/// octets are accepted, at four or at sixteen, and are the octets that are
/// read.
pub proof fn lemma_address_round_trip(v4: Ipv4Addr, v6: Ipv6Addr, ip: IpAddr)
    ensures
        v4.cell() == cell_of(v4.octets@) && Ipv4Addr::accepts(v4.octets@),
        v6.cell() == cell_of(v6.octets@) && Ipv6Addr::accepts(v6.octets@),
        ip.cell() == cell_of(ip.spec_octets()) && IpAddr::accepts(ip.spec_octets()),
        ip is V4 <==> ip.spec_octets().len() == 4,
{
}

} // verus!
