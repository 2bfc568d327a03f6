//! Connection-string codec: conversion between a native IPv4 address/port
//! pair and the fixed 6-byte peer-address token the engine uses to name
//! network peers. Bytes 0-3 are the IPv4 octets in order, bytes 4-5 the UDP
//! port in big-endian form.

use vstd::prelude::*;
use vstd::pervasive::VecAdditionalExecFns;

verus! {

/// An IPv4 address as its four octets, most significant first.
#[derive(Clone, Copy, PartialEq, Eq, Structural, Debug)]
pub struct Ipv4Address {
    pub octet0: u8,
    pub octet1: u8,
    pub octet2: u8,
    pub octet3: u8,
}

/// The 6-byte connection string naming `address`:`port`: four octets, then
/// the port big-endian.
pub open spec fn connection_string_of(address: Ipv4Address, port: u16) -> Seq<u8> {
    seq![
        address.octet0,
        address.octet1,
        address.octet2,
        address.octet3,
        (port / 256) as u8,
        (port % 256) as u8,
    ]
}

/// The address named by bytes 0-3 of a connection string.
pub open spec fn decoded_address(cs: Seq<u8>) -> Ipv4Address
    recommends
        cs.len() >= 4,
{
    Ipv4Address { octet0: cs[0], octet1: cs[1], octet2: cs[2], octet3: cs[3] }
}

/// The port named by bytes 4-5 of a connection string.
pub open spec fn spec_decoded_port(cs: Seq<u8>) -> u16
    recommends
        cs.len() >= 6,
{
    (cs[4] * 256 + cs[5]) as u16
}

/// Encodes an address and port as the 6-byte connection string.
pub fn encode_connection_string(address: Ipv4Address, port: u16) -> (r: Vec<u8>)
    ensures
        r@ == connection_string_of(address, port),
{
    let mut r: Vec<u8> = Vec::new();
    r.push(address.octet0);
    r.push(address.octet1);
    r.push(address.octet2);
    r.push(address.octet3);
    r.push((port / 256) as u8);
    r.push((port % 256) as u8);
    proof {
        assert(r@ =~= connection_string_of(address, port));
    }
    r
}

/// The port encoded as its big-endian byte pair.
pub fn encode_port(port: u16) -> (r: (u8, u8))
    ensures
        r.0 == port / 256,
        r.1 == port % 256,
{
    ((port / 256) as u8, (port % 256) as u8)
}

/// The port named by a big-endian byte pair: high byte times 256 plus low
/// byte.
pub fn decode_port(byte_hi: u8, byte_lo: u8) -> (r: u16)
    ensures
        r == byte_hi * 256 + byte_lo,
{
    byte_hi as u16 * 256 + byte_lo as u16
}

/// Decodes a connection string back into its address and port. A token
/// shorter than 6 bytes names no peer and is rejected.
pub fn decode_connection_string(cs: &Vec<u8>) -> (r: Option<(Ipv4Address, u16)>)
    ensures
        cs.len() >= 6 ==> r == Some::<(Ipv4Address, u16)>(
            (decoded_address(cs@), spec_decoded_port(cs@)),
        ),
        cs.len() < 6 ==> r is None,
{
    if cs.len() < 6 {
        return None;
    }
    let address = Ipv4Address { octet0: cs[0], octet1: cs[1], octet2: cs[2], octet3: cs[3] };
    let port = decode_port(cs[4], cs[5]);
    Some((address, port))
}

/// Writes the four octets of `address` over the front of the caller's
/// connection-string buffer, leaving the rest of it alone. A buffer with no
/// room for four octets is refused untouched.
pub fn convert_ip_address_to_bytes(
    address: Ipv4Address,
    received_connection_string: &mut Vec<u8>,
) -> (r: bool)
    ensures
        final(received_connection_string).len() == old(received_connection_string).len(),
        r == (old(received_connection_string).len() >= 4),
        r ==> final(received_connection_string)@ == seq![
            address.octet0,
            address.octet1,
            address.octet2,
            address.octet3,
        ] + old(received_connection_string)@.skip(4),
        !r ==> final(received_connection_string)@ == old(received_connection_string)@,
{
    if received_connection_string.len() < 4 {
        return false;
    }
    received_connection_string.set(0, address.octet0);
    received_connection_string.set(1, address.octet1);
    received_connection_string.set(2, address.octet2);
    received_connection_string.set(3, address.octet3);
    proof {
        assert(received_connection_string@ =~= seq![
            address.octet0,
            address.octet1,
            address.octet2,
            address.octet3,
        ] + old(received_connection_string)@.skip(4));
    }
    true
}

/// Round trip: every IPv4 address and every 16-bit port survive encoding to
/// a connection string and decoding back unchanged.
pub proof fn lemma_connection_string_round_trip(address: Ipv4Address, port: u16)
    ensures
        decoded_address(connection_string_of(address, port)) == address,
        spec_decoded_port(connection_string_of(address, port)) == port,
{
}

} // verus!
