//! The two datagram callbacks the engine drives during its poll cycle.
//!
//! The receive path delivers at most one pending datagram into an
//! engine-owned buffer together with the sender's encoded connection string;
//! the send path resolves a destination from a connection string (or the
//! configured broadcast address) and hands back a bounded outbound datagram.
//! Both directions validate every length against the caller's capacities and
//! the maximum transmission size before a single byte moves.

use vstd::prelude::*;
use vstd::pervasive::VecAdditionalExecFns;

use crate::codec::Ipv4Address;
use crate::codec::connection_string_of;
use crate::codec::decoded_address;
use crate::codec::spec_decoded_port;
use crate::codec::decode_port;

verus! {

/// The cap on any single datagram payload handled by this adapter, sized to
/// an Ethernet-class MTU with protocol headroom.
pub const MAX_RENDER_BUFFER_LENGTH: usize = 1497;

/// The network-type tag naming the IP transport; the send path rejects every
/// other tag.
pub const NETWORK_TYPE_IP: u8 = 0;

/// Fixed addressing chosen at startup: where the socket is bound and which
/// address a broadcast resolves to.
#[derive(Clone, Copy, PartialEq, Eq, Structural, Debug)]
pub struct AdapterConfig {
    pub local_address: Ipv4Address,
    pub local_port: u16,
    pub broadcast_address: Ipv4Address,
}

/// One datagram pulled from the socket: its payload and the sender.
pub struct ReceivedDatagram {
    pub payload: Vec<u8>,
    pub source: Ipv4Address,
    pub source_port: u16,
}

/// One datagram to put on the wire: its payload and the resolved
/// destination.
pub struct OutboundDatagram {
    pub payload: Vec<u8>,
    pub destination: Ipv4Address,
    pub destination_port: u16,
}

/// Whether the receive path delivers a pending datagram of `payload_len`
/// bytes into a message buffer of `message_capacity` bytes beside a
/// connection-string buffer of `conn_capacity` bytes. An empty poll, a
/// zero-capacity message buffer, a connection-string buffer under 6 bytes,
/// and a payload over either the buffer or the transmission cap are all
/// dropped without a write.
pub open spec fn receive_accepts(
    payload_len: nat,
    message_capacity: nat,
    conn_capacity: nat,
) -> bool {
    &&& 0 < payload_len
    &&& conn_capacity >= 6
    &&& payload_len <= message_capacity
    &&& payload_len <= MAX_RENDER_BUFFER_LENGTH
}

/// How many payload bytes the receive path writes: the whole payload when it
/// is accepted, none otherwise.
pub open spec fn receive_written_length(
    payload_len: nat,
    message_capacity: nat,
    conn_capacity: nat,
) -> nat {
    if receive_accepts(payload_len, message_capacity, conn_capacity) {
        payload_len
    } else {
        0
    }
}

/// Receive-path callback. The engine owns `message` (the payload buffer) and
/// `received_connection_string` (the peer-name buffer); each buffer's length
/// is its declared capacity and is never changed. `datagram` is the result
/// of the one socket poll for this cycle, `None` when the receive timeout
/// elapsed with nothing pending.
///
/// On an accepted datagram the payload lands in the front of `message`, the
/// sender's 6-byte connection string in the front of
/// `received_connection_string`, the written connection-string length and
/// the IP network-type tag in their slots, and the byte count is returned.
/// On every other input nothing is written and 0 is returned.
pub fn callback_receive_message(
    datagram: Option<&ReceivedDatagram>,
    message: &mut Vec<u8>,
    received_connection_string: &mut Vec<u8>,
    received_connection_string_length: &mut u8,
    network_type: &mut u8,
) -> (r: u16)
    ensures
        final(message).len() == old(message).len(),
        final(received_connection_string).len() == old(received_connection_string).len(),
        (match datagram {
            Some(d) => r == receive_written_length(
                d.payload.len() as nat,
                old(message).len() as nat,
                old(received_connection_string).len() as nat,
            ),
            None => r == 0,
        }),
        (match datagram {
            Some(d) => receive_accepts(
                d.payload.len() as nat,
                old(message).len() as nat,
                old(received_connection_string).len() as nat,
            ) ==> {
                &&& final(message)@ == d.payload@ + old(message)@.skip(d.payload.len() as int)
                &&& final(received_connection_string)@ == connection_string_of(
                    d.source,
                    d.source_port,
                ) + old(received_connection_string)@.skip(6)
                &&& *final(received_connection_string_length) == 6
                &&& *final(network_type) == NETWORK_TYPE_IP
            },
            None => true,
        }),
        r == 0 ==> {
            &&& final(message)@ == old(message)@
            &&& final(received_connection_string)@ == old(received_connection_string)@
            &&& *final(received_connection_string_length) == *old(
                received_connection_string_length,
            )
            &&& *final(network_type) == *old(network_type)
        },
{
    if message.len() == 0 {
        return 0;
    }
    if received_connection_string.len() < 6 {
        return 0;
    }
    let d = match datagram {
        Some(d) => d,
        None => {
            return 0;
        },
    };
    let bytes_read = d.payload.len();
    if bytes_read == 0 {
        return 0;
    }
    if bytes_read > message.len() || bytes_read > MAX_RENDER_BUFFER_LENGTH {
        return 0;
    }

    // Name the peer: octets first, then the big-endian port, then the
    // written length and the transport tag.
    if !crate::codec::convert_ip_address_to_bytes(d.source, received_connection_string) {
        return 0;
    }
    received_connection_string.set(4, (d.source_port / 256) as u8);
    received_connection_string.set(5, (d.source_port % 256) as u8);
    *received_connection_string_length = 6;
    *network_type = NETWORK_TYPE_IP;
    proof {
        assert(received_connection_string@ =~= connection_string_of(d.source, d.source_port)
            + old(received_connection_string)@.skip(6));
    }

    // Deliver the payload into the front of the engine's buffer.
    let mut index: usize = 0;
    while index < bytes_read
        invariant
            index <= bytes_read,
            bytes_read == d.payload.len(),
            bytes_read <= message.len(),
            message.len() == old(message).len(),
            forall|k: int| 0 <= k < index ==> message@[k] == d.payload@[k],
            forall|k: int| index <= k < message@.len() ==> message@[k] == old(message)@[k],
        decreases bytes_read - index,
    {
        message.set(index, d.payload[index]);
        index += 1;
    }
    proof {
        assert(message@ =~= d.payload@ + old(message)@.skip(bytes_read as int));
    }
    bytes_read as u16
}

/// Bounds safety of the receive path: whatever the datagram length and the
/// caller's capacities, at most the least of the payload length, the message
/// buffer's capacity and the transmission cap is written, and a
/// connection-string buffer under 6 bytes stops every write.
pub proof fn lemma_receive_bounds(payload_len: nat, message_capacity: nat, conn_capacity: nat)
    ensures
        receive_written_length(payload_len, message_capacity, conn_capacity) <= payload_len,
        receive_written_length(payload_len, message_capacity, conn_capacity) <= message_capacity,
        receive_written_length(payload_len, message_capacity, conn_capacity)
            <= MAX_RENDER_BUFFER_LENGTH,
        conn_capacity < 6 ==> receive_written_length(payload_len, message_capacity, conn_capacity)
            == 0,
{
}

/// Whether the send path transmits a message of `message_len` bytes named
/// for `network_type` by a connection string of `conn_len` bytes. An empty
/// message, a connection string too short to name a peer, a non-IP tag and
/// an oversized message are all rejected.
pub open spec fn send_accepts(message_len: nat, conn_len: nat, network_type: u8) -> bool {
    &&& 0 < message_len
    &&& conn_len >= 6
    &&& network_type == NETWORK_TYPE_IP
    &&& message_len <= MAX_RENDER_BUFFER_LENGTH
}

/// Where an outbound datagram goes: the configured broadcast address when
/// the broadcast flag is set, whatever the connection string says otherwise.
pub open spec fn resolved_destination(
    cs: Seq<u8>,
    broadcast: bool,
    broadcast_address: Ipv4Address,
) -> Ipv4Address
    recommends
        cs.len() >= 4,
{
    if broadcast {
        broadcast_address
    } else {
        decoded_address(cs)
    }
}

/// Send-path callback. The engine hands a message and a connection string;
/// the adapter validates both, resolves the destination address (honouring
/// the broadcast flag) and the port, and returns the datagram to put on the
/// wire — or `None`, transmitting nothing, when any validation fails.
pub fn callback_send_message(
    config: &AdapterConfig,
    message: &Vec<u8>,
    connection_string: &Vec<u8>,
    network_type: u8,
    broadcast: bool,
) -> (r: Option<OutboundDatagram>)
    ensures
        r is Some <==> send_accepts(
            message.len() as nat,
            connection_string.len() as nat,
            network_type,
        ),
        (match r {
            Some(d) => {
                &&& d.payload@ == message@
                &&& d.destination == resolved_destination(
                    connection_string@,
                    broadcast,
                    config.broadcast_address,
                )
                &&& d.destination_port == spec_decoded_port(connection_string@)
            },
            None => true,
        }),
{
    if message.len() == 0 {
        return None;
    }
    if connection_string.len() < 6 {
        return None;
    }
    if network_type != NETWORK_TYPE_IP {
        return None;
    }
    if message.len() > MAX_RENDER_BUFFER_LENGTH {
        return None;
    }

    let destination = if broadcast {
        config.broadcast_address
    } else {
        Ipv4Address {
            octet0: connection_string[0],
            octet1: connection_string[1],
            octet2: connection_string[2],
            octet3: connection_string[3],
        }
    };
    let destination_port = decode_port(connection_string[4], connection_string[5]);

    // Copy the message into a bounded buffer of its own before it leaves,
    // so the wire never sees more than the validated length.
    let mut payload: Vec<u8> = Vec::new();
    let mut index: usize = 0;
    while index < message.len()
        invariant
            index <= message.len(),
            payload@ == message@.subrange(0, index as int),
        decreases message.len() - index,
    {
        payload.push(message[index]);
        proof {
            assert(payload@ =~= message@.subrange(0, index + 1));
        }
        index += 1;
    }
    proof {
        assert(payload@ =~= message@);
    }
    Some(OutboundDatagram { payload, destination, destination_port })
}

/// Bounds safety of the send path: an oversized message, a non-IP tag and an
/// empty message or connection string are all rejected — nothing reaches the
/// wire for them.
pub proof fn lemma_send_rejections(message_len: nat, conn_len: nat, network_type: u8)
    ensures
        message_len > MAX_RENDER_BUFFER_LENGTH ==> !send_accepts(
            message_len,
            conn_len,
            network_type,
        ),
        network_type != NETWORK_TYPE_IP ==> !send_accepts(message_len, conn_len, network_type),
        message_len == 0 ==> !send_accepts(message_len, conn_len, network_type),
        conn_len == 0 ==> !send_accepts(message_len, conn_len, network_type),
{
}

/// Broadcast override: with the broadcast flag set, the resolved destination
/// is the configured broadcast address whatever the connection string holds.
pub proof fn lemma_broadcast_override(cs: Seq<u8>, broadcast_address: Ipv4Address)
    ensures
        resolved_destination(cs, true, broadcast_address) == broadcast_address,
{
}

} // verus!
