//! The transport adapter's computational core: BACnet/IP connection-string
//! encoding and decoding, and the receive/send rules over plain values.
//!
//! A connection string is 6 bytes: 4 bytes of IPv4 address followed by the
//! port in big-endian order. The socket itself lives outside the crate;
//! the functions here receive what was read (or decide what to send) and
//! enforce every bound before any buffer is touched.

use vstd::prelude::*;
use crate::constants::{MAX_RENDER_BUFFER_LENGTH, NETWORK_TYPE_IP};
use crate::database::{ExampleDatabaseObject, ObjectType};
use crate::store::ObjectStore;

verus! {

/// The 6-byte connection string for an address and port.
pub open spec fn spec_encode_connection_string(address: [u8; 4], port: u16) -> Seq<u8> {
    seq![
        address@[0],
        address@[1],
        address@[2],
        address@[3],
        (port / 256) as u8,
        (port % 256) as u8,
    ]
}

/// The address bytes and port a connection string denotes, when it is
/// long enough to hold them.
pub open spec fn spec_decode_connection_string(cs: Seq<u8>) -> Option<(Seq<u8>, u16)> {
    if cs.len() >= 6 {
        Some((cs.subrange(0, 4), (cs[4] as u16 * 256 + cs[5] as u16) as u16))
    } else {
        None
    }
}

/// Encodes an address and port as a 6-byte connection string.
pub fn encode_connection_string(address: [u8; 4], port: u16) -> (cs: Vec<u8>)
    ensures
        cs@ == spec_encode_connection_string(address, port),
{
    let mut cs: Vec<u8> = Vec::new();
    cs.push(address[0]);
    cs.push(address[1]);
    cs.push(address[2]);
    cs.push(address[3]);
    cs.push((port / 256) as u8);
    cs.push((port % 256) as u8);
    proof {
        assert(cs@ =~= spec_encode_connection_string(address, port));
    }
    cs
}

/// Decodes a connection string back to an address and port; a string
/// shorter than 6 bytes is rejected.
pub fn decode_connection_string(cs: &Vec<u8>) -> (r: Option<([u8; 4], u16)>)
    ensures
        match r {
            Some(decoded) => spec_decode_connection_string(cs@) matches Some(d) && decoded.0@
                == d.0 && decoded.1 == d.1,
            None => spec_decode_connection_string(cs@) is None,
        },
{
    if cs.len() < 6 {
        return None;
    }
    let address: [u8; 4] = [cs[0], cs[1], cs[2], cs[3]];
    let port: u16 = cs[4] as u16 * 256 + cs[5] as u16;
    proof {
        assert(address@ =~= cs@.subrange(0, 4));
    }
    Some((address, port))
}

/// Encoding an address and port and decoding the result reproduces the
/// address and port exactly.
pub proof fn lemma_connection_string_round_trip(address: [u8; 4], port: u16)
    ensures
        spec_decode_connection_string(spec_encode_connection_string(address, port))
            matches Some(d) && d.0 == address@ && d.1 == port,
{
    let cs = spec_encode_connection_string(address, port);
    assert(cs.subrange(0, 4) =~= address@);
    assert(port / 256 < 256);
    assert(cs[4] as u16 * 256 + cs[5] as u16 == port) by {
        assert(port == 256 * (port / 256) + port % 256);
    };
}

/// Whether a received datagram is served to the engine: the caller's
/// buffers must be usable, the sender must have an IPv4 address, and the
/// payload must fit both the caller's capacity and the render buffer.
pub open spec fn spec_receive_accepts(
    incoming: Seq<u8>,
    source: Option<([u8; 4], u16)>,
    max_message_length: u16,
    max_connection_string_length: u8,
) -> bool {
    &&& max_message_length > 0
    &&& max_connection_string_length >= 6
    &&& incoming.len() > 0
    &&& source is Some
    &&& incoming.len() <= max_message_length
    &&& incoming.len() <= MAX_RENDER_BUFFER_LENGTH
}

/// Hands one received datagram to the engine's buffers.
///
/// `incoming` holds the bytes one bounded-timeout receive produced (empty
/// when nothing arrived: a normal outcome, not an error), and `source`
/// the sender's IPv4 address and port (`None` when the sender had no
/// IPv4 form). When accepted, the payload is copied, the sender is
/// encoded as a 6-byte connection string, and the byte count is returned;
/// otherwise zero is returned and no output is touched.
pub fn callback_receive_message(
    incoming: &Vec<u8>,
    source: Option<([u8; 4], u16)>,
    message: &mut Vec<u8>,
    max_message_length: u16,
    received_connection_string: &mut Vec<u8>,
    max_connection_string_length: u8,
    received_connection_string_length: &mut u8,
    network_type: &mut u8,
) -> (bytes_received: u16)
    ensures
        spec_receive_accepts(
            incoming@,
            source,
            max_message_length,
            max_connection_string_length,
        ) ==> ({
            &&& bytes_received == incoming@.len()
            &&& final(message)@ == incoming@
            &&& final(received_connection_string)@ == spec_encode_connection_string(
                source.unwrap().0,
                source.unwrap().1,
            )
            &&& *final(received_connection_string_length) == 6
            &&& *final(network_type) == NETWORK_TYPE_IP
        }),
        !spec_receive_accepts(
            incoming@,
            source,
            max_message_length,
            max_connection_string_length,
        ) ==> ({
            &&& bytes_received == 0
            &&& final(message)@ == old(message)@
            &&& final(received_connection_string)@ == old(received_connection_string)@
            &&& *final(received_connection_string_length) == *old(
                received_connection_string_length,
            )
            &&& *final(network_type) == *old(network_type)
        }),
{
    if max_message_length == 0 {
        return 0;
    }
    if max_connection_string_length < 6 {
        return 0;
    }
    if incoming.len() == 0 {
        return 0;
    }
    let (source_address, source_port) = match source {
        Some(s) => s,
        None => {
            return 0;
        },
    };
    if incoming.len() > max_message_length as usize
        || incoming.len() > MAX_RENDER_BUFFER_LENGTH {
        return 0;
    }
    let mut copied: Vec<u8> = Vec::new();
    let n = incoming.len();
    let mut i: usize = 0;
    while i < n
        invariant
            n == incoming@.len(),
            i <= n,
            copied@ =~= incoming@.subrange(0, i as int),
        decreases n - i,
    {
        copied.push(incoming[i]);
        i = i + 1;
    }
    proof {
        assert(copied@ =~= incoming@);
    }
    *message = copied;
    *received_connection_string = encode_connection_string(source_address, source_port);
    *received_connection_string_length = 6;
    *network_type = NETWORK_TYPE_IP;
    n as u16
}

/// The destination address of an outgoing message: for a broadcast with a
/// network-port record on file, the host bits (the complement of the
/// configured subnet mask) are set in the connection string's address;
/// otherwise the connection string's address unchanged.
pub open spec fn spec_send_destination(
    m: Map<(ObjectType, u32), ExampleDatabaseObject>,
    cs: Seq<u8>,
    broadcast: bool,
) -> Seq<u8> {
    if broadcast && m.contains_key((ObjectType::NetworkPort, 56u32)) {
        match m[(ObjectType::NetworkPort, 56u32)] {
            ExampleDatabaseObject::NetworkPort(np) => seq![
                cs[0] | !np.ip_subnet_mask@[0],
                cs[1] | !np.ip_subnet_mask@[1],
                cs[2] | !np.ip_subnet_mask@[2],
                cs[3] | !np.ip_subnet_mask@[3],
            ],
            _ => cs.subrange(0, 4),
        }
    } else {
        cs.subrange(0, 4)
    }
}

/// Whether a send request is carried out: there must be bytes to send, a
/// full connection string, the IP network type, and a payload no larger
/// than the render buffer.
pub open spec fn spec_send_accepts(
    message: Seq<u8>,
    cs: Seq<u8>,
    network_type: u8,
) -> bool {
    &&& message.len() > 0
    &&& cs.len() >= 6
    &&& network_type == NETWORK_TYPE_IP
    &&& message.len() <= MAX_RENDER_BUFFER_LENGTH
}

/// Decides where one outgoing message goes.
///
/// Returns the IPv4 address and port to send the message to, or `None`
/// when the request is rejected: nothing to send, no usable connection
/// string, a network type other than IP, or a payload over the render
/// buffer's capacity. A rejected request sends zero bytes and reaches no
/// socket. For a broadcast, the destination's host bits are widened by
/// the configured subnet mask's complement, read from the network-port
/// record; without that record the address is used unchanged.
pub fn callback_send_message(
    message: &Vec<u8>,
    connection_string: &Vec<u8>,
    network_type: u8,
    broadcast: bool,
    database: &ObjectStore,
) -> (destination: Option<([u8; 4], u16)>)
    ensures
        spec_send_accepts(message@, connection_string@, network_type) ==> ({
            &&& destination matches Some(d)
            &&& destination.unwrap().0@ == spec_send_destination(
                database@,
                connection_string@,
                broadcast,
            )
            &&& destination.unwrap().1 == connection_string@[4] as u16 * 256
                + connection_string@[5] as u16
        }),
        !spec_send_accepts(message@, connection_string@, network_type) ==> destination is None,
{
    if message.len() == 0 {
        return None;
    }
    if connection_string.len() < 6 {
        return None;
    }
    if network_type != NETWORK_TYPE_IP {
        return None;
    }
    if message.len() > MAX_RENDER_BUFFER_LENGTH {
        return None;
    }
    let address: [u8; 4] = if broadcast {
        match database.get(ObjectType::NetworkPort, 56) {
            Some(ExampleDatabaseObject::NetworkPort(network_port)) => [
                connection_string[0] | !network_port.ip_subnet_mask[0],
                connection_string[1] | !network_port.ip_subnet_mask[1],
                connection_string[2] | !network_port.ip_subnet_mask[2],
                connection_string[3] | !network_port.ip_subnet_mask[3],
            ],
            _ => [
                connection_string[0],
                connection_string[1],
                connection_string[2],
                connection_string[3],
            ],
        }
    } else {
        [
            connection_string[0],
            connection_string[1],
            connection_string[2],
            connection_string[3],
        ]
    };
    let port: u16 = connection_string[4] as u16 * 256 + connection_string[5] as u16;
    proof {
        assert(address@ =~= spec_send_destination(database@, connection_string@, broadcast));
    }
    Some((address, port))
}

} // verus!
