//! The discovery announcement payload broadcast over the local network.

use vstd::prelude::*;
use vstd::arithmetic::div_mod::lemma_fundamental_div_mod;

use crate::wire::le16_val;

verus! {

/// The little-endian bytes of an unsigned 32-bit value.
pub open spec fn u32_le_bytes(v: u32) -> Seq<u8> {
    seq![
        (v % 256) as u8,
        ((v / 256) % 256) as u8,
        ((v / 65536) % 256) as u8,
        ((v / 16777216) % 256) as u8,
    ]
}

/// The little-endian bytes of an unsigned 16-bit value.
pub open spec fn u16_le_bytes(v: u16) -> Seq<u8> {
    seq![(v % 256) as u8, (v / 256) as u8]
}

/// The announcement payload: the hostname's length as four little-endian
/// bytes, the hostname's UTF-8 bytes, then the server's TCP port as two
/// little-endian bytes.
pub open spec fn spec_discovery_packet(hostname: Seq<u8>, port: u16) -> Seq<u8> {
    u32_le_bytes(hostname.len() as u32) + hostname + u16_le_bytes(port)
}

/// Builds the discovery payload for one configuration. It is built once at
/// broadcaster startup and retransmitted unchanged on every tick.
pub fn build_discovery_packet(hostname: &[u8], port: u16) -> (p: Vec<u8>)
    requires
        hostname@.len() <= u32::MAX,
    ensures
        p@ == spec_discovery_packet(hostname@, port),
{
    let mut p: Vec<u8> = Vec::new();
    let n = hostname.len() as u32;
    p.push((n % 256) as u8);
    p.push(((n / 256) % 256) as u8);
    p.push(((n / 65536) % 256) as u8);
    p.push(((n / 16777216) % 256) as u8);
    proof {
        assert(p@ =~= u32_le_bytes(hostname@.len() as u32) + hostname@.subrange(0, 0));
    }
    let mut i: usize = 0;
    while i < hostname.len()
        invariant
            i <= hostname@.len(),
            p@ == u32_le_bytes(hostname@.len() as u32) + hostname@.subrange(0, i as int),
        decreases hostname@.len() - i,
    {
        p.push(hostname[i]);
        proof {
            assert(p@ =~= u32_le_bytes(hostname@.len() as u32) + hostname@.subrange(
                0,
                i + 1,
            ));
        }
        i = i + 1;
    }
    p.push((port % 256) as u8);
    p.push((port / 256) as u8);
    proof {
        assert(hostname@.subrange(0, hostname@.len() as int) =~= hostname@);
        assert(p@ =~= spec_discovery_packet(hostname@, port));
    }
    p
}

/// One configuration yields one payload: its length is the hostname's plus
/// six, its first four bytes and its middle carry the hostname's length and
/// bytes back unchanged, and its last two bytes carry the configured port
/// exactly.
pub proof fn lemma_discovery_packet_exact(hostname: Seq<u8>, port: u16)
    ensures
        spec_discovery_packet(hostname, port).len() == hostname.len() + 6,
        spec_discovery_packet(hostname, port).subrange(0, 4) == u32_le_bytes(
            hostname.len() as u32,
        ),
        spec_discovery_packet(hostname, port).subrange(4, 4 + hostname.len() as int) == hostname,
        le16_val(
            spec_discovery_packet(hostname, port)[hostname.len() as int + 4],
            spec_discovery_packet(hostname, port)[hostname.len() as int + 5],
        ) == port,
{
    let p = spec_discovery_packet(hostname, port);
    assert(p.subrange(0, 4) =~= u32_le_bytes(hostname.len() as u32));
    assert(p.subrange(4, 4 + hostname.len() as int) =~= hostname);
    assert(p[hostname.len() as int + 4] == (port % 256) as u8);
    assert(p[hostname.len() as int + 5] == (port / 256) as u8);
    lemma_fundamental_div_mod(port as int, 256);
}

} // verus!
